//! Second calibration stage: measure the first known weight.

use vstd::prelude::*;

use crate::HX711;
use crate::arith::div_trunc;
use crate::bits::rest_after;
use crate::bits::samples_ok;
use crate::bits::samples_seq;
use crate::bits::sat_sum;
use crate::bits::skip_highs;
use crate::pins::DelayUs;
use crate::pins::InputPin;
use crate::pins::OutputPin;
use super::state_weight2::StateWeight2;

verus! {

/// Calibration stage that takes the first averaged measurement, with the
/// first known weight (possibly none) on the scale. Consumed by
/// [`StateWeight1::measure_1st`], which yields the second weighing stage.
pub struct StateWeight1<CLK, DT, E> where CLK: OutputPin<E>, DT: InputPin<E> {
    /// The driver threaded through the calibration flow.
    pub hx711: HX711<CLK, DT, E>,
}

impl<CLK, DT, E> StateWeight1<CLK, DT, E> where CLK: OutputPin<E>, DT: InputPin<E> {
    /// Wrap a driver into the first weighing stage.
    pub fn new(hx711: HX711<CLK, DT, E>) -> (r: Self)
        ensures
            r.hx711 == hx711,
    {
        Self { hx711 }
    }

    /// Take the first measurement: a blocking average of 10 signed
    /// readings, stored for the final solve. On a pin fault the stage
    /// hands itself back with the error so the caller can retry.
    pub fn measure_1st<D: DelayUs>(self, delay: &mut D) -> (r: Result<
        StateWeight2<CLK, DT, E>,
        (Self, E),
    >)
        ensures
            r matches Ok(w2) ==> ({
                let t = skip_highs(self.hx711.data.future());
                &&& samples_ok(t, 9)
                &&& w2.first_measure as int == div_trunc(sat_sum(samples_seq(t, 10)), 10)
                &&& w2.hx711.data.future() == rest_after(t, 9)
                &&& w2.hx711.offset == self.hx711.offset
                &&& w2.hx711.gain_mode == self.hx711.gain_mode
            }),
            r matches Err((st, _e)) ==> ({
                &&& st.hx711.offset == self.hx711.offset
                &&& st.hx711.gain_mode == self.hx711.gain_mode
            }),
    {
        let Self { mut hx711 } = self;
        match hx711.read_signed_average_blocking(10, delay) {
            Ok(first_measure) => Ok(StateWeight2::new(hx711, first_measure)),
            Err(e) => Err((Self { hx711 }, e)),
        }
    }
}

} // verus!
