//! Third calibration stage: measure the second known weight.

use vstd::prelude::*;

use crate::HX711;
use crate::arith::div_trunc;
use crate::bits::rest_after;
use crate::bits::samples_ok;
use crate::bits::samples_seq;
use crate::bits::sat_sum;
use crate::bits::skip_highs;
use crate::pins::DelayUs;
use crate::pins::InputPin;
use crate::pins::OutputPin;
use super::state_finish::StateFinish;

verus! {

/// Calibration stage that takes the second averaged measurement, with
/// the second known weight on the scale. Holds the first measurement
/// already taken. Consumed by [`StateWeight2::measure_2nd`], which
/// yields the finish stage.
pub struct StateWeight2<CLK, DT, E> where CLK: OutputPin<E>, DT: InputPin<E> {
    /// The driver threaded through the calibration flow.
    pub hx711: HX711<CLK, DT, E>,
    /// The first stage's averaged reading, in raw-count units.
    pub first_measure: i32,
}

impl<CLK, DT, E> StateWeight2<CLK, DT, E> where CLK: OutputPin<E>, DT: InputPin<E> {
    /// Wrap a driver and the first measurement into the second weighing
    /// stage.
    pub fn new(hx711: HX711<CLK, DT, E>, first_measure: i32) -> (r: Self)
        ensures
            r.hx711 == hx711,
            r.first_measure == first_measure,
    {
        Self { hx711, first_measure }
    }

    /// Take the second measurement: a blocking average of 10 signed
    /// readings, stored beside the first for the final solve. On a pin
    /// fault the stage hands itself back with the error so the caller
    /// can retry.
    pub fn measure_2nd<D: DelayUs>(self, delay: &mut D) -> (r: Result<
        StateFinish<CLK, DT, E>,
        (Self, E),
    >)
        ensures
            r matches Ok(sf) ==> ({
                let t = skip_highs(self.hx711.data.future());
                &&& samples_ok(t, 9)
                &&& sf.first_measure == self.first_measure
                &&& sf.second_measure as int == div_trunc(sat_sum(samples_seq(t, 10)), 10)
                &&& sf.hx711.data.future() == rest_after(t, 9)
                &&& sf.hx711.offset == self.hx711.offset
                &&& sf.hx711.gain_mode == self.hx711.gain_mode
            }),
            r matches Err((st, _e)) ==> ({
                &&& st.first_measure == self.first_measure
                &&& st.hx711.offset == self.hx711.offset
                &&& st.hx711.gain_mode == self.hx711.gain_mode
            }),
    {
        let Self { mut hx711, first_measure } = self;
        match hx711.read_signed_average_blocking(10, delay) {
            Ok(second_measure) => Ok(StateFinish::new(hx711, first_measure, second_measure)),
            Err(e) => Err((Self { hx711, first_measure }, e)),
        }
    }
}

} // verus!
