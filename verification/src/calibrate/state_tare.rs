//! First calibration stage: settle the zero point.

use vstd::prelude::*;

use crate::Error;
use crate::HX711;
use crate::pins::DelayUs;
use crate::pins::InputPin;
use crate::pins::OutputPin;
use crate::tare::tare_run;
use crate::tare::tare_run_ok;
use super::state_weight1::StateWeight1;

verus! {

/// Calibration stage that runs the tare filter with no load on the
/// scale. Consumed by [`StateTare::tare`], which yields the first
/// weighing stage.
pub struct StateTare<CLK, DT, E> where CLK: OutputPin<E>, DT: InputPin<E> {
    /// The driver threaded through the calibration flow.
    pub hx711: HX711<CLK, DT, E>,
}

impl<CLK, DT, E> StateTare<CLK, DT, E> where CLK: OutputPin<E>, DT: InputPin<E> {
    /// Wrap a driver into the tare stage.
    pub fn new(hx711: HX711<CLK, DT, E>) -> (r: Self)
        ensures
            r.hx711 == hx711,
    {
        Self { hx711 }
    }

    /// Settle the zero point: run the tare filter with a division factor
    /// of 7, no round bound and an accuracy bound of 1, as the fresh
    /// calibration policy prescribes. If the chip is not ready, or a pin
    /// fails, the stage hands itself back together with the error so the
    /// caller can retry; the stored offset is then unchanged.
    pub fn tare<D: DelayUs>(self, delay: &mut D) -> (r: Result<
        StateWeight1<CLK, DT, E>,
        (Self, Error<E>),
    >)
        ensures
            r matches Ok(w1) ==> ({
                let s = self.hx711.data.future();
                let run = tare_run(s.skip(1), 0, i32::MAX as int, 7, 1nat, usize::MAX as nat);
                &&& s.len() > 0
                &&& s[0] == false
                &&& tare_run_ok(s.skip(1), 0, i32::MAX as int, 7, 1nat, usize::MAX as nat)
                &&& w1.hx711.offset as int == -run.0
                &&& w1.hx711.data.future() == run.1
                &&& w1.hx711.gain_mode == self.hx711.gain_mode
            }),
            r matches Err((st, e)) ==> ({
                &&& st.hx711.offset == self.hx711.offset
                &&& st.hx711.gain_mode == self.hx711.gain_mode
                &&& e is WouldBlock ==> {
                    let s = self.hx711.data.future();
                    &&& s.len() > 0
                    &&& s[0] == true
                    &&& st.hx711.data.future() == s.skip(1)
                    &&& st.hx711.clock.levels() == self.hx711.clock.levels()
                }
            }),
    {
        let Self { mut hx711 } = self;
        match hx711.tare(delay, 7, usize::MAX, 1) {
            Ok(()) => Ok(StateWeight1::new(hx711)),
            Err(e) => Err((Self { hx711 }, e)),
        }
    }
}

} // verus!
