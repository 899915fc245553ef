//! The staged two-point calibration flow.
//!
//! Calibration must perform physical actions in a fixed order: remove the
//! load and settle the zero point, apply a first known weight and measure,
//! apply a second known weight and measure. Each stage is a separate type
//! that consumes its predecessor, so a flow cannot skip or repeat a stage:
//! [`StateTare`] → [`StateWeight1`] → [`StateWeight2`] → [`StateFinish`].
//! The finish stage holds the two averaged measurements; the
//! floating-point solve of the two linear equations lives with the
//! unverified host-side layer, which hands the resulting offset back
//! through [`StateFinish::finish_with_offset`].

pub mod state_finish;
pub mod state_tare;
pub mod state_weight1;
pub mod state_weight2;

use vstd::prelude::*;

use crate::HX711;
use crate::pins::InputPin;
use crate::pins::OutputPin;
use self::state_tare::StateTare;
use self::state_weight1::StateWeight1;

verus! {

impl<CLK, DT, E> HX711<CLK, DT, E> where CLK: OutputPin<E>, DT: InputPin<E> {
    /// Begin a fresh calibration, starting with the tare stage (no load
    /// on the scale).
    pub fn calibrate(self) -> (r: StateTare<CLK, DT, E>)
        ensures
            r.hx711 == self,
    {
        StateTare::new(self)
    }

    /// Begin a calibration that keeps the currently stored offset,
    /// skipping the tare stage.
    pub fn calibrate_with_current_offset(self) -> (r: StateWeight1<CLK, DT, E>)
        ensures
            r.hx711 == self,
    {
        StateWeight1::new(self)
    }
}

} // verus!
