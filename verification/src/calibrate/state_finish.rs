//! Final calibration stage: both measurements are in.
//!
//! The scale factor solves `known = scale * measured + offset` for the
//! two (known weight, measured reading) pairs; that solve divides by the
//! difference of the two measurements and produces a floating-point
//! factor, so it lives with the unverified host-side layer. This stage
//! exposes the two measurements, the degeneracy check (equal
//! measurements admit no solution and must be a reported error, never a
//! silently stored non-finite factor), and the handover that stores the
//! computed offset back into the driver.

use vstd::prelude::*;

use crate::HX711;
use crate::pins::InputPin;
use crate::pins::OutputPin;

verus! {

/// Calibration stage holding the driver and the two averaged
/// measurements, ready for the host-side solve.
pub struct StateFinish<CLK, DT, E> where CLK: OutputPin<E>, DT: InputPin<E> {
    /// The driver threaded through the calibration flow.
    pub hx711: HX711<CLK, DT, E>,
    /// The averaged reading with the first known weight applied.
    pub first_measure: i32,
    /// The averaged reading with the second known weight applied.
    pub second_measure: i32,
}

impl<CLK, DT, E> StateFinish<CLK, DT, E> where CLK: OutputPin<E>, DT: InputPin<E> {
    /// Wrap a driver and the two measurements into the finish stage.
    pub fn new(hx711: HX711<CLK, DT, E>, first_measure: i32, second_measure: i32) -> (r: Self)
        ensures
            r.hx711 == hx711,
            r.first_measure == first_measure,
            r.second_measure == second_measure,
    {
        Self { hx711, first_measure, second_measure }
    }

    /// The averaged reading of the first weighing stage.
    pub fn first_measure(&self) -> (m: i32)
        ensures
            m == self.first_measure,
    {
        self.first_measure
    }

    /// The averaged reading of the second weighing stage.
    pub fn second_measure(&self) -> (m: i32)
        ensures
            m == self.second_measure,
    {
        self.second_measure
    }

    /// True iff the two measurements coincide, in which case the
    /// two-point solve would divide by zero: the calibration is
    /// degenerate (two distinct known weights must yield distinct
    /// readings) and must be reported instead of solved.
    pub fn is_degenerate(&self) -> (d: bool)
        ensures
            d == (self.first_measure == self.second_measure),
    {
        self.first_measure == self.second_measure
    }

    /// End the calibration flow: store the offset the host-side solve
    /// computed and hand the driver back, otherwise unchanged.
    pub fn finish_with_offset(self, offset: i32) -> (r: HX711<CLK, DT, E>)
        ensures
            r.offset == offset,
            r.clock == self.hx711.clock,
            r.data == self.hx711.data,
            r.gain_mode == self.hx711.gain_mode,
    {
        let Self { mut hx711, first_measure: _, second_measure: _ } = self;
        hx711.offset = offset;
        hx711
    }
}

} // verus!
