//! Driver for a two-wire (clock + data) 24-bit load-cell analog front end.
//!
//! The chip produces a signed 24-bit reading over a bit-banged synchronous
//! protocol: the host raises and lowers the clock line 24 times, sampling
//! the data line once per pulse (most significant bit first), then appends
//! one to three extra pulses to select the gain and channel of the next
//! conversion. The data line doubles as a ready flag: it goes low when a
//! conversion is complete.
//!
//! On top of the acquisition protocol the driver offers a tare filter that
//! estimates the zero-load offset, and a staged two-point calibration flow
//! ([`StateTare`] → [`StateWeight1`] → [`StateWeight2`] → [`StateFinish`])
//! that collects the two averaged measurements from which a host-side layer
//! derives the final scale factor.
//!
//! The digital lines and the delay source are capabilities the caller
//! supplies through the traits in [`pins`]; contracts are stated over their
//! ghost models, so the exact pulse pattern and the exact value assembled
//! from the sampled bits are pinned down for every successful read.

use vstd::prelude::*;

mod arith;
mod bits;
mod calibrate;
mod gain_mode;
mod pins;
mod read;
mod tare;

pub use arith::abs_diff;
pub use arith::div_trunc;
pub use arith::sat_add;
pub use arith::sat_sub;
pub use bits::after_sample;
pub use bits::lemma_pulse_train_len;
pub use bits::pulse_train;
pub use bits::raw_of;
pub use bits::rest_after;
pub use bits::sample_at;
pub use bits::sample_ok;
pub use bits::sample_raw;
pub use bits::sample_value;
pub use bits::samples_ok;
pub use bits::samples_seq;
pub use bits::sat_sum;
pub use bits::signed24;
pub use bits::skip_highs;
pub use calibrate::state_finish::StateFinish;
pub use calibrate::state_tare::StateTare;
pub use calibrate::state_weight1::StateWeight1;
pub use calibrate::state_weight2::StateWeight2;
pub use gain_mode::GainMode;
pub use pins::DelayUs;
pub use pins::InputPin;
pub use pins::OutputPin;
pub use read::lemma_average_of_constant;
pub use read::sign_extend_24;
pub use tare::ema_step;
pub use tare::lemma_ema_step_between;
pub use tare::lemma_ema_step_fixpoint;
pub use tare::lemma_tare_run_constant_brackets;
pub use tare::lemma_tare_run_stops;
pub use tare::run_samples_const;
pub use tare::tare_run;
pub use tare::tare_run_ok;

verus! {

/// Result of a driver operation: either the chip is simply not ready yet
/// (`WouldBlock`, a routine condition, not a fault) or a pin interaction
/// failed with the board-defined error `E` (a wiring-level fault that is
/// surfaced unchanged).
#[derive(Debug, PartialEq, Eq)]
pub enum Error<E> {
    /// The conversion is not complete yet; poll again later.
    WouldBlock,
    /// An underlying pin operation failed.
    Pin(E),
}

/// The load-cell front-end driver.
///
/// Owns the clock line, the data line, the current gain/channel mode and
/// the additive offset correction in raw-count units. The multiplicative
/// scale factor that converts corrected counts to a physical unit is
/// floating point and lives with the unverified host-side layer.
///
/// The fields are public so that specifications can speak about them; the
/// ghost models of the two lines carry the protocol-level contracts.
pub struct HX711<CLK, DT, E> where CLK: OutputPin<E>, DT: InputPin<E> {
    /// Clock line to the chip (write-only).
    pub clock: CLK,
    /// Data line from the chip (read-only; low = conversion ready).
    pub data: DT,
    /// Gain/channel selection appended to every read.
    pub gain_mode: GainMode,
    /// Additive correction in raw-count units; 0 until a tare or a
    /// calibration stores an estimate.
    pub offset: i32,
    /// Marker tying the driver to the board-defined pin error type.
    pub pin_error: core::marker::PhantomData<E>,
}

impl<CLK, DT, E> HX711<CLK, DT, E> where CLK: OutputPin<E>, DT: InputPin<E> {
    /// Build a driver from its two lines and an initial gain mode, issuing
    /// the reset pulse so the chip leaves any stale power-down state.
    ///
    /// On success the clock line has seen exactly the low/high/low reset
    /// pattern and the offset starts at 0 (identity correction).
    pub fn new<D: DelayUs>(clock: CLK, data: DT, gain_mode: GainMode, delay: &mut D) -> (r:
        Result<Self, E>)
        ensures
            r matches Ok(me) ==> {
                &&& me.clock.levels() == clock.levels() + seq![false, true, false]
                &&& me.data.future() == data.future()
                &&& me.gain_mode == gain_mode
                &&& me.offset == 0
            },
    {
        let mut me = Self { clock, data, gain_mode, offset: 0, pin_error: core::marker::PhantomData };
        match me.reset(delay) {
            Ok(()) => Ok(me),
            Err(e) => Err(e),
        }
    }

    /// True iff the data line reads logic-low, which is how the chip
    /// signals that a conversion is complete. Reads the line once.
    pub fn is_ready(&mut self) -> (r: Result<bool, E>)
        ensures
            r matches Ok(b) ==> {
                &&& old(self).data.future().len() > 0
                &&& b == !old(self).data.future()[0]
                &&& final(self).data.future() == old(self).data.future().skip(1)
            },
            final(self).clock == old(self).clock,
            final(self).gain_mode == old(self).gain_mode,
            final(self).offset == old(self).offset,
    {
        self.data.is_low()
    }

    /// The stored additive offset correction, in raw-count units.
    pub fn get_offset(&self) -> (o: i32)
        ensures
            o == self.offset,
    {
        self.offset
    }

    /// Drive the clock low, high for 70 µs, then low again. The long high
    /// pulse forces the chip through its reset/power-down cycle, so the
    /// next conversion starts from a known state.
    ///
    /// Every call emits the same three-level pattern and leaves the offset,
    /// the gain mode and the data line untouched; a pin failure is
    /// propagated unchanged.
    pub fn reset<D: DelayUs>(&mut self, delay: &mut D) -> (r: Result<(), E>)
        ensures
            r is Ok ==> final(self).clock.levels() == old(self).clock.levels() + seq![
                false,
                true,
                false,
            ],
            final(self).data == old(self).data,
            final(self).gain_mode == old(self).gain_mode,
            final(self).offset == old(self).offset,
    {
        self.clock.set_low()?;
        delay.delay_us(1);
        self.clock.set_high()?;
        delay.delay_us(70);
        self.clock.set_low()?;
        proof {
            assert(self.clock.levels() =~= old(self).clock.levels() + seq![false, true, false]);
        }
        Ok(())
    }
}

} // verus!
