//! Capabilities the driver consumes: a write-only clock line, a read-only
//! data line, and a microsecond delay source.
//!
//! The chip is wired to two digital lines. The driver never implements these
//! itself; a board support layer supplies them. For specification purposes
//! each line carries a ghost model:
//!
//! - an output line remembers the sequence of levels that have been driven
//!   onto it (`levels`, `true` = high), so contracts can pin down the exact
//!   pulse pattern a protocol step emits;
//! - an input line is modelled by the sequence of levels that successive
//!   reads will observe (`future`, `true` = high); each successful read
//!   consumes the front element.
//!
//! A failed operation leaves the model unconstrained: a pin fault is a
//! wiring-level event about which the driver promises nothing.

use vstd::prelude::*;

verus! {

/// A write-only digital output line (the chip's clock input), fallible with
/// a board-defined error type `E`.
pub trait OutputPin<E> {
    /// The levels driven onto the line so far, oldest first (`true` = high).
    /// An implementation outside the verified world may leave the default
    /// model; the contracts below then promise nothing about it.
    open spec fn levels(&self) -> Seq<bool> {
        Seq::empty()
    }

    /// Drive the line low.
    fn set_low(&mut self) -> (r: Result<(), E>)
        ensures
            r is Ok ==> final(self).levels() == old(self).levels().push(false),
    ;

    /// Drive the line high.
    fn set_high(&mut self) -> (r: Result<(), E>)
        ensures
            r is Ok ==> final(self).levels() == old(self).levels().push(true),
    ;
}

/// A read-only digital input line (the chip's data output), fallible with
/// a board-defined error type `E`.
pub trait InputPin<E> {
    /// The levels that successive reads will observe, next first
    /// (`true` = high). A successful read consumes the front element.
    /// An implementation outside the verified world may leave the default
    /// model; the contracts below then promise nothing about it.
    open spec fn future(&self) -> Seq<bool> {
        Seq::empty()
    }

    /// Read the line; `Ok(true)` means the line is high.
    fn is_high(&mut self) -> (r: Result<bool, E>)
        ensures
            r matches Ok(b) ==> old(self).future().len() > 0 && b == old(self).future()[0]
                && final(self).future() == old(self).future().skip(1),
    ;

    /// Read the line; `Ok(true)` means the line is low.
    fn is_low(&mut self) -> (r: Result<bool, E>)
        ensures
            r matches Ok(b) ==> old(self).future().len() > 0 && b == !old(self).future()[0]
                && final(self).future() == old(self).future().skip(1),
    ;
}

/// An infallible busy-wait of a given number of microseconds.
///
/// Timing is a physical property; nothing is stated about it here. The
/// delay provider exists so the driver can pace the clock line as the chip
/// requires.
pub trait DelayUs {
    /// Wait for at least `us` microseconds.
    fn delay_us(&mut self, us: u32);
}

} // verus!
