//! Gain and channel selection.

use vstd::prelude::*;

verus! {

/// The chip has different amplifier gain settings.
/// The choice of gain setting is controlled by writing a fixed number of
/// extra clock pulses after the 24 data bits of a read.
#[derive(Clone, Copy, Debug, PartialEq, Eq, Structural)]
pub enum GainMode {
    /// Amplification gain of 128 on channel A.
    A128,
    /// Amplification gain of 32 on channel B.
    B32,
    /// Amplification gain of 64 on channel A.
    A64,
}

impl GainMode {
    /// The number of clock pulses appended after the 24 data bits to select
    /// this mode for the next conversion.
    pub open spec fn spec_extra_pulses(self) -> nat {
        match self {
            GainMode::A128 => 1,
            GainMode::B32 => 2,
            GainMode::A64 => 3,
        }
    }

    /// Extra-pulse count of this mode: 1 for A128, 2 for B32, 3 for A64.
    pub fn extra_pulses(&self) -> (n: u8)
        ensures
            n as nat == self.spec_extra_pulses(),
            1 <= n <= 3,
    {
        match self {
            GainMode::A128 => 1,
            GainMode::B32 => 2,
            GainMode::A64 => 3,
        }
    }
}

} // verus!
