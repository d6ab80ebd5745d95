//! The status register's two flags.

use vstd::prelude::*;
use crate::registers::{STATUS_AVAILABLE, STATUS_LOCKED};

verus! {

/// One reading of the status register. It is never kept between calls.
#[derive(Debug, Clone, Copy, PartialEq, Eq, Structural)]
pub struct StatusFlags {
    pub bits: u8,
}

impl StatusFlags {
    /// Whether bit 0 is set: the sensor has a new sample.
    pub open spec fn spec_available(self) -> bool {
        self.bits & STATUS_AVAILABLE != 0
    }

    /// Whether bit 1 is set: the sample is latched.
    pub open spec fn spec_locked(self) -> bool {
        self.bits & STATUS_LOCKED != 0
    }

    pub fn new(bits: u8) -> (flags: Self)
        ensures
            flags.bits == bits,
    {
        StatusFlags { bits }
    }

    #[verifier::when_used_as_spec(spec_available)]
    pub fn available(self) -> (set: bool)
        ensures
            set == self.spec_available(),
    {
        self.bits & STATUS_AVAILABLE != 0
    }

    #[verifier::when_used_as_spec(spec_locked)]
    pub fn locked(self) -> (set: bool)
        ensures
            set == self.spec_locked(),
    {
        self.bits & STATUS_LOCKED != 0
    }
}

/// A flag depends on its own bit alone: bit 0 decides `available`, bit 1
/// decides `locked`, and the six upper bits decide nothing.
pub proof fn lemma_flags_read_their_bit(flags: StatusFlags)
    ensures
        flags.available() == (flags.bits % 2 == 1),
        flags.locked() == ((flags.bits / 2) % 2 == 1),
{
    let bits = flags.bits;
    assert((bits & 0x01 != 0) == (bits % 2 == 1)) by (bit_vector);
    assert((bits & 0x02 != 0) == ((bits / 2) % 2 == 1)) by (bit_vector);
}

} // verus!
