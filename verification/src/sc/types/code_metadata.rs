//! The flags that a contract is deployed with.

use vstd::prelude::*;

verus! {

/// The flag of a contract that can be upgraded.
pub const UPGRADEABLE: u16 = 0x0100;

/// The flag of a contract whose storage other contracts can read.
pub const READABLE: u16 = 0x0400;

/// The flag of a contract that takes payments.
pub const PAYABLE: u16 = 0x0002;

/// The flag of a contract that takes payments from other contracts.
pub const PAYABLE_BY_SC: u16 = 0x0004;

/// The flags that a contract is deployed with, one bit each.
#[derive(Clone, Copy, Debug, PartialEq, Eq, Structural)]
pub struct CodeMetadata {
    pub bits: u16,
}

impl CodeMetadata {
    /// No flag.
    pub fn none() -> (r: Self)
        ensures
            r.bits == 0,
    {
        CodeMetadata { bits: 0 }
    }

    /// The given flags.
    pub fn from_bits(bits: u16) -> (r: Self)
        ensures
            r.bits == bits,
    {
        CodeMetadata { bits }
    }

    /// Whether all flags of `flags` are set.
    pub fn has(&self, flags: u16) -> (r: bool)
        ensures
            r == (self.bits & flags == flags),
    {
        self.bits & flags == flags
    }
}

} // verus!
