//! Register address map.

use vstd::prelude::*;

verus! {

/// Symbolic names for the chip's addressable registers.
///
/// Every name maps to one fixed, hardware-documented 8-bit bus address; the
/// mapping is total and immutable.
#[derive(Debug, Clone, Copy, PartialEq, Eq, Hash, Structural)]
pub enum Reg {
    /// Chip Address register (CHIPADDR).
    ChipAddr,
}

impl Reg {
    /// The 8-bit bus address of this register.
    pub open spec fn spec_addr(self) -> u8 {
        match self {
            Reg::ChipAddr => 0x00,
        }
    }

    /// Get the 8-bit bus address of this register.
    pub fn addr(self) -> (r: u8)
        ensures
            r == self.spec_addr(),
    {
        match self {
            Reg::ChipAddr => 0x00,
        }
    }
}

} // verus!
