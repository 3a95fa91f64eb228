//! Register-access layer for a SHA-256 mining ASIC.
//!
//! The crate models the chip's addressable register space, the bit-level
//! layout of the control registers, and a transport-agnostic read/write
//! contract used to manipulate them:
//!
//! * [`Reg`]: the register address map (symbolic name to 8-bit bus address).
//! * Register types such as [`ChipAddress`] and [`ClockOrderControl`]: each
//!   wraps one 32-bit word and exposes typed field accessors derived from the
//!   documented bit offsets and masks, plus the documented reset value.
//! * Bitfield specifiers such as [`ClockSelect`]: closed sets of named field
//!   codes with round-trip validated raw conversion.
//! * [`Registers`]: the accessor trait over a caller-supplied bus transport.

use vstd::prelude::*;

mod addr;
mod registers;
mod specifiers;

pub use addr::Reg;
pub use registers::ChipAddress;
pub use registers::ClockOrderControl;
pub use specifiers::ClockSelect;

verus! {

/// Register accessors over a raw word-oriented bus transport.
///
/// * A register getter is named after the register.
/// * A register setter is the name of the register prefixed with `set_`.
///
/// Implementors supply the two primitive bus transactions, [`Registers::read`]
/// and [`Registers::write`]; the derived register accessors are pure
/// composition over them and add no failure modes of their own.
pub trait Registers {
    /// Register accessor error type, chosen by the transport.
    type Error;

    /// Read from the chip.
    ///
    /// Issues one multi-word read transaction starting at `addr`. The number
    /// of 32-bit words transferred equals the length of `data`.
    fn read(&mut self, addr: u8, data: &mut [u32]) -> (r: Result<(), Self::Error>)
        ensures
            final(data)@.len() == old(data)@.len(),
    ;

    /// Write to the chip.
    ///
    /// Issues one multi-word write transaction starting at `addr`. The number
    /// of 32-bit words transferred equals the length of `data`.
    fn write(&mut self, addr: u8, data: &[u32]) -> (r: Result<(), Self::Error>);

    /// Get the Chip Address register.
    ///
    /// Reads one word at [`Reg::ChipAddr`] and decodes it with
    /// [`ChipAddress::from_raw`]; a transport error is returned unchanged.
    fn chip_addr(&mut self) -> (r: Result<ChipAddress, Self::Error>) {
        let mut reg: Vec<u32> = vec![0u32];
        match self.read(Reg::ChipAddr.addr(), reg.as_mut_slice()) {
            Ok(()) => Ok(ChipAddress::from_raw(reg[0])),
            Err(e) => Err(e),
        }
    }

    /// Set the Chip Address register.
    ///
    /// Encodes `chip_addr` with [`ChipAddress::to_raw`] and writes the single
    /// word at [`Reg::ChipAddr`]; a transport error is returned unchanged.
    fn set_chip_addr(&mut self, chip_addr: ChipAddress) -> (r: Result<(), Self::Error>) {
        let data: Vec<u32> = vec![chip_addr.to_raw()];
        self.write(Reg::ChipAddr.addr(), data.as_slice())
    }
}

} // verus!
