//! Register types: one value type per hardware register.

use vstd::prelude::*;

use crate::specifiers::ClockSelect;

verus! {

/// Chip Address register (CHIPADDR).
///
/// Wraps the register's 32-bit word and decodes the chip identification
/// fields packed into it. The view of a value is the raw word it wraps.
///
/// This is used by the [`Registers::chip_addr`] and
/// [`Registers::set_chip_addr`] methods.
///
/// [`Registers::chip_addr`]: crate::Registers::chip_addr
/// [`Registers::set_chip_addr`]: crate::Registers::set_chip_addr
#[derive(Debug, Clone, Copy, PartialEq, Eq, Hash, Structural)]
pub struct ChipAddress(u32);

impl View for ChipAddress {
    type V = u32;

    /// The raw 32-bit word this register value wraps.
    closed spec fn view(&self) -> u32 {
        self.0
    }
}

impl ChipAddress {
    /// Chip Address register reset value.
    pub const RESET: u32 = 0x1397_1800;

    /// Bit offset for the `CHIP_ID` field.
    pub const CHIP_ID_OFFSET: u32 = 16;

    /// Bit offset for the `CORE_NUM` field.
    pub const CORE_NUM_OFFSET: u32 = 8;

    /// Bit offset for the `ADDR` field.
    pub const ADDR_OFFSET: u32 = 0;

    /// Bit mask for the `CHIP_ID` field.
    pub const CHIP_ID_MASK: u32 = 0xffff_0000;

    /// Bit mask for the `CORE_NUM` field.
    pub const CORE_NUM_MASK: u32 = 0x0000_ff00;

    /// Bit mask for the `ADDR` field.
    pub const ADDR_MASK: u32 = 0x0000_00ff;

    /// The register value wrapping a given raw word.
    pub closed spec fn spec_from_raw(raw: u32) -> ChipAddress {
        ChipAddress(raw)
    }

    /// The register value after chip power-on.
    pub open spec fn spec_default() -> ChipAddress {
        Self::spec_from_raw(Self::RESET)
    }

    /// The `CHIP_ID` field of a raw word: bits [31:16].
    pub open spec fn spec_chip_id(raw: u32) -> u16 {
        ((raw >> Self::CHIP_ID_OFFSET) & 0xffff) as u16
    }

    /// The `CORE_NUM` field of a raw word: bits [15:8].
    pub open spec fn spec_core_num(raw: u32) -> u8 {
        ((raw >> Self::CORE_NUM_OFFSET) & 0xff) as u8
    }

    /// The `ADDR` field of a raw word: bits [7:0].
    pub open spec fn spec_addr(raw: u32) -> u8 {
        ((raw >> Self::ADDR_OFFSET) & 0xff) as u8
    }

    /// Wrap a raw word.
    ///
    /// Total: the register accepts any bit pattern, validation is
    /// field-local.
    pub fn from_raw(raw: u32) -> (r: Self)
        ensures
            r == Self::spec_from_raw(raw),
            r@ == raw,
    {
        ChipAddress(raw)
    }

    /// Unwrap to the raw word. Inverse of [`ChipAddress::from_raw`].
    pub fn to_raw(self) -> (r: u32)
        ensures
            r == self@,
    {
        self.0
    }

    /// Get the chip id.
    pub fn chip_id(&self) -> (r: u16)
        ensures
            r == Self::spec_chip_id(self@),
    {
        let raw: u32 = self.0;
        let bits: u32 = (raw >> Self::CHIP_ID_OFFSET) & 0xffff;
        assert(bits < 0x10000) by (bit_vector)
            requires
                bits == (raw >> 16u32) & 0xffff,
        ;
        bits as u16
    }

    /// Get the core num.
    pub fn core_num(&self) -> (r: u8)
        ensures
            r == Self::spec_core_num(self@),
    {
        let raw: u32 = self.0;
        let bits: u32 = (raw >> Self::CORE_NUM_OFFSET) & 0xff;
        assert(bits < 0x100) by (bit_vector)
            requires
                bits == (raw >> 8u32) & 0xff,
        ;
        bits as u8
    }

    /// Get the address.
    pub fn addr(&self) -> (r: u8)
        ensures
            r == Self::spec_addr(self@),
    {
        let raw: u32 = self.0;
        let bits: u32 = (raw >> Self::ADDR_OFFSET) & 0xff;
        assert(bits < 0x100) by (bit_vector)
            requires
                bits == (raw >> 0u32) & 0xff,
        ;
        bits as u8
    }
}

impl Default for ChipAddress {
    /// The documented reset value.
    fn default() -> (r: Self)
        ensures
            r == ChipAddress::spec_default(),
            r@ == ChipAddress::RESET,
    {
        ChipAddress(ChipAddress::RESET)
    }
}

/// Clock Order Control register (CLKORDCTRL).
///
/// Wraps the register's 32-bit word, packed as 8 replicated `CLKN_SEL`
/// slots of [`ClockOrderControl::CLKN_SEL_LENGTH`] bits each: slot `n`
/// occupies bits `[4n + 3 : 4n]`. The view of a value is the raw word it
/// wraps.
#[derive(Debug, Clone, Copy, PartialEq, Eq, Structural)]
pub struct ClockOrderControl(u32);

impl View for ClockOrderControl {
    type V = u32;

    /// The raw 32-bit word this register value wraps.
    closed spec fn view(&self) -> u32 {
        self.0
    }
}

impl ClockOrderControl {
    /// Clock Order Control register reset value.
    pub const RESET: u32 = 0x0000_0000;

    /// Bit length of a `CLKN_SEL` slot.
    pub const CLKN_SEL_LENGTH: u32 = 4;

    /// Bit mask for a `CLKN_SEL` slot, before shifting into place.
    pub const CLKN_SEL_MASK: u32 = 0xf;

    /// Number of `CLKN_SEL` slots.
    pub const CLKN_SEL_COUNT: u8 = 8;

    /// The register value wrapping a given raw word.
    pub closed spec fn spec_from_raw(raw: u32) -> ClockOrderControl {
        ClockOrderControl(raw)
    }

    /// The register value after chip power-on.
    pub open spec fn spec_default() -> ClockOrderControl {
        Self::spec_from_raw(Self::RESET)
    }

    /// The raw 4-bit code held by a `CLKN_SEL` slot: bits `[4 * slot + 3 :
    /// 4 * slot]` of the raw word.
    pub open spec fn spec_clock_select(raw: u32, slot: u32) -> u8
        recommends
            slot < 8,
    {
        ((raw >> ((Self::CLKN_SEL_LENGTH * slot) as u32)) & Self::CLKN_SEL_MASK) as u8
    }

    /// The raw word after a `CLKN_SEL` slot is replaced by a new 4-bit code:
    /// the slot's bits are cleared and the code is shifted into place; every
    /// other bit is untouched.
    pub open spec fn spec_with_clock_select(raw: u32, slot: u32, val: u8) -> u32
        recommends
            slot < 8,
            val < 16,
    {
        (raw & !(Self::CLKN_SEL_MASK << ((Self::CLKN_SEL_LENGTH * slot) as u32)))
            | ((val as u32) << ((Self::CLKN_SEL_LENGTH * slot) as u32))
    }

    /// Wrap a raw word.
    ///
    /// Total: the register accepts any bit pattern, validation is
    /// field-local.
    pub fn from_raw(raw: u32) -> (r: Self)
        ensures
            r == Self::spec_from_raw(raw),
            r@ == raw,
    {
        ClockOrderControl(raw)
    }

    /// Unwrap to the raw word. Inverse of [`ClockOrderControl::from_raw`].
    pub fn to_raw(self) -> (r: u32)
        ensures
            r == self@,
    {
        self.0
    }

    /// Get the clock select of one slot.
    ///
    /// Fails with `Err(clock)` when `clock` does not name one of the 8
    /// slots; otherwise decodes the slot's 4 bits through
    /// [`ClockSelect::from_raw`], which returns unrecognized codes in its
    /// `Err` variant.
    pub fn clock_select(&self, clock: u8) -> (r: Result<ClockSelect, u8>)
        ensures
            clock >= Self::CLKN_SEL_COUNT ==> r == Err::<ClockSelect, u8>(clock),
            clock < Self::CLKN_SEL_COUNT ==> r == ClockSelect::spec_from_raw(
                Self::spec_clock_select(self@, clock as u32),
            ),
    {
        if clock >= Self::CLKN_SEL_COUNT {
            return Err(clock);
        }
        let raw: u32 = self.0;
        let sh: u32 = 4 * (clock as u32);
        let bits: u32 = (raw >> sh) & 0xf;
        assert(bits < 16) by (bit_vector)
            requires
                bits == (raw >> sh) & 0xf,
        ;
        ClockSelect::from_raw(bits as u8)
    }

    /// Set the clock select of one slot.
    ///
    /// Returns a new value with exactly the named slot's 4 bits replaced by
    /// the code of `clock_select`; every other bit, the other 7 slots
    /// included, is preserved unchanged. When `clock` does not name one of
    /// the 8 slots the input is returned unchanged.
    pub fn set_clock_select(self, clock: u8, clock_select: ClockSelect) -> (r: Self)
        ensures
            clock >= Self::CLKN_SEL_COUNT ==> r == self,
            clock < Self::CLKN_SEL_COUNT ==> r@ == Self::spec_with_clock_select(
                self@,
                clock as u32,
                clock_select.spec_to_raw(),
            ),
            clock < Self::CLKN_SEL_COUNT ==> Self::spec_clock_select(r@, clock as u32)
                == clock_select.spec_to_raw(),
            forall|slot: u32|
                slot < 8 && slot != clock as u32 ==> Self::spec_clock_select(r@, slot)
                    == Self::spec_clock_select(self@, slot),
    {
        if clock < Self::CLKN_SEL_COUNT {
            let val: u8 = clock_select.to_raw();
            let sh: u32 = 4 * (clock as u32);
            let next: u32 = (self.0 & !(0xfu32 << sh)) | ((val as u32) << sh);
            proof {
                lemma_clock_select_slot_update(self.0, next, clock as u32, val);
            }
            ClockOrderControl(next)
        } else {
            self
        }
    }
}

impl Default for ClockOrderControl {
    /// The documented reset value.
    fn default() -> (r: Self)
        ensures
            r == ClockOrderControl::spec_default(),
            r@ == ClockOrderControl::RESET,
    {
        ClockOrderControl(ClockOrderControl::RESET)
    }
}

/// Law (field isolation): replacing one `CLKN_SEL` slot sets exactly that
/// slot to the new code and leaves every other slot's code unchanged.
pub proof fn lemma_clock_select_slot_update(prev: u32, next: u32, slot: u32, val: u8)
    by (bit_vector)
    requires
        slot < 8,
        val < 16,
        next == (prev & !(0xfu32 << ((4 * slot) as u32))) | ((val as u32) << ((4 * slot) as u32)),
    ensures
        ClockOrderControl::spec_clock_select(next, slot) == val,
        forall|other: u32|
            other < 8 && other != slot ==> ClockOrderControl::spec_clock_select(next, other)
                == ClockOrderControl::spec_clock_select(prev, other),
{
}

/// Law: wrapping a raw word and unwrapping it returns the word unchanged,
/// for every 32-bit value.
pub proof fn lemma_clock_order_control_round_trip(raw: u32)
    ensures
        ClockOrderControl::spec_from_raw(raw)@ == raw,
{
}

/// Law: the power-on register value encodes exactly the documented reset
/// word.
pub proof fn lemma_clock_order_control_reset()
    ensures
        ClockOrderControl::spec_default()@ == ClockOrderControl::RESET,
{
}

/// Law: wrapping a raw word and unwrapping it returns the word unchanged,
/// for every 32-bit value.
pub proof fn lemma_chip_address_round_trip(raw: u32)
    ensures
        ChipAddress::spec_from_raw(raw)@ == raw,
{
}

/// Law: the power-on register value encodes exactly the documented reset
/// word.
pub proof fn lemma_chip_address_reset()
    ensures
        ChipAddress::spec_default()@ == ChipAddress::RESET,
{
}

} // verus!
