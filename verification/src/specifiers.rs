//! Bitfield specifiers: closed sets of named field codes.

use vstd::prelude::*;

verus! {

/// Clock Select.
///
/// The closed set of codes accepted by the `CLKN_SEL` fields of the
/// [`ClockOrderControl`] register.
///
/// [`ClockOrderControl`]: crate::ClockOrderControl
#[derive(Debug, Clone, Copy, PartialEq, Eq, PartialOrd, Ord, Hash, Structural)]
pub enum ClockSelect {
    /// Default.
    Default,
}

impl ClockSelect {
    /// The raw 4-bit code of this variant.
    pub open spec fn spec_to_raw(self) -> u8 {
        match self {
            ClockSelect::Default => 0b0000,
        }
    }

    /// What decoding a raw code yields: the exact matching variant, or the
    /// unrecognized code itself as the error payload.
    pub open spec fn spec_from_raw(val: u8) -> Result<ClockSelect, u8> {
        if val == 0b0000 {
            Ok(ClockSelect::Default)
        } else {
            Err(val)
        }
    }

    /// Convert a raw `u8` to a `ClockSelect`.
    ///
    /// Succeeds iff `val` is exactly one of the defined variant codes; any
    /// other value is returned unchanged in the `Err` variant for the caller
    /// to inspect.
    pub fn from_raw(val: u8) -> (r: Result<Self, u8>)
        ensures
            r == Self::spec_from_raw(val),
            r is Ok <==> (exists|c: ClockSelect| c.spec_to_raw() == val),
            r is Err ==> r == Err::<ClockSelect, u8>(val),
    {
        proof {
            if val == 0 {
                assert(ClockSelect::Default.spec_to_raw() == val);
            }
        }
        if val == 0b0000 {
            Ok(ClockSelect::Default)
        } else {
            Err(val)
        }
    }

    /// Convert this variant to its raw `u8` code.
    pub fn to_raw(self) -> (r: u8)
        ensures
            r == self.spec_to_raw(),
    {
        match self {
            ClockSelect::Default => 0b0000,
        }
    }
}

impl Default for ClockSelect {
    /// The reset-state variant.
    fn default() -> (r: Self)
        ensures
            r == ClockSelect::Default,
    {
        ClockSelect::Default
    }
}

/// Law: a successful decode re-encodes to the value it was decoded from, and
/// every variant decodes back to itself from its own code; `from_raw` succeeds
/// on exactly the defined variant codes and hands any other value back
/// unchanged.
pub proof fn lemma_clock_select_round_trip(val: u8)
    ensures
        ClockSelect::spec_from_raw(val) matches Ok(c) ==> c.spec_to_raw() == val,
        forall|c: ClockSelect| ClockSelect::spec_from_raw(c.spec_to_raw()) == Ok::<ClockSelect, u8>(c),
        ClockSelect::spec_from_raw(val) is Ok <==> (exists|c: ClockSelect| c.spec_to_raw() == val),
        ClockSelect::spec_from_raw(val) is Err ==> ClockSelect::spec_from_raw(val) == Err::<ClockSelect, u8>(val),
{
    if val == 0 {
        assert(ClockSelect::Default.spec_to_raw() == val);
    }
}

} // verus!
