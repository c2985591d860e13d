//! The set of flags that controls the coder's algorithm.

use crate::sys::{
    AEC_DATA_3BYTE, AEC_DATA_MSB, AEC_DATA_PREPROCESS, AEC_DATA_SIGNED, AEC_NOT_ENFORCE,
    AEC_PAD_RSI, AEC_RESTRICTED,
};
use vstd::prelude::*;
use vstd::std_specs::ops::BitOrSpecImpl;

verus! {

/// A set of the coder's seven flags. The view is the set's bit pattern.
#[derive(Clone, Copy, Debug, PartialEq, Eq, Hash)]
pub struct Flags {
    bits: u32,
}

impl View for Flags {
    type V = u32;

    closed spec fn view(&self) -> u32 {
        self.bits
    }
}

impl Flags {
    /// The bits of all seven flags.
    pub const ALL: u32 = 127;

    #[verifier::type_invariant]
    spec fn known_bits_only(self) -> bool {
        self.bits & !Flags::ALL == 0
    }

    /// The set with the bit pattern `bits`.
    pub closed spec fn of(bits: u32) -> Flags {
        Flags { bits }
    }

    /// The empty set.
    pub fn empty() -> (flags: Flags)
        ensures
            flags@ == 0,
    {
        assert(0u32 & !127u32 == 0) by (bit_vector);
        Flags { bits: 0 }
    }

    /// The set of all seven flags.
    pub fn all() -> (flags: Flags)
        ensures
            flags@ == Flags::ALL,
    {
        assert(127u32 & !127u32 == 0) by (bit_vector);
        Flags { bits: Flags::ALL }
    }

    /// Samples are signed.
    pub fn data_signed() -> (flags: Flags)
        ensures
            flags@ == AEC_DATA_SIGNED,
    {
        assert(1u32 & !127u32 == 0) by (bit_vector);
        Flags { bits: AEC_DATA_SIGNED }
    }

    /// Samples of 24 bits are coded in 3 bytes.
    pub fn data_3byte() -> (flags: Flags)
        ensures
            flags@ == AEC_DATA_3BYTE,
    {
        assert(2u32 & !127u32 == 0) by (bit_vector);
        Flags { bits: AEC_DATA_3BYTE }
    }

    /// Samples are stored with their most significant bit first.
    pub fn data_msb() -> (flags: Flags)
        ensures
            flags@ == AEC_DATA_MSB,
    {
        assert(4u32 & !127u32 == 0) by (bit_vector);
        Flags { bits: AEC_DATA_MSB }
    }

    /// The preprocessor is used.
    pub fn data_preprocess() -> (flags: Flags)
        ensures
            flags@ == AEC_DATA_PREPROCESS,
    {
        assert(8u32 & !127u32 == 0) by (bit_vector);
        Flags { bits: AEC_DATA_PREPROCESS }
    }

    /// Only the restricted set of code options is used.
    pub fn restricted() -> (flags: Flags)
        ensures
            flags@ == AEC_RESTRICTED,
    {
        assert(16u32 & !127u32 == 0) by (bit_vector);
        Flags { bits: AEC_RESTRICTED }
    }

    /// Each reference sample interval is padded to a byte boundary.
    pub fn pad_rsi() -> (flags: Flags)
        ensures
            flags@ == AEC_PAD_RSI,
    {
        assert(32u32 & !127u32 == 0) by (bit_vector);
        Flags { bits: AEC_PAD_RSI }
    }

    /// Legal block sizes are not enforced.
    pub fn not_enforce() -> (flags: Flags)
        ensures
            flags@ == AEC_NOT_ENFORCE,
    {
        assert(64u32 & !127u32 == 0) by (bit_vector);
        Flags { bits: AEC_NOT_ENFORCE }
    }

    /// The bit pattern of this set. No bit outside the seven flags is set.
    pub fn bits(&self) -> (bits: u32)
        ensures
            bits == self@,
            bits & !Flags::ALL == 0,
    {
        proof {
            use_type_invariant(self);
        }
        self.bits
    }

    /// The set with the bit pattern `bits`, if `bits` holds no bit outside
    /// the seven flags.
    pub fn from_bits(bits: u32) -> (flags: Option<Flags>)
        ensures
            flags.is_some() <==> bits & !Flags::ALL == 0,
            flags.is_some() ==> flags.unwrap()@ == bits,
    {
        if bits & !Flags::ALL == 0 {
            Some(Flags { bits })
        } else {
            None
        }
    }

    /// The set of those flags whose bit is set in `bits`: every other bit is
    /// dropped.
    pub fn from_bits_truncate(bits: u32) -> (flags: Flags)
        ensures
            flags@ == bits & Flags::ALL,
    {
        assert((bits & 127u32) & !127u32 == 0) by (bit_vector);
        Flags { bits: bits & Flags::ALL }
    }

    /// Whether no flag is in this set.
    pub fn is_empty(&self) -> (empty: bool)
        ensures
            empty <==> self@ == 0,
    {
        self.bits == 0
    }

    /// Whether every flag of `other` is in this set.
    pub fn contains(&self, other: Flags) -> (all_in: bool)
        ensures
            all_in <==> self@ & other@ == other@,
    {
        self.bits & other.bits == other.bits
    }

    /// The flags that are in this set or in `other`.
    pub fn union(self, other: Flags) -> (flags: Flags)
        ensures
            flags@ == self@ | other@,
            flags == Flags::of(self@ | other@),
    {
        proof {
            use_type_invariant(self);
            use_type_invariant(other);
        }
        let a: u32 = self.bits;
        let b: u32 = other.bits;
        assert(a & !127u32 == 0 && b & !127u32 == 0 ==> (a | b) & !127u32 == 0) by (bit_vector);
        Flags { bits: a | b }
    }

    /// The flags that are in this set and in `other`.
    pub fn intersection(self, other: Flags) -> (flags: Flags)
        ensures
            flags@ == self@ & other@,
    {
        proof {
            use_type_invariant(self);
        }
        let a: u32 = self.bits;
        let b: u32 = other.bits;
        assert(a & !127u32 == 0 ==> (a & b) & !127u32 == 0) by (bit_vector);
        Flags { bits: a & b }
    }
}

impl BitOrSpecImpl for Flags {
    open spec fn obeys_bitor_spec() -> bool {
        true
    }

    open spec fn bitor_req(self, rhs: Flags) -> bool {
        true
    }

    open spec fn bitor_spec(self, rhs: Flags) -> Flags {
        Flags::of(self@ | rhs@)
    }
}

impl core::ops::BitOr for Flags {
    type Output = Flags;

    fn bitor(self, rhs: Flags) -> (flags: Flags)
        ensures
            flags@ == self@ | rhs@,
    {
        self.union(rhs)
    }
}

/// A set is known by its bit pattern.
pub proof fn lemma_of_view(bits: u32)
    ensures
        Flags::of(bits)@ == bits,
{
}

} // verus!
