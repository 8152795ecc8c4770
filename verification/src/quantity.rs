//! Per-unit scalars.
//!
//! A [`Quantity`] is an IEEE-754 binary64 number held by its bit pattern, so
//! that it can be stored, copied and classified exactly without performing
//! any floating-point arithmetic.

use vstd::prelude::*;

verus! {

/// Bit pattern of positive zero.
pub const ZERO_BITS: u64 = 0;

/// Bit pattern of one.
pub const ONE_BITS: u64 = 0x3FF0_0000_0000_0000;

/// Mask of the sign bit.
pub const SIGN_MASK: u64 = 0x8000_0000_0000_0000;

/// A binary64 number, identified by its bit pattern.
#[derive(Debug, Clone, Copy)]
pub struct Quantity {
    pub bits: u64,
}

/// Whether `bits` encodes positive or negative zero: every bit but the sign
/// is clear.
pub open spec fn encodes_zero(bits: u64) -> bool {
    bits == 0 || bits == SIGN_MASK
}

impl Quantity {
    /// Whether the number is zero of either sign.
    pub open spec fn spec_is_zero(self) -> bool {
        encodes_zero(self.bits)
    }

    /// The number with the given bit pattern.
    pub fn from_bits(bits: u64) -> (q: Quantity)
        ensures
            q.bits == bits,
    {
        Quantity { bits }
    }

    /// The bit pattern of the number.
    pub fn to_bits(self) -> (bits: u64)
        ensures
            bits == self.bits,
    {
        self.bits
    }

    /// Positive zero.
    pub fn zero() -> (q: Quantity)
        ensures
            q.bits == ZERO_BITS,
            q.spec_is_zero(),
    {
        Quantity { bits: ZERO_BITS }
    }

    /// One.
    pub fn one() -> (q: Quantity)
        ensures
            q.bits == ONE_BITS,
            !q.spec_is_zero(),
    {
        Quantity { bits: ONE_BITS }
    }

    /// The number of opposite sign: the same bits with the sign bit flipped.
    pub open spec fn spec_negated(self) -> Quantity {
        Quantity { bits: self.bits ^ SIGN_MASK }
    }

    /// Negates the number. This is exact for every bit pattern, and
    /// subtracting a number is adding its negation.
    pub fn negated(self) -> (q: Quantity)
        ensures
            q == self.spec_negated(),
    {
        Quantity { bits: self.bits ^ SIGN_MASK }
    }

    /// Tests for zero of either sign by clearing the sign bit.
    pub fn is_zero(self) -> (z: bool)
        ensures
            z == self.spec_is_zero(),
    {
        let b: u64 = self.bits;
        let magnitude: u64 = b & 0x7FFF_FFFF_FFFF_FFFF;
        assert((b & 0x7FFF_FFFF_FFFF_FFFF == 0) == (b == 0 || b == 0x8000_0000_0000_0000))
            by (bit_vector);
        magnitude == 0
    }
}

/// Negating twice gives the number back, and negation keeps zero apart from
/// everything else.
pub proof fn negation_is_an_involution(q: Quantity)
    ensures
        q.spec_negated().spec_negated() == q,
        q.spec_negated().bits != q.bits,
        q.spec_negated().spec_is_zero() == q.spec_is_zero(),
{
    let b = q.bits;
    assert((b ^ 0x8000_0000_0000_0000) ^ 0x8000_0000_0000_0000 == b) by (bit_vector);
    assert(b ^ 0x8000_0000_0000_0000 != b) by (bit_vector);
    assert((b ^ 0x8000_0000_0000_0000 == 0) == (b == 0x8000_0000_0000_0000)) by (bit_vector);
    assert((b ^ 0x8000_0000_0000_0000 == 0x8000_0000_0000_0000) == (b == 0)) by (bit_vector);
}

} // verus!
