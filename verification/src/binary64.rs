//! IEEE 754 double-precision numbers, read as bit patterns.
//!
//! A pattern has one sign bit, eleven exponent bits and fifty-two fraction bits,
//! from the most significant bit down. The predicates here say which patterns
//! stand for a finite number, and which stand for a number greater than zero,
//! without ever forming the number itself.

use vstd::prelude::*;

verus! {

/// The pattern of positive zero.
pub const ZERO_BITS: u64 = 0x0000_0000_0000_0000;

/// The pattern of positive infinity: exponent all ones, fraction zero.
pub const INFINITY_BITS: u64 = 0x7FF0_0000_0000_0000;

/// The sign bit alone: the pattern of negative zero.
pub const SIGN_BIT: u64 = 0x8000_0000_0000_0000;

/// The exponent field of a pattern, a number from 0 to 2047.
pub open spec fn exponent_field(bits: u64) -> int {
    (bits as int / 0x10_0000_0000_0000) % 0x800
}

/// The fraction field of a pattern, a number below 2^52.
pub open spec fn fraction_field(bits: u64) -> int {
    bits as int % 0x10_0000_0000_0000
}

/// Whether the sign bit of a pattern is set.
pub open spec fn sign_set(bits: u64) -> bool {
    bits >= SIGN_BIT
}

/// A pattern stands for a finite number when its exponent field is not all ones.
pub open spec fn finite(bits: u64) -> bool {
    exponent_field(bits) != 0x7FF
}

/// A pattern is a NaN when its exponent field is all ones and its fraction is not zero.
pub open spec fn nan(bits: u64) -> bool {
    exponent_field(bits) == 0x7FF && fraction_field(bits) != 0
}

/// A pattern stands for a number greater than zero when it is no NaN, its sign
/// bit is clear, and it is not zero. Positive infinity counts.
pub open spec fn above_zero(bits: u64) -> bool {
    !nan(bits) && !sign_set(bits) && !(exponent_field(bits) == 0 && fraction_field(bits) == 0)
}

/// A pattern stands for zero, positive or negative, when all its bits but the
/// sign bit are clear.
pub open spec fn zero(bits: u64) -> bool {
    bits == ZERO_BITS || bits == SIGN_BIT
}

/// Every pattern in the sequence stands for a finite number.
pub open spec fn all_finite(values: Seq<Binary64>) -> bool {
    forall|i: int| 0 <= i < values.len() ==> finite(#[trigger] values[i].bits)
}

/// A double-precision number, held as its bit pattern.
#[derive(Debug, Clone, Copy, PartialEq, Eq, Structural)]
pub struct Binary64 {
    pub bits: u64,
}

impl Binary64 {
    /// Wraps a bit pattern.
    pub fn from_bits(bits: u64) -> (r: Binary64)
        ensures
            r.bits == bits,
    {
        Binary64 { bits }
    }

    /// The bit pattern.
    pub fn to_bits(&self) -> (r: u64)
        ensures
            r == self.bits,
    {
        self.bits
    }

    /// Whether the number is neither infinite nor a NaN.
    pub fn is_finite(&self) -> (r: bool)
        ensures
            r == finite(self.bits),
    {
        let bits = self.bits;
        let field: u64 = (bits >> 52) & 0x7FF;
        proof {
            lemma_fields(bits);
        }
        field != 0x7FF
    }

    /// Whether the number is a NaN.
    pub fn is_nan(&self) -> (r: bool)
        ensures
            r == nan(self.bits),
    {
        let bits = self.bits;
        let field: u64 = (bits >> 52) & 0x7FF;
        let fraction: u64 = bits & 0xF_FFFF_FFFF_FFFF;
        proof {
            lemma_fields(bits);
        }
        field == 0x7FF && fraction != 0
    }

    /// Whether the number is zero, positive or negative.
    pub fn is_zero(&self) -> (r: bool)
        ensures
            r == zero(self.bits),
    {
        self.bits == ZERO_BITS || self.bits == SIGN_BIT
    }

    /// Whether the number is greater than zero.
    pub fn is_above_zero(&self) -> (r: bool)
        ensures
            r == above_zero(self.bits),
    {
        ZERO_BITS < self.bits && self.bits <= INFINITY_BITS
    }
}

/// Whether every number in the vector is finite.
pub fn every_finite(values: &Vec<Binary64>) -> (r: bool)
    ensures
        r == all_finite(values@),
{
    let mut i: usize = 0;
    while i < values.len()
        invariant
            i <= values.len(),
            forall|j: int| 0 <= j < i ==> finite(#[trigger] values@[j].bits),
        decreases values.len() - i,
    {
        if !values[i].is_finite() {
            return false;
        }
        i = i + 1;
    }
    true
}

/// Shifting and masking read the same fields as dividing and taking remainders.
proof fn lemma_fields(bits: u64)
    ensures
        ((bits >> 52) & 0x7FF) as int == exponent_field(bits),
        (bits & 0xF_FFFF_FFFF_FFFF) as int == fraction_field(bits),
        sign_set(bits) == (bits & 0x8000_0000_0000_0000 != 0),
{
    assert(((bits >> 52) & 0x7FF) == (bits / 0x10_0000_0000_0000) % 0x800) by (bit_vector);
    assert((bits & 0xF_FFFF_FFFF_FFFF) == bits % 0x10_0000_0000_0000) by (bit_vector);
    assert((bits >= 0x8000_0000_0000_0000) == (bits & 0x8000_0000_0000_0000 != 0)) by (bit_vector);
}

/// The patterns of numbers greater than zero are exactly those from the smallest
/// positive subnormal up to positive infinity, taken as unsigned integers.
pub proof fn law_numbers_above_zero_are_an_interval(bits: u64)
    ensures
        above_zero(bits) == (ZERO_BITS < bits && bits <= INFINITY_BITS),
{
}

} // verus!
