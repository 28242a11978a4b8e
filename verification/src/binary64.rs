//! Facts about the IEEE-754 binary64 encoding that the calculator relies on.
//!
//! A binary64 value is carried as the `u64` holding its bits: one sign bit,
//! eleven exponent bits, fifty-two fraction bits, from the most significant
//! bit down.

use vstd::prelude::*;

verus! {

/// Bit pattern of `+0.0`: every bit clear.
pub const POSITIVE_ZERO: u64 = 0x0000_0000_0000_0000;

/// Bit pattern of `-0.0`: only the sign bit set.
pub const NEGATIVE_ZERO: u64 = 0x8000_0000_0000_0000;

/// Selects everything but the sign bit.
pub const MAGNITUDE_MASK: u64 = 0x7fff_ffff_ffff_ffff;

/// Whether `bits` encodes a number that compares equal to zero.
///
/// IEEE-754 equality makes no difference between the two zeros, and nothing
/// else equals zero: not a subnormal, however small, and not a NaN.
pub open spec fn encodes_zero(bits: u64) -> bool {
    bits == POSITIVE_ZERO || bits == NEGATIVE_ZERO
}

/// Clearing the sign bit leaves nothing exactly for the two zero patterns.
pub proof fn lemma_zero_has_no_magnitude(bits: u64)
    ensures
        encodes_zero(bits) <==> bits & MAGNITUDE_MASK == 0,
{
    assert((bits == 0x0000_0000_0000_0000u64 || bits == 0x8000_0000_0000_0000u64) <==> bits
        & 0x7fff_ffff_ffff_ffffu64 == 0) by (bit_vector);
}

/// Tests whether `bits` encodes `+0.0` or `-0.0`.
pub fn is_zero(bits: u64) -> (zero: bool)
    ensures
        zero == encodes_zero(bits),
{
    proof {
        lemma_zero_has_no_magnitude(bits);
    }
    bits & MAGNITUDE_MASK == 0
}

} // verus!
