//! The single-precision order on sample bit patterns, and the unit-interval
//! clamp built on it. Everything here is plain integer logic over the IEEE-754
//! single-precision encoding: sign bit, magnitude, NaN exponent pattern.

use vstd::prelude::*;

verus! {

/// The bit pattern of the value one.
pub const UNIT_BITS: u32 = 0x3F80_0000;

/// The magnitude bits of a single-precision pattern (everything but the
/// sign).
pub open spec fn magnitude_bits(b: u32) -> u32 {
    b & 0x7FFF_FFFF
}

/// The sign bit of a single-precision pattern.
pub open spec fn sign_bit(b: u32) -> bool {
    b & 0x8000_0000 != 0
}

/// The pattern is one of the NaNs: maximal exponent and a non-zero fraction.
pub open spec fn is_nan_bits(b: u32) -> bool {
    magnitude_bits(b) > 0x7F80_0000
}

/// The pattern of the negated value: the sign bit flipped.
pub open spec fn neg_bits(b: u32) -> u32 {
    b ^ 0x8000_0000
}

/// The single-precision order on bit patterns: NaN compares under nothing,
/// the two zeros are equal, a negative value is below a positive one, and
/// within one sign the magnitude decides (reversed for negatives).
pub open spec fn float_lt(a: u32, b: u32) -> bool {
    if is_nan_bits(a) || is_nan_bits(b) {
        false
    } else if magnitude_bits(a) == 0 && magnitude_bits(b) == 0 {
        false
    } else if sign_bit(a) != sign_bit(b) {
        sign_bit(a)
    } else if !sign_bit(a) {
        magnitude_bits(a) < magnitude_bits(b)
    } else {
        magnitude_bits(a) > magnitude_bits(b)
    }
}

/// Non-strict single-precision order on non-NaN patterns.
pub open spec fn float_le(a: u32, b: u32) -> bool {
    &&& !is_nan_bits(a)
    &&& !is_nan_bits(b)
    &&& !float_lt(b, a)
}

/// The single-precision order, executable on bit patterns.
pub fn lt_bits(a: u32, b: u32) -> (r: bool)
    ensures
        r == float_lt(a, b),
{
    let mag_a = a & 0x7FFF_FFFF;
    let mag_b = b & 0x7FFF_FFFF;
    if mag_a > 0x7F80_0000 || mag_b > 0x7F80_0000 {
        false
    } else if mag_a == 0 && mag_b == 0 {
        false
    } else {
        let neg_a = a & 0x8000_0000 != 0;
        let neg_b = b & 0x8000_0000 != 0;
        if neg_a != neg_b {
            neg_a
        } else if !neg_a {
            mag_a < mag_b
        } else {
            mag_a > mag_b
        }
    }
}

/// What clamping to `[0, 1]` returns: the bound when the value lies strictly
/// outside it, the value itself otherwise. A negative zero is not strictly
/// below zero and so stays as it is, and NaN passes through — exactly the
/// strict-comparison clamp of the single-precision type.
pub open spec fn spec_clamp_unit(b: u32) -> u32 {
    if is_nan_bits(b) {
        b
    } else if float_lt(b, 0u32) {
        0u32
    } else if float_lt(UNIT_BITS, b) {
        UNIT_BITS
    } else {
        b
    }
}

/// Clamps a coefficient pattern to the unit interval `[0, 1]`; a non-NaN
/// result always lies inside it in the single-precision order.
pub fn clamp_unit_bits(b: u32) -> (r: u32)
    ensures
        r == spec_clamp_unit(b),
        !is_nan_bits(b) ==> float_le(0u32, r) && float_le(r, UNIT_BITS),
        is_nan_bits(b) ==> r == b,
{
    proof {
        assert(0u32 & 0x7FFF_FFFFu32 == 0u32) by (bit_vector);
        assert(0u32 & 0x8000_0000u32 == 0u32) by (bit_vector);
        assert(0x3F80_0000u32 & 0x7FFF_FFFFu32 == 0x3F80_0000u32) by (bit_vector);
        assert(0x3F80_0000u32 & 0x8000_0000u32 == 0u32) by (bit_vector);
    }
    let mag = b & 0x7FFF_FFFF;
    if mag > 0x7F80_0000 {
        b
    } else if lt_bits(b, 0) {
        0
    } else if lt_bits(UNIT_BITS, b) {
        UNIT_BITS
    } else {
        b
    }
}

} // verus!
