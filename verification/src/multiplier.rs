//! Double-precision numbers by their bits.
//!
//! A multiplier is a 64-bit binary floating-point number. This library never computes with
//! it: it only classifies it and copies its bytes. So a multiplier is carried as the 64 bits
//! of its IEEE 754 interchange format: one sign bit, eleven bits of biased exponent, and
//! fifty-two bits of fraction, from the most significant bit down.

use vstd::prelude::*;

verus! {

/// The sign bit: 0 for a positive sign, 1 for a negative one.
pub open spec fn sign_bit(bits: u64) -> int {
    bits as int / 0x8000_0000_0000_0000
}

/// The eleven bits of the biased exponent.
pub open spec fn biased_exponent(bits: u64) -> int {
    bits as int / 0x10_0000_0000_0000 % 0x800
}

/// The fifty-two bits of the fraction.
pub open spec fn fraction(bits: u64) -> int {
    bits as int % 0x10_0000_0000_0000
}

/// The sign is positive. Holds of positive zero, of positive infinity and of some NaNs too.
pub open spec fn is_sign_positive(bits: u64) -> bool {
    sign_bit(bits) == 0
}

/// Positive or negative zero.
pub open spec fn is_zero(bits: u64) -> bool {
    biased_exponent(bits) == 0 && fraction(bits) == 0
}

/// A number too small to be normal, but not zero.
pub open spec fn is_subnormal(bits: u64) -> bool {
    biased_exponent(bits) == 0 && fraction(bits) != 0
}

/// Positive or negative infinity.
pub open spec fn is_infinite(bits: u64) -> bool {
    biased_exponent(bits) == 0x7ff && fraction(bits) == 0
}

/// Not a number.
pub open spec fn is_nan(bits: u64) -> bool {
    biased_exponent(bits) == 0x7ff && fraction(bits) != 0
}

/// Neither infinite nor NaN.
pub open spec fn is_finite(bits: u64) -> bool {
    biased_exponent(bits) != 0x7ff
}

/// Neither zero, subnormal, infinite nor NaN.
pub open spec fn is_normal(bits: u64) -> bool {
    1 <= biased_exponent(bits) <= 0x7fe
}

/// What the proxy accepts as a multiplier: a normal number with a positive sign.
pub open spec fn is_valid_multiplier(bits: u64) -> bool {
    is_sign_positive(bits) && is_normal(bits)
}

/// Every bit pattern falls in exactly one of five classes, and a valid multiplier is a
/// strictly positive, finite, normal number: zero, a negative number, NaN, an infinity and a
/// subnormal number are all invalid.
pub proof fn lemma_multiplier_classes(bits: u64)
    ensures
        is_zero(bits) || is_subnormal(bits) || is_normal(bits) || is_infinite(bits) || is_nan(bits),
        is_normal(bits) ==> is_finite(bits) && !is_zero(bits) && !is_subnormal(bits),
        is_valid_multiplier(bits) <==> is_sign_positive(bits) && is_finite(bits) && !is_zero(bits)
            && !is_subnormal(bits),
        is_zero(bits) ==> !is_valid_multiplier(bits),
        !is_sign_positive(bits) ==> !is_valid_multiplier(bits),
        is_nan(bits) ==> !is_valid_multiplier(bits),
        is_infinite(bits) ==> !is_valid_multiplier(bits),
        is_subnormal(bits) ==> !is_valid_multiplier(bits),
{
}

/// The valid multipliers are one interval of bit patterns: from the smallest positive normal
/// number to the largest finite one.
pub proof fn lemma_valid_multiplier_range(bits: u64)
    ensures
        is_valid_multiplier(bits) <==> 0x0010_0000_0000_0000 <= bits <= 0x7fef_ffff_ffff_ffff,
{
}

/// Tells whether `bits` is a normal number with a positive sign.
pub fn check_valid_multiplier(bits: u64) -> (valid: bool)
    ensures
        valid == is_valid_multiplier(bits),
{
    proof {
        lemma_valid_multiplier_range(bits);
    }
    0x0010_0000_0000_0000 <= bits && bits <= 0x7fef_ffff_ffff_ffff
}

/// Tells whether `bits` is a NaN.
pub fn check_nan(bits: u64) -> (nan: bool)
    ensures
        nan == is_nan(bits),
{
    bits % 0x8000_0000_0000_0000 > 0x7ff0_0000_0000_0000
}

} // verus!
