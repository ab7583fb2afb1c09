//! The scalar model: IEEE-754 single-precision values as raw bit patterns.
//!
//! A scalar is a `u32` holding the bits of an IEEE-754 `binary32` value:
//! 1 sign bit, 8 exponent bits, 23 mantissa bits.  Sign handling, equality
//! and ordering are pure bit manipulation and are implemented and verified
//! here directly.  Rounded arithmetic (add, sub, mul, div, sqrt) is performed
//! by a software implementation of IEEE-754 arithmetic from an outside crate;
//! those results are named by uninterpreted functions, so contracts built on
//! them say exactly "the IEEE-754 round-to-nearest result of these operands".

use rustc_apfloat::Float;
use vstd::prelude::*;

verus! {

/// Bit pattern of +0.0.
pub const F32_ZERO: u32 = 0x0000_0000;
/// Bit pattern of 1.0.
pub const F32_ONE: u32 = 0x3F80_0000;
/// Bit pattern of 2.0.
pub const F32_TWO: u32 = 0x4000_0000;
/// Bit pattern of -1.0.
pub const F32_NEG_ONE: u32 = 0xBF80_0000;
/// Mask of the sign bit.
pub const F32_SIGN_MASK: u32 = 0x8000_0000;
/// Mask of the exponent and mantissa (the magnitude).
pub const F32_MAG_MASK: u32 = 0x7FFF_FFFF;
/// Magnitude of an infinity; larger magnitudes are NaNs.
pub const F32_INF_MAG: u32 = 0x7F80_0000;
/// Bit pattern of the square root of the machine epsilon (2^-11.5, rounded):
/// the default tolerance of approximate comparisons.
pub const F32_SQRT_EPSILON: u32 = 0x39B5_04F3;

/// The exponent/mantissa part of a value, its sign dropped.
pub open spec fn mag_bits(a: u32) -> u32 {
    a & F32_MAG_MASK
}

/// Whether the sign bit is set (the value is negative or -0.0 or a NaN with
/// the sign bit set).
pub open spec fn sign_bits(a: u32) -> bool {
    a & F32_SIGN_MASK == F32_SIGN_MASK
}

/// The value is a NaN.
pub open spec fn is_nan_bits(a: u32) -> bool {
    mag_bits(a) > F32_INF_MAG
}

/// The value is neither a NaN nor an infinity.
pub open spec fn is_finite_bits(a: u32) -> bool {
    mag_bits(a) < F32_INF_MAG
}

/// The value is +0.0 or -0.0.
pub open spec fn is_zero_bits(a: u32) -> bool {
    mag_bits(a) == 0
}

/// IEEE-754 negation: flip the sign bit.
pub open spec fn neg_bits(a: u32) -> u32 {
    a ^ F32_SIGN_MASK
}

/// IEEE-754 absolute value: clear the sign bit.
pub open spec fn abs_bits(a: u32) -> u32 {
    mag_bits(a)
}

/// The value on the number line that a non-NaN pattern denotes, mapped to an
/// integer that orders patterns exactly as IEEE-754 `<=` orders values
/// (both zeros map to 0).
pub open spec fn ordinal_bits(a: u32) -> int {
    if sign_bits(a) {
        -(mag_bits(a) as int)
    } else {
        mag_bits(a) as int
    }
}

/// IEEE-754 equality (`==` on floats): false on any NaN, true on +0.0/-0.0,
/// otherwise identical bit patterns.
pub open spec fn float_eq_bits(a: u32, b: u32) -> bool {
    &&& !is_nan_bits(a)
    &&& !is_nan_bits(b)
    &&& if is_zero_bits(a) {
        is_zero_bits(b)
    } else {
        a == b
    }
}

/// IEEE-754 `<=`: false on any NaN, otherwise ordering of the denoted values.
pub open spec fn float_le_bits(a: u32, b: u32) -> bool {
    &&& !is_nan_bits(a)
    &&& !is_nan_bits(b)
    &&& ordinal_bits(a) <= ordinal_bits(b)
}

/// The IEEE-754 binary32 sum of `a` and `b`, rounded to nearest, ties to even.
pub uninterp spec fn add_bits(a: u32, b: u32) -> u32;

/// The IEEE-754 binary32 difference `a - b`, rounded to nearest, ties to even.
pub uninterp spec fn sub_bits(a: u32, b: u32) -> u32;

/// The IEEE-754 binary32 product of `a` and `b`, rounded to nearest, ties to even.
pub uninterp spec fn mul_bits(a: u32, b: u32) -> u32;

/// The IEEE-754 binary32 quotient `a / b`, rounded to nearest, ties to even.
pub uninterp spec fn div_bits(a: u32, b: u32) -> u32;

/// Approximate equality of two scalars: |a - b| <= eps, as IEEE-754
/// computes it (so false whenever a, b or the difference is a NaN).
pub open spec fn abs_diff_le_bits(a: u32, b: u32, eps: u32) -> bool {
    float_le_bits(abs_bits(sub_bits(a, b)), eps)
}

/// Relies on rustc_apfloat's `ieee::Single::add_r`: IEEE-754 binary32
/// addition, round to nearest even; the result depends on the operands alone.
/// The extra clauses are the exact IEEE-754 identities +0 + +0 = +0,
/// x + (+/-0) = x and (+/-0) + (+/-0) = +/-0 for non-NaN, nonzero x.
#[verifier::external_body]
pub fn float_add(a: u32, b: u32) -> (r: u32)
    ensures
        r == add_bits(a, b),
        a == F32_ZERO && b == F32_ZERO ==> r == F32_ZERO,
        is_zero_bits(b) && !is_nan_bits(a) && !is_zero_bits(a) ==> r == a,
        is_zero_bits(a) && !is_nan_bits(b) && !is_zero_bits(b) ==> r == b,
        is_zero_bits(a) && is_zero_bits(b) ==> is_zero_bits(r),
{
    let x = rustc_apfloat::ieee::Single::from_bits(a as u128);
    let y = rustc_apfloat::ieee::Single::from_bits(b as u128);
    x.add_r(y, rustc_apfloat::Round::NearestTiesToEven).value.to_bits() as u32
}

/// Relies on rustc_apfloat's `ieee::Single::sub_r`: IEEE-754 binary32
/// subtraction, round to nearest even; the result depends on the operands
/// alone.  The extra clauses are the exact IEEE-754 identities
/// +0 - +0 = +0 and x - (+/-0) = x for non-NaN, nonzero x.
#[verifier::external_body]
pub fn float_sub(a: u32, b: u32) -> (r: u32)
    ensures
        r == sub_bits(a, b),
        a == F32_ZERO && b == F32_ZERO ==> r == F32_ZERO,
        is_zero_bits(b) && !is_nan_bits(a) && !is_zero_bits(a) ==> r == a,
{
    let x = rustc_apfloat::ieee::Single::from_bits(a as u128);
    let y = rustc_apfloat::ieee::Single::from_bits(b as u128);
    x.sub_r(y, rustc_apfloat::Round::NearestTiesToEven).value.to_bits() as u32
}

/// Relies on rustc_apfloat's `ieee::Single::mul_r`: IEEE-754 binary32
/// multiplication, round to nearest even; the result depends on the operands
/// alone.  The extra clauses are the exact IEEE-754 identities 1 * x = x for
/// non-NaN x and (+/-0) * finite = +/-0.
#[verifier::external_body]
pub fn float_mul(a: u32, b: u32) -> (r: u32)
    ensures
        r == mul_bits(a, b),
        a == F32_ONE && !is_nan_bits(b) ==> r == b,
        b == F32_ONE && !is_nan_bits(a) ==> r == a,
        is_zero_bits(a) && is_finite_bits(b) ==> is_zero_bits(r),
        is_zero_bits(b) && is_finite_bits(a) ==> is_zero_bits(r),
{
    let x = rustc_apfloat::ieee::Single::from_bits(a as u128);
    let y = rustc_apfloat::ieee::Single::from_bits(b as u128);
    x.mul_r(y, rustc_apfloat::Round::NearestTiesToEven).value.to_bits() as u32
}

/// Relies on rustc_apfloat's `ieee::Single::div_r`: IEEE-754 binary32
/// division, round to nearest even; the result depends on the operands alone.
/// The extra clause is the exact IEEE-754 identity x / 1 = x for non-NaN x.
#[verifier::external_body]
pub fn float_div(a: u32, b: u32) -> (r: u32)
    ensures
        r == div_bits(a, b),
        b == F32_ONE && !is_nan_bits(a) ==> r == a,
{
    let x = rustc_apfloat::ieee::Single::from_bits(a as u128);
    let y = rustc_apfloat::ieee::Single::from_bits(b as u128);
    x.div_r(y, rustc_apfloat::Round::NearestTiesToEven).value.to_bits() as u32
}

/// How the named constants fall under the scalar classification predicates.
pub proof fn lemma_const_bits()
    ensures
        mag_bits(F32_ZERO) == 0,
        mag_bits(F32_ONE) == F32_ONE,
        is_zero_bits(F32_ZERO),
        !is_zero_bits(F32_ONE),
        !is_nan_bits(F32_ZERO),
        !is_nan_bits(F32_ONE),
        is_finite_bits(F32_ZERO),
        is_finite_bits(F32_ONE),
{
    assert(0u32 & 0x7FFF_FFFFu32 == 0u32) by (bit_vector);
    assert(0x3F80_0000u32 & 0x7FFF_FFFFu32 == 0x3F80_0000u32) by (bit_vector);
}

/// IEEE-754 negation.
pub fn float_neg(a: u32) -> (r: u32)
    ensures
        r == neg_bits(a),
{
    a ^ F32_SIGN_MASK
}

/// IEEE-754 absolute value.
pub fn float_abs(a: u32) -> (r: u32)
    ensures
        r == abs_bits(a),
{
    a & F32_MAG_MASK
}

/// IEEE-754 equality of two scalars.
pub fn float_eq(a: u32, b: u32) -> (r: bool)
    ensures
        r == float_eq_bits(a, b),
{
    let ma: u32 = a & F32_MAG_MASK;
    let mb: u32 = b & F32_MAG_MASK;
    if ma > F32_INF_MAG || mb > F32_INF_MAG {
        false
    } else if ma == 0 {
        mb == 0
    } else {
        a == b
    }
}

/// IEEE-754 `<=` of two scalars.
pub fn float_le(a: u32, b: u32) -> (r: bool)
    ensures
        r == float_le_bits(a, b),
{
    let ma: u32 = a & F32_MAG_MASK;
    let mb: u32 = b & F32_MAG_MASK;
    if ma > F32_INF_MAG || mb > F32_INF_MAG {
        return false;
    }
    let sa: bool = a & F32_SIGN_MASK == F32_SIGN_MASK;
    let sb: bool = b & F32_SIGN_MASK == F32_SIGN_MASK;
    if sa {
        if sb {
            mb <= ma
        } else {
            true
        }
    } else {
        if sb {
            ma == 0 && mb == 0
        } else {
            ma <= mb
        }
    }
}

} // verus!
