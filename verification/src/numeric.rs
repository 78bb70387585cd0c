//! Arithmetic on numeric payloads.
//!
//! A numeric payload is the 64-bit pattern of an IEEE-754 double-precision
//! value. What can be stated bit-exactly (negation, the zero test, the NaN
//! test) is defined and verified here; the four rounding operations and the
//! reading of a decimal literal are delegated to an outside IEEE-754
//! implementation behind trusted wrappers, each result named by an
//! uninterpreted function of the operand bits alone.

use rustc_apfloat::Float;
use rustc_apfloat::ieee::Double;
use vstd::prelude::*;

verus! {

/// A double-precision value is zero exactly when all bits but the sign are
/// clear (this covers both signed zeros, as the comparison `x == 0.0` does).
pub open spec fn is_zero_bits(b: u64) -> bool {
    b & 0x7FFF_FFFF_FFFF_FFFF == 0
}

/// A double-precision value is NaN when its exponent field is all ones and
/// its significand is not zero.
pub open spec fn is_nan_bits(b: u64) -> bool {
    b & 0x7FF0_0000_0000_0000 == 0x7FF0_0000_0000_0000 && b & 0x000F_FFFF_FFFF_FFFF != 0
}

/// IEEE-754 negation: the sign bit flips, all other bits stay.
pub open spec fn negate_bits(b: u64) -> u64 {
    b ^ 0x8000_0000_0000_0000
}

/// Tests whether a numeric payload is a NaN pattern.
pub fn bits_are_nan(b: u64) -> (r: bool)
    ensures
        r == is_nan_bits(b),
{
    b & 0x7FF0_0000_0000_0000 == 0x7FF0_0000_0000_0000 && b & 0x000F_FFFF_FFFF_FFFF != 0
}

/// Tests whether a numeric payload is (plus or minus) zero.
pub fn bits_are_zero(b: u64) -> (r: bool)
    ensures
        r == is_zero_bits(b),
{
    b & 0x7FFF_FFFF_FFFF_FFFF == 0
}

/// Negates a numeric payload by flipping its sign bit.
pub fn negate(b: u64) -> (r: u64)
    ensures
        r == negate_bits(b),
{
    b ^ 0x8000_0000_0000_0000
}

/// The sum of two double-precision values, rounded to nearest-even, as a
/// function of the operand bits.
pub uninterp spec fn add_bits_of(a: u64, b: u64) -> u64;

/// The difference of two double-precision values, as a function of the
/// operand bits.
pub uninterp spec fn sub_bits_of(a: u64, b: u64) -> u64;

/// The product of two double-precision values, as a function of the operand
/// bits.
pub uninterp spec fn mul_bits_of(a: u64, b: u64) -> u64;

/// The quotient of two double-precision values, as a function of the
/// operand bits.
pub uninterp spec fn div_bits_of(a: u64, b: u64) -> u64;

/// The remainder (C `fmod`) of two double-precision values, as a function
/// of the operand bits.
pub uninterp spec fn rem_bits_of(a: u64, b: u64) -> u64;

/// The double-precision value denoted by a decimal literal (digits with an
/// optional fractional part), rounded to nearest-even, as a function of the
/// digits alone.
pub uninterp spec fn bits_of_decimal(digits: Seq<u8>) -> u64;

/// Relies on rustc_apfloat's binary64 addition (`Double::add_r`, round to
/// nearest even): the result depends on the operand bits alone.
#[verifier::external_body]
pub(crate) fn add_bits(a: u64, b: u64) -> (r: u64)
    ensures
        r == add_bits_of(a, b),
{
    let x = Double::from_bits(a as u128);
    let y = Double::from_bits(b as u128);
    (x + y).value.to_bits() as u64
}

/// Relies on rustc_apfloat's binary64 subtraction (`Double::sub_r`, round
/// to nearest even): the result depends on the operand bits alone.
#[verifier::external_body]
pub(crate) fn sub_bits(a: u64, b: u64) -> (r: u64)
    ensures
        r == sub_bits_of(a, b),
{
    let x = Double::from_bits(a as u128);
    let y = Double::from_bits(b as u128);
    (x - y).value.to_bits() as u64
}

/// Relies on rustc_apfloat's binary64 multiplication (`Double::mul_r`,
/// round to nearest even): the result depends on the operand bits alone,
/// and IEEE-754 multiplication of two non-NaN values is symmetric in them.
#[verifier::external_body]
pub(crate) fn mul_bits(a: u64, b: u64) -> (r: u64)
    ensures
        r == mul_bits_of(a, b),
        !is_nan_bits(a) && !is_nan_bits(b) ==> r == mul_bits_of(b, a),
{
    let x = Double::from_bits(a as u128);
    let y = Double::from_bits(b as u128);
    (x * y).value.to_bits() as u64
}

/// Relies on rustc_apfloat's binary64 division (`Double::div_r`, round to
/// nearest even): the result depends on the operand bits alone.
#[verifier::external_body]
pub(crate) fn div_bits(a: u64, b: u64) -> (r: u64)
    ensures
        r == div_bits_of(a, b),
{
    let x = Double::from_bits(a as u128);
    let y = Double::from_bits(b as u128);
    (x / y).value.to_bits() as u64
}

/// Relies on rustc_apfloat's binary64 remainder (`Double::c_fmod`, the
/// operation of `%` on doubles): the result depends on the operand bits
/// alone.
#[verifier::external_body]
pub(crate) fn rem_bits(a: u64, b: u64) -> (r: u64)
    ensures
        r == rem_bits_of(a, b),
{
    let x = Double::from_bits(a as u128);
    let y = Double::from_bits(b as u128);
    (x % y).value.to_bits() as u64
}

/// Whether the bytes are ASCII digits with at most one interior dot that is
/// both preceded and followed by a digit: the shape of a numeric literal.
pub open spec fn is_number_shape(s: Seq<u8>) -> bool {
    &&& s.len() > 0
    &&& forall|i: int| 0 <= i < s.len() ==> (is_digit_byte(#[trigger] s[i]) || s[i] == 46)
    &&& is_digit_byte(s[0])
    &&& is_digit_byte(s[s.len() - 1])
    &&& forall|i: int, j: int|
        0 <= i < j < s.len() ==> !(#[trigger] s[i] == 46 && #[trigger] s[j] == 46)
}

/// Whether a byte is an ASCII decimal digit.
pub open spec fn is_digit_byte(b: u8) -> bool {
    48 <= b <= 57
}

/// Relies on rustc_apfloat's binary64 decimal reader (`Double::from_str`,
/// round to nearest even): on digits with an optional fractional part it
/// returns the denoted value, which depends on the digits alone.
#[verifier::external_body]
pub(crate) fn decimal_to_bits(raw: &[u8]) -> (r: u64)
    requires
        is_number_shape(raw@),
    ensures
        r == bits_of_decimal(raw@),
{
    let text = core::str::from_utf8(raw).unwrap();
    let value: Double = text.parse().unwrap();
    value.to_bits() as u64
}

} // verus!
