//! Samples as IEEE-754 binary64 bit patterns.
//!
//! Every sample of a channel is carried as the 64-bit pattern of an IEEE-754
//! double. The three arithmetic operations the filters need, and the reading
//! of a decimal field into a sample, are delegated to `rustc_apfloat`, a
//! software implementation of IEEE-754 binary64 that works on bit patterns
//! and rounds to nearest even, exactly as the hardware does. Each operation
//! is named by an uninterpreted spec function, so every contract of this
//! crate pins its result as a mathematical function of the operand bits.

use rustc_apfloat::Float;
use vstd::prelude::*;

verus! {

/// Bit pattern of the double +0.0.
pub const POS_ZERO_BITS: u64 = 0;

/// Bit pattern of the double -0.0: only the sign bit is set.
pub const NEG_ZERO_BITS: u64 = 0x8000_0000_0000_0000;

/// The pattern denotes a zero of either sign. The two compare equal as
/// doubles, so a channel whose samples all satisfy this is an all-zero
/// signal.
pub open spec fn is_zero_bits(x: u64) -> bool {
    x == POS_ZERO_BITS || x == NEG_ZERO_BITS
}

/// The pattern denotes a finite double (zero, subnormal or normal): its
/// exponent field is not all ones.
pub open spec fn is_finite_bits(x: u64) -> bool {
    (x >> 52) & 0x7FF != 0x7FF
}

/// The bits of the double sum of the doubles with bits `a` and `b`,
/// rounded to nearest even.
pub uninterp spec fn add64(a: u64, b: u64) -> u64;

/// The bits of the double difference of the doubles with bits `a` and `b`,
/// rounded to nearest even.
pub uninterp spec fn sub64(a: u64, b: u64) -> u64;

/// The bits of the double product of the doubles with bits `a` and `b`,
/// rounded to nearest even.
pub uninterp spec fn mul64(a: u64, b: u64) -> u64;

/// The bits of the double that a decimal text field denotes, rounded to
/// nearest even, or `None` when the text denotes no number.
pub uninterp spec fn parse64(s: Seq<char>) -> Option<u64>;

/// Relies on `rustc_apfloat::ieee::Double`'s `Add`: binary64 addition with
/// round to nearest even, a function of the operand bits alone. A sum of two
/// zeros is a zero.
#[verifier::external_body]
pub(crate) fn add_bits(a: u64, b: u64) -> (r: u64)
    ensures
        r == add64(a, b),
        is_zero_bits(a) && is_zero_bits(b) ==> is_zero_bits(r),
{
    let x = rustc_apfloat::ieee::Double::from_bits(a as u128);
    let y = rustc_apfloat::ieee::Double::from_bits(b as u128);
    (x + y).value.to_bits() as u64
}

/// Relies on `rustc_apfloat::ieee::Double`'s `Sub`: binary64 subtraction with
/// round to nearest even, a function of the operand bits alone. A difference
/// of two zeros is a zero.
#[verifier::external_body]
pub(crate) fn sub_bits(a: u64, b: u64) -> (r: u64)
    ensures
        r == sub64(a, b),
        is_zero_bits(a) && is_zero_bits(b) ==> is_zero_bits(r),
{
    let x = rustc_apfloat::ieee::Double::from_bits(a as u128);
    let y = rustc_apfloat::ieee::Double::from_bits(b as u128);
    (x - y).value.to_bits() as u64
}

/// Relies on `rustc_apfloat::ieee::Double`'s `Mul`: binary64 multiplication
/// with round to nearest even, a function of the operand bits alone. A
/// product of a zero and a finite double is a zero.
#[verifier::external_body]
pub(crate) fn mul_bits(a: u64, b: u64) -> (r: u64)
    ensures
        r == mul64(a, b),
        (is_zero_bits(a) && is_finite_bits(b)) || (is_zero_bits(b) && is_finite_bits(a))
            ==> is_zero_bits(r),
{
    let x = rustc_apfloat::ieee::Double::from_bits(a as u128);
    let y = rustc_apfloat::ieee::Double::from_bits(b as u128);
    (x * y).value.to_bits() as u64
}

/// Relies on `rustc_apfloat::ieee::Double`'s `FromStr`: reads a decimal
/// field into a binary64 value with round to nearest even, a function of the
/// characters alone; a field that denotes no number is refused.
#[verifier::external_body]
pub(crate) fn parse_bits(s: &str) -> (r: Option<u64>)
    ensures
        r == parse64(s@),
{
    match <rustc_apfloat::ieee::Double as core::str::FromStr>::from_str(s) {
        Ok(v) => Some(v.to_bits() as u64),
        Err(_) => None,
    }
}

} // verus!
