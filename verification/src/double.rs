//! Trusted double-precision primitives.
//!
//! The library carries every double-precision number as its 64-bit IEEE-754
//! bit pattern, so all logic above this module is plain integer code.  The
//! five operations the algorithm needs are delegated to `rustc_apfloat`'s
//! software implementation of IEEE-754 binary64 arithmetic, which works
//! directly on bit patterns.  Each operation is deterministic — the result
//! depends on the operand bit patterns alone — so each result is given an
//! uninterpreted name that the contracts above speak of.

use vstd::prelude::*;
use rustc_apfloat::Float;
use rustc_apfloat::ieee::Double;

verus! {

/// Bit pattern of the double-precision value 2.0, the escape threshold the
/// squared magnitude is compared against.
pub const TWO_BITS: u64 = 0x4000_0000_0000_0000;

/// Bit pattern of the double-precision value 0.0025, the grid sampling scale.
pub const SCALE_BITS: u64 = 0x3F64_7AE1_47AE_147B;

/// Bit pattern of the double-precision value 1.5, the grid sampling offset
/// on both axes.
pub const OFFSET_BITS: u64 = 0x3FF8_0000_0000_0000;

/// Bit pattern of the binary64 sum of the numbers with bit patterns `a`, `b`.
pub uninterp spec fn sum_bits(a: u64, b: u64) -> u64;

/// Bit pattern of the binary64 difference of the numbers with bit patterns
/// `a`, `b`.
pub uninterp spec fn diff_bits(a: u64, b: u64) -> u64;

/// Bit pattern of the binary64 product of the numbers with bit patterns
/// `a`, `b`.
pub uninterp spec fn prod_bits(a: u64, b: u64) -> u64;

/// Whether the binary64 number with bit pattern `a` compares strictly
/// greater than the one with bit pattern `b` (false when either is a NaN).
pub uninterp spec fn gt_bits(a: u64, b: u64) -> bool;

/// Bit pattern of the binary64 number nearest to the integer `n`
/// (exact for every `u32`).
pub uninterp spec fn u32_to_bits(n: u32) -> u64;

/// Relies on `rustc_apfloat::ieee::Double`'s `Add` impl (`add_r`, round to
/// nearest, ties to even — the IEEE-754 default): the sum's bit pattern is
/// a function of the operand bit patterns alone.
#[verifier::external_body]
pub(crate) fn add_double(a: u64, b: u64) -> (r: u64)
    ensures
        r == sum_bits(a, b),
{
    let x = Double::from_bits(a as u128);
    let y = Double::from_bits(b as u128);
    (x + y).value.to_bits() as u64
}

/// Relies on `rustc_apfloat::ieee::Double`'s `Sub` impl (`sub_r`, round to
/// nearest, ties to even): the difference's bit pattern is a function of
/// the operand bit patterns alone.
#[verifier::external_body]
pub(crate) fn sub_double(a: u64, b: u64) -> (r: u64)
    ensures
        r == diff_bits(a, b),
{
    let x = Double::from_bits(a as u128);
    let y = Double::from_bits(b as u128);
    (x - y).value.to_bits() as u64
}

/// Relies on `rustc_apfloat::ieee::Double`'s `Mul` impl (`mul_r`, round to
/// nearest, ties to even): the product's bit pattern is a function of the
/// operand bit patterns alone.
#[verifier::external_body]
pub(crate) fn mul_double(a: u64, b: u64) -> (r: u64)
    ensures
        r == prod_bits(a, b),
{
    let x = Double::from_bits(a as u128);
    let y = Double::from_bits(b as u128);
    (x * y).value.to_bits() as u64
}

/// Relies on `rustc_apfloat::ieee::Double`'s `PartialOrd` impl: the IEEE-754
/// ordering of two binary64 numbers is a function of their bit patterns
/// alone, and a NaN compares greater than nothing.
#[verifier::external_body]
pub(crate) fn gt_double(a: u64, b: u64) -> (r: bool)
    ensures
        r == gt_bits(a, b),
{
    Double::from_bits(a as u128) > Double::from_bits(b as u128)
}

/// Relies on `rustc_apfloat`'s `Float::from_u128` (round to nearest, ties
/// to even; exact here, as every `u32` is representable in binary64): the
/// converted bit pattern is a function of the integer alone.
#[verifier::external_body]
pub(crate) fn u32_double(n: u32) -> (r: u64)
    ensures
        r == u32_to_bits(n),
{
    Double::from_u128(n as u128).value.to_bits() as u64
}

} // verus!
