//! The complex-plane value the iteration loop is built on.

use vstd::prelude::*;
use crate::double::{
    add_double, diff_bits, gt_bits, gt_double, mul_double, prod_bits, sub_double, sum_bits,
    TWO_BITS,
};

verus! {

/// An immutable two-component complex value.  Each component holds the
/// 64-bit IEEE-754 bit pattern of a double-precision number, so the value
/// itself is plain data; arithmetic on it goes through the trusted
/// primitives of `crate::double`.
#[derive(Clone, Copy, Debug, PartialEq, Eq, Structural)]
pub struct Complex {
    pub re: u64,
    pub im: u64,
}

impl Complex {
    /// The square of `self`: `(re*re - im*im, 2*re*im)`, each operation in
    /// binary64 arithmetic, `2*re*im` associated as `(2*re)*im`.
    pub open spec fn spec_square(self) -> Complex {
        Complex {
            re: diff_bits(
                prod_bits(self.re, self.re),
                prod_bits(self.im, self.im),
            ),
            im: prod_bits(prod_bits(TWO_BITS, self.re), self.im),
        }
    }

    /// The componentwise binary64 sum of `self` and `rhs`.
    pub open spec fn spec_add(self, rhs: Complex) -> Complex {
        Complex {
            re: sum_bits(self.re, rhs.re),
            im: sum_bits(self.im, rhs.im),
        }
    }

    /// The squared magnitude `re*re + im*im` in binary64 arithmetic.
    /// No square root is ever taken: the escape test compares this squared
    /// value directly against the threshold.
    pub open spec fn spec_norm_squared(self) -> u64 {
        sum_bits(prod_bits(self.re, self.re), prod_bits(self.im, self.im))
    }

    /// Whether the squared magnitude of `self` compares strictly greater
    /// than 2.0.  The threshold is 2.0 against the *squared* magnitude — a
    /// deliberate quirk of this renderer, kept for output compatibility,
    /// though a conventional radius-2 escape test would compare against
    /// 4.0.
    pub open spec fn spec_escaped(self) -> bool {
        gt_bits(self.spec_norm_squared(), TWO_BITS)
    }

    pub fn new(re: u64, im: u64) -> (r: Complex)
        ensures
            r == (Complex { re, im }),
    {
        Complex { re, im }
    }

    pub fn square(self) -> (r: Complex)
        ensures
            r == self.spec_square(),
    {
        let re = sub_double(
            mul_double(self.re, self.re),
            mul_double(self.im, self.im),
        );
        let im = mul_double(mul_double(TWO_BITS, self.re), self.im);
        Complex { re, im }
    }

    pub fn add(self, rhs: Complex) -> (r: Complex)
        ensures
            r == self.spec_add(rhs),
    {
        Complex {
            re: add_double(self.re, rhs.re),
            im: add_double(self.im, rhs.im),
        }
    }

    pub fn norm_squared(&self) -> (r: u64)
        ensures
            r == self.spec_norm_squared(),
    {
        add_double(
            mul_double(self.re, self.re),
            mul_double(self.im, self.im),
        )
    }

    pub fn escaped(&self) -> (r: bool)
        ensures
            r == self.spec_escaped(),
    {
        gt_double(self.norm_squared(), TWO_BITS)
    }
}

} // verus!
