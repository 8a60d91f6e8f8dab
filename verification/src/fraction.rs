//! A non-negative fraction of two `u128`s, compared and applied exactly.
use vstd::prelude::*;
use crate::wide::{compare_products, mul2_div, mul3_div};

verus! {

/// A fraction `numerator / denominator`.
#[derive(Clone, Copy, Debug)]
pub struct Fraction {
    pub numerator: u128,
    pub denominator: u128,
}

impl Fraction {
    /// `self * rhs`, rounded down.
    pub open spec fn spec_mul(self, rhs: int) -> int {
        self.numerator * rhs / (self.denominator as int)
    }

    /// `self * a * b`, rounded down.
    pub open spec fn spec_mul2(self, a: int, b: int) -> int {
        self.numerator * a * b / (self.denominator as int)
    }

    /// Two fractions stand for the same number: their cross products agree.
    pub open spec fn same_value(self, other: Fraction) -> bool {
        self.numerator * other.denominator == self.denominator * other.numerator
    }

    /// The fraction applied to `rhs`, rounded down. The denominator must be
    /// positive and the result must fit in `u128`.
    pub fn mul(self, rhs: u128) -> (res: u128)
        requires
            self.denominator > 0,
            self.spec_mul(rhs as int) <= u128::MAX,
        ensures
            res == self.spec_mul(rhs as int),
    {
        mul2_div(self.numerator, rhs, self.denominator).unwrap()
    }

    /// The fraction applied to `rhs`, rounded down, or `None` when the
    /// denominator is zero or the result does not fit in `u128`.
    pub fn checked_mul(self, rhs: u128) -> (res: Option<u128>)
        ensures
            res is Some <==> self.denominator > 0 && self.spec_mul(rhs as int) <= u128::MAX,
            res matches Some(v) ==> v == self.spec_mul(rhs as int),
    {
        if self.denominator == 0 {
            return None;
        }
        mul2_div(self.numerator, rhs, self.denominator)
    }

    /// The fraction applied to the product `a * b`, rounded down, computed
    /// with a 384-bit intermediate product. The denominator must be positive
    /// and the result must fit in `u128`.
    pub fn u384_mul(&self, a: u128, b: u128) -> (res: u128)
        requires
            self.denominator > 0,
            self.spec_mul2(a as int, b as int) <= u128::MAX,
        ensures
            res == self.spec_mul2(a as int, b as int),
    {
        mul3_div(self.numerator, a, b, self.denominator).unwrap()
    }

    /// The fraction applied to `a * b`, rounded down, or `None` when the
    /// denominator is zero or the result does not fit in `u128`.
    pub fn checked_u384_mul(&self, a: u128, b: u128) -> (res: Option<u128>)
        ensures
            res is Some <==> self.denominator > 0 && self.spec_mul2(a as int, b as int)
                <= u128::MAX,
            res matches Some(v) ==> v == self.spec_mul2(a as int, b as int),
    {
        if self.denominator == 0 {
            return None;
        }
        mul3_div(self.numerator, a, b, self.denominator)
    }
}

impl PartialEq for Fraction {
    fn eq(&self, other: &Self) -> (res: bool) {
        compare_products(self.numerator, other.denominator, self.denominator, other.numerator) == 0
    }
}

impl vstd::std_specs::cmp::PartialEqSpecImpl for Fraction {
    open spec fn obeys_eq_spec() -> bool {
        true
    }

    open spec fn eq_spec(&self, other: &Fraction) -> bool {
        self.same_value(*other)
    }
}

} // verus!
