//! The order of fractions, by their cross products.
use vstd::prelude::*;
use core::cmp::Ordering;
use vstd::std_specs::cmp::PartialOrdSpecImpl;
use crate::fraction::Fraction;
use crate::wide::compare_products;

verus! {

/// The order of two fractions, by their cross products.
pub open spec fn fraction_order(a: Fraction, b: Fraction) -> Ordering {
    if a.numerator * b.denominator < a.denominator * b.numerator {
        Ordering::Less
    } else if a.numerator * b.denominator == a.denominator * b.numerator {
        Ordering::Equal
    } else {
        Ordering::Greater
    }
}

impl PartialOrd for Fraction {
    fn partial_cmp(&self, other: &Self) -> (res: Option<Ordering>) {
        let c = compare_products(self.numerator, other.denominator, self.denominator, other.numerator);
        if c == 0 {
            Some(Ordering::Equal)
        } else if c < 0 {
            Some(Ordering::Less)
        } else {
            Some(Ordering::Greater)
        }
    }
}

impl PartialOrdSpecImpl for Fraction {
    open spec fn obeys_partial_cmp_spec() -> bool {
        true
    }

    open spec fn partial_cmp_spec(&self, other: &Fraction) -> Option<Ordering> {
        Some(fraction_order(*self, *other))
    }
}

} // verus!
