//! The render fraction as an exact ratio.

use vstd::prelude::*;

verus! {

/// A ratio of two nanosecond counts: how far the pending time reaches into
/// one update step.
#[derive(Clone, Copy, Debug, PartialEq, Eq, Structural)]
pub struct Fraction {
    pub numerator: u128,
    pub denominator: u128,
}

impl Fraction {
    /// The ratio lies in `[0, 1)`.
    pub open spec fn below_one(self) -> bool {
        self.numerator < self.denominator
    }

    /// The ratio lies in `[0, 1]`.
    pub open spec fn at_most_one(self) -> bool {
        self.denominator > 0 && self.numerator <= self.denominator
    }
}

} // verus!
