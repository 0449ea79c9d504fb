use vstd::prelude::*;

use crate::score::code_is_finite;
use crate::score::is_finite_code;

verus! {

/// The closed interval a single dimension's scalars are drawn from, as order
/// codes. A bound is valid when both endpoints stand for finite values and
/// the interval is not inverted; an invalid bound must fail optimizer
/// construction outright — it is never silently clamped.
#[derive(Clone, Copy, PartialEq, Eq, Structural, Debug)]
pub struct Bound {
    pub low: u64,
    pub high: u64,
}

impl Bound {
    /// Both endpoints are finite and the interval is not inverted.
    pub open spec fn valid(self) -> bool {
        is_finite_code(self.low) && is_finite_code(self.high) && self.low <= self.high
    }

    /// The scalar lies within the closed interval.
    pub open spec fn contains(self, c: u64) -> bool {
        self.low <= c && c <= self.high
    }

    /// Whether the bound may be handed to a per-dimension optimizer.
    pub fn is_valid(&self) -> (r: bool)
        ensures
            r == self.valid(),
    {
        code_is_finite(self.low) && code_is_finite(self.high) && self.low <= self.high
    }

    /// Whether the scalar lies within the closed interval.
    pub fn contains_code(&self, c: u64) -> (r: bool)
        ensures
            r == self.contains(c),
    {
        self.low <= c && c <= self.high
    }
}

} // verus!
