//! Intervals over a scalar, as the renderer uses them: a strict test
//! for a parametric distance lying inside a range, and a clamp to its
//! bounds.

use core::ops::Range;
use vstd::prelude::*;

verus! {

/// A range of scalars with a strict membership test and a clamp.
///
/// `surrounds` is strict at both ends — the renderer uses it to accept
/// an intersection distance, and a hit exactly on a bound counts as
/// outside.  `clamp` pulls a value back to the nearest bound.
pub trait Interval<T> {
    /// Whether `item` lies strictly inside the interval.
    spec fn spec_surrounds(&self, item: T) -> bool;

    /// The value of `clamp`.
    spec fn spec_clamp(&self, t: T) -> T;

    fn surrounds(&self, item: &T) -> (r: bool)
        ensures
            r == self.spec_surrounds(*item),
    ;

    fn clamp(&self, t: T) -> (r: T)
        ensures
            r == self.spec_clamp(t),
    ;
}

impl Interval<u64> for Range<u64> {
    open spec fn spec_surrounds(&self, item: u64) -> bool {
        self.start < item && item < self.end
    }

    open spec fn spec_clamp(&self, t: u64) -> u64 {
        let above_start = if self.start > t { self.start } else { t };
        if self.end <= above_start { self.end } else { above_start }
    }

    fn surrounds(&self, item: &u64) -> (r: bool) {
        self.start < *item && *item < self.end
    }

    fn clamp(&self, t: u64) -> (r: u64) {
        let above_start = if self.start > t { self.start } else { t };
        if self.end <= above_start {
            self.end
        } else {
            above_start
        }
    }
}

impl Interval<i64> for Range<i64> {
    open spec fn spec_surrounds(&self, item: i64) -> bool {
        self.start < item && item < self.end
    }

    open spec fn spec_clamp(&self, t: i64) -> i64 {
        let above_start = if self.start > t { self.start } else { t };
        if self.end <= above_start { self.end } else { above_start }
    }

    fn surrounds(&self, item: &i64) -> (r: bool) {
        self.start < *item && *item < self.end
    }

    fn clamp(&self, t: i64) -> (r: i64) {
        let above_start = if self.start > t { self.start } else { t };
        if self.end <= above_start {
            self.end
        } else {
            above_start
        }
    }
}

/// For a well-formed range, what `clamp` returns always lies between
/// the bounds, ends included.
pub proof fn lemma_clamp_in_bounds(range: Range<u64>, t: u64)
    requires
        range.start <= range.end,
    ensures
        range.start <= range.spec_clamp(t) <= range.end,
{
}

} // verus!
