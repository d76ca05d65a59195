//! Exact representation of privacy-budget quantities.
//!
//! Epsilon and delta values are stored as signed counts of nano-units
//! (one unit equals `NANOS_PER_UNIT` nanos), so every budget the library
//! handles is an exact rational with denominator one billion.  All
//! comparisons and sums over budgets are therefore exact integer
//! arithmetic, which is what makes the accountant's composition law
//! provable.

use vstd::prelude::*;

verus! {

/// Number of nano-units in one whole unit of epsilon or delta.
pub const NANOS_PER_UNIT: i64 = 1_000_000_000;

/// A privacy-budget quantity (an epsilon or a delta), held exactly as a
/// signed count of nano-units.  Negative values are representable so that
/// the mechanisms can reject them explicitly instead of trusting callers.
#[derive(Clone, Copy, PartialEq, Eq, Structural, Debug)]
pub struct Budget {
    nanos: i64,
}

impl View for Budget {
    type V = int;

    closed spec fn view(&self) -> int {
        self.nanos as int
    }
}

impl Budget {
    /// Builds the budget worth `nanos` nano-units.
    pub fn from_nanos(nanos: i64) -> (b: Budget)
        ensures
            b@ == nanos as int,
    {
        Budget { nanos }
    }

    /// The zero budget.
    pub fn zero() -> (b: Budget)
        ensures
            b@ == 0,
    {
        Budget { nanos: 0 }
    }

    /// Builds the budget worth `units` whole units.
    pub fn from_units(units: i32) -> (b: Budget)
        ensures
            b@ == units as int * NANOS_PER_UNIT as int,
    {
        Budget { nanos: units as i64 * NANOS_PER_UNIT }
    }

    /// The number of nano-units this budget is worth.
    pub fn as_nanos(&self) -> (n: i64)
        ensures
            n as int == self@,
    {
        self.nanos
    }

    /// Whether this budget is strictly positive.
    pub fn is_strictly_positive(&self) -> (r: bool)
        ensures
            r == (self@ > 0),
    {
        self.nanos > 0
    }

    /// Whether this budget is zero or positive.
    pub fn is_nonnegative(&self) -> (r: bool)
        ensures
            r == (self@ >= 0),
    {
        self.nanos >= 0
    }

    /// Whether this budget is strictly below `other`.
    pub fn lt(&self, other: &Budget) -> (r: bool)
        ensures
            r == (self@ < other@),
    {
        self.nanos < other.nanos
    }

    /// Every budget fits in its underlying nano-unit counter.
    pub proof fn lemma_view_in_bounds(&self)
        ensures
            i64::MIN <= self@ <= i64::MAX,
    {
    }

    /// Exact sum of two budgets.
    pub fn plus(&self, other: &Budget) -> (r: Budget)
        requires
            i64::MIN <= self@ + other@ <= i64::MAX,
        ensures
            r@ == self@ + other@,
    {
        Budget { nanos: self.nanos + other.nanos }
    }
}

} // verus!
