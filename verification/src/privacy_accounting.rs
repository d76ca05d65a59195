//! Tracks cumulative privacy loss using basic sequential composition.
//!
//! The `PrivacyAccountant` accumulates the privacy parameters (epsilon and
//! delta) charged by mechanism calls, to give an overall privacy bound for a
//! whole analysis session.  A ghost log of every charge is carried alongside
//! the running totals; the accountant's well-formedness ties each total to
//! the exact sum over that log, so the naive-composition bound is part of
//! the type's invariant rather than a property checked after the fact.

use vstd::prelude::*;

use crate::budget::Budget;

verus! {

/// Exact sum of the epsilons of a log of `(epsilon, delta)` charges.
pub open spec fn epsilons_total(charges: Seq<(int, int)>) -> int
    decreases charges.len(),
{
    if charges.len() == 0 {
        0
    } else {
        epsilons_total(charges.drop_last()) + charges.last().0
    }
}

/// Exact sum of the deltas of a log of `(epsilon, delta)` charges.
pub open spec fn deltas_total(charges: Seq<(int, int)>) -> int
    decreases charges.len(),
{
    if charges.len() == 0 {
        0
    } else {
        deltas_total(charges.drop_last()) + charges.last().1
    }
}

/// Accumulates the privacy loss of a session under naive sequential
/// composition: every charge adds its epsilon and delta to the totals.
pub struct PrivacyAccountant {
    /// Configured budget epsilon; informational, never enforced as a cap.
    pub epsilon: Budget,
    /// Configured budget delta; informational, never enforced as a cap.
    pub delta: Budget,
    /// Exact sum of all epsilons charged so far.
    pub total_epsilon: Budget,
    /// Exact sum of all deltas charged so far.
    pub total_delta: Budget,
    /// Ghost log of every `(epsilon, delta)` charge, in order.
    pub charged: Ghost<Seq<(int, int)>>,
}

impl PrivacyAccountant {
    /// The running totals are exactly the sums over the charge log, and no
    /// charge in the log was negative.
    pub open spec fn well_formed(&self) -> bool {
        &&& self.total_epsilon@ == epsilons_total(self.charged@)
        &&& self.total_delta@ == deltas_total(self.charged@)
        &&& forall|i: int|
            0 <= i < self.charged@.len() ==> #[trigger] self.charged@[i].0 >= 0
                && self.charged@[i].1 >= 0
    }

    /// Creates a new accountant with the given configured budget and with
    /// both cumulative totals at zero.
    pub fn new(epsilon: Budget, delta: Budget) -> (a: PrivacyAccountant)
        ensures
            a.well_formed(),
            a.epsilon == epsilon,
            a.delta == delta,
            a.total_epsilon@ == 0,
            a.total_delta@ == 0,
            a.charged@ === Seq::<(int, int)>::empty(),
    {
        PrivacyAccountant {
            epsilon,
            delta,
            total_epsilon: Budget::zero(),
            total_delta: Budget::zero(),
            charged: Ghost(Seq::empty()),
        }
    }

    /// Adds one mechanism's `(epsilon, delta)` charge to the cumulative
    /// totals.  The totals grow by exactly the charge and never decrease.
    pub fn update(&mut self, epsilon: Budget, delta: Budget)
        requires
            old(self).well_formed(),
            epsilon@ >= 0,
            delta@ >= 0,
            old(self).total_epsilon@ + epsilon@ <= i64::MAX,
            old(self).total_delta@ + delta@ <= i64::MAX,
        ensures
            final(self).well_formed(),
            final(self).total_epsilon@ == old(self).total_epsilon@ + epsilon@,
            final(self).total_delta@ == old(self).total_delta@ + delta@,
            final(self).total_epsilon@ >= old(self).total_epsilon@,
            final(self).total_delta@ >= old(self).total_delta@,
            final(self).epsilon == old(self).epsilon,
            final(self).delta == old(self).delta,
            final(self).charged@ === old(self).charged@.push((epsilon@, delta@)),
    {
        proof {
            self.total_epsilon.lemma_view_in_bounds();
            self.total_delta.lemma_view_in_bounds();
        }
        self.total_epsilon = self.total_epsilon.plus(&epsilon);
        self.total_delta = self.total_delta.plus(&delta);
        self.charged = Ghost(self.charged@.push((epsilon@, delta@)));
        proof {
            assert(self.charged@.drop_last() =~= old(self).charged@);
        }
    }

    /// Retrieves the total accumulated privacy loss as the pair
    /// `(total_epsilon, total_delta)`.  A pure read: the result is a
    /// function of the accountant's state alone.
    pub fn get_privacy_loss(&self) -> (r: (Budget, Budget))
        ensures
            r.0 == self.total_epsilon,
            r.1 == self.total_delta,
    {
        (self.total_epsilon, self.total_delta)
    }
}

/// A well-formed accountant never reports a negative total: sums of
/// non-negative charges are non-negative.
pub proof fn lemma_totals_nonnegative(charges: Seq<(int, int)>)
    requires
        forall|i: int|
            0 <= i < charges.len() ==> #[trigger] charges[i].0 >= 0 && charges[i].1 >= 0,
    ensures
        epsilons_total(charges) >= 0,
        deltas_total(charges) >= 0,
    decreases charges.len(),
{
    if charges.len() > 0 {
        lemma_totals_nonnegative(charges.drop_last());
    }
}

/// Splitting a charge log anywhere splits its sums: the total of a
/// concatenation is the sum of the totals of the parts.
pub proof fn lemma_totals_concat(s: Seq<(int, int)>, t: Seq<(int, int)>)
    ensures
        epsilons_total(s + t) == epsilons_total(s) + epsilons_total(t),
        deltas_total(s + t) == deltas_total(s) + deltas_total(t),
    decreases t.len(),
{
    if t.len() == 0 {
        assert(s + t =~= s);
    } else {
        assert((s + t).drop_last() =~= s + t.drop_last());
        assert((s + t).last() == t.last());
        lemma_totals_concat(s, t.drop_last());
    }
}

/// Sequential composition is order-independent: two runs of charges yield
/// the same cumulative totals in whichever order the runs are applied,
/// because addition of exact budgets is commutative.
pub proof fn lemma_charge_order_irrelevant(s: Seq<(int, int)>, t: Seq<(int, int)>)
    ensures
        epsilons_total(s + t) == epsilons_total(t + s),
        deltas_total(s + t) == deltas_total(t + s),
{
    lemma_totals_concat(s, t);
    lemma_totals_concat(t, s);
}

/// Reading the privacy loss is idempotent: two snapshots taken from the
/// same accountant state, with no update between them, are identical,
/// because `get_privacy_loss` determines its result from the state alone.
pub proof fn lemma_privacy_loss_idempotent(
    a: &PrivacyAccountant,
    first: (Budget, Budget),
    second: (Budget, Budget),
)
    requires
        first.0 == a.total_epsilon,
        first.1 == a.total_delta,
        second.0 == a.total_epsilon,
        second.1 == a.total_delta,
    ensures
        first == second,
{
}

} // verus!
