//! The Laplace mechanism's exact half: calibration and accounting.
//!
//! The mechanism perturbs a value with noise drawn from a zero-centered
//! Laplace distribution of scale `sensitivity / epsilon`, by the exact
//! inverse-CDF sampler `-scale * sign(u) * ln(1 - 2*|u|)` over a uniform
//! deviate `u` in the open interval `(-1/2, 1/2)`.  Evaluating that formula
//! is floating point and stays in the unverified front end; everything the
//! formula and the privacy bound depend on — positive sensitivity, positive
//! epsilon, a deviate strictly inside the open interval, and the exact
//! charge of `(epsilon, 0)` to the accountant — is validated and performed
//! here.

use vstd::prelude::*;

use crate::budget::Budget;
use crate::error::DpError;
use crate::privacy_accounting::PrivacyAccountant;
use crate::sampler;

verus! {

/// Validated parameters of a Laplace noise draw: the noise scale is
/// `sensitivity / epsilon`, both strictly positive.
#[derive(Clone, Copy, PartialEq, Eq, Structural, Debug)]
pub struct LaplaceCalibration {
    /// Query sensitivity; strictly positive.
    pub sensitivity: Budget,
    /// Privacy budget charged per draw; strictly positive.
    pub epsilon: Budget,
}

impl LaplaceCalibration {
    /// Both parameters are strictly positive, so the noise scale is a
    /// well-defined positive real.
    pub open spec fn well_formed(&self) -> bool {
        self.sensitivity@ > 0 && self.epsilon@ > 0
    }
}

/// Validates the parameters of a Laplace mechanism call.  Succeeds exactly
/// when the sensitivity and the epsilon are strictly positive; any other
/// input is rejected as an invalid parameter, before any noise is drawn
/// and before the accountant is touched.
pub fn calibrate_laplace(sensitivity: Budget, epsilon: Budget) -> (r: Result<
    LaplaceCalibration,
    DpError,
>)
    ensures
        match r {
            Ok(c) => sensitivity@ > 0 && epsilon@ > 0 && c.sensitivity == sensitivity
                && c.epsilon == epsilon && c.well_formed(),
            Err(e) => (sensitivity@ <= 0 || epsilon@ <= 0) && e == DpError::InvalidParameter,
        },
{
    if sensitivity.is_strictly_positive() && epsilon.is_strictly_positive() {
        Ok(LaplaceCalibration { sensitivity, epsilon })
    } else {
        Err(DpError::InvalidParameter)
    }
}

/// One Laplace round over an already sampled deviate: admits the deviate
/// and charges the accountant.  Succeeds exactly when the deviate's bit
/// pattern lies strictly inside `(-1/2, 1/2)`; the accountant is then
/// charged `(epsilon, 0)` exactly once, and is left untouched on failure.
pub fn admit_and_charge_laplace(
    c: &LaplaceCalibration,
    deviate_bits: u64,
    accountant: &mut PrivacyAccountant,
) -> (r: Result<(), DpError>)
    requires
        c.well_formed(),
        old(accountant).well_formed(),
        old(accountant).total_epsilon@ + c.epsilon@ <= i64::MAX,
    ensures
        final(accountant).well_formed(),
        final(accountant).epsilon == old(accountant).epsilon,
        final(accountant).delta == old(accountant).delta,
        match r {
            Ok(()) => {
                &&& sampler::deviate_in_open_interval(deviate_bits)
                &&& final(accountant).total_epsilon@ == old(accountant).total_epsilon@ + c.epsilon@
                &&& final(accountant).total_delta@ == old(accountant).total_delta@
                &&& final(accountant).charged@ === old(accountant).charged@.push((c.epsilon@, 0))
            },
            Err(e) => {
                &&& !sampler::deviate_in_open_interval(deviate_bits)
                &&& e == DpError::NumericDomainError
                &&& *final(accountant) == *old(accountant)
            },
        },
{
    sampler::check_uniform_deviate(deviate_bits)?;
    proof {
        accountant.total_delta.lemma_view_in_bounds();
    }
    accountant.update(c.epsilon, Budget::zero());
    Ok(())
}

} // verus!
