//! The Gaussian mechanism's exact half: calibration.
//!
//! The mechanism perturbs a value with a normal deviate of mean zero and
//! standard deviation `sqrt(2 * sensitivity^2 / |ln(epsilon)|)`.  Note
//! that this sigma ignores `delta` and differs from the analytic Gaussian
//! mechanism, whose sigma grows with `ln(1.25/delta)`; the formula is kept
//! as the library's observable behavior, and no `(epsilon, delta)`-DP
//! guarantee is claimed for it.  Evaluating the formula and drawing the
//! normal deviate is floating point and stays in the unverified front
//! end; the exact admissibility of the parameters — positive sensitivity,
//! positive epsilon, an epsilon away from one (where `ln(epsilon)` is zero
//! and the sigma degenerates), and a delta inside `[0, 1)` — is decided
//! here.  Unlike the Laplace mechanism, this mechanism charges no
//! accountant; the asymmetry is deliberate and preserved.

use vstd::prelude::*;

use crate::budget::Budget;
use crate::budget::NANOS_PER_UNIT;
use crate::error::DpError;

verus! {

/// Validated parameters of a Gaussian noise draw.
#[derive(Clone, Copy, PartialEq, Eq, Structural, Debug)]
pub struct GaussianCalibration {
    /// Query sensitivity; strictly positive.
    pub sensitivity: Budget,
    /// Privacy budget parameter; strictly positive and not equal to one,
    /// so `|ln(epsilon)|` is a well-defined positive real.
    pub epsilon: Budget,
    /// Failure-probability parameter; inside `[0, 1)`.
    pub delta: Budget,
}

impl GaussianCalibration {
    /// The parameter ranges under which the sigma formula is a
    /// well-defined positive real.
    pub open spec fn well_formed(&self) -> bool {
        &&& self.sensitivity@ > 0
        &&& self.epsilon@ > 0
        &&& self.epsilon@ != NANOS_PER_UNIT as int
        &&& 0 <= self.delta@ < NANOS_PER_UNIT as int
    }
}

/// Validates the parameters of a Gaussian mechanism call.  Succeeds
/// exactly when the sensitivity is strictly positive, the epsilon is
/// strictly positive and not equal to one (one unit), and the delta lies
/// inside `[0, 1)`; any other input is rejected as an invalid parameter
/// before any noise is drawn.
pub fn calibrate_gaussian(sensitivity: Budget, epsilon: Budget, delta: Budget) -> (r: Result<
    GaussianCalibration,
    DpError,
>)
    ensures
        match r {
            Ok(c) => sensitivity@ > 0 && epsilon@ > 0 && epsilon@ != NANOS_PER_UNIT as int && 0
                <= delta@ < NANOS_PER_UNIT as int && c.sensitivity == sensitivity && c.epsilon
                == epsilon && c.delta == delta && c.well_formed(),
            Err(e) => (sensitivity@ <= 0 || epsilon@ <= 0 || epsilon@ == NANOS_PER_UNIT as int
                || delta@ < 0 || delta@ >= NANOS_PER_UNIT as int) && e
                == DpError::InvalidParameter,
        },
{
    let admissible = sensitivity.is_strictly_positive() && epsilon.is_strictly_positive()
        && epsilon.as_nanos() != NANOS_PER_UNIT && delta.is_nonnegative() && delta.as_nanos()
        < NANOS_PER_UNIT;
    if admissible {
        Ok(GaussianCalibration { sensitivity, epsilon, delta })
    } else {
        Err(DpError::InvalidParameter)
    }
}

} // verus!
