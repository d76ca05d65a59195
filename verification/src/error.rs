//! Failure modes of the mechanisms.

use vstd::prelude::*;

verus! {

/// Why a mechanism call was rejected.
#[derive(Clone, Copy, PartialEq, Eq, Structural, Debug)]
pub enum DpError {
    /// A caller-supplied parameter is outside its admissible range:
    /// a non-positive sensitivity or epsilon, a delta outside `[0, 1)`,
    /// or an epsilon that makes the Gaussian log term degenerate.
    InvalidParameter,
    /// A sampled deviate fell outside the open interval the noise
    /// formula needs, so taking the logarithm would leave its domain.
    NumericDomainError,
}

} // verus!
