//! Differential-privacy mechanisms.
//!
//! Each mechanism is split into the part that can be checked exactly —
//! validating the caller's parameters, admitting the sampled deviate and
//! charging the privacy accountant — and the floating-point evaluation of
//! the noise formula itself, which the unverified front end performs on
//! the calibration this module hands back.

pub mod gaussian;
pub mod laplace;

pub use gaussian::calibrate_gaussian;
pub use laplace::calibrate_laplace;
