//! Differential-privacy bookkeeping with verified budget accounting.
//!
//! Privacy budgets (epsilon and delta) are held exactly, as integer counts of
//! nano-units, so that parameter validation and sequential composition are
//! exact arithmetic rather than floating point.  The floating-point noise
//! itself (uniform and normal deviates, logarithms) is drawn by the unverified
//! front end, which hands sampled deviates back to this crate as raw IEEE-754
//! bit patterns for admission checking.

pub mod budget;
pub mod error;
pub mod mechanisms;
pub mod privacy_accounting;
pub mod sampler;
