//! A sequence container whose length is tracked alongside the value as a
//! [`Size`] tag that is either exact (fixed ahead of use) or dynamic (known
//! only at runtime). Length-dependent operations come in two forms: a
//! pre-verified form whose bound obligations are discharged before the
//! program runs and which returns its result directly, and a runtime-checked
//! form that compares against the true length at the moment of use and
//! returns an optional result. Every container carries the invariant that
//! its tag equals the true element count of its backing storage.

pub mod size;
pub mod vect;

pub use size::IndexCheck;
pub use size::IntoSize;
pub use size::Size;
pub use vect::Vect;
