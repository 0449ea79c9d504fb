//! Verified coordination core of a batch ask–tell optimization harness.
//!
//! The harness searches a bounded multi-dimensional parameter space for the
//! minimum of an expensive, possibly noisy objective. One sequential model
//! per dimension proposes candidate scalars (`ask`) and learns from observed
//! scores (`tell`); this crate owns everything that can be decided without
//! running those models or the objective itself: how per-dimension bounds are
//! validated, how per-dimension samples compose into parameter vectors, how
//! raw evaluation results are screened before they may reach the models, how
//! the best observation is tracked, and when the trial budget is exhausted.
//! The unverified shell around the crate performs the model calls and the
//! concurrent objective evaluations and feeds every outcome back in as plain
//! values.

pub mod bounds;
pub mod driver;
pub mod joint;
pub mod params;
pub mod score;
pub mod tracker;
