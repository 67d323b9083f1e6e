//! Minimum Hellinger distance estimation: the decisions of the estimator, verified.
//!
//! The estimator fits a parametric density to a sample by minimising a
//! nearest-neighbour estimate of the squared Hellinger distance. Its arithmetic
//! on real numbers is done by the caller; what this crate decides is which
//! observations enter each formula, when an input is rejected, and when the
//! optimisation stops. A real number enters the crate as its order key (see
//! [`key`]), an integer that compares as the number does.

pub mod balls;
pub mod error;
pub mod key;
pub mod model;
pub mod objective;
pub mod summary;
pub mod training;

pub use balls::{calculate_balls, partition, Ball, BallPlan};
pub use error::MhdeError;
pub use model::CauchyParams;
pub use objective::check_terms;
pub use summary::{min_median_max, Summary};
pub use training::{converged, Action, AdamSettings, LoopState, Phase, TrainingConfig};
