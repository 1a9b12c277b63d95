//! Simple linear regression over an owned, non-empty sequence of observations.
//!
//! The library keeps the observation sequence that a regression model is fitted
//! to, with the rules for replacing and extending it, and lays out the textual
//! summary of a fitted model.
pub mod observations;
pub mod summary;

pub use observations::{pair_up, EmptyInputError, ObservationSet};
pub use summary::{format_fit, format_summary};
