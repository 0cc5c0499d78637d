//! Statistical core of a Monte-Carlo cross-section simulation.
//!
//! The crate decodes the configuration of a run, accumulates the weighted
//! contribution of each simulated event, derives the final results from the
//! accumulated sums, and sets them against two analytic parametrisations.
//! It is generic over the type of its real numbers: see `reals`.

pub mod accumulator;
pub mod channels;
pub mod config;
pub mod items;
pub mod numeric;
pub mod reals;
pub mod reports;
pub mod resfin;
pub mod text;
