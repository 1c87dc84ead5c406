//! Race a set of deferred computations against a shared deadline and rank
//! their outcomes in completion order.
//!
//! The engine is split in two layers. This crate holds the verified core:
//! the registry of named racers, the deadline policy, and the ranking model
//! that turns each racer's outcome into a `RaceResult` and assigns dense,
//! zero-based ranks in completion order. The asynchronous shell that drives
//! the computations concurrently, enforces the deadline on each wait, and
//! feeds the observed outcomes back lives outside the verified core.

pub mod outcome;
pub mod track;

pub use crate::outcome::RaceResult;
pub use crate::outcome::RacerOutcome;
pub use crate::track::RaceTrack;
