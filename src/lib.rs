//! Decision core of a worker population controller: per-unit task state
//! machines, the spawn table and its proportional allocation, job
//! assignment, and one drive step per unit per tick.

pub mod builds;
pub mod census;
pub mod error;
pub mod jobs;
pub mod strategy;
pub mod structures;
