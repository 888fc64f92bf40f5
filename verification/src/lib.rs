//! Verified core of an epoch-driven simulation scheduler for replaying
//! historical network-topology snapshots over a synthetic client population.
//!
//! The library holds the sequential decision logic of the scheduler: epoch
//! window derivation with one-element lookahead, the exit-identifier
//! registry, relay flag accounting, progress-reporting cadence, and the
//! fail-fast error policy. I/O, document parsing, circuit construction and
//! the parallel fan-out live outside the library and drive it event by event.

pub mod config;
pub mod epoch;
pub mod errors;
pub mod model;
pub mod outcome;
pub mod progress;
pub mod registry;
pub mod scheduler;
