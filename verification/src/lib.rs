//! Continuous mirroring and grading-status engine for a fleet of remote
//! course repositories.
//!
//! The library holds the verified core: the mirror synchronization state
//! machine, the deadline classification of each deliverable, the assembly
//! of per-participant reports into a snapshot, and the concurrency-safe
//! store that publishes one snapshot at a time. All network, filesystem
//! and process-global work stays outside, handing the core plain values.

pub mod config;
pub mod error;
pub mod evaluate;
pub mod mirror;
pub mod model;
pub mod report;
pub mod serve;
pub mod store;
