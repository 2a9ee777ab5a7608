//! A verified workload-execution engine for a key-value HTTP load
//! generator: per-worker statistics with an associative merge, workload
//! token parsing, deterministic planning of each traffic iteration, and
//! the orchestrator's spawn/merge decisions.

pub mod keys;
pub mod orchestrator;
pub mod outcome;
pub mod plan;
pub mod stats;
pub mod workload;
