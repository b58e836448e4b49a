//! Rate-controlled load generation for an external-processing callback service:
//! the rate sweep, the per-loop pacing decisions, result aggregation and the
//! report format, each with a machine-checked contract.

pub mod cli;
pub mod envoy;
pub mod error;
pub mod fixture;
pub mod level;
pub mod pacing;
pub mod report;
pub mod sample_requests;
pub mod scheduler;
pub mod throughput;
pub mod worker;
