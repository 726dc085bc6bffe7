//! A verified core for an HTTP load-generation tool.
//!
//! The library covers the benchmark runner: partitioning a total request
//! count across workers, folding per-exchange outcomes into per-worker
//! statistics, reducing those into one combined record, and computing the
//! reported figures (mean latency, requests per second). The HTTP client,
//! the clock and the command line are collaborators that live outside the
//! library; they hand it plain values (elapsed nanoseconds, outcome lists)
//! and take plain values back.
pub mod config;
pub mod report;
pub mod runner;
pub mod stats;
pub mod sums;

use vstd::prelude::*;

verus! {

/// Outcome of one HTTP exchange: success with its elapsed wall-clock time
/// in nanoseconds, or a transport failure.
#[derive(Clone, Copy, PartialEq, Eq, Structural, Debug)]
pub enum ExchangeOutcome {
    Success { elapsed_nanos: u64 },
    Failure,
}

} // verus!
