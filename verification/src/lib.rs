//! Verified core of an OpenSHMEM microbenchmark harness.
//!
//! The library holds everything the harness decides or computes: resolving
//! the message-size sweep, the per-routine measurement plan, the integer
//! fixed-point latency/bandwidth metrics, and the report text. The
//! unverified binary around it only performs the one-sided communication
//! calls and the wall-clock timing, feeding plain values back in.

pub mod driver;
pub mod metrics;
pub mod report;
pub mod routine;
pub mod sweep;
pub mod text;
