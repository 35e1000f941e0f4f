//! Core of a fixed-rate HTTP load generator: an online latency aggregator,
//! an outcome classifier with error counters, the per-attempt recording step,
//! the rate/tick arithmetic with its shutdown state machine, and the final
//! error-rate computation. All I/O (argument parsing, the HTTP client, timers,
//! signals, console output) lives outside this library.

pub mod dispatch;
pub mod outcome;
pub mod report;
pub mod sched;
pub mod stats;
