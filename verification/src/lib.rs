//! A benchmark harness for historical blockchain blocks.
//!
//! Each block's transactions are split into two work classes by a static
//! heuristic, each class is executed against an isolated, initially empty
//! state snapshot through a bounded worker pool, and the per-block timings
//! are reduced into a tabular run report.

pub mod blockjson;
pub mod classify;
pub mod context;
pub mod digits;
pub mod engine;
pub mod report;
pub mod runner;
pub mod sched;
pub mod tx;
