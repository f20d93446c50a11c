//! Accumulator-and-spill subsystem of a columnar query-execution engine.
//!
//! The library keeps per-group mutable aggregation state across streaming
//! batches of dynamically typed values (`CollectList`, `CollectSet`, `First`),
//! accounts for the heap bytes that state occupies, and externalizes state to
//! an append-then-read byte store when memory runs short.

pub mod acc;
pub mod collect_list;
pub mod collect_set;
pub mod first;
pub mod spill;
pub mod value;
