//! A benchmarking harness for interval-overlap query structures.
//!
//! The harness generates synthetic interval datasets, builds each engine
//! under test from them, runs overlap queries, and reports process-time
//! measurements together with match counts that can be cross-checked
//! between engines.

pub mod backend;
pub mod bio_backend;
pub mod coitree_backend;
pub mod counting;
pub mod generator;
pub mod interval;
pub mod lapper_backend;
pub mod nested_backend;
pub mod report;
pub mod rng;
pub mod runner;
pub mod timing;

pub use interval::Interval;
