//! Orchestration core of a watch-driven source transformation pipeline.
//!
//! The crate holds the decisions of the pipeline: which entries become jobs,
//! how one job moves from reading to reporting, how outcomes are tallied and
//! folded into the shared metrics, and which change notifications trigger new
//! work. Reading, transforming, writing and watching are carried out by the
//! caller, which feeds their results back as plain values.

pub mod config;
pub mod dispatch;
pub mod metrics;
pub mod orchestrate;
pub mod resolve;
pub mod watch;
pub mod worker;
