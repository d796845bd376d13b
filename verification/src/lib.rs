//! A minimal container launcher core: given a desired-state configuration,
//! decide whether a matching container already exists on the engine, create
//! it if absent (building its create options: bind strings and a flattened
//! environment), start it, and map engine-level failures into a closed set
//! of typed error reasons.
//!
//! The library holds only the reconciliation logic; the HTTP boundary and
//! the engine transport live outside it and drive the [`runner::Reconciler`]
//! step by step.

pub mod config;
pub mod errors;
pub mod laws;
pub mod options;
pub mod runner;
