//! A declarative scheduling configuration language.
//!
//! Work units ("systems") and groups of them ("system sets") are composed
//! into a canonical dependency-graph representation by a small set of
//! builder verbs (`in_set`, `before`, `run_if`, `chain`, ...).  The graph
//! records ordering, grouping, conditional execution and ambiguity policy
//! for a downstream scheduler; every structural rule the builder enforces
//! is stated as a contract and proved.

pub mod config;
pub mod error;
pub mod graph;
pub mod input;
pub mod laws;
pub mod plugin;
pub mod set;
pub mod system;
