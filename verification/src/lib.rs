//! Incremental archiver for event logs of a fixed pair of on-chain
//! registries, deployed across many independent chains.
//!
//! The crate holds the verified core of the archiver: the adaptive
//! log-fetch engine with its error classifier and batch-size control,
//! the per-chain and per-contract resumption logic, the columnar row
//! model with its merge step, and the cursor codec.  Network and file
//! I/O live outside the library and drive these components.

pub mod batcher;
pub mod chains;
pub mod backoff;
pub mod classify;
pub mod config;
pub mod controller;
pub mod cursor;
pub mod engine;
pub mod networks;
pub mod orchestrator;
pub mod store;
pub mod types;
