//! Downloads a numbered series of items (metadata plus a binary payload)
//! from a paginated web resource into a local directory.
//!
//! The library holds the decisions of the pipeline as verified state
//! machines: the retry policy, the resolution of the series bound, the
//! per-item fetch-and-store unit and the bounded-concurrency scheduler.
//! The caller performs the network and file operations that the machines
//! ask for and reports back what happened.
pub mod bounds;
pub mod config;
pub mod item;
pub mod model;
pub mod naming;
pub mod report;
pub mod retry;
pub mod scheduler;
