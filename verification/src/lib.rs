//! Bulk export of personal media assets referenced by an archive of link
//! records: the decision logic of the batch downloader, stated and proved.
//!
//! The library holds the verified core — manifest text remapping, the
//! deterministic filename rule, the two-stage fetch protocol's decisions,
//! and the aggregation of per-task outcomes into one consolidated report.
//! The surrounding process (archive reading, network requests, thread
//! spawning, console interaction) hands this core plain values and performs
//! the actions the core decides on.

pub mod config;
pub mod fetch;
pub mod filename;
pub mod manifest;
pub mod orchestrate;
pub mod record;
pub mod report;
pub mod text;

pub use crate::config::Config;
pub use crate::record::Memory;
