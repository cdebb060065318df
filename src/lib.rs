//! Incremental, one-way publication of a static website tree to an object
//! store: which files to send, in what order the phases run, and how the
//! outcome of a run is reported.

pub mod timestamp;
pub mod text;
pub mod key;
pub mod snapshot;
pub mod decision;
pub mod phase;
pub mod report;
pub mod content_type;
pub mod plan;
pub mod config;
