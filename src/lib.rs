//! A typed client layer over an embedded, sorted key-value engine: write
//! batches that are replayed in order and applied as one unit, read options
//! bound to snapshots, and range compaction requests.

pub mod key;
pub mod batch;
pub mod compaction;
pub mod error;
pub mod options;
