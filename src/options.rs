//! Per-call configuration of reads and writes.

use vstd::prelude::*;

verus! {

/// How a write is made durable.
pub struct WriteOptions {
    /// Whether the write is flushed to stable storage before it returns.
    pub sync: bool,
}

impl WriteOptions {
    /// Options for a write that is not synced.
    pub fn new() -> (r: WriteOptions)
        ensures
            !r.sync,
    {
        WriteOptions { sync: false }
    }
}

/// How a read is served. `S` is the reference to a snapshot that the read
/// observes; with none, the read observes the live state.
pub struct ReadOptions<S> {
    /// Whether the engine checks stored checksums on the read.
    pub verify_checksums: bool,
    /// Whether the blocks read are kept in the engine's cache.
    pub fill_cache: bool,
    /// The snapshot the read observes, if any.
    pub snapshot: Option<S>,
}

impl<S> ReadOptions<S> {
    /// Options for a cached, unchecked read of the live state.
    pub fn new() -> (r: ReadOptions<S>)
        ensures
            !r.verify_checksums,
            r.fill_cache,
            r.snapshot is None,
    {
        ReadOptions { verify_checksums: false, fill_cache: true, snapshot: None }
    }

    /// The same options, bound to `snapshot`: a new value, `self` is consumed.
    pub fn with_snapshot(self, snapshot: S) -> (r: ReadOptions<S>)
        ensures
            r.verify_checksums == self.verify_checksums,
            r.fill_cache == self.fill_cache,
            r.snapshot == Some(snapshot),
    {
        ReadOptions {
            verify_checksums: self.verify_checksums,
            fill_cache: self.fill_cache,
            snapshot: Some(snapshot),
        }
    }
}

} // verus!
