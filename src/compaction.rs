//! Requests to compact a range of keys.

use vstd::prelude::*;

use crate::key::KeyCodec;

verus! {

/// A store whose key range can be compacted on request.
pub trait Compaction<K: KeyCodec> {
    /// Asks the engine to compact the keys between `start` and `limit`; the
    /// engine treats it as best effort, and nothing is reported back.
    fn compact(&self, start: &K, limit: &K);
}

/// The bounds of a compaction, in the byte form the engine receives.
pub struct CompactRange {
    pub start: Vec<u8>,
    pub limit: Vec<u8>,
}

impl CompactRange {
    /// The byte bounds of a compaction from `start` to `limit`.
    pub fn new<K: KeyCodec>(start: &K, limit: &K) -> (r: CompactRange)
        ensures
            r.start@ == start.encoding(),
            r.limit@ == limit.encoding(),
    {
        CompactRange { start: start.to_bytes(), limit: limit.to_bytes() }
    }
}

} // verus!
