//! Write batches: an ordered log of put and delete operations that the engine
//! applies as one unit, and its replay against a visitor.

use std::marker::PhantomData;
use vstd::prelude::*;

use crate::error::Error;
use crate::key::{is_encoding, KeyCodec};
use crate::options::WriteOptions;

verus! {

/// One staged operation, in the byte form the engine receives.
#[derive(Debug, PartialEq, Eq)]
pub enum BatchOp {
    Put { key: Vec<u8>, value: Vec<u8> },
    Delete { key: Vec<u8> },
}

/// What a staged operation means: a value stored under a key, or a key removed.
pub enum OpView {
    Put { key: Seq<u8>, value: Seq<u8> },
    Delete { key: Seq<u8> },
}

impl OpView {
    /// The key bytes the operation is about.
    pub open spec fn key(self) -> Seq<u8> {
        match self {
            OpView::Put { key, .. } => key,
            OpView::Delete { key } => key,
        }
    }
}

impl View for BatchOp {
    type V = OpView;

    open spec fn view(&self) -> OpView {
        match self {
            BatchOp::Put { key, value } => OpView::Put { key: key@, value: value@ },
            BatchOp::Delete { key } => OpView::Delete { key: key@ },
        }
    }
}

/// The meaning of a sequence of staged operations.
pub open spec fn ops_view(ops: Seq<BatchOp>) -> Seq<OpView> {
    ops.map_values(|o: BatchOp| o@)
}

/// A visitor that a write batch replays its operations against, in order.
///
/// `seen` is the log of what the visitor has been handed so far; each call adds
/// exactly the operation it was handed.
pub trait WritebatchIterator {
    /// The key type the visitor works on.
    type K: KeyCodec;

    /// The operations handed to this visitor so far, keys as bytes.
    spec fn seen(&self) -> Seq<OpView>;

    /// Called for a staged put.
    fn put(&mut self, key: Self::K, value: &[u8])
        ensures
            final(self).seen() == old(self).seen().push(
                OpView::Put { key: key.encoding(), value: value@ },
            ),
    ;

    /// Called for a staged delete.
    fn deleted(&mut self, key: Self::K)
        ensures
            final(self).seen() == old(self).seen().push(OpView::Delete { key: key.encoding() }),
    ;
}

/// A store that a write batch can be applied to.
pub trait Batch<K: KeyCodec> {
    /// Applies every operation staged in `batch`, in order, as one unit: either
    /// all of them take effect or, with an error from the engine, none. The
    /// batch itself is left as it was.
    fn write(&self, options: WriteOptions, batch: &Writebatch<K>) -> Result<(), Error>;
}

/// An ordered set of put and delete operations on keys of type `K`, to be
/// applied to the engine as one unit.
pub struct Writebatch<K: KeyCodec> {
    ops: Vec<BatchOp>,
    marker: PhantomData<K>,
}

impl<K: KeyCodec> View for Writebatch<K> {
    type V = Seq<OpView>;

    closed spec fn view(&self) -> Seq<OpView> {
        ops_view(self.ops@)
    }
}

impl<K: KeyCodec> Writebatch<K> {
    /// Every staged key is the encoding of some key of type `K`.
    pub closed spec fn wf(&self) -> bool {
        forall|i: int| 0 <= i < self.ops@.len() ==> is_encoding::<K>(#[trigger] self.ops@[i]@.key())
    }

    /// Creates an empty batch.
    pub fn new() -> (r: Writebatch<K>)
        ensures
            r.wf(),
            r@ == Seq::<OpView>::empty(),
    {
        let r = Writebatch { ops: Vec::new(), marker: PhantomData };
        assert(r@ =~= Seq::<OpView>::empty());
        r
    }

    /// Drops every staged operation; the batch is then as a new one.
    pub fn clear(&mut self)
        requires
            old(self).wf(),
        ensures
            final(self).wf(),
            final(self)@ == Seq::<OpView>::empty(),
    {
        self.ops.clear();
        assert(self@ =~= Seq::<OpView>::empty());
    }

    /// Stages a put of `value` under `key`, after every operation staged before.
    pub fn put(&mut self, key: K, value: &[u8])
        requires
            old(self).wf(),
        ensures
            final(self).wf(),
            final(self)@ == old(self)@.push(OpView::Put { key: key.encoding(), value: value@ }),
    {
        let k = key.to_bytes();
        let v = vstd::slice::slice_to_vec(value);
        self.ops.push(BatchOp::Put { key: k, value: v });
        assert(self@ =~= old(self)@.push(OpView::Put { key: key.encoding(), value: value@ }));
        assert forall|i: int| 0 <= i < self.ops@.len() implies is_encoding::<K>(
            #[trigger] self.ops@[i]@.key(),
        ) by {
            if i == self.ops@.len() - 1 {
                assert(key.encoding() == self.ops@[i]@.key());
            } else {
                assert(self.ops@[i] == old(self).ops@[i]);
            }
        }
    }

    /// Stages a delete of `key`, after every operation staged before.
    pub fn delete(&mut self, key: K)
        requires
            old(self).wf(),
        ensures
            final(self).wf(),
            final(self)@ == old(self)@.push(OpView::Delete { key: key.encoding() }),
    {
        let k = key.to_bytes();
        self.ops.push(BatchOp::Delete { key: k });
        assert(self@ =~= old(self)@.push(OpView::Delete { key: key.encoding() }));
        assert forall|i: int| 0 <= i < self.ops@.len() implies is_encoding::<K>(
            #[trigger] self.ops@[i]@.key(),
        ) by {
            if i == self.ops@.len() - 1 {
                assert(key.encoding() == self.ops@[i]@.key());
            } else {
                assert(self.ops@[i] == old(self).ops@[i]);
            }
        }
    }

    /// The staged operations in the order they were staged, in byte form.
    pub fn operations(&self) -> (r: &[BatchOp])
        ensures
            ops_view(r@) == self@,
    {
        self.ops.as_slice()
    }

    /// Replays every staged operation against `iterator`, in the order they
    /// were staged, with each key decoded back to `K`; hands the visitor back.
    pub fn iterate<T: WritebatchIterator<K = K>>(&mut self, iterator: Box<T>) -> (r: Box<T>)
        requires
            old(self).wf(),
        ensures
            final(self).wf(),
            final(self)@ == old(self)@,
            r.seen() == iterator.seen() + old(self)@,
    {
        let mut it = iterator;
        let n = self.ops.len();
        let mut i: usize = 0;
        while i < n
            invariant
                self.wf(),
                n == self.ops@.len(),
                self@ == old(self)@,
                0 <= i <= n,
                it.seen() == iterator.seen() + self@.subrange(0, i as int),
            decreases n - i,
        {
            proof {
                assert(is_encoding::<K>(self.ops@[i as int]@.key()));
            }
            match &self.ops[i] {
                BatchOp::Put { key, value } => {
                    let k = K::from_bytes(key.as_slice());
                    it.put(k, value.as_slice());
                },
                BatchOp::Delete { key } => {
                    let k = K::from_bytes(key.as_slice());
                    it.deleted(k);
                },
            }
            assert(self@.subrange(0, i + 1) =~= self@.subrange(0, i as int).push(self@[i as int]));
            i = i + 1;
        }
        assert(self@.subrange(0, n as int) =~= self@);
        it
    }
}

/// One operation as a visitor was handed it, key decoded.
#[derive(Debug, PartialEq, Eq)]
pub enum Replayed<K> {
    Put(K, Vec<u8>),
    Deleted(K),
}

impl<K: KeyCodec> Replayed<K> {
    /// The operation this stands for, key as bytes.
    pub open spec fn op(&self) -> OpView {
        match self {
            Replayed::Put(k, v) => OpView::Put { key: k.encoding(), value: v@ },
            Replayed::Deleted(k) => OpView::Delete { key: k.encoding() },
        }
    }
}

/// A visitor that keeps every operation it is handed, in order.
pub struct Recorder<K> {
    pub events: Vec<Replayed<K>>,
}

impl<K: KeyCodec> Recorder<K> {
    /// A recorder that has seen nothing.
    pub fn new() -> (r: Recorder<K>)
        ensures
            r.seen() == Seq::<OpView>::empty(),
    {
        let r = Recorder { events: Vec::new() };
        assert(r.seen() =~= Seq::<OpView>::empty());
        r
    }
}

impl<K: KeyCodec> WritebatchIterator for Recorder<K> {
    type K = K;

    open spec fn seen(&self) -> Seq<OpView> {
        self.events@.map_values(|e: Replayed<K>| e.op())
    }

    fn put(&mut self, key: K, value: &[u8]) {
        let v = vstd::slice::slice_to_vec(value);
        self.events.push(Replayed::Put(key, v));
        assert(self.seen() =~= old(self).seen().push(
            OpView::Put { key: key.encoding(), value: value@ },
        ));
    }

    fn deleted(&mut self, key: K) {
        self.events.push(Replayed::Deleted(key));
        assert(self.seen() =~= old(self).seen().push(OpView::Delete { key: key.encoding() }));
    }
}

/// Replaying a cleared batch hands the visitor nothing: what it has seen after
/// the replay is what it had seen before.
pub proof fn lemma_cleared_batch_replays_nothing<K: KeyCodec>(
    batch: Writebatch<K>,
    seen: Seq<OpView>,
)
    requires
        batch@ == Seq::<OpView>::empty(),
    ensures
        seen + batch@ == seen,
{
    assert(seen + batch@ =~= seen);
}

/// A cleared batch holds what a new one holds, so the same operations staged
/// after either leave both holding the same log.
pub proof fn lemma_cleared_batch_is_fresh<K: KeyCodec>(
    cleared: Writebatch<K>,
    fresh: Writebatch<K>,
    staged: Seq<OpView>,
)
    requires
        cleared@ == Seq::<OpView>::empty(),
        fresh@ == Seq::<OpView>::empty(),
    ensures
        cleared@ + staged == fresh@ + staged,
        cleared@ + staged == staged,
{
    assert(cleared@ + staged =~= staged);
}

} // verus!
