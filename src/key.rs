//! The key codec: how a typed key becomes the bytes the engine stores, and back.

use vstd::prelude::*;
use vstd::slice::slice_to_vec;

verus! {

/// A key type that converts to and from the raw bytes the engine stores.
///
/// Decoding the bytes of a key gives back a key with the same bytes, so a key
/// survives a trip through the engine unchanged.
pub trait KeyCodec: Sized {
    /// The bytes that stand for this key in the engine.
    spec fn encoding(&self) -> Seq<u8>;

    /// The bytes of this key, copied out.
    fn to_bytes(&self) -> (r: Vec<u8>)
        ensures
            r@ == self.encoding(),
    ;

    /// Rebuilds a key from bytes; where the bytes are the encoding of some key,
    /// the result is encoded by exactly those bytes.
    fn from_bytes(bytes: &[u8]) -> (r: Self)
        ensures
            (exists|k: Self| #[trigger] k.encoding() == bytes@) ==> r.encoding() == bytes@,
    ;
}

/// Whether `bytes` is the encoding of some key of type `K`.
pub open spec fn is_encoding<K: KeyCodec>(bytes: Seq<u8>) -> bool {
    exists|k: K| #[trigger] k.encoding() == bytes
}

/// Raw byte strings are keys that stand for themselves.
impl KeyCodec for Vec<u8> {
    open spec fn encoding(&self) -> Seq<u8> {
        self@
    }

    fn to_bytes(&self) -> (r: Vec<u8>) {
        slice_to_vec(self.as_slice())
    }

    fn from_bytes(bytes: &[u8]) -> (r: Vec<u8>) {
        slice_to_vec(bytes)
    }
}


} // verus!
