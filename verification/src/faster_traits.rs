//! The codec capability traits and the two callbacks the engine drives: the
//! read-completion delivery and the read-modify-write merge dispatcher.
//!
//! Any type may serve as a key or value as long as it can be encoded to and
//! decoded from bytes; merge semantics are supplied separately, and only for
//! types used with read-modify-write. Each trait speaks of a mathematical
//! model of the type (`M`), so that contracts over encoded bytes stay exact
//! even for heap-held types.
use vstd::prelude::*;

use crate::channel::CompletionSlot;
use crate::status;

verus! {

/// A type usable as a key: it can be encoded to bytes, and the encoding is a
/// function of the key's model alone.
pub trait FasterKey: Sized {
    /// The mathematical model of the type.
    type M;

    /// The model of this value.
    spec fn model(&self) -> Self::M;

    /// The byte encoding of a model.
    spec fn enc_of(m: Self::M) -> Seq<u8>;

    /// Encode this key.
    fn encode(&self) -> (r: Vec<u8>)
        ensures
            r@ == Self::enc_of(self.model()),
    ;
}

/// A type usable as a value: encodable and decodable, with decoding the exact
/// inverse of encoding.
pub trait FasterValue: Sized {
    /// The mathematical model of the type.
    type M;

    /// The model of this value.
    spec fn model(&self) -> Self::M;

    /// The byte encoding of a model.
    spec fn enc_of(m: Self::M) -> Seq<u8>;

    /// What the given bytes decode to, if anything.
    spec fn dec_of(b: Seq<u8>) -> Option<Self::M>;

    /// Encode this value.
    fn encode(&self) -> (r: Vec<u8>)
        ensures
            r@ == Self::enc_of(self.model()),
    ;

    /// Decode a value from bytes. Succeeds exactly on the bytes that
    /// `dec_of` accepts, and yields a value with the decoded model.
    fn decode(b: &[u8]) -> (r: Option<Self>)
        ensures
            match r {
                Some(w) => Self::dec_of(b@) == Some(w.model()),
                None => Self::dec_of(b@) is None,
            },
    ;

    /// Decoding inverts encoding: every encoded model decodes back to itself.
    proof fn round_trip(m: Self::M)
        ensures
            Self::dec_of(Self::enc_of(m)) == Some(m),
    ;
}

/// A value type with read-modify-write support: a user-supplied merge
/// function combines a stored value (or, for an absent key, the initial
/// value) with an incoming modification. The merge must be total: `rmw`
/// has no precondition.
pub trait FasterRmw: FasterValue {
    /// The merge function, on models.
    spec fn merge_of(cur: <Self as FasterValue>::M, m: <Self as FasterValue>::M) -> <Self as FasterValue>::M;

    /// The initial value an absent key is taken to hold when merged into.
    spec fn init_of() -> <Self as FasterValue>::M;

    /// Combine this stored value with a modification.
    fn rmw(&self, modification: Self) -> (r: Self)
        ensures
            r.model() == Self::merge_of(self.model(), modification.model()),
    ;

    /// The initial value merged into when the key is absent.
    fn rmw_default() -> (r: Self)
        ensures
            r.model() == Self::init_of(),
    ;
}

/// What the merge dispatcher produces from the stored bytes of a key
/// (`None` when the key is absent) and the modification bytes: the encoding
/// of the merged value, or nothing when the stored or modification bytes do
/// not decode.
pub open spec fn merged_of<V: FasterRmw>(cur: Option<Seq<u8>>, m: Seq<u8>) -> Option<Seq<u8>> {
    match V::dec_of(m) {
        None => None,
        Some(mm) => match cur {
            None => Some(V::enc_of(V::merge_of(V::init_of(), mm))),
            Some(cb) => match V::dec_of(cb) {
                None => None,
                Some(cm) => Some(V::enc_of(V::merge_of(cm, mm))),
            },
        },
    }
}

/// The read-completion callback: invoked at most once per issued read, with
/// the terminal status and the raw value bytes. On a successful status it
/// decodes the bytes and delivers the value into the completion conduit;
/// otherwise, or when the bytes do not decode, it delivers nothing. Either
/// way the producer end ends closed, so no second delivery can follow.
pub fn read_callback<V: FasterValue>(slot: &mut CompletionSlot<V>, status_code: u8, buffer: &[u8])
    requires
        old(slot).is_open(),
        old(slot).delivered() is None,
    ensures
        !final(slot).is_open(),
        match final(slot).delivered() {
            Some(w) => status_code == status::OK && V::dec_of(buffer@) == Some(w.model()),
            None => !(status_code == status::OK && V::dec_of(buffer@) is Some),
        },
{
    if status_code == status::OK {
        match V::decode(buffer) {
            Some(v) => slot.send(v),
            None => slot.close(),
        }
    } else {
        slot.close();
    }
}

/// The merge dispatcher, as the engine invokes it: given the stored bytes of
/// the key (`None` when the key is absent), the modification bytes, and a
/// destination buffer of the given capacity, it computes the encoding of the
/// merged value and writes it into the destination if the capacity suffices;
/// either way it reports the required size, so the engine can retry with a
/// larger buffer. Yields `None`, touching nothing, when the stored or
/// modification bytes do not decode: such a failure must not cross the
/// engine boundary.
pub fn rmw_callback<V: FasterRmw>(
    current: Option<&Vec<u8>>,
    modification: &Vec<u8>,
    dst: &mut Vec<u8>,
    capacity: usize,
) -> (r: Option<usize>)
    ensures
        match merged_of::<V>(spec_bytes_of(current), modification@) {
            None => r is None && final(dst)@ == old(dst)@,
            Some(out) => {
                &&& r == Some(out.len() as usize)
                &&& out.len() <= capacity ==> final(dst)@ == out
                &&& out.len() > capacity ==> final(dst)@ == old(dst)@
            },
        },
{
    match rmw_merge::<V>(current, modification) {
        None => None,
        Some(merged) => {
            let size = merged.len();
            if size <= capacity {
                *dst = merged;
            }
            Some(size)
        },
    }
}

/// The bytes a borrowed optional buffer holds.
pub open spec fn spec_bytes_of(b: Option<&Vec<u8>>) -> Option<Seq<u8>> {
    match b {
        None => None,
        Some(v) => Some(v@),
    }
}

/// The merge computation at the heart of the dispatcher: decode the stored
/// value (or take the initial one), decode the modification, merge, and
/// re-encode.
pub fn rmw_merge<V: FasterRmw>(current: Option<&Vec<u8>>, modification: &Vec<u8>) -> (r: Option<
    Vec<u8>,
>)
    ensures
        match r {
            Some(out) => merged_of::<V>(spec_bytes_of(current), modification@) == Some(out@),
            None => merged_of::<V>(spec_bytes_of(current), modification@) is None,
        },
{
    match V::decode(modification.as_slice()) {
        None => None,
        Some(m) => match current {
            None => {
                let base = V::rmw_default();
                Some(base.rmw(m).encode())
            },
            Some(cb) => match V::decode(cb.as_slice()) {
                None => None,
                Some(cur) => Some(cur.rmw(m).encode()),
            },
        },
    }
}

} // verus!
