//! The store's cross-operation laws, proved over the denoted key/value map
//! and the codec contracts.
use vstd::prelude::*;

use crate::active_id;
use crate::checkpoint_post;
use crate::faster_error::FasterError;
use crate::faster_traits::merged_of;
use crate::faster_traits::FasterKey;
use crate::faster_traits::FasterRmw;
use crate::faster_traits::FasterValue;
use crate::session::persist_all;
use crate::util::CheckPoint;
use crate::FasterKv;

verus! {

/// A combined checkpoint's token names a snapshot covering both the index
/// and the hybrid log that holds exactly the store state at checkpoint
/// time: the denoted map, the session table with every serial count made
/// durable, and the attached session. Recovering with that token in both
/// positions therefore restores the key count and the active session list
/// to their pre-checkpoint state.
pub proof fn lemma_checkpoint_token_restores(
    a: FasterKv,
    b: FasterKv,
    r: Result<CheckPoint, FasterError>,
)
    requires
        checkpoint_post(a, b, r, true, true),
        r is Ok,
    ensures
        ({
            let token = r->Ok_0.token;
            &&& token < b.snaps().len()
            &&& b.snaps()[token as int].covers_index
            &&& b.snaps()[token as int].covers_log
            &&& b.snaps()[token as int].map == a.data_map()
            &&& b.snaps()[token as int].sessions == persist_all(a.sessions())
            &&& b.snaps()[token as int].active == active_id(a.current())
        }),
{
}

/// Upserting a value and then reading the same key yields that value: after
/// the insertion the key is present and its stored bytes decode back to the
/// upserted value's model, which is exactly what a read's receiver then
/// delivers.
pub proof fn lemma_upsert_then_read<K: FasterKey, V: FasterValue>(
    m: Map<Seq<u8>, Seq<u8>>,
    key: K,
    value: V,
)
    ensures
        ({
            let kb = K::enc_of(key.model());
            let m2 = m.insert(kb, V::enc_of(value.model()));
            m2.contains_key(kb) && V::dec_of(m2[kb]) == Some(value.model())
        }),
{
    V::round_trip(value.model());
}

/// Deleting a key and then reading it finds nothing: the key is absent from
/// the denoted map, so the read reports `NOT_FOUND` and its receiver never
/// delivers a value.
pub proof fn lemma_delete_then_read<K: FasterKey>(m: Map<Seq<u8>, Seq<u8>>, key: K)
    ensures
        !m.remove(K::enc_of(key.model())).contains_key(K::enc_of(key.model())),
{
}

/// A read-modify-write on an absent key merges the modification into the
/// type's initial value: the dispatcher stores the encoding of
/// `merge(initial, modification)`.
pub proof fn lemma_rmw_absent<V: FasterRmw>(m: <V as FasterValue>::M)
    ensures
        merged_of::<V>(None, V::enc_of(m)) == Some(V::enc_of(V::merge_of(V::init_of(), m))),
{
    V::round_trip(m);
}

/// A read-modify-write on a key holding a value merges the modification
/// into that value: the dispatcher stores the encoding of
/// `merge(current, modification)`.
pub proof fn lemma_rmw_present<V: FasterRmw>(cur: <V as FasterValue>::M, m: <V as FasterValue>::M)
    ensures
        merged_of::<V>(Some(V::enc_of(cur)), V::enc_of(m)) == Some(
            V::enc_of(V::merge_of(cur, m)),
        ),
{
    V::round_trip(cur);
    V::round_trip(m);
}

/// The numeric-add merge is commutative: merging `b` into `a` equals
/// merging `a` into `b`.
pub proof fn lemma_numeric_add_merge_commutes(a: u64, b: u64)
    ensures
        <u64 as FasterRmw>::merge_of(a, b) == <u64 as FasterRmw>::merge_of(b, a),
{
}

/// The sequence-append merge is not commutative: merge order matters for
/// byte sequences.
pub proof fn lemma_append_merge_not_commutative()
    ensures
        exists|a: Seq<u8>, b: Seq<u8>|
            #[trigger] <Vec<u8> as FasterRmw>::merge_of(a, b) != <Vec<u8> as FasterRmw>::merge_of(
                b,
                a,
            ),
{
    let a = seq![0u8];
    let b = seq![1u8];
    assert((a + b)[0] == 0u8 && (b + a)[0] == 1u8);
    assert(<Vec<u8> as FasterRmw>::merge_of(a, b) != <Vec<u8> as FasterRmw>::merge_of(b, a));
}

} // verus!
