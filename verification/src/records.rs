//! The store's record area: a sequence of key/value records with pairwise
//! distinct keys, denoting a map from encoded keys to encoded values.
use vstd::prelude::*;

verus! {

/// One stored record: an encoded key and the encoded value it holds.
pub struct Record {
    pub key: Vec<u8>,
    pub value: Vec<u8>,
}

/// No two records hold the same key.
pub open spec fn distinct_keys(s: Seq<Record>) -> bool {
    forall|i: int, j: int| 0 <= i < j < s.len() ==> s[i].key@ != s[j].key@
}

/// The map a record sequence denotes.
pub open spec fn records_map(s: Seq<Record>) -> Map<Seq<u8>, Seq<u8>>
    decreases s.len(),
{
    if s.len() == 0 {
        Map::<Seq<u8>, Seq<u8>>::empty()
    } else {
        records_map(s.drop_last()).insert(s.last().key@, s.last().value@)
    }
}

/// The denoted map holds exactly the keys the records hold.
pub proof fn lemma_records_map_domain(s: Seq<Record>, kb: Seq<u8>)
    ensures
        records_map(s).contains_key(kb) <==> exists|i: int| 0 <= i < s.len() && s[i].key@ == kb,
    decreases s.len(),
{
    if s.len() > 0 {
        lemma_records_map_domain(s.drop_last(), kb);
        if s.last().key@ == kb {
            assert(s[s.len() - 1].key@ == kb);
        } else if records_map(s).contains_key(kb) {
            let i = choose|i: int| 0 <= i < s.drop_last().len() && s.drop_last()[i].key@ == kb;
            assert(s[i].key@ == kb);
        } else if exists|i: int| 0 <= i < s.len() && s[i].key@ == kb {
            let i = choose|i: int| 0 <= i < s.len() && s[i].key@ == kb;
            assert(s.drop_last()[i].key@ == kb);
        }
    }
}

/// With distinct keys, each record's key maps to that record's value.
pub proof fn lemma_records_map_index(s: Seq<Record>, i: int)
    requires
        distinct_keys(s),
        0 <= i < s.len(),
    ensures
        records_map(s).contains_key(s[i].key@),
        records_map(s)[s[i].key@] == s[i].value@,
    decreases s.len(),
{
    if i == s.len() - 1 {
    } else {
        assert(s[i].key@ != s.last().key@);
        assert(s.drop_last()[i] == s[i]);
        lemma_records_map_index(s.drop_last(), i);
    }
}

/// Appending a record with a fresh key inserts its pair into the map.
pub proof fn lemma_records_map_push(s: Seq<Record>, e: Record)
    ensures
        records_map(s.push(e)) == records_map(s).insert(e.key@, e.value@),
{
    assert(s.push(e).drop_last() =~= s);
    assert(s.push(e).last() == e);
}

/// Replacing the record at `i` by one with the same key updates that key's
/// value and keeps the keys distinct.
pub proof fn lemma_records_map_update(s: Seq<Record>, i: int, e: Record)
    requires
        distinct_keys(s),
        0 <= i < s.len(),
        e.key@ == s[i].key@,
    ensures
        distinct_keys(s.update(i, e)),
        records_map(s.update(i, e)) == records_map(s).insert(e.key@, e.value@),
    decreases s.len(),
{
    let t = s.update(i, e);
    assert forall|p: int, q: int| 0 <= p < q < t.len() implies t[p].key@ != t[q].key@ by {
        assert(s[p].key@ != s[q].key@);
    }
    if i == s.len() - 1 {
        assert(t.drop_last() =~= s.drop_last());
        assert(t.last() == e);
        assert(records_map(t) =~= records_map(s).insert(e.key@, e.value@));
    } else {
        assert(t.drop_last() =~= s.drop_last().update(i, e));
        assert(t.last() == s.last());
        lemma_records_map_update(s.drop_last(), i, e);
        assert(e.key@ != s.last().key@);
        assert(records_map(t) =~= records_map(s).insert(e.key@, e.value@));
    }
}

/// Removing the record at `i` removes its key from the map and keeps the
/// keys distinct.
pub proof fn lemma_records_map_remove(s: Seq<Record>, i: int)
    requires
        distinct_keys(s),
        0 <= i < s.len(),
    ensures
        distinct_keys(s.remove(i)),
        records_map(s.remove(i)) == records_map(s).remove(s[i].key@),
    decreases s.len(),
{
    let t = s.remove(i);
    s.remove_ensures(i);
    assert forall|p: int, q: int| 0 <= p < q < t.len() implies t[p].key@ != t[q].key@ by {
        let sp: int = if p < i {
            p
        } else {
            p + 1
        };
        let sq: int = if q < i {
            q
        } else {
            q + 1
        };
        assert(t[p] == s[sp] && t[q] == s[sq]);
        assert(s[sp].key@ != s[sq].key@);
    }
    if i == s.len() - 1 {
        assert(t =~= s.drop_last());
        lemma_records_map_domain(s.drop_last(), s[i].key@);
        assert forall|j: int| 0 <= j < s.drop_last().len() implies s.drop_last()[j].key@
            != s[i].key@ by {
            assert(s[j].key@ != s[i].key@);
        }
        assert(!records_map(s.drop_last()).contains_key(s[i].key@));
        assert(records_map(t) =~= records_map(s).remove(s[i].key@));
    } else {
        assert(t.len() == s.len() - 1);
        assert(t.drop_last() =~= s.drop_last().remove(i));
        assert(t.last() == s.last());
        lemma_records_map_remove(s.drop_last(), i);
        assert(s[i].key@ != s.last().key@);
        assert(s.drop_last()[i] == s[i]);
        assert(records_map(t) =~= records_map(s).remove(s[i].key@));
    }
}

/// With distinct keys, the denoted map holds exactly as many pairs as there
/// are records.
pub proof fn lemma_records_map_len(s: Seq<Record>)
    requires
        distinct_keys(s),
    ensures
        records_map(s).dom().finite(),
        records_map(s).len() == s.len(),
    decreases s.len(),
{
    broadcast use vstd::set::group_set_axioms;
    broadcast use vstd::map::group_map_axioms;

    if s.len() == 0 {
        assert(records_map(s).dom() =~= Set::<Seq<u8>>::empty());
    } else {
        lemma_records_map_len(s.drop_last());
        lemma_records_map_domain(s.drop_last(), s.last().key@);
        assert forall|j: int| 0 <= j < s.drop_last().len() implies s.drop_last()[j].key@
            != s.last().key@ by {
            assert(s[j].key@ != s[s.len() - 1].key@);
        }
        assert(!records_map(s.drop_last()).contains_key(s.last().key@));
        assert(records_map(s).dom() =~= records_map(s.drop_last()).dom().insert(s.last().key@));
    }
}

/// Byte-vector equality, decided by content.
pub fn bytes_eq(a: &Vec<u8>, b: &Vec<u8>) -> (r: bool)
    ensures
        r == (a@ == b@),
{
    if a.len() != b.len() {
        return false;
    }
    let n = a.len();
    let mut i: usize = 0;
    while i < n
        invariant
            n == a.len() == b.len(),
            i <= n,
            forall|j: int| 0 <= j < i ==> a@[j] == b@[j],
        decreases n - i,
    {
        if a[i] != b[i] {
            return false;
        }
        i += 1;
    }
    proof {
        assert(a@ =~= b@);
    }
    true
}

/// Locate the record holding the given key, if any.
pub fn find_record(data: &Vec<Record>, kb: &Vec<u8>) -> (r: Option<usize>)
    requires
        distinct_keys(data@),
    ensures
        match r {
            Some(i) => {
                &&& i < data@.len()
                &&& data@[i as int].key@ == kb@
                &&& records_map(data@).contains_key(kb@)
                &&& records_map(data@)[kb@] == data@[i as int].value@
            },
            None => !records_map(data@).contains_key(kb@),
        },
{
    let n = data.len();
    let mut i: usize = 0;
    while i < n
        invariant
            distinct_keys(data@),
            n == data@.len(),
            i <= n,
            forall|j: int| 0 <= j < i ==> data@[j].key@ != kb@,
        decreases n - i,
    {
        if bytes_eq(&data[i].key, kb) {
            proof {
                lemma_records_map_index(data@, i as int);
            }
            return Some(i);
        }
        i += 1;
    }
    proof {
        lemma_records_map_domain(data@, kb@);
    }
    None
}

/// Copy a byte vector, content for content.
pub fn copy_bytes(v: &Vec<u8>) -> (r: Vec<u8>)
    ensures
        r@ == v@,
{
    let n = v.len();
    let mut out: Vec<u8> = Vec::new();
    let mut i: usize = 0;
    while i < n
        invariant
            n == v@.len(),
            i <= n,
            out@.len() == i,
            forall|j: int| 0 <= j < i ==> out@[j] == v@[j],
        decreases n - i,
    {
        out.push(v[i]);
        i += 1;
    }
    proof {
        assert(out@ =~= v@);
    }
    out
}

/// Copy a record sequence, preserving every record's content.
pub fn copy_records(data: &Vec<Record>) -> (r: Vec<Record>)
    ensures
        r@.len() == data@.len(),
        forall|i: int|
            #![trigger r@[i]]
            0 <= i < data@.len() ==> r@[i].key@ == data@[i].key@ && r@[i].value@
                == data@[i].value@,
        records_map(r@) == records_map(data@),
        distinct_keys(data@) ==> distinct_keys(r@),
{
    let n = data.len();
    let mut out: Vec<Record> = Vec::new();
    let mut i: usize = 0;
    while i < n
        invariant
            n == data@.len(),
            i <= n,
            out@.len() == i,
            forall|j: int|
                #![trigger out@[j]]
                0 <= j < i ==> out@[j].key@ == data@[j].key@ && out@[j].value@
                    == data@[j].value@,
        decreases n - i,
    {
        let k = copy_bytes(&data[i].key);
        let v = copy_bytes(&data[i].value);
        out.push(Record { key: k, value: v });
        i += 1;
    }
    proof {
        lemma_records_map_congruent(data@, out@);
    }
    out
}

/// Record sequences equal record by record denote the same map.
pub proof fn lemma_records_map_congruent(a: Seq<Record>, b: Seq<Record>)
    requires
        a.len() == b.len(),
        forall|i: int|
            #![trigger b[i]]
            0 <= i < a.len() ==> b[i].key@ == a[i].key@ && b[i].value@ == a[i].value@,
    ensures
        records_map(a) == records_map(b),
        distinct_keys(a) ==> distinct_keys(b),
    decreases a.len(),
{
    if a.len() > 0 {
        assert forall|i: int|
            #![trigger b.drop_last()[i]]
            0 <= i < a.drop_last().len() implies b.drop_last()[i].key@
            == a.drop_last()[i].key@ && b.drop_last()[i].value@ == a.drop_last()[i].value@ by {
            assert(b[i].key@ == a[i].key@ && b[i].value@ == a[i].value@);
        }
        lemma_records_map_congruent(a.drop_last(), b.drop_last());
        assert(b[a.len() - 1].key@ == a[a.len() - 1].key@ && b[a.len() - 1].value@ == a[a.len()
            - 1].value@);
        assert(b.last().key@ == a.last().key@ && b.last().value@ == a.last().value@);
        assert(records_map(a) =~= records_map(b));
    }
    if distinct_keys(a) {
        assert forall|i: int, j: int| 0 <= i < j < b.len() implies b[i].key@ != b[j].key@ by {
            assert(a[i].key@ != a[j].key@);
        }
    }
}

} // verus!
