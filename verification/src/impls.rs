//! Codec and merge implementations for the built-in key and value types:
//! unsigned integers (numeric-add merge), strings (append merge), and byte
//! vectors (append merge).
use vstd::prelude::*;

use vstd::bytes::lemma_auto_spec_u64_to_from_le_bytes;
use vstd::bytes::spec_u64_from_le_bytes;
use vstd::bytes::spec_u64_to_le_bytes;
use vstd::bytes::u64_from_le_bytes;
use vstd::bytes::u64_to_le_bytes;
use vstd::slice::slice_to_vec;
use vstd::string::StringExecFns;
use vstd::utf8::decode_utf8;
use vstd::utf8::encode_utf8;
use vstd::utf8::encode_utf8_decode_utf8;
use vstd::utf8::encode_utf8_valid_utf8;
use vstd::utf8::valid_utf8;

use crate::faster_traits::FasterKey;
use crate::faster_traits::FasterRmw;
use crate::faster_traits::FasterValue;
use crate::records::copy_bytes;

verus! {

impl FasterKey for u64 {
    type M = u64;

    open spec fn model(&self) -> u64 {
        *self
    }

    open spec fn enc_of(m: u64) -> Seq<u8> {
        spec_u64_to_le_bytes(m)
    }

    fn encode(&self) -> (r: Vec<u8>) {
        u64_to_le_bytes(*self)
    }
}

impl FasterValue for u64 {
    type M = u64;

    open spec fn model(&self) -> u64 {
        *self
    }

    open spec fn enc_of(m: u64) -> Seq<u8> {
        spec_u64_to_le_bytes(m)
    }

    open spec fn dec_of(b: Seq<u8>) -> Option<u64> {
        if b.len() == 8 {
            Some(spec_u64_from_le_bytes(b))
        } else {
            None
        }
    }

    fn encode(&self) -> (r: Vec<u8>) {
        u64_to_le_bytes(*self)
    }

    fn decode(b: &[u8]) -> (r: Option<u64>) {
        if b.len() == 8 {
            Some(u64_from_le_bytes(b))
        } else {
            None
        }
    }

    proof fn round_trip(m: u64) {
        lemma_auto_spec_u64_to_from_le_bytes();
    }
}

impl FasterRmw for u64 {
    /// Numeric addition, wrapping on overflow so that the merge is total.
    open spec fn merge_of(cur: u64, m: u64) -> u64 {
        vstd::wrapping::u64_specs::wrapping_add(cur, m)
    }

    open spec fn init_of() -> u64 {
        0u64
    }

    fn rmw(&self, modification: Self) -> (r: Self) {
        self.wrapping_add(modification)
    }

    fn rmw_default() -> (r: Self) {
        0u64
    }
}

impl FasterKey for String {
    type M = Seq<char>;

    open spec fn model(&self) -> Seq<char> {
        self@
    }

    open spec fn enc_of(m: Seq<char>) -> Seq<u8> {
        encode_utf8(m)
    }

    fn encode(&self) -> (r: Vec<u8>) {
        slice_to_vec(self.as_str().as_bytes())
    }
}

/// Relies on `str::from_utf8`, which succeeds exactly on valid UTF-8 input
/// and yields the character sequence the bytes encode.
#[verifier::external_body]
fn utf8_decode(b: &[u8]) -> (r: Option<String>)
    ensures
        r is Some <==> valid_utf8(b@),
        match r {
            Some(s) => s@ == decode_utf8(b@),
            None => true,
        },
{
    match core::str::from_utf8(b) {
        Ok(s) => Some(s.to_owned()),
        Err(_) => None,
    }
}

impl FasterValue for String {
    type M = Seq<char>;

    open spec fn model(&self) -> Seq<char> {
        self@
    }

    open spec fn enc_of(m: Seq<char>) -> Seq<u8> {
        encode_utf8(m)
    }

    open spec fn dec_of(b: Seq<u8>) -> Option<Seq<char>> {
        if valid_utf8(b) {
            Some(decode_utf8(b))
        } else {
            None
        }
    }

    fn encode(&self) -> (r: Vec<u8>) {
        slice_to_vec(self.as_str().as_bytes())
    }

    fn decode(b: &[u8]) -> (r: Option<String>) {
        utf8_decode(b)
    }

    proof fn round_trip(m: Seq<char>) {
        encode_utf8_valid_utf8(m);
        encode_utf8_decode_utf8(m);
    }
}

impl FasterRmw for String {
    /// Sequence append: the modification's characters follow the stored ones.
    open spec fn merge_of(cur: Seq<char>, m: Seq<char>) -> Seq<char> {
        cur + m
    }

    open spec fn init_of() -> Seq<char> {
        Seq::<char>::empty()
    }

    fn rmw(&self, modification: Self) -> (r: Self) {
        let r = self.clone().concat(modification.as_str());
        proof {
            assert(r@ =~= self@ + modification@);
        }
        r
    }

    fn rmw_default() -> (r: Self) {
        String::new()
    }
}

impl FasterKey for Vec<u8> {
    type M = Seq<u8>;

    open spec fn model(&self) -> Seq<u8> {
        self@
    }

    open spec fn enc_of(m: Seq<u8>) -> Seq<u8> {
        m
    }

    fn encode(&self) -> (r: Vec<u8>) {
        copy_bytes(self)
    }
}

impl FasterValue for Vec<u8> {
    type M = Seq<u8>;

    open spec fn model(&self) -> Seq<u8> {
        self@
    }

    open spec fn enc_of(m: Seq<u8>) -> Seq<u8> {
        m
    }

    open spec fn dec_of(b: Seq<u8>) -> Option<Seq<u8>> {
        Some(b)
    }

    fn encode(&self) -> (r: Vec<u8>) {
        copy_bytes(self)
    }

    fn decode(b: &[u8]) -> (r: Option<Vec<u8>>) {
        Some(slice_to_vec(b))
    }

    proof fn round_trip(m: Seq<u8>) {
    }
}

impl FasterRmw for Vec<u8> {
    /// Sequence append: the modification's bytes follow the stored ones.
    open spec fn merge_of(cur: Seq<u8>, m: Seq<u8>) -> Seq<u8> {
        cur + m
    }

    open spec fn init_of() -> Seq<u8> {
        Seq::<u8>::empty()
    }

    fn rmw(&self, modification: Self) -> (r: Self) {
        let mut r = copy_bytes(self);
        append_bytes(&mut r, &modification);
        r
    }

    fn rmw_default() -> (r: Self) {
        Vec::new()
    }
}

/// Append the source bytes to the destination, in order.
fn append_bytes(dst: &mut Vec<u8>, src: &Vec<u8>)
    ensures
        final(dst)@ == old(dst)@ + src@,
{
    let n = src.len();
    let mut i: usize = 0;
    while i < n
        invariant
            n == src@.len(),
            i <= n,
            dst@.len() == old(dst)@.len() + i,
            forall|j: int| 0 <= j < old(dst)@.len() ==> dst@[j] == old(dst)@[j],
            forall|j: int| 0 <= j < i ==> dst@[old(dst)@.len() + j] == src@[j],
        decreases n - i,
    {
        dst.push(src[i]);
        i += 1;
    }
    proof {
        assert(dst@ =~= old(dst)@ + src@);
    }
}

} // verus!
