//! Audio chunks: immutable, cheaply shared byte spans of the `bytes` crate,
//! and the byte count of a run of them.
use bytes::Bytes;
use vstd::prelude::*;

verus! {

#[verifier::external_type_specification]
#[verifier::external_body]
pub struct ExBytes(Bytes);

/// The bytes that a chunk holds.
pub uninterp spec fn chunk_bytes(b: Bytes) -> Seq<u8>;

/// Relies on `bytes::Bytes::len`: the number of bytes in the span.
pub assume_specification[ Bytes::len ](b: &Bytes) -> (r: usize)
    ensures
        r == chunk_bytes(*b).len(),
;

/// Length of one chunk, in bytes.
pub open spec fn chunk_len(b: Bytes) -> nat {
    chunk_bytes(b).len()
}

/// Sum of the lengths of a run of chunks.
pub open spec fn total_len(s: Seq<Bytes>) -> nat
    decreases s.len(),
{
    if s.len() == 0 {
        0
    } else {
        total_len(s.drop_last()) + chunk_len(s.last())
    }
}

/// Appending a chunk adds its length.
pub proof fn lemma_total_len_push(s: Seq<Bytes>, b: Bytes)
    ensures
        total_len(s.push(b)) == total_len(s) + chunk_len(b),
{
    assert(s.push(b).drop_last() =~= s);
}

/// Removing the first chunk takes away its length.
pub proof fn lemma_total_len_drop_first(s: Seq<Bytes>)
    requires
        s.len() > 0,
    ensures
        total_len(s) == chunk_len(s[0]) + total_len(s.drop_first()),
    decreases s.len(),
{
    if s.len() == 1 {
        assert(s.drop_last() =~= Seq::<Bytes>::empty());
        assert(s.drop_first() =~= Seq::<Bytes>::empty());
    } else {
        lemma_total_len_drop_first(s.drop_last());
        assert(s.drop_last().drop_first() =~= s.drop_first().drop_last());
        assert(s.drop_first().last() == s.last());
    }
}

} // verus!
