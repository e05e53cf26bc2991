//! Properties of the buffer over whole histories of operations.
use crate::chunk::{chunk_len, total_len};
use crate::ring::BufferModel;
use bytes::Bytes;
use vstd::prelude::*;

verus! {

/// One operation on a buffer.
pub enum BufferOp {
    Put(Bytes),
    Get,
}

/// The state after one operation.
pub open spec fn apply(m: BufferModel, op: BufferOp) -> BufferModel {
    match op {
        BufferOp::Put(b) => m.put(b),
        BufferOp::Get => m.get(),
    }
}

/// The state after a history of operations, first to last.
pub open spec fn run(m: BufferModel, ops: Seq<BufferOp>) -> BufferModel
    decreases ops.len(),
{
    if ops.len() == 0 {
        m
    } else {
        run(apply(m, ops[0]), ops.drop_first())
    }
}

/// Bytes that one operation brings.
pub open spec fn op_bytes(op: BufferOp) -> nat {
    match op {
        BufferOp::Put(b) => chunk_len(b),
        BufferOp::Get => 0,
    }
}

/// Chunks that one operation brings.
pub open spec fn op_puts(op: BufferOp) -> nat {
    match op {
        BufferOp::Put(_) => 1,
        BufferOp::Get => 0,
    }
}

/// Bytes that the puts of a history bring.
pub open spec fn bytes_put(ops: Seq<BufferOp>) -> nat
    decreases ops.len(),
{
    if ops.len() == 0 {
        0
    } else {
        op_bytes(ops[0]) + bytes_put(ops.drop_first())
    }
}

/// Number of puts in a history.
pub open spec fn puts_in(ops: Seq<BufferOp>) -> nat
    decreases ops.len(),
{
    if ops.len() == 0 {
        0
    } else {
        op_puts(ops[0]) + puts_in(ops.drop_first())
    }
}

/// Whether the counters of `m` can take every put of `ops`.
pub open spec fn counters_fit(m: BufferModel, ops: Seq<BufferOp>) -> bool {
    &&& m.stats.bytes_written + bytes_put(ops) <= u64::MAX
    &&& m.stats.chunks_written + puts_in(ops) <= u64::MAX
}

/// The state after putting each chunk of `s` in turn.
pub open spec fn put_all(m: BufferModel, s: Seq<Bytes>) -> BufferModel
    decreases s.len(),
{
    if s.len() == 0 {
        m
    } else {
        put_all(m.put(s[0]), s.drop_first())
    }
}

/// What `n` reads in a row return.
pub open spec fn read_n(m: BufferModel, n: nat) -> Seq<Option<Bytes>>
    decreases n,
{
    if n == 0 {
        Seq::empty()
    } else {
        seq![m.head()] + read_n(m.get(), (n - 1) as nat)
    }
}

/// One operation keeps a state consistent.
proof fn lemma_apply_wf(m: BufferModel, op: BufferOp)
    requires
        m.wf(),
        m.stats.bytes_written + op_bytes(op) <= u64::MAX,
        m.stats.chunks_written + op_puts(op) <= u64::MAX,
    ensures
        apply(m, op).wf(),
        apply(m, op).stats.bytes_written == m.stats.bytes_written + op_bytes(op),
        apply(m, op).stats.chunks_written == m.stats.chunks_written + op_puts(op),
{
    match op {
        BufferOp::Put(b) => {
            let k = m.evict_count() as int;
            let kept = m.chunks.subrange(k, m.chunks.len() as int);
            let evicted = m.chunks.subrange(0, k);
            lemma_total_len_split(m.chunks, k);
            crate::chunk::lemma_total_len_push(kept, b);
            if m.stats.chunks_evicted + k == 0 {
                assert(evicted =~= Seq::<Bytes>::empty());
            }
        },
        BufferOp::Get => {
            if m.chunks.len() > 0 {
                crate::chunk::lemma_total_len_drop_first(m.chunks);
            }
        },
    }
}

/// Splitting a run of chunks splits its byte count.
proof fn lemma_total_len_split(s: Seq<Bytes>, k: int)
    requires
        0 <= k <= s.len(),
    ensures
        total_len(s) == total_len(s.subrange(0, k)) + total_len(s.subrange(k, s.len() as int)),
    decreases k,
{
    if k == 0 {
        assert(s.subrange(0, 0) =~= Seq::<Bytes>::empty());
        assert(s.subrange(0, s.len() as int) =~= s);
    } else {
        lemma_total_len_split(s, k - 1);
        let t = s.subrange(k - 1, s.len() as int);
        crate::chunk::lemma_total_len_drop_first(t);
        assert(t.drop_first() =~= s.subrange(k, s.len() as int));
        crate::chunk::lemma_total_len_push(s.subrange(0, k - 1), s[k - 1]);
        assert(s.subrange(0, k - 1).push(s[k - 1]) =~= s.subrange(0, k));
    }
}

/// Every history whose puts the counters can take keeps a state consistent.
proof fn lemma_run_wf(m: BufferModel, ops: Seq<BufferOp>)
    requires
        m.wf(),
        counters_fit(m, ops),
    ensures
        run(m, ops).wf(),
    decreases ops.len(),
{
    if ops.len() > 0 {
        let op = ops[0];
        lemma_apply_wf(m, op);
        lemma_run_wf(apply(m, op), ops.drop_first());
    }
}

/// Capacity: whatever history of puts and reads a consistent buffer goes
/// through, it never queues more than its chunk capacity, and its
/// `current_size` is exactly the sum of the queued chunk lengths.
pub proof fn capacity_invariant(m: BufferModel, ops: Seq<BufferOp>)
    requires
        m.wf(),
        counters_fit(m, ops),
    ensures
        run(m, ops).chunks.len() <= m.max_chunks,
        run(m, ops).max_chunks == m.max_chunks,
        run(m, ops).stats.current_size == total_len(run(m, ops).chunks),
    decreases ops.len(),
{
    lemma_run_wf(m, ops);
    if ops.len() > 0 {
        let op = ops[0];
        lemma_apply_wf(m, op);
        capacity_invariant(apply(m, op), ops.drop_first());
    }
}

/// Conservation: after any history, every byte and chunk written is queued,
/// read or evicted; so as long as nothing has been evicted,
/// `bytes_written - bytes_read == current_size` and
/// `chunks_written - chunks_read` is the queue length.
pub proof fn conservation(m: BufferModel, ops: Seq<BufferOp>)
    requires
        m.wf(),
        counters_fit(m, ops),
    ensures
        ({
            let r = run(m, ops);
            &&& r.stats.bytes_written - r.stats.bytes_read == r.stats.current_size
                + r.stats.bytes_evicted
            &&& r.stats.chunks_written - r.stats.chunks_read == r.chunks.len()
                + r.stats.chunks_evicted
            &&& r.stats.chunks_evicted == 0 ==> {
                &&& r.stats.bytes_written - r.stats.bytes_read == r.stats.current_size
                &&& r.stats.chunks_written - r.stats.chunks_read == r.chunks.len()
            }
        }),
{
    lemma_run_wf(m, ops);
}

/// Puts that all fit within the capacity evict nothing: the chunks are
/// appended in order.
proof fn lemma_put_all_appends(m: BufferModel, s: Seq<Bytes>)
    requires
        m.wf(),
        m.chunks.len() + s.len() <= m.max_chunks,
        m.stats.bytes_written + total_len(s) <= u64::MAX,
        m.stats.chunks_written + s.len() <= u64::MAX,
    ensures
        put_all(m, s).chunks == m.chunks + s,
        put_all(m, s).wf(),
        put_all(m, s).max_chunks == m.max_chunks,
        put_all(m, s).prebuffer_chunks == m.prebuffer_chunks,
        s.len() > 0 ==> put_all(m, s).stats.is_prebuffered == ((m.chunks.len() + s.len())
            >= m.prebuffer_chunks),
    decreases s.len(),
{
    if s.len() == 0 {
        assert(m.chunks + s =~= m.chunks);
    } else {
        let b = s[0];
        let op = BufferOp::Put(b);
        crate::chunk::lemma_total_len_drop_first(s);
        lemma_apply_wf(m, op);
        let m1 = m.put(b);
        assert(m.chunks.subrange(0, m.chunks.len() as int) =~= m.chunks);
        assert(m1.chunks == m.chunks.push(b));
        lemma_put_all_appends(m1, s.drop_first());
        assert(m.chunks.push(b) + s.drop_first() =~= m.chunks + s);
    }
}

/// `n` reads from a buffer holding at least `n` chunks return its first
/// `n` chunks, oldest first.
proof fn lemma_read_n(m: BufferModel, n: nat)
    requires
        n <= m.chunks.len(),
    ensures
        read_n(m, n) =~= Seq::new(n, |i: int| Some(m.chunks[i])),
    decreases n,
{
    if n > 0 {
        lemma_read_n(m.get(), (n - 1) as nat);
        assert(m.get().chunks =~= m.chunks.drop_first());
    }
}

/// FIFO order: putting chunks into an empty buffer without exceeding its
/// capacity and then reading as many times returns the chunks in the order
/// they were put.
pub proof fn fifo_order(m: BufferModel, s: Seq<Bytes>)
    requires
        m.wf(),
        m.chunks.len() == 0,
        s.len() <= m.max_chunks,
        m.stats.bytes_written + total_len(s) <= u64::MAX,
        m.stats.chunks_written + s.len() <= u64::MAX,
    ensures
        read_n(put_all(m, s), s.len()) == s.map_values(|b: Bytes| Some(b)),
{
    lemma_put_all_appends(m, s);
    assert(m.chunks + s =~= s);
    lemma_read_n(put_all(m, s), s.len());
    assert(read_n(put_all(m, s), s.len()) =~= s.map_values(|b: Bytes| Some(b)));
}

/// Eviction: a put into a full buffer discards exactly as many of the
/// oldest chunks as needed to leave the queue at capacity, keeping the rest
/// in order with the new chunk last; a put into a buffer with room discards
/// nothing.
pub proof fn eviction_policy(m: BufferModel, b: Bytes)
    requires
        m.wf(),
    ensures
        m.chunks.len() >= m.max_chunks ==> {
            &&& m.put(b).chunks.len() == m.max_chunks
            &&& m.put(b).chunks == m.chunks.subrange(
                m.chunks.len() - m.max_chunks + 1,
                m.chunks.len() as int,
            ).push(b)
        },
        m.chunks.len() < m.max_chunks ==> m.put(b).chunks == m.chunks.push(b),
{
    assert(m.chunks.subrange(0, m.chunks.len() as int) =~= m.chunks);
}

/// Readiness crossing: pushing chunks one at a time into an empty buffer
/// (within its capacity), the readiness flag is up after the `j`-th put
/// exactly when `j` has reached the prebuffer threshold.
pub proof fn readiness_crossing(m: BufferModel, s: Seq<Bytes>, j: nat)
    requires
        m.wf(),
        m.chunks.len() == 0,
        1 <= j <= s.len(),
        s.len() <= m.max_chunks,
        m.stats.bytes_written + total_len(s) <= u64::MAX,
        m.stats.chunks_written + s.len() <= u64::MAX,
    ensures
        put_all(m, s.take(j as int)).chunks.len() == j,
        put_all(m, s.take(j as int)).stats.is_prebuffered == (j >= m.prebuffer_chunks),
{
    lemma_total_len_split(s, j as int);
    assert(s.subrange(0, j as int) =~= s.take(j as int));
    lemma_put_all_appends(m, s.take(j as int));
}

/// Readiness drop: a read leaves the flag up only if it was up and the
/// queue still holds a chunk afterwards; draining to empty lowers it, and a
/// read that leaves chunks below the threshold does not.
pub proof fn readiness_drop(m: BufferModel)
    requires
        m.wf(),
    ensures
        m.get().stats.is_prebuffered == (m.stats.is_prebuffered && m.get().chunks.len() > 0),
        m.chunks.len() > 0 ==> m.get().chunks.len() == m.chunks.len() - 1,
{
}

} // verus!
