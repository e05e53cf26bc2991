//! The bounded FIFO of audio chunks, its counters and its readiness flag.
use crate::chunk::{chunk_len, lemma_total_len_drop_first, lemma_total_len_push, total_len};
use crate::config::BufferConfig;
use bytes::Bytes;
use std::collections::VecDeque;
use vstd::prelude::*;

verus! {

/// Occupancy and cumulative throughput of a buffer.
///
/// Chunks leave the queue either by being read or by being evicted to make
/// room, so `bytes_written == bytes_read + bytes_evicted + current_size`, and
/// the same holds of the chunk counters and the queue length.
#[derive(Clone, Copy, Debug, PartialEq, Eq)]
pub struct BufferStats {
    /// Bytes currently queued.
    pub current_size: u64,
    /// Bytes ever enqueued.
    pub bytes_written: u64,
    /// Bytes ever handed to a reader.
    pub bytes_read: u64,
    /// Chunks ever enqueued.
    pub chunks_written: u64,
    /// Chunks ever handed to a reader.
    pub chunks_read: u64,
    /// Bytes ever discarded to keep within the chunk capacity.
    pub bytes_evicted: u64,
    /// Chunks ever discarded to keep within the chunk capacity.
    pub chunks_evicted: u64,
    /// Whether enough data has accumulated for playback to start.
    pub is_prebuffered: bool,
}

/// The abstract state of a buffer: its queued chunks, oldest first, its
/// counters and its sizing.
pub struct BufferModel {
    pub chunks: Seq<Bytes>,
    pub stats: BufferStats,
    pub max_chunks: nat,
    pub prebuffer_chunks: nat,
    pub byte_budget: nat,
}

impl BufferModel {
    /// The state's own consistency: the queue stays within its capacity,
    /// `current_size` is the sum of the queued lengths, and every byte and
    /// chunk ever written is queued, read or evicted (and no byte was
    /// evicted while no chunk was).
    pub open spec fn wf(self) -> bool {
        &&& self.max_chunks > 0
        &&& self.chunks.len() <= self.max_chunks
        &&& self.stats.current_size == total_len(self.chunks)
        &&& self.stats.bytes_written == self.stats.bytes_read + self.stats.bytes_evicted
            + self.stats.current_size
        &&& self.stats.chunks_written == self.stats.chunks_read + self.stats.chunks_evicted
            + self.chunks.len()
        &&& self.stats.chunks_evicted == 0 ==> self.stats.bytes_evicted == 0
    }

    /// How many of the oldest chunks a `put` discards: just enough to leave
    /// room for one more.
    pub open spec fn evict_count(self) -> nat {
        if self.chunks.len() >= self.max_chunks {
            (self.chunks.len() - self.max_chunks + 1) as nat
        } else {
            0
        }
    }

    /// Whether the counters can take one more chunk of `len` bytes.
    pub open spec fn can_put(self, len: nat) -> bool {
        &&& self.stats.bytes_written + len <= u64::MAX
        &&& self.stats.chunks_written < u64::MAX
    }

    /// The state after appending `b`: the oldest chunks are evicted until
    /// one more fits, `b` goes to the tail, and readiness becomes whether
    /// the queue now holds at least the threshold.
    pub open spec fn put(self, b: Bytes) -> BufferModel {
        let k = self.evict_count() as int;
        let kept = self.chunks.subrange(k, self.chunks.len() as int);
        let evicted = self.chunks.subrange(0, k);
        let chunks = kept.push(b);
        BufferModel {
            chunks,
            stats: BufferStats {
                current_size: (total_len(kept) + chunk_len(b)) as u64,
                bytes_written: (self.stats.bytes_written + chunk_len(b)) as u64,
                bytes_read: self.stats.bytes_read,
                chunks_written: (self.stats.chunks_written + 1) as u64,
                chunks_read: self.stats.chunks_read,
                bytes_evicted: (self.stats.bytes_evicted + total_len(evicted)) as u64,
                chunks_evicted: (self.stats.chunks_evicted + k) as u64,
                is_prebuffered: chunks.len() >= self.prebuffer_chunks,
            },
            ..self
        }
    }

    /// The state after a read: the head chunk leaves and is counted as
    /// read; readiness is cleared if the queue is (or was already) empty
    /// and otherwise kept.
    pub open spec fn get(self) -> BufferModel {
        if self.chunks.len() == 0 {
            BufferModel { stats: BufferStats { is_prebuffered: false, ..self.stats }, ..self }
        } else {
            let head = self.chunks[0];
            let chunks = self.chunks.drop_first();
            BufferModel {
                chunks,
                stats: BufferStats {
                    current_size: (self.stats.current_size - chunk_len(head)) as u64,
                    bytes_read: (self.stats.bytes_read + chunk_len(head)) as u64,
                    chunks_read: (self.stats.chunks_read + 1) as u64,
                    is_prebuffered: self.stats.is_prebuffered && chunks.len() > 0,
                    ..self.stats
                },
                ..self
            }
        }
    }

    /// What a read returns: the head chunk, if any.
    pub open spec fn head(self) -> Option<Bytes> {
        if self.chunks.len() == 0 {
            None
        } else {
            Some(self.chunks[0])
        }
    }

    /// Queued bytes relative to the byte budget, in hundredths of a
    /// percent, rounded down; zero for a zero budget.
    pub open spec fn basis_points(self) -> nat {
        if self.byte_budget == 0 {
            0
        } else {
            (self.stats.current_size as nat * 10000 / self.byte_budget) as nat
        }
    }
}

/// A bounded FIFO of audio chunks. When full, the oldest chunks give way to
/// the newest. A readiness flag goes up when the queue reaches the
/// prebuffer threshold and comes down when a read finds or leaves it empty.
pub struct AudioRingBuffer {
    queue: VecDeque<Bytes>,
    stats: BufferStats,
    max_chunks: usize,
    prebuffer_chunks: usize,
    byte_budget: u64,
}

impl View for AudioRingBuffer {
    type V = BufferModel;

    closed spec fn view(&self) -> BufferModel {
        BufferModel {
            chunks: self.queue@,
            stats: self.stats,
            max_chunks: self.max_chunks as nat,
            prebuffer_chunks: self.prebuffer_chunks as nat,
            byte_budget: self.byte_budget as nat,
        }
    }
}

impl AudioRingBuffer {
    /// An empty buffer, not ready, with all counters at zero.
    pub fn new(config: BufferConfig) -> (r: AudioRingBuffer)
        requires
            config.max_chunks > 0,
        ensures
            r@.wf(),
            r@.chunks == Seq::<Bytes>::empty(),
            r@.stats == (BufferStats {
                current_size: 0,
                bytes_written: 0,
                bytes_read: 0,
                chunks_written: 0,
                chunks_read: 0,
                bytes_evicted: 0,
                chunks_evicted: 0,
                is_prebuffered: false,
            }),
            r@.max_chunks == config.max_chunks,
            r@.prebuffer_chunks == config.prebuffer_chunks,
            r@.byte_budget == config.byte_budget,
    {
        let r = AudioRingBuffer {
            queue: VecDeque::with_capacity(config.max_chunks),
            stats: BufferStats {
                current_size: 0,
                bytes_written: 0,
                bytes_read: 0,
                chunks_written: 0,
                chunks_read: 0,
                bytes_evicted: 0,
                chunks_evicted: 0,
                is_prebuffered: false,
            },
            max_chunks: config.max_chunks,
            prebuffer_chunks: config.prebuffer_chunks,
            byte_budget: config.byte_budget,
        };
        assert(r.queue@ =~= Seq::<Bytes>::empty());
        r
    }

    /// Whether the counters can take `chunk`; `put` asks for this.
    pub fn can_put(&self, chunk: &Bytes) -> (r: bool)
        ensures
            r == self@.can_put(chunk_len(*chunk)),
    {
        let len = chunk.len() as u64;
        len <= u64::MAX - self.stats.bytes_written && self.stats.chunks_written < u64::MAX
    }

    /// Appends `chunk`, first evicting the oldest chunks while the queue is
    /// at capacity. Returns whether this call raised the readiness flag.
    pub fn put(&mut self, chunk: Bytes) -> (became_ready: bool)
        requires
            old(self)@.wf(),
            old(self)@.can_put(chunk_len(chunk)),
        ensures
            final(self)@ == old(self)@.put(chunk),
            final(self)@.wf(),
            became_ready == (!old(self)@.stats.is_prebuffered && final(self)@.stats.is_prebuffered),
    {
        let ghost start = self@;
        let ghost k = start.evict_count() as int;
        let len = chunk.len();
        let mut i: usize = 0;
        while self.queue.len() >= self.max_chunks
            invariant
                start.wf(),
                self.max_chunks == start.max_chunks,
                self.prebuffer_chunks == start.prebuffer_chunks,
                self.byte_budget == start.byte_budget,
                k == start.evict_count(),
                i <= k,
                k <= start.chunks.len(),
                self.queue@ == start.chunks.subrange(i as int, start.chunks.len() as int),
                self.stats.current_size == total_len(self.queue@),
                self.stats.bytes_evicted == start.stats.bytes_evicted + total_len(
                    start.chunks.subrange(0, i as int),
                ),
                self.stats.chunks_evicted == start.stats.chunks_evicted + i,
                self.stats.bytes_written == start.stats.bytes_written,
                self.stats.bytes_read == start.stats.bytes_read,
                self.stats.chunks_written == start.stats.chunks_written,
                self.stats.chunks_read == start.stats.chunks_read,
                self.stats.is_prebuffered == start.stats.is_prebuffered,
                self.stats.bytes_written == self.stats.bytes_read + self.stats.bytes_evicted
                    + self.stats.current_size,
                self.stats.chunks_written == self.stats.chunks_read + self.stats.chunks_evicted
                    + self.queue@.len(),
            decreases self.queue@.len(),
        {
            let ghost before = self.queue@;
            let oldest = self.queue.pop_front();
            match oldest {
                Some(b) => {
                    proof {
                        lemma_total_len_drop_first(before);
                        lemma_total_len_push(start.chunks.subrange(0, i as int), b);
                        assert(start.chunks.subrange(0, i as int).push(b) =~= start.chunks.subrange(
                            0,
                            i + 1,
                        ));
                        assert(before.drop_first() =~= start.chunks.subrange(
                            i + 1,
                            start.chunks.len() as int,
                        ));
                    }
                    self.stats.current_size = self.stats.current_size - b.len() as u64;
                    self.stats.bytes_evicted = self.stats.bytes_evicted + b.len() as u64;
                    self.stats.chunks_evicted = self.stats.chunks_evicted + 1;
                    i = i + 1;
                },
                None => {},
            }
        }
        proof {
            assert(i == k);
            lemma_total_len_push(self.queue@, chunk);
        }
        let was_ready = self.stats.is_prebuffered;
        self.queue.push_back(chunk);
        self.stats.current_size = self.stats.current_size + len as u64;
        self.stats.bytes_written = self.stats.bytes_written + len as u64;
        self.stats.chunks_written = self.stats.chunks_written + 1;
        if self.queue.len() >= self.prebuffer_chunks {
            self.stats.is_prebuffered = true;
        } else {
            self.stats.is_prebuffered = false;
        }
        proof {
            assert(self@ == start.put(chunk));
        }
        !was_ready && self.stats.is_prebuffered
    }

    /// Puts `chunk` if the counters can take it, returning what `put`
    /// returns; otherwise leaves the buffer as it is and returns `None`.
    pub fn try_put(&mut self, chunk: Bytes) -> (r: Option<bool>)
        requires
            old(self)@.wf(),
        ensures
            final(self)@.wf(),
            old(self)@.can_put(chunk_len(chunk)) ==> {
                &&& final(self)@ == old(self)@.put(chunk)
                &&& r == Some(!old(self)@.stats.is_prebuffered && final(self)@.stats.is_prebuffered)
            },
            !old(self)@.can_put(chunk_len(chunk)) ==> {
                &&& final(self)@ == old(self)@
                &&& r == None::<bool>
            },
    {
        if self.can_put(&chunk) {
            Some(self.put(chunk))
        } else {
            None
        }
    }

    /// Removes and returns the oldest chunk, or `None` if the queue is
    /// empty. Leaving or finding the queue empty clears the readiness flag.
    pub fn get(&mut self) -> (r: Option<Bytes>)
        requires
            old(self)@.wf(),
        ensures
            r == old(self)@.head(),
            final(self)@ == old(self)@.get(),
            final(self)@.wf(),
    {
        let ghost start = self@;
        match self.queue.pop_front() {
            Some(b) => {
                proof {
                    lemma_total_len_drop_first(start.chunks);
                }
                let len = b.len() as u64;
                self.stats.current_size = self.stats.current_size - len;
                self.stats.bytes_read = self.stats.bytes_read + len;
                self.stats.chunks_read = self.stats.chunks_read + 1;
                if self.queue.len() == 0 {
                    self.stats.is_prebuffered = false;
                }
                proof {
                    assert(self.queue@ =~= start.chunks.drop_first());
                    assert(self@ == start.get());
                }
                Some(b)
            },
            None => {
                self.stats.is_prebuffered = false;
                proof {
                    assert(self@ == start.get());
                }
                None
            },
        }
    }
}

impl AudioRingBuffer {
    /// Number of queued chunks.
    pub fn len(&self) -> (r: usize)
        ensures
            r == self@.chunks.len(),
    {
        self.queue.len()
    }

    /// Whether no chunk is queued.
    pub fn is_empty(&self) -> (r: bool)
        ensures
            r == (self@.chunks.len() == 0),
    {
        self.queue.len() == 0
    }

    /// A snapshot of the counters and the readiness flag.
    pub fn stats(&self) -> (r: BufferStats)
        ensures
            r == self@.stats,
    {
        self.stats
    }

    /// Whether the readiness flag is up.
    pub fn is_ready(&self) -> (r: bool)
        ensures
            r == self@.stats.is_prebuffered,
    {
        self.stats.is_prebuffered
    }

    /// The hard bound on queued chunks.
    pub fn max_chunks(&self) -> (r: usize)
        ensures
            r == self@.max_chunks,
    {
        self.max_chunks
    }

    /// Queued chunks needed to raise the readiness flag.
    pub fn prebuffer_chunks(&self) -> (r: usize)
        ensures
            r == self@.prebuffer_chunks,
    {
        self.prebuffer_chunks
    }

    /// The nominal byte budget that occupancy is measured against.
    pub fn byte_budget(&self) -> (r: u64)
        ensures
            r == self@.byte_budget,
    {
        self.byte_budget
    }

    /// Queued bytes over the byte budget, in hundredths of a percent,
    /// rounded down and not clamped: a buffer of chunks larger than the
    /// nominal size can exceed 10000. Zero for a zero budget.
    pub fn occupancy_basis_points(&self) -> (r: u128)
        ensures
            r == self@.basis_points(),
    {
        if self.byte_budget == 0 {
            0
        } else {
            assert(self.stats.current_size * 10000 <= u64::MAX * 10000) by (nonlinear_arith)
                requires
                    self.stats.current_size <= u64::MAX,
            ;
            self.stats.current_size as u128 * 10000 / self.byte_budget as u128
        }
    }
}

} // verus!
