//! Sizing of the audio buffer.
use vstd::prelude::*;

verus! {

/// Nominal byte budget of the buffer: five mebibytes.
pub const BUFFER_SIZE_BYTES: u64 = 5 * 1024 * 1024;

/// Nominal size of one captured chunk, in bytes.
pub const CHUNK_SIZE: u64 = 4096;

/// Chunks allowed beyond what the byte budget holds at the nominal size.
pub const CHUNK_HEADROOM: u64 = 256;

/// Share of the chunk capacity, in percent, that must be queued before
/// playback starts.
pub const PREBUFFER_PERCENT: u64 = 60;

/// Chunk capacity: the byte budget over the nominal chunk size, plus headroom.
pub const MAX_CHUNKS: usize = 1536;

/// Queued chunks needed before the buffer counts as ready.
pub const PREBUFFER_CHUNKS: usize = 921;

/// How a buffer is sized: a byte budget for reporting occupancy, a hard
/// bound on the number of queued chunks, and the readiness threshold.
#[derive(Clone, Copy, Debug, PartialEq, Eq)]
pub struct BufferConfig {
    pub byte_budget: u64,
    pub max_chunks: usize,
    pub prebuffer_chunks: usize,
}

impl BufferConfig {
    /// Sizes a buffer from a byte budget, a nominal chunk size, extra chunk
    /// headroom and the readiness threshold as a percentage of the chunk
    /// capacity (rounded down).
    pub fn from_budget(byte_budget: u64, chunk_size: u64, headroom: u64, prebuffer_percent: u64) -> (r: Option<BufferConfig>)
        requires
            chunk_size > 0,
            prebuffer_percent <= 100,
        ensures
            ({
                let cap = byte_budget / chunk_size + headroom;
                match r {
                    Some(c) => {
                        &&& cap <= usize::MAX
                        &&& c.byte_budget == byte_budget
                        &&& c.max_chunks == cap
                        &&& c.prebuffer_chunks == cap * prebuffer_percent / 100
                    },
                    None => cap > usize::MAX,
                }
            }),
    {
        let base = byte_budget / chunk_size;
        let cap = base as u128 + headroom as u128;
        assert(cap * prebuffer_percent <= cap * 100) by (nonlinear_arith)
            requires
                prebuffer_percent <= 100,
        ;
        let threshold = cap * prebuffer_percent as u128 / 100;
        if cap > usize::MAX as u128 {
            None
        } else {
            Some(BufferConfig {
                byte_budget,
                max_chunks: cap as usize,
                prebuffer_chunks: threshold as usize,
            })
        }
    }

    /// The sizing this relay runs with: a five mebibyte budget of 4096-byte
    /// chunks plus 256 chunks of headroom, ready at sixty percent of that.
    pub fn standard() -> (r: BufferConfig)
        ensures
            r.byte_budget == BUFFER_SIZE_BYTES,
            r.max_chunks == BUFFER_SIZE_BYTES / CHUNK_SIZE + CHUNK_HEADROOM,
            r.max_chunks == MAX_CHUNKS,
            r.prebuffer_chunks == r.max_chunks * PREBUFFER_PERCENT / 100,
            r.prebuffer_chunks == PREBUFFER_CHUNKS,
    {
        BufferConfig {
            byte_budget: BUFFER_SIZE_BYTES,
            max_chunks: MAX_CHUNKS,
            prebuffer_chunks: PREBUFFER_CHUNKS,
        }
    }
}

} // verus!
