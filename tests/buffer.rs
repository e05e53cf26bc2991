use bytes::Bytes;
use turntable_relay::config::BufferConfig;
use turntable_relay::ring::{AudioRingBuffer, BufferStats};

fn chunk(tag: u8, len: usize) -> Bytes {
    Bytes::from(vec![tag; len])
}

fn small(max_chunks: usize, prebuffer_chunks: usize) -> AudioRingBuffer {
    AudioRingBuffer::new(BufferConfig { byte_budget: 100, max_chunks, prebuffer_chunks })
}

#[test]
fn capacity_four_threshold_two_scenario() {
    let mut buf = small(4, 2);
    let (a, b, c, d, e) = (chunk(b'A', 3), chunk(b'B', 4), chunk(b'C', 5), chunk(b'D', 6), chunk(b'E', 7));
    assert!(!buf.put(a.clone()));
    assert!(!buf.is_ready());
    assert!(buf.put(b.clone()));
    assert!(buf.is_ready());
    assert!(!buf.put(c.clone()));
    assert!(!buf.put(d.clone()));
    assert!(buf.is_ready());
    assert_eq!(buf.len(), 4);
    assert_eq!(buf.stats().chunks_evicted, 0);
    assert!(!buf.put(e.clone()));
    assert_eq!(buf.len(), 4);
    assert!(buf.is_ready());
    assert_eq!(buf.stats().chunks_evicted, 1);
    assert_eq!(buf.stats().bytes_evicted, 3);
    assert_eq!(buf.get(), Some(b));
    assert_eq!(buf.get(), Some(c));
    assert_eq!(buf.get(), Some(d));
    assert!(buf.is_ready());
    assert_eq!(buf.get(), Some(e));
    assert!(!buf.is_ready());
    assert_eq!(buf.get(), None);
    assert!(!buf.is_ready());
}

#[test]
fn new_buffer_is_empty_and_not_ready() {
    let buf = small(3, 1);
    assert!(buf.is_empty());
    assert_eq!(buf.len(), 0);
    assert!(!buf.is_ready());
    assert_eq!(
        buf.stats(),
        BufferStats {
            current_size: 0,
            bytes_written: 0,
            bytes_read: 0,
            chunks_written: 0,
            chunks_read: 0,
            bytes_evicted: 0,
            chunks_evicted: 0,
            is_prebuffered: false,
        }
    );
    assert_eq!(buf.max_chunks(), 3);
    assert_eq!(buf.prebuffer_chunks(), 1);
    assert_eq!(buf.byte_budget(), 100);
}

#[test]
fn queue_never_exceeds_capacity() {
    let mut buf = small(3, 2);
    for i in 0..20u8 {
        buf.put(chunk(i, i as usize));
        assert!(buf.len() <= 3);
    }
    assert_eq!(buf.len(), 3);
    // The three newest chunks remain: lengths 17, 18 and 19.
    assert_eq!(buf.stats().current_size, 17 + 18 + 19);
}

#[test]
fn counters_balance_without_eviction() {
    let mut buf = small(10, 5);
    buf.put(chunk(1, 10));
    buf.put(chunk(2, 20));
    buf.put(chunk(3, 30));
    buf.get();
    let s = buf.stats();
    assert_eq!(s.bytes_written, 60);
    assert_eq!(s.bytes_read, 10);
    assert_eq!(s.bytes_written - s.bytes_read, s.current_size);
    assert_eq!(s.chunks_written - s.chunks_read, buf.len() as u64);
}

#[test]
fn counters_balance_with_eviction() {
    let mut buf = small(1, 1);
    buf.put(chunk(1, 3));
    buf.put(chunk(2, 5));
    let s = buf.stats();
    assert_eq!(s.bytes_written, 8);
    assert_eq!(s.current_size, 5);
    assert_eq!(s.bytes_written - s.bytes_read, s.current_size + s.bytes_evicted);
    assert_eq!(s.chunks_written - s.chunks_read, buf.len() as u64 + s.chunks_evicted);
}

#[test]
fn gets_return_puts_in_order() {
    let mut buf = small(8, 8);
    let items: Vec<Bytes> = (0..6u8).map(|i| chunk(i, 2)).collect();
    for it in &items {
        buf.put(it.clone());
    }
    for it in &items {
        assert_eq!(buf.get().as_ref(), Some(it));
    }
    assert_eq!(buf.get(), None);
}

#[test]
fn eviction_takes_oldest_first() {
    let mut buf = small(2, 1);
    buf.put(chunk(b'a', 1));
    buf.put(chunk(b'b', 1));
    buf.put(chunk(b'c', 1));
    buf.put(chunk(b'd', 1));
    assert_eq!(buf.get(), Some(chunk(b'c', 1)));
    assert_eq!(buf.get(), Some(chunk(b'd', 1)));
    assert_eq!(buf.stats().chunks_evicted, 2);
}

#[test]
fn readiness_rises_exactly_at_threshold() {
    let mut buf = small(10, 4);
    for j in 1..=10usize {
        let rose = buf.put(chunk(0, 1));
        assert_eq!(buf.is_ready(), j >= 4);
        assert_eq!(rose, j == 4);
    }
}

#[test]
fn readiness_kept_above_empty_and_dropped_at_empty() {
    let mut buf = small(10, 3);
    for _ in 0..3 {
        buf.put(chunk(0, 1));
    }
    assert!(buf.is_ready());
    buf.get();
    assert_eq!(buf.len(), 2);
    assert!(buf.is_ready());
    buf.get();
    assert_eq!(buf.len(), 1);
    assert!(buf.is_ready());
    buf.get();
    assert_eq!(buf.len(), 0);
    assert!(!buf.is_ready());
}

#[test]
fn put_below_threshold_after_partial_drain_clears_readiness() {
    let mut buf = small(10, 3);
    for _ in 0..3 {
        buf.put(chunk(0, 1));
    }
    buf.get();
    buf.get();
    assert!(buf.is_ready());
    // One queued plus one new is still under the threshold.
    buf.put(chunk(0, 1));
    assert!(!buf.is_ready());
}

#[test]
fn empty_chunks_are_accepted() {
    let mut buf = small(2, 1);
    assert!(buf.put(Bytes::new()));
    assert_eq!(buf.stats().current_size, 0);
    assert_eq!(buf.stats().chunks_written, 1);
    assert_eq!(buf.get(), Some(Bytes::new()));
}

#[test]
fn occupancy_is_a_plain_ratio() {
    let mut buf = small(10, 1);
    assert_eq!(buf.occupancy_basis_points(), 0);
    buf.put(chunk(0, 25));
    assert_eq!(buf.occupancy_basis_points(), 2500);
    buf.put(chunk(0, 100));
    assert_eq!(buf.occupancy_basis_points(), 12500);
    let zero = AudioRingBuffer::new(BufferConfig { byte_budget: 0, max_chunks: 1, prebuffer_chunks: 1 });
    assert_eq!(zero.occupancy_basis_points(), 0);
}

#[test]
fn can_put_reflects_chunk_length() {
    let buf = small(2, 1);
    assert!(buf.can_put(&chunk(0, 7)));
    assert!(buf.can_put(&Bytes::new()));
}

#[test]
fn standard_sizing() {
    let c = BufferConfig::standard();
    assert_eq!(c.byte_budget, 5 * 1024 * 1024);
    assert_eq!(c.max_chunks, 1536);
    assert_eq!(c.prebuffer_chunks, 921);
    assert_eq!(BufferConfig::from_budget(5 * 1024 * 1024, 4096, 256, 60), Some(c));
    assert_eq!(
        BufferConfig::from_budget(1000, 100, 2, 50),
        Some(BufferConfig { byte_budget: 1000, max_chunks: 12, prebuffer_chunks: 6 })
    );
}

#[test]
fn try_put_puts_when_counters_have_room() {
    let mut buf = small(2, 2);
    assert_eq!(buf.try_put(chunk(1, 4)), Some(false));
    assert_eq!(buf.try_put(chunk(2, 4)), Some(true));
    assert_eq!(buf.stats().bytes_written, 8);
    assert_eq!(buf.len(), 2);
}
