//! Flow control for relaying one live PCM audio capture to many listeners:
//! a bounded FIFO of audio chunks with oldest-first eviction, a prebuffer
//! readiness gate, the counters that report on both, and the decisions of a
//! streaming session that drains the buffer.
pub mod chunk;
pub mod config;
pub mod discovery;
pub mod laws;
pub mod ring;
pub mod session;
pub mod wait;
pub mod wav;
