use turntable_relay::session::{SessionAction, SessionEvent, SessionPhase, SessionPolicy, StreamSession};
use turntable_relay::wait::{wait_step, WaitStep};
use turntable_relay::wav::wav_header;

#[test]
fn header_bytes() {
    let h = wav_header();
    assert_eq!(&h[0..4], b"RIFF");
    assert_eq!(&h[4..8], &[0xFF; 4]);
    assert_eq!(&h[8..16], b"WAVEfmt ");
    assert_eq!(u32::from_le_bytes([h[16], h[17], h[18], h[19]]), 16);
    assert_eq!(u16::from_le_bytes([h[20], h[21]]), 1);
    assert_eq!(u16::from_le_bytes([h[22], h[23]]), 2);
    assert_eq!(u32::from_le_bytes([h[24], h[25], h[26], h[27]]), 44100);
    assert_eq!(u32::from_le_bytes([h[28], h[29], h[30], h[31]]), 176400);
    assert_eq!(u16::from_le_bytes([h[32], h[33]]), 4);
    assert_eq!(u16::from_le_bytes([h[34], h[35]]), 16);
    assert_eq!(&h[36..40], b"data");
    assert_eq!(&h[40..44], &[0xFF; 4]);
}

#[test]
fn wait_when_ready_returns_at_once() {
    assert_eq!(wait_step(true, 0, 10_000), WaitStep::Ready);
    assert_eq!(wait_step(true, 50_000, 10_000), WaitStep::Ready);
}

#[test]
fn wait_never_times_out_early() {
    assert_eq!(wait_step(false, 0, 10_000), WaitStep::Pending { remaining_ms: 10_000 });
    assert_eq!(wait_step(false, 9_999, 10_000), WaitStep::Pending { remaining_ms: 1 });
    assert_eq!(wait_step(false, 10_000, 10_000), WaitStep::TimedOut);
    assert_eq!(wait_step(false, 12_000, 10_000), WaitStep::TimedOut);
}

#[test]
fn session_runs_through_its_phases() {
    let policy = SessionPolicy::standard();
    assert_eq!(policy, SessionPolicy { startup_timeout_ms: 10_000, refill_timeout_ms: 10_000, backoff_ms: 100 });
    let mut s = StreamSession::new(policy);
    assert_eq!(s.action(), SessionAction::WaitForReady(10_000));
    // Delivery starts even if the first wait timed out.
    assert_eq!(s.on_event(SessionEvent::WaitFinished(false)), SessionAction::SendHeader);
    assert_eq!(s.on_event(SessionEvent::Sent), SessionAction::Pull);
    assert_eq!(s.on_event(SessionEvent::Pulled(true)), SessionAction::Forward);
    assert_eq!(s.chunks_sent, 1);
    assert_eq!(s.on_event(SessionEvent::Sent), SessionAction::Pull);
    assert_eq!(s.on_event(SessionEvent::Pulled(false)), SessionAction::WaitForReady(10_000));
    assert_eq!(s.empty_pulls, 1);
    assert_eq!(s.on_event(SessionEvent::WaitFinished(true)), SessionAction::Sleep(100));
    assert_eq!(s.on_event(SessionEvent::Slept), SessionAction::Pull);
    assert_eq!(s.on_event(SessionEvent::Pulled(false)), SessionAction::WaitForReady(10_000));
    assert_eq!(s.empty_pulls, 2);
    assert_eq!(s.on_event(SessionEvent::WaitFinished(false)), SessionAction::Sleep(100));
    assert_eq!(s.on_event(SessionEvent::Slept), SessionAction::Pull);
    assert_eq!(s.on_event(SessionEvent::Pulled(true)), SessionAction::Forward);
    assert_eq!(s.empty_pulls, 0);
    assert_eq!(s.chunks_sent, 2);
    assert_eq!(s.phase, SessionPhase::Forwarding);
}

#[test]
fn session_ignores_unexpected_events() {
    let mut s = StreamSession::new(SessionPolicy { startup_timeout_ms: 5, refill_timeout_ms: 7, backoff_ms: 3 });
    let before = s;
    assert_eq!(s.on_event(SessionEvent::Sent), SessionAction::WaitForReady(5));
    assert_eq!(s.on_event(SessionEvent::Pulled(true)), SessionAction::WaitForReady(5));
    assert_eq!(s, before);
}

#[test]
fn session_counters_saturate() {
    let mut s = StreamSession::new(SessionPolicy::standard());
    s.phase = SessionPhase::Pulling;
    s.chunks_sent = u64::MAX;
    s.on_event(SessionEvent::Pulled(true));
    assert_eq!(s.chunks_sent, u64::MAX);
}
