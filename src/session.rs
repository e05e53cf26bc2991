//! The flow control of one streaming session: when a listener waits for
//! the buffer, sends the stream header, pulls chunks and backs off.
use vstd::prelude::*;

verus! {

/// How long a session waits before its first byte, how long it waits for a
/// refill when the buffer runs dry, and how long it pauses after that wait
/// before pulling again.
#[derive(Clone, Copy, Debug, PartialEq, Eq, Structural)]
pub struct SessionPolicy {
    pub startup_timeout_ms: u64,
    pub refill_timeout_ms: u64,
    pub backoff_ms: u64,
}

impl SessionPolicy {
    /// Ten seconds for the first wait and for each refill, and a tenth of a
    /// second of pause after a refill wait.
    pub fn standard() -> (r: SessionPolicy)
        ensures
            r.startup_timeout_ms == 10000,
            r.refill_timeout_ms == 10000,
            r.backoff_ms == 100,
    {
        SessionPolicy { startup_timeout_ms: 10000, refill_timeout_ms: 10000, backoff_ms: 100 }
    }
}

/// Where a session stands.
#[derive(Clone, Copy, Debug, PartialEq, Eq, Structural)]
pub enum SessionPhase {
    /// Waiting for the buffer to become ready before the first byte.
    Starting,
    /// Sending the stream header.
    SendingHeader,
    /// Asking the buffer for the next chunk.
    Pulling,
    /// Sending the chunk just pulled.
    Forwarding,
    /// Waiting for the buffer to refill after finding it empty.
    Refilling,
    /// Pausing after a refill wait.
    BackingOff,
}

/// What the outside world reports back to a session.
#[derive(Clone, Copy, Debug, PartialEq, Eq, Structural)]
pub enum SessionEvent {
    /// A wait for readiness ended; `true` if the buffer became ready.
    WaitFinished(bool),
    /// The header or a chunk was handed to the listener.
    Sent,
    /// A pull ended; `true` if it returned a chunk.
    Pulled(bool),
    /// The pause is over.
    Slept,
}

/// What a session asks the outside world to do next.
#[derive(Clone, Copy, Debug, PartialEq, Eq, Structural)]
pub enum SessionAction {
    /// Wait for readiness, at most this many milliseconds.
    WaitForReady(u64),
    /// Send the stream header.
    SendHeader,
    /// Take the next chunk from the buffer.
    Pull,
    /// Send the chunk just pulled.
    Forward,
    /// Pause this many milliseconds.
    Sleep(u64),
}

/// The state of one streaming session.
#[derive(Clone, Copy, Debug, PartialEq, Eq, Structural)]
pub struct StreamSession {
    pub phase: SessionPhase,
    pub policy: SessionPolicy,
    /// Chunks pulled for this listener so far (saturating).
    pub chunks_sent: u64,
    /// Pulls in a row that found the buffer empty (saturating).
    pub empty_pulls: u64,
}

/// `n + 1`, held at the largest value.
pub open spec fn bump(n: u64) -> u64 {
    if n < u64::MAX {
        (n + 1) as u64
    } else {
        n
    }
}

impl StreamSession {
    /// The state after `ev`. The first wait ends in the header whatever its
    /// result, so that delivery starts even when the buffer never filled. A
    /// pull that brings a chunk has it sent and pulls again; one that finds
    /// the buffer empty waits for a refill, then pauses, then pulls again.
    /// An event that does not answer the pending action changes nothing.
    pub open spec fn step(self, ev: SessionEvent) -> StreamSession {
        match (self.phase, ev) {
            (SessionPhase::Starting, SessionEvent::WaitFinished(_)) => StreamSession {
                phase: SessionPhase::SendingHeader,
                ..self
            },
            (SessionPhase::SendingHeader, SessionEvent::Sent) => StreamSession {
                phase: SessionPhase::Pulling,
                ..self
            },
            (SessionPhase::Pulling, SessionEvent::Pulled(true)) => StreamSession {
                phase: SessionPhase::Forwarding,
                chunks_sent: bump(self.chunks_sent),
                empty_pulls: 0,
                ..self
            },
            (SessionPhase::Pulling, SessionEvent::Pulled(false)) => StreamSession {
                phase: SessionPhase::Refilling,
                empty_pulls: bump(self.empty_pulls),
                ..self
            },
            (SessionPhase::Forwarding, SessionEvent::Sent) => StreamSession {
                phase: SessionPhase::Pulling,
                ..self
            },
            (SessionPhase::Refilling, SessionEvent::WaitFinished(_)) => StreamSession {
                phase: SessionPhase::BackingOff,
                ..self
            },
            (SessionPhase::BackingOff, SessionEvent::Slept) => StreamSession {
                phase: SessionPhase::Pulling,
                ..self
            },
            _ => self,
        }
    }

    /// The action that a session in this state asks for.
    pub open spec fn pending(self) -> SessionAction {
        match self.phase {
            SessionPhase::Starting => SessionAction::WaitForReady(self.policy.startup_timeout_ms),
            SessionPhase::SendingHeader => SessionAction::SendHeader,
            SessionPhase::Pulling => SessionAction::Pull,
            SessionPhase::Forwarding => SessionAction::Forward,
            SessionPhase::Refilling => SessionAction::WaitForReady(self.policy.refill_timeout_ms),
            SessionPhase::BackingOff => SessionAction::Sleep(self.policy.backoff_ms),
        }
    }

    /// A fresh session: nothing sent, waiting for the buffer to be ready.
    pub fn new(policy: SessionPolicy) -> (r: StreamSession)
        ensures
            r == (StreamSession {
                phase: SessionPhase::Starting,
                policy,
                chunks_sent: 0,
                empty_pulls: 0,
            }),
            r.pending() == SessionAction::WaitForReady(policy.startup_timeout_ms),
    {
        StreamSession { phase: SessionPhase::Starting, policy, chunks_sent: 0, empty_pulls: 0 }
    }

    /// The action this session asks for now.
    pub fn action(&self) -> (r: SessionAction)
        ensures
            r == self.pending(),
    {
        match self.phase {
            SessionPhase::Starting => SessionAction::WaitForReady(self.policy.startup_timeout_ms),
            SessionPhase::SendingHeader => SessionAction::SendHeader,
            SessionPhase::Pulling => SessionAction::Pull,
            SessionPhase::Forwarding => SessionAction::Forward,
            SessionPhase::Refilling => SessionAction::WaitForReady(self.policy.refill_timeout_ms),
            SessionPhase::BackingOff => SessionAction::Sleep(self.policy.backoff_ms),
        }
    }

    /// Takes in what happened and returns the next action.
    pub fn on_event(&mut self, ev: SessionEvent) -> (r: SessionAction)
        ensures
            *final(self) == old(self).step(ev),
            r == final(self).pending(),
    {
        match (self.phase, ev) {
            (SessionPhase::Starting, SessionEvent::WaitFinished(_)) => {
                self.phase = SessionPhase::SendingHeader;
            },
            (SessionPhase::SendingHeader, SessionEvent::Sent) => {
                self.phase = SessionPhase::Pulling;
            },
            (SessionPhase::Pulling, SessionEvent::Pulled(true)) => {
                self.phase = SessionPhase::Forwarding;
                if self.chunks_sent < u64::MAX {
                    self.chunks_sent = self.chunks_sent + 1;
                }
                self.empty_pulls = 0;
            },
            (SessionPhase::Pulling, SessionEvent::Pulled(false)) => {
                self.phase = SessionPhase::Refilling;
                if self.empty_pulls < u64::MAX {
                    self.empty_pulls = self.empty_pulls + 1;
                }
            },
            (SessionPhase::Forwarding, SessionEvent::Sent) => {
                self.phase = SessionPhase::Pulling;
            },
            (SessionPhase::Refilling, SessionEvent::WaitFinished(_)) => {
                self.phase = SessionPhase::BackingOff;
            },
            (SessionPhase::BackingOff, SessionEvent::Slept) => {
                self.phase = SessionPhase::Pulling;
            },
            _ => {},
        }
        self.action()
    }
}

} // verus!
