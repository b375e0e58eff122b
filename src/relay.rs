//! Receiving side: admission of inbound connections and the forwarding of their
//! bytes into the single named pipe behind the virtual microphone.
//!
//! The pipe has one reader, so at most one session may write to it. The server
//! here only decides; the caller owns the sockets and the pipe, performs each
//! returned action and reports what happened as the next event.
//!
//! Shutdown is cooperative: once it begins, no session is admitted, the active
//! one ends at its next read, and the relay reports itself drained when no
//! session holds the pipe any more, so that the device can then be removed.
use vstd::prelude::*;

use crate::config::{buffer_size_check, buffer_size_ok, validate_buffer_size, ConfigError};

verus! {

/// What happened on the network or at the pipe.
#[derive(Debug, PartialEq, Eq)]
pub enum RelayEvent {
    /// A connection was accepted; `pipe_present` tells whether the named pipe exists.
    Accepted { conn: u64, pipe_present: bool },
    /// A read on `conn` returned `data`; no bytes means that the peer closed.
    Read { conn: u64, data: Vec<u8> },
    /// A read on `conn` waited for a while and got nothing yet.
    ReadIdle { conn: u64 },
    /// A read on `conn` failed.
    ReadFailed { conn: u64 },
    /// Writing the bytes of `conn` to the pipe failed.
    PipeWriteFailed { conn: u64 },
}

/// Why a connection was turned away.
#[derive(Debug, Clone, Copy, PartialEq, Eq, Structural)]
pub enum RefuseReason {
    /// Another session holds the microphone.
    Busy,
    /// The named pipe does not exist, so there is nowhere to deliver audio.
    PipeMissing,
    /// The relay is shutting down.
    ShuttingDown,
}

/// Why a session ended.
#[derive(Debug, Clone, Copy, PartialEq, Eq, Structural)]
pub enum EndReason {
    /// The peer closed the connection (a read returned no bytes).
    PeerClosed,
    /// Reading from the connection failed.
    ReadFailed,
    /// Writing to the pipe failed.
    PipeWriteFailed,
    /// The relay is shutting down.
    Shutdown,
}

/// What the caller has to do next.
#[derive(Debug, PartialEq, Eq)]
pub enum RelayAction {
    /// Open the pipe for writing and start reading from `conn`.
    StartSession { conn: u64 },
    /// Close `conn` without reading from it.
    Refuse { conn: u64, why: RefuseReason },
    /// Write `data` to the pipe in full, then read from `conn` again.
    WritePipe { conn: u64, data: Vec<u8> },
    /// Keep waiting for data on `conn`.
    ReadAgain { conn: u64 },
    /// Close `conn` and the pipe handle; the server keeps accepting unless it
    /// is shutting down.
    EndSession { conn: u64, reason: EndReason },
    /// The event concerns a connection without a session: close it if still open.
    Ignore { conn: u64 },
}

/// Admission state: the connection, if any, that owns the pipe, and whether
/// shutdown has begun.
#[derive(Debug, Clone, Copy, PartialEq, Eq, Structural)]
pub struct RelayState {
    pub active: Option<u64>,
    pub closing: bool,
}

/// The connection that an event is about.
pub open spec fn event_conn(e: RelayEvent) -> u64 {
    match e {
        RelayEvent::Accepted { conn, .. } => conn,
        RelayEvent::Read { conn, .. } => conn,
        RelayEvent::ReadIdle { conn } => conn,
        RelayEvent::ReadFailed { conn } => conn,
        RelayEvent::PipeWriteFailed { conn } => conn,
    }
}

/// The same state with no active session.
pub open spec fn released(s: RelayState) -> RelayState {
    RelayState { active: None, ..s }
}

/// One decision of the relay: from the admission state and an event, the next
/// state and the action to perform.
pub open spec fn relay_step(s: RelayState, e: RelayEvent) -> (RelayState, RelayAction) {
    match e {
        RelayEvent::Accepted { conn, pipe_present } => if s.closing {
            (s, RelayAction::Refuse { conn, why: RefuseReason::ShuttingDown })
        } else if s.active is Some {
            (s, RelayAction::Refuse { conn, why: RefuseReason::Busy })
        } else if !pipe_present {
            (s, RelayAction::Refuse { conn, why: RefuseReason::PipeMissing })
        } else {
            (RelayState { active: Some(conn), ..s }, RelayAction::StartSession { conn })
        },
        RelayEvent::Read { conn, data } => if s.active != Some(conn) {
            (s, RelayAction::Ignore { conn })
        } else if data@.len() == 0 {
            (released(s), RelayAction::EndSession { conn, reason: EndReason::PeerClosed })
        } else if s.closing {
            (released(s), RelayAction::EndSession { conn, reason: EndReason::Shutdown })
        } else {
            (s, RelayAction::WritePipe { conn, data })
        },
        RelayEvent::ReadIdle { conn } => if s.active != Some(conn) {
            (s, RelayAction::Ignore { conn })
        } else if s.closing {
            (released(s), RelayAction::EndSession { conn, reason: EndReason::Shutdown })
        } else {
            (s, RelayAction::ReadAgain { conn })
        },
        RelayEvent::ReadFailed { conn } => if s.active == Some(conn) {
            (released(s), RelayAction::EndSession { conn, reason: EndReason::ReadFailed })
        } else {
            (s, RelayAction::Ignore { conn })
        },
        RelayEvent::PipeWriteFailed { conn } => if s.active == Some(conn) {
            (released(s), RelayAction::EndSession { conn, reason: EndReason::PipeWriteFailed })
        } else {
            (s, RelayAction::Ignore { conn })
        },
    }
}

/// The bytes that an action puts into the pipe.
pub open spec fn pipe_output(a: RelayAction) -> Seq<u8> {
    match a {
        RelayAction::WritePipe { data, .. } => data@,
        _ => Seq::empty(),
    }
}

/// The state after a run of events, and everything written to the pipe.
pub open spec fn relay_run(s: RelayState, evs: Seq<RelayEvent>) -> (RelayState, Seq<u8>)
    decreases evs.len(),
{
    if evs.len() == 0 {
        (s, Seq::empty())
    } else {
        let (next, a) = relay_step(s, evs[0]);
        let (last, rest) = relay_run(next, evs.drop_first());
        (last, pipe_output(a) + rest)
    }
}

/// The bytes that `conn` sent in a run of events, in order.
pub open spec fn bytes_from(conn: u64, evs: Seq<RelayEvent>) -> Seq<u8>
    decreases evs.len(),
{
    if evs.len() == 0 {
        Seq::empty()
    } else {
        let head = match evs[0] {
            RelayEvent::Read { conn: c, data } => if c == conn {
                data@
            } else {
                Seq::empty()
            },
            _ => Seq::empty(),
        };
        head + bytes_from(conn, evs.drop_first())
    }
}

/// An event that leaves the session of `conn` running: a non-empty or idle
/// read of `conn`, or anything about another connection.
pub open spec fn keeps_session(conn: u64, e: RelayEvent) -> bool {
    match e {
        RelayEvent::Read { conn: c, data } => c != conn || data@.len() > 0,
        RelayEvent::ReadIdle { .. } => true,
        _ => event_conn(e) != conn,
    }
}

/// While the session of `conn` runs, the pipe receives exactly the bytes that
/// `conn` sent, in the order read, and nothing from any other connection; every
/// other connection is refused or ignored and the session stays in place.
pub proof fn lemma_session_stream(conn: u64, evs: Seq<RelayEvent>)
    requires
        forall|i: int| 0 <= i < evs.len() ==> keeps_session(conn, #[trigger] evs[i]),
    ensures
        ({
            let s = RelayState { active: Some(conn), closing: false };
            relay_run(s, evs) == (s, bytes_from(conn, evs))
        }),
    decreases evs.len(),
{
    if evs.len() > 0 {
        let tail = evs.drop_first();
        assert forall|i: int| 0 <= i < tail.len() implies keeps_session(conn, #[trigger] tail[i]) by {
            assert(tail[i] == evs[i + 1]);
        }
        lemma_session_stream(conn, tail);
        assert(keeps_session(conn, evs[0]));
    }
}

/// A zero-byte read ends the session of `conn` without writing to the pipe,
/// and the next connection that arrives while the pipe exists is admitted.
pub proof fn lemma_peer_close_frees_microphone(conn: u64, next: u64, empty: Vec<u8>)
    requires
        empty@.len() == 0,
    ensures
        ({
            let busy = RelayState { active: Some(conn), closing: false };
            let idle = RelayState { active: None, closing: false };
            &&& relay_step(busy, RelayEvent::Read { conn, data: empty }) == (
                idle,
                RelayAction::EndSession { conn, reason: EndReason::PeerClosed },
            )
            &&& pipe_output(RelayAction::EndSession { conn, reason: EndReason::PeerClosed }).len()
                == 0
            &&& relay_step(idle, RelayEvent::Accepted { conn: next, pipe_present: true }) == (
                RelayState { active: Some(next), closing: false },
                RelayAction::StartSession { conn: next },
            )
        }),
{
}

/// Once shutdown has begun, nothing more reaches the pipe and no session
/// starts; any outcome of a read or write of the active session ends it, and
/// the state stays closing.
pub proof fn lemma_shutdown_drains(s: RelayState, e: RelayEvent)
    requires
        s.closing,
    ensures
        ({
            let (next, a) = relay_step(s, e);
            &&& pipe_output(a).len() == 0
            &&& next.closing
            &&& next.active is None || next.active == s.active
            &&& !(e is Accepted) && s.active == Some(event_conn(e)) ==> next.active is None
        }),
{
}

/// The admission state of the relay and the buffer size of its sessions.
pub struct RelayServer {
    buffer_size: usize,
    state: RelayState,
}

impl RelayServer {
    /// The admission state.
    pub closed spec fn view_state(&self) -> RelayState {
        self.state
    }

    /// The read buffer size of every session.
    pub closed spec fn spec_buffer_size(&self) -> usize {
        self.buffer_size
    }

    /// A relay with no session, reading `buffer_size` bytes at a time; the size
    /// is checked as `validate_buffer_size` does.
    pub fn new(buffer_size: usize) -> (r: Result<RelayServer, ConfigError>)
        ensures
            r is Ok <==> buffer_size_check(buffer_size) is Ok,
            r matches Ok(s) ==> s.view_state() == (RelayState { active: None, closing: false })
                && s.spec_buffer_size() == buffer_size && buffer_size_ok(buffer_size as int),
            r matches Err(e) ==> buffer_size_check(buffer_size) == Err::<usize, ConfigError>(e),
    {
        match validate_buffer_size(buffer_size) {
            Ok(size) => Ok(
                RelayServer { buffer_size: size, state: RelayState { active: None, closing: false } },
            ),
            Err(e) => Err(e),
        }
    }

    /// The number of bytes to read from a connection at a time.
    pub fn buffer_size(&self) -> (r: usize)
        ensures
            r == self.spec_buffer_size(),
    {
        self.buffer_size
    }

    /// The connection that currently owns the pipe, if any.
    pub fn active_session(&self) -> (r: Option<u64>)
        ensures
            r == self.view_state().active,
    {
        self.state.active
    }

    /// Begins shutdown: no further session is admitted, and the active one
    /// ends at its next read.
    pub fn begin_shutdown(&mut self)
        ensures
            final(self).view_state() == (RelayState { closing: true, ..old(self).view_state() }),
            final(self).spec_buffer_size() == old(self).spec_buffer_size(),
    {
        self.state = RelayState { closing: true, ..self.state };
    }

    /// Whether shutdown has begun and no session holds the pipe any more, so
    /// that the pipe and the device can be removed.
    pub fn is_drained(&self) -> (r: bool)
        ensures
            r == (self.view_state().closing && self.view_state().active is None),
    {
        self.state.closing && self.state.active.is_none()
    }

    /// Takes one event and returns what to do about it.
    pub fn handle(&mut self, event: RelayEvent) -> (a: RelayAction)
        ensures
            (final(self).view_state(), a) == relay_step(old(self).view_state(), event),
            final(self).spec_buffer_size() == old(self).spec_buffer_size(),
    {
        let s = self.state;
        let ended = RelayState { active: None, ..s };
        match event {
            RelayEvent::Accepted { conn, pipe_present } => {
                if s.closing {
                    RelayAction::Refuse { conn, why: RefuseReason::ShuttingDown }
                } else if s.active.is_some() {
                    RelayAction::Refuse { conn, why: RefuseReason::Busy }
                } else if !pipe_present {
                    RelayAction::Refuse { conn, why: RefuseReason::PipeMissing }
                } else {
                    self.state = RelayState { active: Some(conn), ..s };
                    RelayAction::StartSession { conn }
                }
            },
            RelayEvent::Read { conn, data } => {
                if s.active != Some(conn) {
                    RelayAction::Ignore { conn }
                } else if data.len() == 0 {
                    self.state = ended;
                    RelayAction::EndSession { conn, reason: EndReason::PeerClosed }
                } else if s.closing {
                    self.state = ended;
                    RelayAction::EndSession { conn, reason: EndReason::Shutdown }
                } else {
                    RelayAction::WritePipe { conn, data }
                }
            },
            RelayEvent::ReadIdle { conn } => {
                if s.active != Some(conn) {
                    RelayAction::Ignore { conn }
                } else if s.closing {
                    self.state = ended;
                    RelayAction::EndSession { conn, reason: EndReason::Shutdown }
                } else {
                    RelayAction::ReadAgain { conn }
                }
            },
            RelayEvent::ReadFailed { conn } => {
                if s.active == Some(conn) {
                    self.state = ended;
                    RelayAction::EndSession { conn, reason: EndReason::ReadFailed }
                } else {
                    RelayAction::Ignore { conn }
                }
            },
            RelayEvent::PipeWriteFailed { conn } => {
                if s.active == Some(conn) {
                    self.state = ended;
                    RelayAction::EndSession { conn, reason: EndReason::PipeWriteFailed }
                } else {
                    RelayAction::Ignore { conn }
                }
            },
        }
    }
}

} // verus!
