//! Transmitting side: the reconnection policy of the sender loop.
//!
//! The capture callback hands byte chunks to a queue; the sender loop drains
//! it into the connection. This state machine decides what the loop does after
//! each send or reconnection attempt: fetch the next chunk, wait the backoff
//! interval and reconnect, or stop for good once the attempts are used up.
//! A chunk whose send failed is not sent again; the stream resumes with the
//! next chunk once a connection is back.
use vstd::prelude::*;

verus! {

/// Seconds to wait before each reconnection attempt.
pub const BACKOFF_SECS: u64 = 1;

/// Queued chunks kept while the connection is down, by default; older ones
/// are dropped first (at 4096 bytes a chunk, a few seconds of stereo audio).
pub const DEFAULT_BACKLOG_CHUNKS: usize = 256;

/// State of the outbound connection.
#[derive(Debug, Clone, Copy, PartialEq, Eq, Structural)]
pub enum LinkState {
    /// Sends go through.
    Connected,
    /// The connection was lost and is being re-established.
    Reconnecting,
    /// Every reconnection attempt failed; the sender has stopped.
    Failed,
}

/// What the sender loop observed.
#[derive(Debug, Clone, Copy, PartialEq, Eq, Structural)]
pub enum SenderEvent {
    /// A chunk was written in full.
    SendSucceeded,
    /// Writing a chunk failed.
    SendFailed,
    /// A new connection was established.
    ReconnectSucceeded,
    /// A connection attempt failed.
    ReconnectFailed,
}

/// What the sender loop does next.
#[derive(Debug, Clone, Copy, PartialEq, Eq, Structural)]
pub enum SenderAction {
    /// Take the next chunk from the queue and write it.
    SendNext,
    /// Wait `BACKOFF_SECS`, then try to connect again.
    BackoffAndReconnect,
    /// Give up: report that the reconnection attempts are exhausted.
    Stop,
}

/// The policy state: link state, failed attempts so far and the attempt budget.
#[derive(Debug, Clone, Copy, PartialEq, Eq, Structural)]
pub struct SenderState {
    pub link: LinkState,
    pub attempt_count: u32,
    pub max_attempts: u32,
}

/// Consistency of a policy state: a live connection has no failed attempts
/// behind it, a reconnection is still within its budget, and the count never
/// exceeds the budget.
pub open spec fn sender_wf(s: SenderState) -> bool {
    &&& s.attempt_count <= s.max_attempts
    &&& s.link is Connected ==> s.attempt_count == 0
    &&& s.link is Reconnecting ==> s.attempt_count < s.max_attempts
}

/// The action that a state asks for.
pub open spec fn pending_action(link: LinkState) -> SenderAction {
    match link {
        LinkState::Connected => SenderAction::SendNext,
        LinkState::Reconnecting => SenderAction::BackoffAndReconnect,
        LinkState::Failed => SenderAction::Stop,
    }
}

/// One decision of the sender. A success resets the attempt count; a failed
/// send starts reconnecting while the budget lasts; a failed reconnection
/// counts one attempt, and the last one allowed ends in `Failed`, which no
/// event leaves. An event that does not answer the pending action changes
/// nothing.
pub open spec fn sender_step(s: SenderState, e: SenderEvent) -> SenderState {
    match (s.link, e) {
        (LinkState::Connected, SenderEvent::SendSucceeded) => SenderState { attempt_count: 0, ..s },
        (LinkState::Connected, SenderEvent::SendFailed) => if s.attempt_count < s.max_attempts {
            SenderState { link: LinkState::Reconnecting, ..s }
        } else {
            SenderState { link: LinkState::Failed, ..s }
        },
        (LinkState::Reconnecting, SenderEvent::ReconnectSucceeded) => SenderState {
            link: LinkState::Connected,
            attempt_count: 0,
            ..s
        },
        (LinkState::Reconnecting, SenderEvent::ReconnectFailed) => if s.attempt_count + 1
            >= s.max_attempts {
            SenderState {
                link: LinkState::Failed,
                attempt_count: (s.attempt_count + 1) as u32,
                ..s
            }
        } else {
            SenderState { attempt_count: (s.attempt_count + 1) as u32, ..s }
        },
        _ => s,
    }
}

/// The state after a run of events.
pub open spec fn sender_run(s: SenderState, evs: Seq<SenderEvent>) -> SenderState
    decreases evs.len(),
{
    if evs.len() == 0 {
        s
    } else {
        sender_run(sender_step(s, evs[0]), evs.drop_first())
    }
}

/// Every step keeps a state consistent.
pub proof fn lemma_step_wf(s: SenderState, e: SenderEvent)
    requires
        sender_wf(s),
    ensures
        sender_wf(sender_step(s, e)),
        sender_step(s, e).max_attempts == s.max_attempts,
{
}

/// `n` failed connection attempts in a row.
pub open spec fn failed_reconnects(n: nat) -> Seq<SenderEvent> {
    Seq::new(n, |i: int| SenderEvent::ReconnectFailed)
}

/// Reconnection is bounded: from a lost connection with no failed attempt yet,
/// `n` failed reconnections in a row count `n` attempts, and the sender is
/// `Failed` exactly when `n` reaches the budget.
pub proof fn lemma_reconnect_bound(max_attempts: u32, n: nat)
    requires
        0 < max_attempts,
        n <= max_attempts,
    ensures
        ({
            let start = SenderState {
                link: LinkState::Reconnecting,
                attempt_count: 0,
                max_attempts,
            };
            let end = sender_run(start, failed_reconnects(n));
            &&& end.attempt_count == n
            &&& end.max_attempts == max_attempts
            &&& (end.link is Failed <==> n == max_attempts)
            &&& (end.link is Reconnecting <==> n < max_attempts)
        }),
    decreases n,
{
    if n > 0 {
        lemma_reconnect_bound(max_attempts, (n - 1) as nat);
        let start = SenderState { link: LinkState::Reconnecting, attempt_count: 0, max_attempts };
        let fails = failed_reconnects(n);
        let prefix = failed_reconnects((n - 1) as nat);
        lemma_run_append(start, prefix, SenderEvent::ReconnectFailed);
        assert(prefix.push(SenderEvent::ReconnectFailed) =~= fails);
    }
}

/// Running one more event after a run.
proof fn lemma_run_append(s: SenderState, evs: Seq<SenderEvent>, e: SenderEvent)
    ensures
        sender_run(s, evs.push(e)) == sender_step(sender_run(s, evs), e),
    decreases evs.len(),
{
    if evs.len() > 0 {
        lemma_run_append(sender_step(s, evs[0]), evs.drop_first(), e);
        assert(evs.push(e)[0] == evs[0]);
        assert(evs.push(e).drop_first() =~= evs.drop_first().push(e));
    } else {
        assert(evs.push(e)[0] == e);
        assert(evs.push(e).drop_first() =~= Seq::<SenderEvent>::empty());
        assert(sender_run(sender_step(s, e), Seq::<SenderEvent>::empty()) == sender_step(s, e));
    }
}

/// Once failed, the sender stays failed and asks only to stop, whatever happens.
pub proof fn lemma_failed_is_final(s: SenderState, evs: Seq<SenderEvent>)
    requires
        s.link is Failed,
    ensures
        sender_run(s, evs) == s,
        pending_action(sender_run(s, evs).link) == SenderAction::Stop,
    decreases evs.len(),
{
    if evs.len() > 0 {
        lemma_failed_is_final(sender_step(s, evs[0]), evs.drop_first());
    }
}

/// The reconnection policy of one sender loop.
pub struct ReconnectingSender {
    state: SenderState,
    backlog_limit: usize,
}

impl ReconnectingSender {
    /// Every sender holds a consistent policy state.
    #[verifier::type_invariant]
    spec fn inv(&self) -> bool {
        sender_wf(self.state)
    }

    /// The policy state.
    pub closed spec fn view_state(&self) -> SenderState {
        self.state
    }

    /// The most chunks that may wait in the queue before the oldest are dropped.
    pub closed spec fn spec_backlog_limit(&self) -> usize {
        self.backlog_limit
    }

    /// A sender on a fresh connection that allows `max_attempts` failed
    /// reconnections in a row and keeps at most `backlog_limit` queued chunks.
    pub fn new(max_attempts: u32, backlog_limit: usize) -> (r: ReconnectingSender)
        ensures
            r.view_state() == (SenderState {
                link: LinkState::Connected,
                attempt_count: 0,
                max_attempts,
            }),
            r.spec_backlog_limit() == backlog_limit,
            sender_wf(r.view_state()),
    {
        ReconnectingSender {
            state: SenderState { link: LinkState::Connected, attempt_count: 0, max_attempts },
            backlog_limit,
        }
    }

    /// The state of the link.
    pub fn link(&self) -> (r: LinkState)
        ensures
            r == self.view_state().link,
    {
        self.state.link
    }

    /// Failed reconnection attempts since the last success.
    pub fn attempt_count(&self) -> (r: u32)
        ensures
            r == self.view_state().attempt_count,
    {
        self.state.attempt_count
    }

    /// What the loop has to do next.
    pub fn next_action(&self) -> (a: SenderAction)
        ensures
            a == pending_action(self.view_state().link),
    {
        match self.state.link {
            LinkState::Connected => SenderAction::SendNext,
            LinkState::Reconnecting => SenderAction::BackoffAndReconnect,
            LinkState::Failed => SenderAction::Stop,
        }
    }

    /// Takes what happened and returns what to do next.
    pub fn on_event(&mut self, e: SenderEvent) -> (a: SenderAction)
        ensures
            final(self).view_state() == sender_step(old(self).view_state(), e),
            sender_wf(final(self).view_state()),
            final(self).spec_backlog_limit() == old(self).spec_backlog_limit(),
            a == pending_action(final(self).view_state().link),
    {
        proof {
            use_type_invariant(&*self);
        }
        let s = self.state;
        let next = match (s.link, e) {
            (LinkState::Connected, SenderEvent::SendSucceeded) => SenderState {
                attempt_count: 0,
                ..s
            },
            (LinkState::Connected, SenderEvent::SendFailed) => {
                if s.attempt_count < s.max_attempts {
                    SenderState { link: LinkState::Reconnecting, ..s }
                } else {
                    SenderState { link: LinkState::Failed, ..s }
                }
            },
            (LinkState::Reconnecting, SenderEvent::ReconnectSucceeded) => SenderState {
                link: LinkState::Connected,
                attempt_count: 0,
                ..s
            },
            (LinkState::Reconnecting, SenderEvent::ReconnectFailed) => {
                let count = s.attempt_count + 1;
                if count >= s.max_attempts {
                    SenderState { link: LinkState::Failed, attempt_count: count, ..s }
                } else {
                    SenderState { attempt_count: count, ..s }
                }
            },
            _ => s,
        };
        self.state = next;
        self.next_action()
    }

    /// How many of the oldest queued chunks to drop when `queued` chunks wait:
    /// whatever exceeds the backlog limit.
    pub fn excess_backlog(&self, queued: usize) -> (r: usize)
        ensures
            r == (if queued > self.spec_backlog_limit() {
                queued - self.spec_backlog_limit()
            } else {
                0
            }),
    {
        if queued > self.backlog_limit {
            queued - self.backlog_limit
        } else {
            0
        }
    }
}

} // verus!
