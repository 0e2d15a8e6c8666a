use vstd::prelude::*;
use crate::error::ProxyError;

verus! {

/// Bytes read from one side per relay step.
pub const RELAY_BUFFER_SIZE: usize = 8192;

/// One relay direction: reading from its source, writing a chunk to its
/// sink, shutting down the sink's write side, or finished (`true` when clean).
#[derive(Clone, Copy, Debug, PartialEq, Eq, Structural)]
pub enum RelayState {
    Reading,
    Writing(usize),
    ShuttingDown,
    Finished(bool),
}

/// What the I/O of one relay direction reported.
#[derive(Clone, Copy, Debug, PartialEq, Eq, Structural)]
pub enum RelayEvent {
    /// A read returned this many bytes; zero is a clean half-close.
    Read(usize),
    ReadFailed,
    /// The whole pending chunk was written.
    Wrote,
    WriteFailed,
    /// The sink's write side was shut down.
    ShutDown,
    ShutdownFailed,
}

/// What a relay direction does next.
#[derive(Clone, Copy, Debug, PartialEq, Eq, Structural)]
pub enum RelayAction {
    /// Read up to a buffer's worth from the source.
    Read,
    /// Write exactly the first this-many bytes just read to the sink.
    WriteAll(usize),
    /// Shut down the sink's write side.
    ShutdownPeer,
    /// Nothing more: the direction is finished.
    Stop,
}

/// One step of a relay direction. An event that the state does not expect
/// finishes the direction as failed.
pub open spec fn relay_next(s: RelayState, e: RelayEvent) -> (RelayState, RelayAction) {
    match (s, e) {
        (RelayState::Reading, RelayEvent::Read(n)) => if n == 0 {
            (RelayState::ShuttingDown, RelayAction::ShutdownPeer)
        } else {
            (RelayState::Writing(n), RelayAction::WriteAll(n))
        },
        (RelayState::Writing(_), RelayEvent::Wrote) => (RelayState::Reading, RelayAction::Read),
        (RelayState::ShuttingDown, RelayEvent::ShutDown) => (
            RelayState::Finished(true),
            RelayAction::Stop,
        ),
        (RelayState::Finished(ok), _) => (RelayState::Finished(ok), RelayAction::Stop),
        _ => (RelayState::Finished(false), RelayAction::Stop),
    }
}

/// Advances one relay direction by one event.
pub fn relay_step(state: RelayState, event: RelayEvent) -> (r: (RelayState, RelayAction))
    ensures
        r == relay_next(state, event),
{
    match (state, event) {
        (RelayState::Reading, RelayEvent::Read(n)) => if n == 0 {
            (RelayState::ShuttingDown, RelayAction::ShutdownPeer)
        } else {
            (RelayState::Writing(n), RelayAction::WriteAll(n))
        },
        (RelayState::Writing(_), RelayEvent::Wrote) => (RelayState::Reading, RelayAction::Read),
        (RelayState::ShuttingDown, RelayEvent::ShutDown) => (
            RelayState::Finished(true),
            RelayAction::Stop,
        ),
        (RelayState::Finished(ok), _) => (RelayState::Finished(ok), RelayAction::Stop),
        _ => (RelayState::Finished(false), RelayAction::Stop),
    }
}

/// Phase of a tunnel session.
#[derive(Clone, Copy, Debug, PartialEq, Eq, Structural)]
pub enum TunnelPhase {
    Connecting,
    Tunneling,
    Closed,
}

/// The two relay directions of a tunnel.
#[derive(Clone, Copy, Debug, PartialEq, Eq, Structural)]
pub enum Direction {
    ClientToDest,
    DestToClient,
}

/// How a closed tunnel ended.
#[derive(Clone, Copy, Debug, PartialEq, Eq, Structural)]
pub enum TunnelOutcome {
    /// Both directions half-closed cleanly.
    Clean,
    /// At least one direction failed: which ones, client-to-destination first.
    Failed(bool, bool),
    /// The destination could not be reached.
    DialFailed,
}

/// One CONNECT tunnel between a client and a destination.
#[derive(Clone, Copy, Debug, PartialEq, Eq, Structural)]
pub struct TunnelSession {
    pub phase: TunnelPhase,
    pub client_to_dest: RelayState,
    pub dest_to_client: RelayState,
}

pub open spec fn is_finished(s: RelayState) -> bool {
    s is Finished
}

/// The session after `dir` handled `e`, and that direction's next action.
pub open spec fn session_next(s: TunnelSession, dir: Direction, e: RelayEvent) -> (
    TunnelSession,
    RelayAction,
) {
    let (c2d, d2c, act) = match dir {
        Direction::ClientToDest => {
            let (n, a) = relay_next(s.client_to_dest, e);
            (n, s.dest_to_client, a)
        },
        Direction::DestToClient => {
            let (n, a) = relay_next(s.dest_to_client, e);
            (s.client_to_dest, n, a)
        },
    };
    let phase = if is_finished(c2d) && is_finished(d2c) {
        TunnelPhase::Closed
    } else {
        TunnelPhase::Tunneling
    };
    (TunnelSession { phase, client_to_dest: c2d, dest_to_client: d2c }, act)
}

/// Phase matches the directions: a tunneling session has a live direction,
/// a connecting one has not started relaying.
pub open spec fn session_wf(s: TunnelSession) -> bool {
    match s.phase {
        TunnelPhase::Connecting => s.client_to_dest == RelayState::Reading && s.dest_to_client
            == RelayState::Reading,
        TunnelPhase::Tunneling => !(is_finished(s.client_to_dest) && is_finished(s.dest_to_client)),
        TunnelPhase::Closed => true,
    }
}

/// The session after its dial: tunneling on success; closed, reporting
/// `DialFailure`, on failure. The directions are not touched.
pub open spec fn dial_next(s: TunnelSession, connected: bool) -> (TunnelSession, Option<ProxyError>) {
    if connected {
        (TunnelSession { phase: TunnelPhase::Tunneling, ..s }, None)
    } else {
        (TunnelSession { phase: TunnelPhase::Closed, ..s }, Some(ProxyError::DialFailure))
    }
}

impl TunnelSession {
    /// A session about to dial its destination.
    pub fn new() -> (r: TunnelSession)
        ensures
            r.phase == TunnelPhase::Connecting,
            r.client_to_dest == RelayState::Reading,
            r.dest_to_client == RelayState::Reading,
            session_wf(r),
    {
        TunnelSession {
            phase: TunnelPhase::Connecting,
            client_to_dest: RelayState::Reading,
            dest_to_client: RelayState::Reading,
        }
    }

    /// Records the dial's result: on success both directions start
    /// reading; on failure the session closes and reports `DialFailure`.
    pub fn on_dial(&mut self, connected: bool) -> (r: Option<ProxyError>)
        requires
            old(self).phase == TunnelPhase::Connecting,
        ensures
            (*final(self), r) == dial_next(*old(self), connected),
            session_wf(*old(self)) ==> session_wf(*final(self)),
    {
        if connected {
            self.phase = TunnelPhase::Tunneling;
            None
        } else {
            self.phase = TunnelPhase::Closed;
            Some(ProxyError::DialFailure)
        }
    }

    /// Feeds one direction's I/O result to the session and returns that
    /// direction's next action. The other direction is left as it was; the
    /// session closes once both directions have finished.
    pub fn on_event(&mut self, dir: Direction, event: RelayEvent) -> (r: RelayAction)
        requires
            old(self).phase == TunnelPhase::Tunneling,
        ensures
            (*final(self), r) == session_next(*old(self), dir, event),
            session_wf(*final(self)),
    {
        let act = match dir {
            Direction::ClientToDest => {
                let (n, a) = relay_step(self.client_to_dest, event);
                self.client_to_dest = n;
                a
            },
            Direction::DestToClient => {
                let (n, a) = relay_step(self.dest_to_client, event);
                self.dest_to_client = n;
                a
            },
        };
        let both = matches!(self.client_to_dest, RelayState::Finished(_)) && matches!(self.dest_to_client, RelayState::Finished(_));
        self.phase = if both {
            TunnelPhase::Closed
        } else {
            TunnelPhase::Tunneling
        };
        act
    }

    /// How the session ended, once it is closed.
    pub fn outcome(&self) -> (r: Option<TunnelOutcome>)
        ensures
            r == session_outcome(*self),
    {
        match self.phase {
            TunnelPhase::Closed => match (self.client_to_dest, self.dest_to_client) {
                (RelayState::Finished(true), RelayState::Finished(true)) => Some(
                    TunnelOutcome::Clean,
                ),
                (RelayState::Finished(a), RelayState::Finished(b)) => Some(
                    TunnelOutcome::Failed(!a, !b),
                ),
                _ => Some(TunnelOutcome::DialFailed),
            },
            _ => None,
        }
    }
}

/// How a session ended: `None` while it is open; after a failed dial,
/// `DialFailed`; otherwise clean exactly when both directions were, and
/// else which of them failed.
pub open spec fn session_outcome(s: TunnelSession) -> Option<TunnelOutcome> {
    match s.phase {
        TunnelPhase::Closed => match (s.client_to_dest, s.dest_to_client) {
            (RelayState::Finished(a), RelayState::Finished(b)) => if a && b {
                Some(TunnelOutcome::Clean)
            } else {
                Some(TunnelOutcome::Failed(!a, !b))
            },
            _ => Some(TunnelOutcome::DialFailed),
        },
        _ => None,
    }
}

/// A failed dial closes the session at once, before any byte is relayed,
/// and reports `DialFailure`, which the client receives as Bad Gateway.
pub proof fn lemma_dial_failure_closes_session(s: TunnelSession)
    requires
        s.phase == TunnelPhase::Connecting,
        session_wf(s),
    ensures
        ({
            let (t, e) = dial_next(s, false);
            &&& t.phase == TunnelPhase::Closed
            &&& e == Some(ProxyError::DialFailure)
            &&& t.client_to_dest == RelayState::Reading
            &&& t.dest_to_client == RelayState::Reading
            &&& session_outcome(t) == Some(TunnelOutcome::DialFailed)
        }),
{
}

/// Half-close: when one side's read reports end of stream, that direction
/// shuts down its peer's write side and nothing else; the other direction
/// is untouched and the session stays open, so bytes still in flight the
/// other way keep flowing until that side closes too.
pub proof fn lemma_half_close_keeps_other_direction(s: TunnelSession, dir: Direction)
    requires
        s.phase == TunnelPhase::Tunneling,
        match dir {
            Direction::ClientToDest => s.client_to_dest == RelayState::Reading,
            Direction::DestToClient => s.dest_to_client == RelayState::Reading,
        },
    ensures
        ({
            let (t, a) = session_next(s, dir, RelayEvent::Read(0));
            &&& a == RelayAction::ShutdownPeer
            &&& t.phase == TunnelPhase::Tunneling
            &&& match dir {
                Direction::ClientToDest => t.client_to_dest == RelayState::ShuttingDown
                    && t.dest_to_client == s.dest_to_client,
                Direction::DestToClient => t.dest_to_client == RelayState::ShuttingDown
                    && t.client_to_dest == s.client_to_dest,
            }
        }),
{
}

/// An event for one direction never changes the other direction, whatever
/// it is: an error on one side does not cancel the other.
pub proof fn lemma_directions_independent(s: TunnelSession, dir: Direction, e: RelayEvent)
    ensures
        ({
            let (t, _a) = session_next(s, dir, e);
            match dir {
                Direction::ClientToDest => t.dest_to_client == s.dest_to_client,
                Direction::DestToClient => t.client_to_dest == s.client_to_dest,
            }
        }),
{
}

/// The actions a relay direction takes for a run of events, from `s`.
pub open spec fn relay_run(s: RelayState, events: Seq<RelayEvent>) -> (RelayState, Seq<RelayAction>)
    decreases events.len(),
{
    if events.len() == 0 {
        (s, Seq::empty())
    } else {
        let (n, a) = relay_next(s, events[0]);
        let (last, rest) = relay_run(n, events.drop_first());
        (last, seq![a] + rest)
    }
}

/// Each chunk read and then written in full.
pub open spec fn copy_events(chunks: Seq<usize>) -> Seq<RelayEvent>
    decreases chunks.len(),
{
    if chunks.len() == 0 {
        Seq::empty()
    } else {
        seq![RelayEvent::Read(chunks[0]), RelayEvent::Wrote] + copy_events(chunks.drop_first())
    }
}

/// For each chunk: write exactly that many bytes, then read again.
pub open spec fn copy_actions(chunks: Seq<usize>) -> Seq<RelayAction>
    decreases chunks.len(),
{
    if chunks.len() == 0 {
        Seq::empty()
    } else {
        seq![RelayAction::WriteAll(chunks[0]), RelayAction::Read] + copy_actions(
            chunks.drop_first(),
        )
    }
}

/// A reading relay that is handed non-empty chunks writes each one whole,
/// in the order read, and is reading again after the last.
pub proof fn lemma_relay_writes_chunks_in_order(chunks: Seq<usize>)
    requires
        forall|i: int| 0 <= i < chunks.len() ==> #[trigger] chunks[i] > 0,
    ensures
        relay_run(RelayState::Reading, copy_events(chunks)) == (
            RelayState::Reading,
            copy_actions(chunks),
        ),
    decreases chunks.len(),
{
    if chunks.len() > 0 {
        let rest = chunks.drop_first();
        assert forall|i: int| 0 <= i < rest.len() implies #[trigger] rest[i] > 0 by {
            assert(rest[i] == chunks[i + 1]);
        }
        lemma_relay_writes_chunks_in_order(rest);
        let ev = copy_events(chunks);
        let tail = copy_events(rest);
        assert(ev[0] == RelayEvent::Read(chunks[0]));
        assert(ev.drop_first() =~= seq![RelayEvent::Wrote] + tail);
        let ev1 = ev.drop_first();
        assert(ev1[0] == RelayEvent::Wrote);
        assert(ev1.drop_first() =~= tail);
        let (_l1, r1) = relay_run(RelayState::Reading, tail);
        assert(relay_run(RelayState::Writing(chunks[0]), ev1).1 =~= seq![RelayAction::Read] + r1);
        assert(relay_run(RelayState::Reading, ev).1 =~= copy_actions(chunks));
    }
}

} // verus!
