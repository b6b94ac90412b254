//! The WebSocket relay: one session is a bidirectional pipe between a client
//! and the backend. Frames pass through unmodified in both directions, and
//! the first read error, write error or closed stream ends the whole session.

use vstd::prelude::*;

verus! {

/// One WebSocket frame, carried through the relay unmodified. The payload of
/// a close frame is its encoded code and reason.
#[derive(Debug)]
pub enum Frame {
    Text(Vec<u8>),
    Binary(Vec<u8>),
    Ping(Vec<u8>),
    Pong(Vec<u8>),
    Close(Vec<u8>),
}

/// One observation made by the I/O layer while a session runs.
#[derive(Debug)]
pub enum RelayEvent {
    /// A frame arrived from the client side.
    ClientFrame(Frame),
    /// A frame arrived from the backend side.
    BackendFrame(Frame),
    /// The client stream ended.
    ClientClosed,
    /// The backend stream ended.
    BackendClosed,
    /// Reading from the client failed.
    ClientReadError,
    /// Reading from the backend failed.
    BackendReadError,
    /// Writing to the backend failed.
    SendToBackendFailed,
    /// Writing to the client failed.
    SendToClientFailed,
}

/// What the I/O layer must do next.
#[derive(Debug)]
pub enum RelayAction {
    /// Write this frame to the backend.
    ForwardToBackend(Frame),
    /// Write this frame to the client.
    ForwardToClient(Frame),
    /// Tear both directions down; the session is over.
    EndSession,
}

/// The relay transition function: an open session forwards each frame to the
/// opposite peer unchanged; any error or closed stream ends the session, and
/// a session once ended only ever ends again (first failure wins).
pub open spec fn spec_step(active: bool, event: RelayEvent) -> (bool, RelayAction) {
    if !active {
        (false, RelayAction::EndSession)
    } else {
        match event {
            RelayEvent::ClientFrame(f) => (true, RelayAction::ForwardToBackend(f)),
            RelayEvent::BackendFrame(f) => (true, RelayAction::ForwardToClient(f)),
            _ => (false, RelayAction::EndSession),
        }
    }
}

/// One relay session, scoped to one inbound WebSocket connection.
pub struct RelaySession {
    /// Whether the session still relays frames.
    pub active: bool,
}

impl RelaySession {
    /// A session begins once both the inbound upgrade and the backend dial
    /// have succeeded.
    pub fn begin() -> (r: RelaySession)
        ensures
            r.active,
    {
        RelaySession { active: true }
    }

    /// Feed one observation to the session and learn what to do next; the
    /// step follows `spec_step` exactly.
    pub fn step(&mut self, event: RelayEvent) -> (action: RelayAction)
        ensures
            (final(self).active, action) == spec_step(old(self).active, event),
    {
        if !self.active {
            return RelayAction::EndSession;
        }
        match event {
            RelayEvent::ClientFrame(f) => RelayAction::ForwardToBackend(f),
            RelayEvent::BackendFrame(f) => RelayAction::ForwardToClient(f),
            _ => {
                self.active = false;
                RelayAction::EndSession
            },
        }
    }
}

/// Whether the session is still open after the whole event trace.
pub open spec fn active_after(events: Seq<RelayEvent>) -> bool
    decreases events.len(),
{
    if events.len() == 0 {
        true
    } else {
        spec_step(active_after(events.drop_last()), events.last()).0
    }
}

/// The frames the relay wrote to the backend over the whole trace, in order.
pub open spec fn forwarded_to_backend(events: Seq<RelayEvent>) -> Seq<Frame>
    decreases events.len(),
{
    if events.len() == 0 {
        Seq::empty()
    } else {
        let rest = forwarded_to_backend(events.drop_last());
        match spec_step(active_after(events.drop_last()), events.last()).1 {
            RelayAction::ForwardToBackend(f) => rest.push(f),
            _ => rest,
        }
    }
}

/// The frames the relay wrote to the client over the whole trace, in order.
pub open spec fn forwarded_to_client(events: Seq<RelayEvent>) -> Seq<Frame>
    decreases events.len(),
{
    if events.len() == 0 {
        Seq::empty()
    } else {
        let rest = forwarded_to_client(events.drop_last());
        match spec_step(active_after(events.drop_last()), events.last()).1 {
            RelayAction::ForwardToClient(f) => rest.push(f),
            _ => rest,
        }
    }
}

/// The frames the client sent over the whole trace, in order.
pub open spec fn client_frames(events: Seq<RelayEvent>) -> Seq<Frame>
    decreases events.len(),
{
    if events.len() == 0 {
        Seq::empty()
    } else {
        let rest = client_frames(events.drop_last());
        match events.last() {
            RelayEvent::ClientFrame(f) => rest.push(f),
            _ => rest,
        }
    }
}

/// The frames the backend sent over the whole trace, in order.
pub open spec fn backend_frames(events: Seq<RelayEvent>) -> Seq<Frame>
    decreases events.len(),
{
    if events.len() == 0 {
        Seq::empty()
    } else {
        let rest = backend_frames(events.drop_last());
        match events.last() {
            RelayEvent::BackendFrame(f) => rest.push(f),
            _ => rest,
        }
    }
}

/// As long as a session remains open, every frame the client sent was
/// forwarded to the backend with an identical payload and frame type, in
/// send order.
pub proof fn lemma_client_to_backend_order(events: Seq<RelayEvent>)
    requires
        active_after(events),
    ensures
        forwarded_to_backend(events) == client_frames(events),
    decreases events.len(),
{
    if events.len() > 0 {
        assert(active_after(events.drop_last()));
        lemma_client_to_backend_order(events.drop_last());
    }
}

/// As long as a session remains open, every frame the backend sent was
/// forwarded to the client with an identical payload and frame type, in
/// send order.
pub proof fn lemma_backend_to_client_order(events: Seq<RelayEvent>)
    requires
        active_after(events),
    ensures
        forwarded_to_client(events) == backend_frames(events),
    decreases events.len(),
{
    if events.len() > 0 {
        assert(active_after(events.drop_last()));
        lemma_backend_to_client_order(events.drop_last());
    }
}

/// A session that has observed a failure never forwards another frame: after
/// any trace that leaves the session closed, extending the trace with any
/// further events forwards nothing new in either direction.
pub proof fn lemma_first_failure_wins(events: Seq<RelayEvent>, more: Seq<RelayEvent>)
    requires
        !active_after(events),
    ensures
        forwarded_to_backend(events + more) == forwarded_to_backend(events),
        forwarded_to_client(events + more) == forwarded_to_client(events),
        !active_after(events + more),
    decreases more.len(),
{
    if more.len() == 0 {
        assert(events + more =~= events);
    } else {
        lemma_first_failure_wins(events, more.drop_last());
        assert((events + more).drop_last() =~= events + more.drop_last());
        assert((events + more).last() == more.last());
    }
}

} // verus!
