//! The life of one viewer's outbound session:
//! `Created → Negotiating → Attached → Terminated`.
//!
//! Each accepted viewer handshake gets a session of its own. The session
//! decides when its sink joins the broadcaster and when it leaves; it touches
//! no sink but its own.
use vstd::prelude::*;
use crate::broadcaster::{lemma_attach_effect, lemma_detach_effect, Broadcaster, FanOut, SinkHandle};
use crate::session::{advance, ConnectionState, StateTracker};

verus! {

/// Where a viewer's session stands.
#[derive(Clone, Copy, Debug, PartialEq, Eq, Structural)]
pub enum Phase {
    /// The session exists; no description has been exchanged.
    Created,
    /// The viewer's offer is set and the answer generated; candidates are
    /// being gathered.
    Negotiating,
    /// The answer has been returned and the sink is attached.
    Attached,
    /// The session has ended.
    Terminated,
}

/// What can happen to a viewer's session.
#[derive(Clone, Copy, Debug, PartialEq, Eq, Structural)]
pub enum SessionEvent {
    /// The viewer's offer was accepted and a local answer generated.
    OfferApplied,
    /// Gathering finished and the answer was handed to the caller.
    AnswerPublished,
    /// The description could not be negotiated.
    NegotiationFailed,
    /// The transport reports a connection state.
    StateChanged(ConnectionState),
}

/// What the session did to the broadcaster on an event.
#[derive(Clone, Copy, Debug, PartialEq, Eq, Structural)]
pub enum SessionEffect {
    /// Nothing: the broadcaster is as it was.
    Unchanged,
    /// The session's sink was attached under this handle.
    Attached(SinkHandle),
    /// The session ended and its sink was detached.
    Detached(SinkHandle),
    /// The session ended without a sink attached.
    Aborted,
}

/// The mathematical state of a viewer's session.
pub struct SessionState {
    pub phase: Phase,
    pub link: ConnectionState,
    pub sink: Option<SinkHandle>,
}

/// A session, the broadcaster and the effect after one event.
pub struct Outcome {
    pub session: SessionState,
    pub fanout: FanOut,
    pub effect: SessionEffect,
}

impl SessionState {
    pub open spec fn created() -> SessionState {
        SessionState { phase: Phase::Created, link: ConnectionState::New, sink: None }
    }

    /// A session holds a sink exactly while it is attached, and a session
    /// whose transport has ended is terminated.
    pub open spec fn wf(self) -> bool {
        &&& self.phase is Attached <==> self.sink is Some
        &&& self.link.terminal() ==> self.phase is Terminated
    }

    pub open spec fn terminated(self) -> SessionState {
        SessionState { phase: Phase::Terminated, sink: None, ..self }
    }

    /// The session and the broadcaster after an event. An event that does
    /// not fit the phase is disregarded.
    pub open spec fn on(self, fanout: FanOut, event: SessionEvent) -> Outcome {
        let ignored = Outcome { session: self, fanout, effect: SessionEffect::Unchanged };
        match (self.phase, event) {
            (Phase::Terminated, _) => ignored,
            (Phase::Created, SessionEvent::OfferApplied) => Outcome {
                session: SessionState { phase: Phase::Negotiating, ..self },
                ..ignored
            },
            (Phase::Negotiating, SessionEvent::AnswerPublished) => if fanout.exhausted() {
                Outcome { session: self.terminated(), fanout, effect: SessionEffect::Aborted }
            } else {
                Outcome {
                    session: SessionState {
                        phase: Phase::Attached,
                        sink: Some(fanout.next_handle()),
                        ..self
                    },
                    fanout: fanout.attach(),
                    effect: SessionEffect::Attached(fanout.next_handle()),
                }
            },
            (Phase::Created, SessionEvent::NegotiationFailed) => Outcome {
                session: self.terminated(),
                fanout,
                effect: SessionEffect::Aborted,
            },
            (Phase::Negotiating, SessionEvent::NegotiationFailed) => Outcome {
                session: self.terminated(),
                fanout,
                effect: SessionEffect::Aborted,
            },
            (_, SessionEvent::StateChanged(reported)) => {
                let link = advance(self.link, reported);
                if !link.terminal() {
                    Outcome { session: SessionState { link, ..self }, ..ignored }
                } else {
                    match self.sink {
                        Some(handle) => Outcome {
                            session: SessionState { link, ..self.terminated() },
                            fanout: fanout.detach(handle),
                            effect: SessionEffect::Detached(handle),
                        },
                        None => Outcome {
                            session: SessionState { link, ..self.terminated() },
                            fanout,
                            effect: SessionEffect::Aborted,
                        },
                    }
                }
            },
            _ => ignored,
        }
    }
}

/// One viewer's outbound session.
#[derive(Debug)]
pub struct OutboundSession {
    phase: Phase,
    link: StateTracker,
    sink: Option<SinkHandle>,
}

impl View for OutboundSession {
    type V = SessionState;

    closed spec fn view(&self) -> SessionState {
        SessionState { phase: self.phase, link: self.link@, sink: self.sink }
    }
}

impl OutboundSession {
    /// The invariant of every session that this module hands out.
    pub open spec fn wf(&self) -> bool {
        self@.wf()
    }

    /// A session for a viewer whose handshake has just been accepted.
    pub fn new() -> (session: Self)
        ensures
            session.wf(),
            session@ == SessionState::created(),
    {
        OutboundSession { phase: Phase::Created, link: StateTracker::new(), sink: None }
    }

    /// Where the session stands.
    pub fn phase(&self) -> (phase: Phase)
        ensures
            phase == self@.phase,
    {
        self.phase
    }

    /// The handle of the session's sink while it is attached.
    pub fn sink(&self) -> (sink: Option<SinkHandle>)
        ensures
            sink == self@.sink,
    {
        self.sink
    }

    /// The connection state last observed.
    pub fn link(&self) -> (state: ConnectionState)
        ensures
            state == self@.link,
    {
        self.link.current()
    }

    /// Takes an event of this viewer and carries out its consequence on the
    /// broadcaster: the sink is attached when the answer has been published,
    /// and detached when the transport reports a terminal state. Whatever
    /// happens, no other sink is attached or detached.
    pub fn handle(&mut self, event: SessionEvent, broadcaster: &mut Broadcaster) -> (effect:
        SessionEffect)
        requires
            old(self).wf(),
            old(broadcaster).wf(),
        ensures
            final(self).wf(),
            final(broadcaster).wf(),
            final(self)@ == old(self)@.on(old(broadcaster)@, event).session,
            final(broadcaster)@ == old(self)@.on(old(broadcaster)@, event).fanout,
            effect == old(self)@.on(old(broadcaster)@, event).effect,
    {
        match (self.phase, event) {
            (Phase::Terminated, _) => SessionEffect::Unchanged,
            (Phase::Created, SessionEvent::OfferApplied) => {
                self.phase = Phase::Negotiating;
                SessionEffect::Unchanged
            },
            (Phase::Negotiating, SessionEvent::AnswerPublished) => {
                match broadcaster.attach() {
                    Some(handle) => {
                        self.phase = Phase::Attached;
                        self.sink = Some(handle);
                        SessionEffect::Attached(handle)
                    },
                    None => {
                        self.phase = Phase::Terminated;
                        SessionEffect::Aborted
                    },
                }
            },
            (Phase::Created, SessionEvent::NegotiationFailed) => {
                self.phase = Phase::Terminated;
                SessionEffect::Aborted
            },
            (Phase::Negotiating, SessionEvent::NegotiationFailed) => {
                self.phase = Phase::Terminated;
                SessionEffect::Aborted
            },
            (_, SessionEvent::StateChanged(reported)) => {
                self.link.observe(reported);
                if !self.link.current().is_terminal() {
                    SessionEffect::Unchanged
                } else {
                    self.phase = Phase::Terminated;
                    match self.sink.take() {
                        Some(handle) => {
                            broadcaster.detach(handle);
                            SessionEffect::Detached(handle)
                        },
                        None => SessionEffect::Aborted,
                    }
                }
            },
            _ => SessionEffect::Unchanged,
        }
    }
}

/// Viewer sessions are isolated from one another: whatever happens to one
/// session, every sink other than its own that was attached stays attached,
/// and none that was detached comes back. A failed negotiation leaves the
/// broadcaster exactly as it was.
pub proof fn lemma_session_isolated(
    session: SessionState,
    fanout: FanOut,
    event: SessionEvent,
    other: SinkHandle,
)
    requires
        session.wf(),
        fanout.wf(),
        session.sink != Some(other),
        fanout.next_handle() != other,
    ensures
        session.on(fanout, event).fanout.attached(other) <==> fanout.attached(other),
        session.on(fanout, event).fanout.source == fanout.source,
        event is NegotiationFailed ==> session.on(fanout, event).fanout == fanout,
        session.on(fanout, event).session.wf(),
        session.on(fanout, event).fanout.wf(),
{
    lemma_attach_effect(fanout);
    if let Some(own) = session.sink {
        lemma_detach_effect(fanout, own);
    }
}

/// A session never leaves `Terminated`, and while terminated it leaves the
/// broadcaster alone.
pub proof fn lemma_terminated_is_final(session: SessionState, fanout: FanOut, event: SessionEvent)
    requires
        session.phase is Terminated,
    ensures
        session.on(fanout, event).session == session,
        session.on(fanout, event).fanout == fanout,
        session.on(fanout, event).effect == SessionEffect::Unchanged,
{
}

} // verus!
