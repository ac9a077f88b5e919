//! The orchestrator: publisher handshake, then the stream, then viewers.
//!
//! A [`Relay`] holds the stage of that sequence together with the
//! broadcaster, the publisher's observed connection state and the repair
//! loop. The driver reports what happened; the relay answers what to do next.
//!
//! Limitation: the relay serves one publisher. When the publisher's session
//! ends, the repair loop stops and the relay is no longer live; viewers are
//! still negotiated, but nothing flows to them, and there is no way back.
use vstd::prelude::*;
use crate::broadcaster::{
    disposition_of, lemma_attach_effect, lemma_detach_effect, Broadcaster, Disposition, FanOut,
    SinkHandle, WriteOutcome,
};
use crate::channel::{after_receive, HandshakeChannel};
use crate::outbound::{OutboundSession, SessionEffect, SessionEvent, SessionState};
use crate::repair::{RepairAction, RepairEvent, RepairLoop, RepairState};
use crate::session::{advance, ConnectionState, StateTracker};

verus! {

/// Where the orchestrator stands in its sequence.
#[derive(Clone, Copy, Debug, PartialEq, Eq, Structural)]
pub enum Stage {
    /// Waiting for the publisher's handshake.
    AwaitingPublisher,
    /// The inbound session is being negotiated.
    NegotiatingPublisher,
    /// The publisher has its answer; no media has arrived yet.
    AwaitingMedia,
    /// The stream runs; every further handshake is a viewer's.
    Serving,
    /// The inbound session could not be set up. The relay has ended.
    Stopped,
}

/// What the driver is to do next.
#[derive(Debug, PartialEq, Eq)]
pub enum Directive {
    /// Nothing now: wait for a handshake or for the event that is due.
    Wait,
    /// Establish the inbound session from this offer.
    NegotiateInbound(String),
    /// Open an outbound session for this viewer's offer.
    NegotiateOutbound(String),
    /// The relay has ended; exit.
    Halt,
}

/// The mathematical state of a relay.
pub struct RelayState {
    pub stage: Stage,
    pub publisher: ConnectionState,
    pub fanout: FanOut,
    pub repair: Option<RepairState>,
}

impl RelayState {
    pub open spec fn initial() -> RelayState {
        RelayState {
            stage: Stage::AwaitingPublisher,
            publisher: ConnectionState::New,
            fanout: FanOut::initial(),
            repair: None,
        }
    }

    /// The repair loop exists exactly once the source is bound, and is
    /// addressed to it; the relay serves only a bound source, and has not
    /// bound one while it still waits for media.
    pub open spec fn wf(self) -> bool {
        &&& self.fanout.wf()
        &&& match self.repair {
            Some(repair) => self.fanout.source == Some(repair.media_ssrc),
            None => self.fanout.source is None,
        }
        &&& self.stage is Serving ==> self.fanout.source is Some
        &&& self.stage is AwaitingPublisher || self.stage is AwaitingMedia
            ==> self.fanout.source is None
    }

    /// Whether the relay takes a handshake from the channel now.
    pub open spec fn wants_handshake(self) -> bool {
        self.stage is AwaitingPublisher || self.stage is Serving
    }

    /// Whether packets can flow: the stream has started and the publisher's
    /// session has not ended.
    pub open spec fn live(self) -> bool {
        self.stage is Serving && !self.publisher.terminal()
    }

    /// The relay after it has taken a handshake.
    pub open spec fn engaged(self) -> RelayState {
        if self.stage is AwaitingPublisher {
            RelayState { stage: Stage::NegotiatingPublisher, ..self }
        } else {
            self
        }
    }

    /// The relay after the publisher's answer has been published.
    pub open spec fn answered(self) -> RelayState {
        if self.stage is NegotiatingPublisher {
            RelayState {
                stage: if self.fanout.source is Some {
                    Stage::Serving
                } else {
                    Stage::AwaitingMedia
                },
                ..self
            }
        } else {
            self
        }
    }

    /// Whether a failure of the inbound session ends the relay: it does
    /// until the stream has started.
    pub open spec fn setting_up(self) -> bool {
        self.stage is NegotiatingPublisher || self.stage is AwaitingMedia
    }

    /// The relay after the inbound session failed to come up.
    pub open spec fn failed(self) -> RelayState {
        if self.setting_up() {
            RelayState { stage: Stage::Stopped, ..self }
        } else {
            self
        }
    }

    /// Whether the first packet of a stream is taken now.
    pub open spec fn accepts_media(self) -> bool {
        self.setting_up() && self.fanout.source is None
    }

    /// The relay after the first inbound packet: the source is bound, the
    /// repair loop started and, if the answer is out, viewers are served.
    pub open spec fn streaming(self, ssrc: u32) -> RelayState {
        if self.accepts_media() {
            RelayState {
                stage: if self.stage is AwaitingMedia {
                    Stage::Serving
                } else {
                    self.stage
                },
                fanout: self.fanout.bind(ssrc),
                repair: Some(RepairState::started(ssrc)),
                ..self
            }
        } else {
            self
        }
    }

    /// The relay after the publisher's session reported a state. A session
    /// that ends while the relay is still setting up can never deliver a
    /// stream: the relay stops.
    pub open spec fn observing(self, reported: ConnectionState) -> RelayState {
        let publisher = advance(self.publisher, reported);
        RelayState {
            publisher,
            stage: if publisher.terminal() && self.setting_up() {
                Stage::Stopped
            } else {
                self.stage
            },
            ..self
        }
    }

    /// The event that a tick of the repair timer stands for.
    pub open spec fn tick_event(self, publisher_present: bool) -> RepairEvent {
        RepairEvent::Tick(
            if publisher_present {
                Some(self.publisher)
            } else {
                None
            },
        )
    }

    /// The relay after an event of the repair loop.
    pub open spec fn repaired(self, event: RepairEvent) -> RelayState {
        match self.repair {
            Some(repair) => RelayState { repair: Some(repair.after(event)), ..self },
            None => self,
        }
    }

    /// What the driver is told on an event of the repair loop.
    pub open spec fn repair_action(self, event: RepairEvent) -> RepairAction {
        match self.repair {
            Some(repair) => repair.action(event),
            None => RepairAction::Stop,
        }
    }
}

/// The relay.
#[derive(Debug)]
pub struct Relay {
    stage: Stage,
    publisher: StateTracker,
    broadcaster: Broadcaster,
    repair: Option<RepairLoop>,
}

impl View for Relay {
    type V = RelayState;

    closed spec fn view(&self) -> RelayState {
        RelayState {
            stage: self.stage,
            publisher: self.publisher@,
            fanout: self.broadcaster@,
            repair: match self.repair {
                Some(repair) => Some(repair@),
                None => None,
            },
        }
    }
}

impl Relay {
    /// The invariant of every relay that this module hands out.
    pub open spec fn wf(&self) -> bool {
        self@.wf()
    }

    /// A relay that waits for its publisher.
    pub fn new() -> (relay: Self)
        ensures
            relay.wf(),
            relay@ == RelayState::initial(),
    {
        Relay {
            stage: Stage::AwaitingPublisher,
            publisher: StateTracker::new(),
            broadcaster: Broadcaster::new(),
            repair: None,
        }
    }

    /// Where the orchestrator stands.
    pub fn stage(&self) -> (stage: Stage)
        ensures
            stage == self@.stage,
    {
        self.stage
    }

    /// The publisher's connection state as last observed.
    pub fn publisher(&self) -> (state: ConnectionState)
        ensures
            state == self@.publisher,
    {
        self.publisher.current()
    }

    /// The broadcaster, to plan a forwarding pass.
    pub fn broadcaster(&self) -> (broadcaster: &Broadcaster)
        ensures
            broadcaster@ == self@.fanout,
    {
        &self.broadcaster
    }

    /// Whether the relay takes a handshake from the channel now.
    pub fn wants_handshake(&self) -> (wanted: bool)
        ensures
            wanted == self@.wants_handshake(),
    {
        match self.stage {
            Stage::AwaitingPublisher => true,
            Stage::Serving => true,
            _ => false,
        }
    }

    /// Whether packets can flow.
    pub fn is_live(&self) -> (live: bool)
        ensures
            live == self@.live(),
    {
        match self.stage {
            Stage::Serving => !self.publisher.current().is_terminal(),
            _ => false,
        }
    }

    /// One turn of the orchestrator. A handshake is taken from the channel
    /// only when the relay can act on it: the first is the publisher's offer,
    /// and every one taken while serving is a viewer's. In between the
    /// channel is left alone, so that a waiting message is neither lost nor
    /// overtaken.
    pub fn poll(&mut self, channel: &mut HandshakeChannel) -> (directive: Directive)
        requires
            old(self).wf(),
        ensures
            final(self).wf(),
            match directive {
                Directive::Halt => {
                    &&& old(self)@.stage is Stopped
                    &&& final(self)@ == old(self)@
                    &&& final(channel)@ == old(channel)@
                },
                Directive::Wait => {
                    &&& !(old(self)@.stage is Stopped)
                    &&& !old(self)@.wants_handshake() || old(channel)@.len() == 0
                    &&& final(self)@ == old(self)@
                    &&& final(channel)@ == old(channel)@
                },
                Directive::NegotiateInbound(offer) => {
                    &&& old(self)@.stage is AwaitingPublisher
                    &&& old(channel)@.len() > 0
                    &&& offer@ == old(channel)@.first()
                    &&& final(self)@ == old(self)@.engaged()
                    &&& final(channel)@ == after_receive(old(channel)@)
                },
                Directive::NegotiateOutbound(offer) => {
                    &&& old(self)@.stage is Serving
                    &&& old(channel)@.len() > 0
                    &&& offer@ == old(channel)@.first()
                    &&& final(self)@ == old(self)@.engaged()
                    &&& final(channel)@ == after_receive(old(channel)@)
                },
            },
    {
        match self.stage {
            Stage::Stopped => Directive::Halt,
            Stage::AwaitingPublisher => match channel.receive() {
                Some(offer) => {
                    self.stage = Stage::NegotiatingPublisher;
                    Directive::NegotiateInbound(offer)
                },
                None => Directive::Wait,
            },
            Stage::Serving => match channel.receive() {
                Some(offer) => Directive::NegotiateOutbound(offer),
                None => Directive::Wait,
            },
            _ => Directive::Wait,
        }
    }

    /// The publisher's answer has been published. Returns whether the relay
    /// was negotiating with the publisher; if not, nothing changes.
    pub fn inbound_answered(&mut self) -> (advanced: bool)
        requires
            old(self).wf(),
        ensures
            final(self).wf(),
            final(self)@ == old(self)@.answered(),
            advanced == (old(self)@.stage is NegotiatingPublisher),
    {
        match self.stage {
            Stage::NegotiatingPublisher => {
                if self.broadcaster.source().is_some() {
                    self.stage = Stage::Serving;
                } else {
                    self.stage = Stage::AwaitingMedia;
                }
                true
            },
            _ => false,
        }
    }

    /// The inbound session could not be set up, or ended before any media
    /// arrived: the relay stops. Returns whether it did; once the stream
    /// has started, the loss of the publisher does not stop the relay.
    pub fn inbound_failed(&mut self) -> (stopped: bool)
        requires
            old(self).wf(),
        ensures
            final(self).wf(),
            final(self)@ == old(self)@.failed(),
            stopped == old(self)@.setting_up(),
    {
        match self.stage {
            Stage::NegotiatingPublisher => {
                self.stage = Stage::Stopped;
                true
            },
            Stage::AwaitingMedia => {
                self.stage = Stage::Stopped;
                true
            },
            _ => false,
        }
    }

    /// The first packet of the inbound stream has arrived: the source is
    /// bound, once and for all, and the repair loop is started. Returns
    /// whether this call did so.
    pub fn media_started(&mut self, ssrc: u32) -> (started: bool)
        requires
            old(self).wf(),
        ensures
            final(self).wf(),
            final(self)@ == old(self)@.streaming(ssrc),
            started == old(self)@.accepts_media(),
    {
        let setting_up = match self.stage {
            Stage::NegotiatingPublisher => true,
            Stage::AwaitingMedia => true,
            _ => false,
        };
        if setting_up && self.broadcaster.source().is_none() {
            self.broadcaster.bind_source(ssrc);
            self.repair = Some(RepairLoop::new(ssrc));
            if self.stage == Stage::AwaitingMedia {
                self.stage = Stage::Serving;
            }
            true
        } else {
            false
        }
    }

    /// The publisher's session reports a connection state. Returns whether
    /// the report was a transition. If the session has ended before the
    /// stream started, the relay stops; once it serves, it goes on serving.
    pub fn publisher_state(&mut self, reported: ConnectionState) -> (entered: bool)
        requires
            old(self).wf(),
        ensures
            final(self).wf(),
            final(self)@ == old(self)@.observing(reported),
            entered == old(self)@.publisher.precedes(reported),
    {
        let entered = self.publisher.observe(reported);
        if self.publisher.current().is_terminal() {
            match self.stage {
                Stage::NegotiatingPublisher => {
                    self.stage = Stage::Stopped;
                },
                Stage::AwaitingMedia => {
                    self.stage = Stage::Stopped;
                },
                _ => {},
            }
        }
        entered
    }

    /// The repair interval has elapsed. `publisher_present` says whether the
    /// publisher's session still exists. A signal is sent only if the
    /// session is there and was last observed connected.
    pub fn repair_tick(&mut self, publisher_present: bool) -> (action: RepairAction)
        requires
            old(self).wf(),
        ensures
            final(self).wf(),
            final(self)@ == old(self)@.repaired(old(self)@.tick_event(publisher_present)),
            action == old(self)@.repair_action(old(self)@.tick_event(publisher_present)),
    {
        let publisher = if publisher_present {
            Some(self.publisher.current())
        } else {
            None
        };
        self.repair_event(RepairEvent::Tick(publisher))
    }

    /// The last repair signal could not be sent: the repair loop ends.
    pub fn repair_send_failed(&mut self)
        requires
            old(self).wf(),
        ensures
            final(self).wf(),
            final(self)@ == old(self)@.repaired(RepairEvent::SendFailed),
    {
        self.repair_event(RepairEvent::SendFailed);
    }

    fn repair_event(&mut self, event: RepairEvent) -> (action: RepairAction)
        requires
            old(self).wf(),
        ensures
            final(self).wf(),
            final(self)@ == old(self)@.repaired(event),
            action == old(self)@.repair_action(event),
    {
        match self.repair {
            Some(current) => {
                let mut repair = current;
                let action = repair.handle(event);
                self.repair = Some(repair);
                action
            },
            None => RepairAction::Stop,
        }
    }

    /// Takes the outcome of one write of the forwarding pass.
    pub fn settle(&mut self, handle: SinkHandle, outcome: WriteOutcome) -> (disposition:
        Disposition)
        requires
            old(self).wf(),
        ensures
            final(self).wf(),
            final(self)@ == (RelayState {
                fanout: old(self)@.fanout.settle(handle, outcome),
                ..old(self)@
            }),
            disposition == disposition_of(outcome),
    {
        self.broadcaster.settle(handle, outcome)
    }

    /// Passes an event to a viewer's session. Whatever the event, and
    /// whatever becomes of that session, the relay keeps its stage, its
    /// publisher and its repair loop.
    pub fn viewer_event(&mut self, session: &mut OutboundSession, event: SessionEvent) -> (effect:
        SessionEffect)
        requires
            old(self).wf(),
            old(session).wf(),
        ensures
            final(self).wf(),
            final(session).wf(),
            final(session)@ == old(session)@.on(old(self)@.fanout, event).session,
            final(self)@ == (RelayState {
                fanout: old(session)@.on(old(self)@.fanout, event).fanout,
                ..old(self)@
            }),
            effect == old(session)@.on(old(self)@.fanout, event).effect,
    {
        proof {
            lemma_attach_effect(self@.fanout);
            if let Some(own) = session@.sink {
                lemma_detach_effect(self@.fanout, own);
            }
        }
        session.handle(event, &mut self.broadcaster)
    }
}

/// Everything that can happen to a relay.
pub enum RelayEvent {
    /// A handshake was taken from the channel.
    HandshakeTaken,
    /// The publisher's answer was published.
    InboundAnswered,
    /// The inbound session could not be set up.
    InboundFailed,
    /// The first packet of the inbound stream arrived.
    MediaStarted(u32),
    /// The publisher's session reported a connection state.
    PublisherState(ConnectionState),
    /// The repair timer ticked, or a repair signal could not be sent.
    Repair(RepairEvent),
    /// A write of the forwarding pass ended.
    Settled(SinkHandle, WriteOutcome),
    /// Something happened to the session of a viewer.
    Viewer(SessionState, SessionEvent),
}

impl RelayState {
    /// The relay after an event.
    pub open spec fn on(self, event: RelayEvent) -> RelayState {
        match event {
            RelayEvent::HandshakeTaken => self.engaged(),
            RelayEvent::InboundAnswered => self.answered(),
            RelayEvent::InboundFailed => self.failed(),
            RelayEvent::MediaStarted(ssrc) => self.streaming(ssrc),
            RelayEvent::PublisherState(reported) => self.observing(reported),
            RelayEvent::Repair(event) => self.repaired(event),
            RelayEvent::Settled(handle, outcome) => RelayState {
                fanout: self.fanout.settle(handle, outcome),
                ..self
            },
            RelayEvent::Viewer(session, event) => RelayState {
                fanout: session.on(self.fanout, event).fanout,
                ..self
            },
        }
    }
}

/// The relay's invariant holds after every event.
pub proof fn lemma_relay_stays_wf(relay: RelayState, event: RelayEvent)
    requires
        relay.wf(),
        event matches RelayEvent::Viewer(session, _) ==> session.wf(),
    ensures
        relay.on(event).wf(),
{
    lemma_attach_effect(relay.fanout);
    match event {
        RelayEvent::Settled(handle, _) => lemma_detach_effect(relay.fanout, handle),
        RelayEvent::Viewer(session, _) => {
            if let Some(own) = session.sink {
                lemma_detach_effect(relay.fanout, own);
            }
        },
        _ => {},
    }
}

/// Once the relay serves viewers it never stops serving: neither the loss
/// of the publisher, nor a failed repair, nor anything that happens to a
/// viewer's session or sink takes it out of `Serving`.
pub proof fn lemma_serving_never_ends(relay: RelayState, event: RelayEvent)
    requires
        relay.stage is Serving,
    ensures
        relay.on(event).stage is Serving,
{
}

/// Nothing that happens to a viewer's session or to a sink changes the
/// stage, the publisher's state, the source or the repair loop.
pub proof fn lemma_viewers_leave_the_relay_alone(relay: RelayState, event: RelayEvent)
    requires
        event is Viewer || event is Settled,
    ensures
        relay.on(event).stage == relay.stage,
        relay.on(event).publisher == relay.publisher,
        relay.on(event).repair == relay.repair,
        relay.on(event).fanout.source == relay.fanout.source,
{
}

/// A relay that has stopped stays stopped.
pub proof fn lemma_stopped_is_final(relay: RelayState, event: RelayEvent)
    requires
        relay.stage is Stopped,
    ensures
        relay.on(event).stage is Stopped,
{
}

/// Once the publisher's session has ended, the relay is never live again,
/// and its repair loop answers every tick with `Stop`.
pub proof fn lemma_publisher_loss_is_final(relay: RelayState, event: RelayEvent, present: bool)
    requires
        relay.publisher.terminal(),
    ensures
        relay.on(event).publisher == relay.publisher,
        !relay.on(event).live(),
        relay.repair_action(relay.tick_event(present)) == RepairAction::Stop,
{
}

} // verus!
