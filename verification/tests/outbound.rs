use media_relay::broadcaster::{Broadcaster, SinkHandle};
use media_relay::outbound::{OutboundSession, Phase, SessionEffect, SessionEvent};
use media_relay::session::ConnectionState;

fn attached_session(broadcaster: &mut Broadcaster) -> (OutboundSession, SinkHandle) {
    let mut session = OutboundSession::new();
    session.handle(SessionEvent::OfferApplied, broadcaster);
    match session.handle(SessionEvent::AnswerPublished, broadcaster) {
        SessionEffect::Attached(handle) => (session, handle),
        other => panic!("not attached: {:?}", other),
    }
}

#[test]
fn session_walks_through_its_phases() {
    let mut broadcaster = Broadcaster::new();
    let mut session = OutboundSession::new();
    assert_eq!(session.phase(), Phase::Created);
    assert_eq!(session.sink(), None);
    assert_eq!(session.link(), ConnectionState::New);

    assert_eq!(session.handle(SessionEvent::OfferApplied, &mut broadcaster), SessionEffect::Unchanged);
    assert_eq!(session.phase(), Phase::Negotiating);
    assert_eq!(broadcaster.sink_count(), 0);

    let effect = session.handle(SessionEvent::AnswerPublished, &mut broadcaster);
    assert_eq!(effect, SessionEffect::Attached(SinkHandle { id: 0 }));
    assert_eq!(session.phase(), Phase::Attached);
    assert_eq!(session.sink(), Some(SinkHandle { id: 0 }));
    assert!(broadcaster.is_attached(SinkHandle { id: 0 }));

    let connected = SessionEvent::StateChanged(ConnectionState::Connected);
    assert_eq!(session.handle(connected, &mut broadcaster), SessionEffect::Unchanged);
    assert_eq!(session.phase(), Phase::Attached);
    assert_eq!(session.link(), ConnectionState::Connected);

    let closed = SessionEvent::StateChanged(ConnectionState::Closed);
    assert_eq!(session.handle(closed, &mut broadcaster), SessionEffect::Detached(SinkHandle { id: 0 }));
    assert_eq!(session.phase(), Phase::Terminated);
    assert_eq!(session.sink(), None);
    assert_eq!(broadcaster.sink_count(), 0);
}

#[test]
fn sink_is_attached_before_the_transport_connects() {
    let mut broadcaster = Broadcaster::new();
    let (session, handle) = attached_session(&mut broadcaster);
    assert_eq!(session.link(), ConnectionState::New);
    assert!(broadcaster.is_attached(handle));
}

#[test]
fn every_terminal_state_terminates_and_detaches() {
    for terminal in [ConnectionState::Disconnected, ConnectionState::Failed, ConnectionState::Closed] {
        let mut broadcaster = Broadcaster::new();
        let (mut session, handle) = attached_session(&mut broadcaster);
        let effect = session.handle(SessionEvent::StateChanged(terminal), &mut broadcaster);
        assert_eq!(effect, SessionEffect::Detached(handle));
        assert_eq!(session.phase(), Phase::Terminated);
        assert!(!broadcaster.is_attached(handle));
    }
}

#[test]
fn negotiation_failure_aborts_only_that_session() {
    let mut broadcaster = Broadcaster::new();
    let (other, other_handle) = attached_session(&mut broadcaster);
    let before = broadcaster.snapshot();

    let mut early = OutboundSession::new();
    assert_eq!(early.handle(SessionEvent::NegotiationFailed, &mut broadcaster), SessionEffect::Aborted);
    assert_eq!(early.phase(), Phase::Terminated);

    let mut late = OutboundSession::new();
    late.handle(SessionEvent::OfferApplied, &mut broadcaster);
    assert_eq!(late.handle(SessionEvent::NegotiationFailed, &mut broadcaster), SessionEffect::Aborted);
    assert_eq!(late.phase(), Phase::Terminated);

    assert_eq!(broadcaster.snapshot(), before);
    assert_eq!(other.phase(), Phase::Attached);
    assert!(broadcaster.is_attached(other_handle));
}

#[test]
fn session_that_ends_before_attaching_touches_no_sink() {
    let mut broadcaster = Broadcaster::new();
    let (_, other_handle) = attached_session(&mut broadcaster);
    let mut session = OutboundSession::new();
    session.handle(SessionEvent::OfferApplied, &mut broadcaster);
    let effect = session.handle(SessionEvent::StateChanged(ConnectionState::Failed), &mut broadcaster);
    assert_eq!(effect, SessionEffect::Aborted);
    assert_eq!(session.phase(), Phase::Terminated);
    assert_eq!(broadcaster.snapshot(), vec![other_handle]);
}

#[test]
fn events_out_of_turn_are_disregarded() {
    let mut broadcaster = Broadcaster::new();
    let mut session = OutboundSession::new();
    assert_eq!(session.handle(SessionEvent::AnswerPublished, &mut broadcaster), SessionEffect::Unchanged);
    assert_eq!(session.phase(), Phase::Created);
    assert_eq!(broadcaster.sink_count(), 0);

    let (mut attached, handle) = attached_session(&mut broadcaster);
    assert_eq!(attached.handle(SessionEvent::OfferApplied, &mut broadcaster), SessionEffect::Unchanged);
    assert_eq!(attached.handle(SessionEvent::AnswerPublished, &mut broadcaster), SessionEffect::Unchanged);
    assert_eq!(attached.handle(SessionEvent::NegotiationFailed, &mut broadcaster), SessionEffect::Unchanged);
    assert_eq!(attached.phase(), Phase::Attached);
    assert_eq!(broadcaster.snapshot(), vec![handle]);
}

#[test]
fn terminated_session_stays_terminated() {
    let mut broadcaster = Broadcaster::new();
    let (mut session, handle) = attached_session(&mut broadcaster);
    session.handle(SessionEvent::StateChanged(ConnectionState::Closed), &mut broadcaster);
    let (_, next) = attached_session(&mut broadcaster);
    for event in [
        SessionEvent::OfferApplied,
        SessionEvent::AnswerPublished,
        SessionEvent::NegotiationFailed,
        SessionEvent::StateChanged(ConnectionState::Connected),
        SessionEvent::StateChanged(ConnectionState::Failed),
    ] {
        assert_eq!(session.handle(event, &mut broadcaster), SessionEffect::Unchanged);
        assert_eq!(session.phase(), Phase::Terminated);
    }
    assert!(!broadcaster.is_attached(handle));
    assert_eq!(broadcaster.snapshot(), vec![next]);
}

#[test]
fn session_survives_the_automatic_detach_of_its_sink() {
    let mut broadcaster = Broadcaster::new();
    let (mut session, handle) = attached_session(&mut broadcaster);
    broadcaster.detach(handle);
    let effect = session.handle(SessionEvent::StateChanged(ConnectionState::Closed), &mut broadcaster);
    assert_eq!(effect, SessionEffect::Detached(handle));
    assert_eq!(session.phase(), Phase::Terminated);
    assert_eq!(broadcaster.sink_count(), 0);
}
