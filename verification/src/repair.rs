//! The repair loop: at a fixed interval it asks the publisher for a fresh
//! keyframe, for as long as the publisher's session is connected.
//!
//! Waiting for the interval and sending the signal are the driver's part.
//! What to do when the interval has elapsed is decided here.
use vstd::prelude::*;
use crate::session::ConnectionState;

verus! {

/// Seconds between two repair requests.
pub const REPAIR_INTERVAL_SECS: u64 = 3;

/// A picture-loss indication addressed to one inbound stream.
#[derive(Clone, Copy, Debug, PartialEq, Eq, Structural)]
pub struct RepairSignal {
    pub sender_ssrc: u32,
    pub media_ssrc: u32,
}

/// What the driver does after an event of the loop.
#[derive(Clone, Copy, Debug, PartialEq, Eq, Structural)]
pub enum RepairAction {
    /// Send the signal, then wait for the next interval.
    Send(RepairSignal),
    /// Send nothing; wait for the next interval.
    Idle,
    /// The loop has ended.
    Stop,
}

/// What can happen to the loop.
#[derive(Clone, Copy, Debug, PartialEq, Eq, Structural)]
pub enum RepairEvent {
    /// The interval has elapsed. The publisher's session reports the given
    /// state, or is gone altogether (`None`).
    Tick(Option<ConnectionState>),
    /// The last send ended in a fatal transport error.
    SendFailed,
}

/// The mathematical state of a repair loop.
pub struct RepairState {
    pub media_ssrc: u32,
    pub running: bool,
}

impl RepairState {
    pub open spec fn started(media_ssrc: u32) -> RepairState {
        RepairState { media_ssrc, running: true }
    }

    pub open spec fn stopped(self) -> RepairState {
        RepairState { running: false, ..self }
    }

    /// The signal that this loop sends.
    pub open spec fn signal(self) -> RepairSignal {
        RepairSignal { sender_ssrc: 0, media_ssrc: self.media_ssrc }
    }

    /// Whether the event lets a running loop go on.
    pub open spec fn survives(event: RepairEvent) -> bool {
        event matches RepairEvent::Tick(Some(state)) && !state.terminal()
    }

    /// The loop after an event.
    pub open spec fn after(self, event: RepairEvent) -> RepairState {
        if self.running && Self::survives(event) {
            self
        } else {
            self.stopped()
        }
    }

    /// What the driver is told to do on an event.
    pub open spec fn action(self, event: RepairEvent) -> RepairAction {
        if !self.after(event).running {
            RepairAction::Stop
        } else if event == RepairEvent::Tick(Some(ConnectionState::Connected)) {
            RepairAction::Send(self.signal())
        } else {
            RepairAction::Idle
        }
    }
}

/// The repair loop of one inbound stream.
#[derive(Clone, Copy, Debug)]
pub struct RepairLoop {
    media_ssrc: u32,
    running: bool,
}

impl View for RepairLoop {
    type V = RepairState;

    closed spec fn view(&self) -> RepairState {
        RepairState { media_ssrc: self.media_ssrc, running: self.running }
    }
}

impl RepairLoop {
    /// A running loop for the stream with the given synchronization source.
    pub fn new(media_ssrc: u32) -> (repair: Self)
        ensures
            repair@ == RepairState::started(media_ssrc),
    {
        RepairLoop { media_ssrc, running: true }
    }

    /// Whether the loop has not ended yet.
    pub fn is_running(&self) -> (running: bool)
        ensures
            running == self@.running,
    {
        self.running
    }

    /// The synchronization source that the signals are addressed to.
    pub fn media_ssrc(&self) -> (ssrc: u32)
        ensures
            ssrc == self@.media_ssrc,
    {
        self.media_ssrc
    }

    /// Takes an event and says what to do. A signal is sent only on a tick
    /// that finds the publisher connected; the loop ends, for good, on a tick
    /// that finds the publisher gone or in a terminal state, and on a send
    /// that failed fatally.
    pub fn handle(&mut self, event: RepairEvent) -> (action: RepairAction)
        ensures
            final(self)@ == old(self)@.after(event),
            action == old(self)@.action(event),
    {
        if !self.running {
            return RepairAction::Stop;
        }
        match event {
            RepairEvent::Tick(Some(state)) => {
                if state.is_terminal() {
                    self.running = false;
                    RepairAction::Stop
                } else if state == ConnectionState::Connected {
                    RepairAction::Send(RepairSignal { sender_ssrc: 0, media_ssrc: self.media_ssrc })
                } else {
                    RepairAction::Idle
                }
            },
            _ => {
                self.running = false;
                RepairAction::Stop
            },
        }
    }

    /// The interval has elapsed; see [`RepairLoop::handle`].
    pub fn tick(&mut self, publisher: Option<ConnectionState>) -> (action: RepairAction)
        ensures
            final(self)@ == old(self)@.after(RepairEvent::Tick(publisher)),
            action == old(self)@.action(RepairEvent::Tick(publisher)),
    {
        self.handle(RepairEvent::Tick(publisher))
    }

    /// The last send failed fatally: the loop ends.
    pub fn send_failed(&mut self)
        ensures
            final(self)@ == old(self)@.stopped(),
    {
        self.handle(RepairEvent::SendFailed);
    }
}

/// The loop for `media_ssrc` after a history of events.
pub open spec fn repair_after(media_ssrc: u32, history: Seq<RepairEvent>) -> RepairState
    decreases history.len(),
{
    if history.len() == 0 {
        RepairState::started(media_ssrc)
    } else {
        repair_after(media_ssrc, history.drop_last()).after(history.last())
    }
}

/// What the driver is told on event `i` of a history.
pub open spec fn repair_action(media_ssrc: u32, history: Seq<RepairEvent>, i: int) -> RepairAction {
    repair_after(media_ssrc, history.take(i)).action(history[i])
}

/// The loop runs after a history exactly if no event of it ended the loop.
pub proof fn lemma_running_iff_all_survived(media_ssrc: u32, history: Seq<RepairEvent>)
    ensures
        repair_after(media_ssrc, history).media_ssrc == media_ssrc,
        repair_after(media_ssrc, history).running <==> forall|j: int|
            0 <= j < history.len() ==> RepairState::survives(#[trigger] history[j]),
    decreases history.len(),
{
    if history.len() > 0 {
        lemma_running_iff_all_survived(media_ssrc, history.drop_last());
        let earlier = history.drop_last();
        if repair_after(media_ssrc, history).running {
            assert forall|j: int| 0 <= j < history.len() implies RepairState::survives(
                #[trigger] history[j],
            ) by {
                if j < earlier.len() {
                    assert(earlier[j] == history[j]);
                }
            }
        } else if repair_after(media_ssrc, earlier).running {
            assert(!RepairState::survives(history[history.len() - 1]));
        } else {
            let j = choose|j: int| 0 <= j < earlier.len() && !RepairState::survives(#[trigger] earlier[j]);
            assert(!RepairState::survives(history[j]));
        }
    }
}

/// A repair signal is sent only on a tick that finds the publisher
/// connected, addressed to the inbound stream, and only if the publisher
/// was present and not in a terminal state on every tick before, and no send
/// had failed.
pub proof fn lemma_repair_only_while_connected(media_ssrc: u32, history: Seq<RepairEvent>, i: int)
    requires
        0 <= i < history.len(),
        repair_action(media_ssrc, history, i) is Send,
    ensures
        history[i] == RepairEvent::Tick(Some(ConnectionState::Connected)),
        repair_action(media_ssrc, history, i) == RepairAction::Send(
            RepairSignal { sender_ssrc: 0, media_ssrc },
        ),
        forall|j: int| 0 <= j < i ==> RepairState::survives(#[trigger] history[j]),
{
    lemma_running_iff_all_survived(media_ssrc, history.take(i));
    assert forall|j: int| 0 <= j < i implies RepairState::survives(#[trigger] history[j]) by {
        assert(history.take(i)[j] == history[j]);
    }
}

/// The loop stops on the first tick that finds the publisher gone or no
/// longer connectable, and on a failed send; from that event on nothing is
/// sent and every event is answered with `Stop`.
pub proof fn lemma_repair_stops_for_good(media_ssrc: u32, history: Seq<RepairEvent>, j: int, i: int)
    requires
        0 <= j <= i < history.len(),
        !RepairState::survives(history[j]),
    ensures
        repair_action(media_ssrc, history, i) == RepairAction::Stop,
{
    if j < i {
        lemma_running_iff_all_survived(media_ssrc, history.take(i));
        assert(history.take(i)[j] == history[j]);
    }
}

} // verus!
