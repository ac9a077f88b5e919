//! The handshake channel: a single-consumer queue that holds at most one
//! message. A submission that finds it full is handed back untouched, so that
//! the submitter can wait and try again; nothing is overwritten.
use vstd::prelude::*;

verus! {

/// How many messages the channel holds before it refuses another.
pub const CAPACITY: usize = 1;

/// The queue after a submission: the message goes to the back if there is
/// room, and nowhere if there is none.
pub open spec fn after_submit(pending: Seq<Seq<char>>, message: Seq<char>) -> Seq<Seq<char>> {
    if pending.len() < CAPACITY {
        pending.push(message)
    } else {
        pending
    }
}

/// The queue after the consumer has taken the message at the front, if any.
pub open spec fn after_receive(pending: Seq<Seq<char>>) -> Seq<Seq<char>> {
    if pending.len() > 0 {
        pending.drop_first()
    } else {
        pending
    }
}

/// The handshake channel. Its view is the queue of messages not yet received,
/// oldest first.
#[derive(Debug)]
pub struct HandshakeChannel {
    slot: Option<String>,
}

impl View for HandshakeChannel {
    type V = Seq<Seq<char>>;

    closed spec fn view(&self) -> Seq<Seq<char>> {
        match self.slot {
            Some(message) => seq![message@],
            None => Seq::empty(),
        }
    }
}

impl HandshakeChannel {
    /// An empty channel.
    pub fn new() -> (channel: Self)
        ensures
            channel@ == Seq::<Seq<char>>::empty(),
    {
        HandshakeChannel { slot: None }
    }

    /// The channel never holds more than its capacity.
    pub proof fn lemma_bounded(&self)
        ensures
            self@.len() <= CAPACITY,
    {
    }

    /// Whether a submission would be refused now.
    pub fn is_full(&self) -> (full: bool)
        ensures
            full == (self@.len() >= CAPACITY),
    {
        self.slot.is_some()
    }

    /// Offers a message. With room it is queued and `Ok` returned; without,
    /// the channel stays as it was and the message comes back in `Err`.
    pub fn submit(&mut self, message: String) -> (outcome: Result<(), String>)
        ensures
            final(self)@ == after_submit(old(self)@, message@),
            outcome is Ok <==> old(self)@.len() < CAPACITY,
            outcome matches Err(returned) ==> returned == message,
    {
        if self.slot.is_some() {
            Err(message)
        } else {
            self.slot = Some(message);
            assert(self@ =~= old(self)@.push(message@));
            Ok(())
        }
    }

    /// Takes the oldest message, if there is one. Afterwards there is room
    /// for a submission.
    pub fn receive(&mut self) -> (message: Option<String>)
        ensures
            final(self)@ == after_receive(old(self)@),
            final(self)@.len() < CAPACITY,
            match message {
                Some(m) => old(self)@.len() > 0 && m@ == old(self)@.first(),
                None => old(self)@.len() == 0,
            },
    {
        let message = self.slot.take();
        assert(self@ =~= after_receive(old(self)@));
        message
    }
}

/// One operation on a channel.
pub enum ChannelStep {
    Submit(Seq<char>),
    Receive,
}

/// Everything that has happened to a channel: what waits in it, and, each in
/// the order of the events, what it accepted, what it refused and what the
/// consumer received.
pub struct Ledger {
    pub pending: Seq<Seq<char>>,
    pub accepted: Seq<Seq<char>>,
    pub refused: Seq<Seq<char>>,
    pub received: Seq<Seq<char>>,
}

/// The ledger after one more operation.
pub open spec fn record(ledger: Ledger, event: ChannelStep) -> Ledger {
    match event {
        ChannelStep::Submit(message) => if ledger.pending.len() < CAPACITY {
            Ledger {
                pending: after_submit(ledger.pending, message),
                accepted: ledger.accepted.push(message),
                ..ledger
            }
        } else {
            Ledger { refused: ledger.refused.push(message), ..ledger }
        },
        ChannelStep::Receive => if ledger.pending.len() > 0 {
            Ledger {
                pending: after_receive(ledger.pending),
                received: ledger.received.push(ledger.pending.first()),
                ..ledger
            }
        } else {
            ledger
        },
    }
}

/// The ledger of a fresh channel after a history of operations.
pub open spec fn ledger_of(history: Seq<ChannelStep>) -> Ledger
    decreases history.len(),
{
    if history.len() == 0 {
        Ledger {
            pending: Seq::empty(),
            accepted: Seq::empty(),
            refused: Seq::empty(),
            received: Seq::empty(),
        }
    } else {
        record(ledger_of(history.drop_last()), history.last())
    }
}

/// How many submissions a history holds.
pub open spec fn submissions(history: Seq<ChannelStep>) -> nat
    decreases history.len(),
{
    if history.len() == 0 {
        0
    } else if history.last() is Submit {
        submissions(history.drop_last()) + 1
    } else {
        submissions(history.drop_last())
    }
}

/// Whatever the order of submissions and receipts, the channel serializes:
/// the messages it accepted are exactly those received so far followed by
/// the one still waiting, in the order of acceptance, each unchanged; it
/// never holds more than its capacity; and every submission was either
/// accepted or handed back.
pub proof fn lemma_channel_serializes(history: Seq<ChannelStep>)
    ensures
        ledger_of(history).accepted == ledger_of(history).received + ledger_of(history).pending,
        ledger_of(history).pending.len() <= CAPACITY,
        ledger_of(history).accepted.len() + ledger_of(history).refused.len() == submissions(
            history,
        ),
    decreases history.len(),
{
    if history.len() > 0 {
        lemma_channel_serializes(history.drop_last());
        let after = ledger_of(history);
        assert(after.accepted =~= after.received + after.pending);
    } else {
        let fresh = ledger_of(history);
        assert(fresh.accepted =~= fresh.received + fresh.pending);
    }
}

/// A submission that follows a receipt is accepted: a refused submitter that
/// tries again after the consumer has received gets through.
pub proof fn lemma_room_after_receive(history: Seq<ChannelStep>, message: Seq<char>)
    requires
        history.len() > 0,
        history.last() is Receive,
    ensures
        ledger_of(history.push(ChannelStep::Submit(message))).accepted == ledger_of(
            history,
        ).accepted.push(message),
{
    lemma_channel_serializes(history.drop_last());
    let next = history.push(ChannelStep::Submit(message));
    assert(next.drop_last() =~= history);
}

} // verus!
