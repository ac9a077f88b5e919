//! Connection states of a transport session and the rule by which they may
//! follow one another.
use vstd::prelude::*;

verus! {

/// The connection state that a transport session reports.
#[derive(Clone, Copy, Debug, PartialEq, Eq, Structural)]
pub enum ConnectionState {
    New,
    Connecting,
    Connected,
    Disconnected,
    Failed,
    Closed,
}

impl ConnectionState {
    /// `Disconnected`, `Failed` and `Closed` end a session for good.
    pub open spec fn terminal(self) -> bool {
        self is Disconnected || self is Failed || self is Closed
    }

    /// Position of a state in the order in which states may be observed.
    pub open spec fn rank(self) -> nat {
        match self {
            ConnectionState::New => 0,
            ConnectionState::Connecting => 1,
            ConnectionState::Connected => 2,
            ConnectionState::Disconnected => 3,
            ConnectionState::Failed => 3,
            ConnectionState::Closed => 3,
        }
    }

    /// Whether a session observed in `self` may next be observed in `next`:
    /// only forward, and never out of a terminal state.
    pub open spec fn precedes(self, next: ConnectionState) -> bool {
        self.rank() < next.rank()
    }

    fn position(&self) -> (r: u8)
        ensures
            r == self.rank(),
    {
        match self {
            ConnectionState::New => 0,
            ConnectionState::Connecting => 1,
            ConnectionState::Connected => 2,
            _ => 3,
        }
    }

    /// Whether the state ends the session.
    pub fn is_terminal(&self) -> (r: bool)
        ensures
            r == self.terminal(),
    {
        self.position() == 3
    }

    /// Whether `next` is a legal successor of this state.
    pub fn can_become(&self, next: ConnectionState) -> (r: bool)
        ensures
            r == self.precedes(next),
    {
        self.position() < next.position()
    }
}

/// The state after a report: a report that would move backwards, repeat the
/// current state or leave a terminal state is disregarded.
pub open spec fn advance(current: ConnectionState, reported: ConnectionState) -> ConnectionState {
    if current.precedes(reported) {
        reported
    } else {
        current
    }
}

/// The state that a fresh tracker holds after a sequence of reports.
pub open spec fn observed(reports: Seq<ConnectionState>) -> ConnectionState
    decreases reports.len(),
{
    if reports.len() == 0 {
        ConnectionState::New
    } else {
        advance(observed(reports.drop_last()), reports.last())
    }
}

/// Follows the reports of one session and keeps its observed state monotonic.
#[derive(Clone, Copy, Debug)]
pub struct StateTracker {
    current: ConnectionState,
}

impl View for StateTracker {
    type V = ConnectionState;

    closed spec fn view(&self) -> ConnectionState {
        self.current
    }
}

impl StateTracker {
    /// A tracker for a session that has reported nothing yet.
    pub fn new() -> (tracker: Self)
        ensures
            tracker@ == ConnectionState::New,
    {
        StateTracker { current: ConnectionState::New }
    }

    /// The state last accepted.
    pub fn current(&self) -> (state: ConnectionState)
        ensures
            state == self@,
    {
        self.current
    }

    /// Takes a report. Returns whether it was a transition; a report that is
    /// not a legal successor leaves the tracker as it was.
    pub fn observe(&mut self, reported: ConnectionState) -> (entered: bool)
        ensures
            entered == old(self)@.precedes(reported),
            final(self)@ == advance(old(self)@, reported),
    {
        if self.current.can_become(reported) {
            self.current = reported;
            true
        } else {
            false
        }
    }
}

/// The observed state never moves backwards.
pub proof fn lemma_observed_monotonic(reports: Seq<ConnectionState>, i: int, j: int)
    requires
        0 <= i <= j <= reports.len(),
    ensures
        observed(reports.take(i)).rank() <= observed(reports.take(j)).rank(),
    decreases j - i,
{
    if i < j {
        lemma_observed_monotonic(reports, i, j - 1);
        assert(reports.take(j).drop_last() =~= reports.take(j - 1));
    }
}

/// Once a terminal state has been observed, no later report changes it.
pub proof fn lemma_terminal_is_final(reports: Seq<ConnectionState>, i: int, j: int)
    requires
        0 <= i <= j <= reports.len(),
        observed(reports.take(i)).terminal(),
    ensures
        observed(reports.take(j)) == observed(reports.take(i)),
    decreases j - i,
{
    if i < j {
        lemma_terminal_is_final(reports, i, j - 1);
        assert(reports.take(j).drop_last() =~= reports.take(j - 1));
    }
}

/// No state is revisited once left: if the same state is observed at two
/// moments, it was held at every moment in between.
pub proof fn lemma_no_state_revisited(reports: Seq<ConnectionState>, i: int, j: int, k: int)
    requires
        0 <= i <= j <= k <= reports.len(),
        observed(reports.take(i)) == observed(reports.take(k)),
    ensures
        observed(reports.take(j)) == observed(reports.take(i)),
{
    lemma_observed_monotonic(reports, i, j);
    lemma_observed_monotonic(reports, j, k);
    if observed(reports.take(i)).terminal() {
        lemma_terminal_is_final(reports, i, j);
    }
}

} // verus!
