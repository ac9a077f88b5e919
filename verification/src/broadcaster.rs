//! The fan-out broadcaster: one inbound stream, a changing set of sinks.
//!
//! The broadcaster decides who receives a packet; it never writes one. A
//! forwarding pass takes a [`Broadcaster::snapshot`], asks
//! [`Broadcaster::is_attached`] right before each write, performs the write
//! without holding the broadcaster, and reports what happened through
//! [`Broadcaster::settle`].
use vstd::prelude::*;

verus! {

/// Names one attachment of a sink. A handle is issued once and never again.
#[derive(Clone, Copy, Debug, PartialEq, Eq, Hash, Structural)]
pub struct SinkHandle {
    pub id: u64,
}

/// How a best-effort write to one sink ended.
#[derive(Clone, Copy, Debug, PartialEq, Eq, Structural)]
pub enum WriteOutcome {
    /// The sink took the packet.
    Delivered,
    /// The sink could not take the packet now; the packet is lost to it.
    Backpressure,
    /// The sink is closed for good.
    Closed,
}

/// What the broadcaster made of a write outcome.
#[derive(Clone, Copy, Debug, PartialEq, Eq, Structural)]
pub enum Disposition {
    Delivered,
    Dropped,
    Detached,
}

/// The mathematical state of a broadcaster.
pub struct FanOut {
    /// Synchronization source of the inbound stream, once bound.
    pub source: Option<u32>,
    /// How many handles have been issued.
    pub issued: nat,
    /// The attached sinks, oldest first.
    pub sinks: Seq<SinkHandle>,
}

/// `sinks` with `handle` taken out, the rest in their order.
pub open spec fn without(sinks: Seq<SinkHandle>, handle: SinkHandle) -> Seq<SinkHandle> {
    if sinks.contains(handle) {
        sinks.remove(sinks.index_of(handle))
    } else {
        sinks
    }
}

impl FanOut {
    pub open spec fn initial() -> FanOut {
        FanOut { source: None, issued: 0, sinks: Seq::empty() }
    }

    /// No sink is attached twice, and every attached handle has been issued.
    pub open spec fn wf(self) -> bool {
        &&& self.issued <= u64::MAX
        &&& self.sinks.no_duplicates()
        &&& forall|i: int| 0 <= i < self.sinks.len() ==> (#[trigger] self.sinks[i]).id < self.issued
    }

    pub open spec fn attached(self, handle: SinkHandle) -> bool {
        self.sinks.contains(handle)
    }

    /// Whether every handle has been issued.
    pub open spec fn exhausted(self) -> bool {
        self.issued >= u64::MAX
    }

    /// The handle that the next attachment receives.
    pub open spec fn next_handle(self) -> SinkHandle {
        SinkHandle { id: self.issued as u64 }
    }

    /// Binding the source takes effect once; later bindings change nothing.
    pub open spec fn bind(self, ssrc: u32) -> FanOut {
        if self.source is None {
            FanOut { source: Some(ssrc), ..self }
        } else {
            self
        }
    }

    pub open spec fn attach(self) -> FanOut {
        if self.exhausted() {
            self
        } else {
            FanOut { issued: self.issued + 1, sinks: self.sinks.push(self.next_handle()), ..self }
        }
    }

    pub open spec fn detach(self, handle: SinkHandle) -> FanOut {
        FanOut { sinks: without(self.sinks, handle), ..self }
    }

    /// A closed sink is detached; any other outcome leaves the sinks alone.
    pub open spec fn settle(self, handle: SinkHandle, outcome: WriteOutcome) -> FanOut {
        if outcome is Closed {
            self.detach(handle)
        } else {
            self
        }
    }
}

/// What the broadcaster makes of an outcome.
pub open spec fn disposition_of(outcome: WriteOutcome) -> Disposition {
    match outcome {
        WriteOutcome::Delivered => Disposition::Delivered,
        WriteOutcome::Backpressure => Disposition::Dropped,
        WriteOutcome::Closed => Disposition::Detached,
    }
}

/// Detaching removes exactly the named sink: every other sink stays attached,
/// in its place in the order, and a handle that is not attached changes nothing.
pub proof fn lemma_detach_effect(m: FanOut, handle: SinkHandle)
    requires
        m.wf(),
    ensures
        m.detach(handle).wf(),
        !m.detach(handle).attached(handle),
        forall|other: SinkHandle|
            other != handle ==> (#[trigger] m.detach(handle).attached(other) <==> m.attached(other)),
        !m.attached(handle) ==> m.detach(handle) == m,
        m.detach(handle).sinks =~= m.sinks.filter(|s: SinkHandle| s != handle),
{
    let kept = |s: SinkHandle| s != handle;
    if m.sinks.contains(handle) {
        let i = m.sinks.index_of(handle);
        let rest = m.sinks.remove(i);
        assert forall|k: int| 0 <= k < rest.len() implies #[trigger] rest[k] == m.sinks[if k < i {
            k
        } else {
            k + 1
        }] by {}
        assert forall|other: SinkHandle| other != handle && m.attached(other) implies rest.contains(
            other,
        ) by {
            let j = m.sinks.index_of(other);
            if j < i {
                assert(rest[j] == other);
            } else {
                assert(rest[j - 1] == other);
            }
        }
        assert(m.sinks =~= m.sinks.take(i) + seq![handle] + m.sinks.skip(i + 1));
        assert(rest =~= m.sinks.take(i) + m.sinks.skip(i + 1));
        lemma_filter_keeps(m.sinks.take(i), handle);
        lemma_filter_keeps(m.sinks.skip(i + 1), handle);
        Seq::filter_distributes_over_add(m.sinks.take(i) + seq![handle], m.sinks.skip(i + 1), kept);
        Seq::filter_distributes_over_add(m.sinks.take(i), seq![handle], kept);
        reveal_with_fuel(Seq::filter, 2);
        assert(seq![handle].filter(kept) =~= Seq::<SinkHandle>::empty());
    } else {
        lemma_filter_keeps(m.sinks, handle);
    }
}

/// Filtering a handle out of a sequence that does not hold it changes nothing.
proof fn lemma_filter_keeps(sinks: Seq<SinkHandle>, handle: SinkHandle)
    requires
        !sinks.contains(handle),
    ensures
        sinks.filter(|s: SinkHandle| s != handle) =~= sinks,
    decreases sinks.len(),
{
    reveal_with_fuel(Seq::filter, 2);
    if sinks.len() > 0 {
        assert(sinks.last() == sinks[sinks.len() - 1]);
        assert forall|i: int| 0 <= i < sinks.drop_last().len() implies sinks.drop_last()[i]
            != handle by {
            assert(sinks[i] == sinks.drop_last()[i]);
        }
        lemma_filter_keeps(sinks.drop_last(), handle);
    }
}

/// Attaching adds one sink under a handle that was never attached before,
/// behind all the others, and disturbs none of them.
pub proof fn lemma_attach_effect(m: FanOut)
    requires
        m.wf(),
    ensures
        m.attach().wf(),
        !m.attached(m.next_handle()),
        m.exhausted() ==> m.attach() == m,
        !m.exhausted() ==> m.attach().attached(m.next_handle()),
        forall|other: SinkHandle|
            other != m.next_handle() ==> (#[trigger] m.attach().attached(other) <==> m.attached(
                other,
            )),
{
    let fresh = m.next_handle();
    if m.sinks.contains(fresh) {
        let j = m.sinks.index_of(fresh);
        assert(m.sinks[j].id < m.issued);
    }
    if !m.exhausted() {
        let grown = m.sinks.push(fresh);
        assert(grown[m.sinks.len() as int] == fresh);
        assert forall|other: SinkHandle| other != fresh && m.attached(other) implies grown.contains(
            other,
        ) by {
            let j = m.sinks.index_of(other);
            assert(grown[j] == other);
        }
    }
}

/// Detaching a second time changes nothing.
pub proof fn lemma_detach_idempotent(m: FanOut, handle: SinkHandle)
    requires
        m.wf(),
    ensures
        m.detach(handle).detach(handle) == m.detach(handle),
{
    lemma_detach_effect(m, handle);
    lemma_detach_effect(m.detach(handle), handle);
}

/// The broadcaster: the source binding and the sinks attached right now.
#[derive(Debug)]
pub struct Broadcaster {
    source: Option<u32>,
    issued: u64,
    sinks: Vec<SinkHandle>,
}

impl View for Broadcaster {
    type V = FanOut;

    closed spec fn view(&self) -> FanOut {
        FanOut { source: self.source, issued: self.issued as nat, sinks: self.sinks@ }
    }
}

impl Broadcaster {
    /// The invariant of every broadcaster that this module hands out.
    pub open spec fn wf(&self) -> bool {
        self@.wf()
    }

    /// A broadcaster with no source and no sinks.
    pub fn new() -> (broadcaster: Self)
        ensures
            broadcaster.wf(),
            broadcaster@ == FanOut::initial(),
    {
        Broadcaster { source: None, issued: 0, sinks: Vec::new() }
    }

    /// Binds the inbound stream. The first binding stands; a later one is
    /// refused and changes nothing. Returns whether this call bound the source.
    pub fn bind_source(&mut self, ssrc: u32) -> (bound: bool)
        requires
            old(self).wf(),
        ensures
            final(self).wf(),
            final(self)@ == old(self)@.bind(ssrc),
            bound == (old(self)@.source is None),
    {
        if self.source.is_none() {
            self.source = Some(ssrc);
            true
        } else {
            false
        }
    }

    /// The synchronization source of the inbound stream, once bound.
    pub fn source(&self) -> (source: Option<u32>)
        ensures
            source == self@.source,
    {
        self.source
    }

    /// Registers a new sink behind those already attached and returns its
    /// handle; `None`, with nothing changed, once every handle has been issued.
    pub fn attach(&mut self) -> (handle: Option<SinkHandle>)
        requires
            old(self).wf(),
        ensures
            final(self).wf(),
            final(self)@ == old(self)@.attach(),
            handle == if old(self)@.exhausted() {
                None
            } else {
                Some(old(self)@.next_handle())
            },
    {
        proof {
            lemma_attach_effect(self@);
        }
        if self.issued == u64::MAX {
            None
        } else {
            let handle = SinkHandle { id: self.issued };
            self.issued = self.issued + 1;
            self.sinks.push(handle);
            Some(handle)
        }
    }

    /// Removes a sink. Returns whether it was attached; for a handle that is
    /// not attached (never issued, or detached before) nothing changes.
    pub fn detach(&mut self, handle: SinkHandle) -> (removed: bool)
        requires
            old(self).wf(),
        ensures
            final(self).wf(),
            final(self)@ == old(self)@.detach(handle),
            removed == old(self)@.attached(handle),
            !final(self)@.attached(handle),
            !removed ==> final(self)@ == old(self)@,
    {
        proof {
            lemma_detach_effect(self@, handle);
        }
        let mut i: usize = 0;
        while i < self.sinks.len()
            invariant
                i <= self.sinks.len(),
                *self == *old(self),
                self.wf(),
                forall|j: int| 0 <= j < i ==> self.sinks@[j] != handle,
            decreases self.sinks.len() - i,
        {
            if self.sinks[i] == handle {
                proof {
                    let at = self.sinks@.index_of(handle);
                    assert(self.sinks@[i as int] == handle);
                    assert(at == i);
                }
                self.sinks.remove(i);
                return true;
            }
            i += 1;
        }
        false
    }

    /// Whether a write to this sink may begin now.
    pub fn is_attached(&self, handle: SinkHandle) -> (attached: bool)
        ensures
            attached == self@.attached(handle),
    {
        let mut i: usize = 0;
        while i < self.sinks.len()
            invariant
                i <= self.sinks.len(),
                forall|j: int| 0 <= j < i ==> self.sinks@[j] != handle,
            decreases self.sinks.len() - i,
        {
            if self.sinks[i] == handle {
                return true;
            }
            i += 1;
        }
        false
    }

    /// How many sinks are attached.
    pub fn sink_count(&self) -> (count: usize)
        ensures
            count == self@.sinks.len(),
    {
        self.sinks.len()
    }

    /// The sinks attached at this moment, oldest first: the recipients of a
    /// forwarding pass that starts now.
    pub fn snapshot(&self) -> (sinks: Vec<SinkHandle>)
        ensures
            sinks@ == self@.sinks,
    {
        let mut sinks: Vec<SinkHandle> = Vec::new();
        let mut i: usize = 0;
        while i < self.sinks.len()
            invariant
                i <= self.sinks.len(),
                sinks@ == self.sinks@.take(i as int),
            decreases self.sinks.len() - i,
        {
            sinks.push(self.sinks[i]);
            assert(self.sinks@.take(i + 1) =~= self.sinks@.take(i as int).push(self.sinks@[i as int]));
            i += 1;
        }
        assert(self.sinks@.take(i as int) =~= self.sinks@);
        sinks
    }

    /// Takes the outcome of one write. A closed sink is detached; a sink under
    /// backpressure loses this packet and stays. No other sink is touched.
    pub fn settle(&mut self, handle: SinkHandle, outcome: WriteOutcome) -> (disposition: Disposition)
        requires
            old(self).wf(),
        ensures
            final(self).wf(),
            final(self)@ == old(self)@.settle(handle, outcome),
            disposition == disposition_of(outcome),
            forall|other: SinkHandle|
                other != handle ==> (#[trigger] final(self)@.attached(other) <==> old(self)@.attached(
                    other,
                )),
    {
        proof {
            lemma_detach_effect(self@, handle);
        }
        match outcome {
            WriteOutcome::Delivered => Disposition::Delivered,
            WriteOutcome::Backpressure => Disposition::Dropped,
            WriteOutcome::Closed => {
                self.detach(handle);
                Disposition::Detached
            },
        }
    }
}

/// One event in the life of a broadcaster.
pub enum FanOutStep {
    /// The inbound stream is bound.
    Bind(u32),
    /// A sink is attached.
    Attach,
    /// A sink is detached.
    Detach(SinkHandle),
    /// The forwarding pass turns to a sink: a write begins if the sink is
    /// attached at that moment, and ends with the given outcome.
    Write(SinkHandle, WriteOutcome),
}

/// The state after one event.
pub open spec fn step(m: FanOut, event: FanOutStep) -> FanOut {
    match event {
        FanOutStep::Bind(ssrc) => m.bind(ssrc),
        FanOutStep::Attach => m.attach(),
        FanOutStep::Detach(handle) => m.detach(handle),
        FanOutStep::Write(handle, outcome) => m.settle(handle, outcome),
    }
}

/// The state of a fresh broadcaster after a history of events.
pub open spec fn replay(history: Seq<FanOutStep>) -> FanOut
    decreases history.len(),
{
    if history.len() == 0 {
        FanOut::initial()
    } else {
        step(replay(history.drop_last()), history.last())
    }
}

/// The state in which event `i` of a history finds the broadcaster.
pub open spec fn state_before(history: Seq<FanOutStep>, i: int) -> FanOut {
    replay(history.take(i))
}

/// Event `i` attaches a sink and issues `handle` for it.
pub open spec fn issues(history: Seq<FanOutStep>, i: int, handle: SinkHandle) -> bool {
    &&& history[i] is Attach
    &&& !state_before(history, i).exhausted()
    &&& state_before(history, i).next_handle() == handle
}

/// The event takes `handle` out of the sink set, if it is there.
pub open spec fn removes(event: FanOutStep, handle: SinkHandle) -> bool {
    event == FanOutStep::Detach(handle) || event == FanOutStep::Write(handle, WriteOutcome::Closed)
}

/// At event `i` a write to `handle` begins.
pub open spec fn write_begins(history: Seq<FanOutStep>, i: int, handle: SinkHandle) -> bool {
    &&& history[i] matches FanOutStep::Write(to, _)
    &&& to == handle
    &&& state_before(history, i).attached(handle)
}

/// `handle` was issued by event `a` and not removed by any event after `a`
/// and before `i`.
pub open spec fn attachment_spans(
    history: Seq<FanOutStep>,
    a: int,
    i: int,
    handle: SinkHandle,
) -> bool {
    &&& 0 <= a < i
    &&& issues(history, a, handle)
    &&& forall|d: int| a < d < i ==> !removes(#[trigger] history[d], handle)
}

/// Every reachable state is well-formed.
pub proof fn lemma_replay_wf(history: Seq<FanOutStep>)
    ensures
        replay(history).wf(),
    decreases history.len(),
{
    if history.len() > 0 {
        let before = replay(history.drop_last());
        lemma_replay_wf(history.drop_last());
        lemma_attach_effect(before);
        match history.last() {
            FanOutStep::Detach(handle) => lemma_detach_effect(before, handle),
            FanOutStep::Write(handle, _) => lemma_detach_effect(before, handle),
            _ => {},
        }
    }
}

/// Handles are issued in increasing order and never taken back.
pub proof fn lemma_issued_monotonic(history: Seq<FanOutStep>, i: int, j: int)
    requires
        0 <= i <= j <= history.len(),
    ensures
        state_before(history, i).issued <= state_before(history, j).issued,
    decreases j - i,
{
    if i < j {
        lemma_issued_monotonic(history, i, j - 1);
        assert(history.take(j).drop_last() =~= history.take(j - 1));
    }
}

/// A sink that is attached at some moment was attached by an earlier event
/// and has not been removed since.
pub proof fn lemma_attached_within_span(history: Seq<FanOutStep>, i: int, handle: SinkHandle)
    requires
        0 <= i <= history.len(),
        state_before(history, i).attached(handle),
    ensures
        exists|a: int| attachment_spans(history, a, i, handle),
    decreases i,
{
    if i == 0 {
        assert(history.take(0) =~= Seq::<FanOutStep>::empty());
    } else {
        let before = state_before(history, i - 1);
        let event = history[i - 1];
        assert(history.take(i).drop_last() =~= history.take(i - 1));
        assert(state_before(history, i) == step(before, event));
        lemma_replay_wf(history.take(i - 1));
        lemma_attach_effect(before);
        if issues(history, i - 1, handle) {
            assert(attachment_spans(history, i - 1, i, handle));
        } else {
            match event {
                FanOutStep::Detach(gone) => lemma_detach_effect(before, gone),
                FanOutStep::Write(gone, _) => lemma_detach_effect(before, gone),
                _ => {},
            }
            assert(before.attached(handle));
            assert(!removes(event, handle));
            let earlier = i - 1;
            lemma_attached_within_span(history, earlier, handle);
            let a = choose|a: int| attachment_spans(history, a, earlier, handle);
            assert(attachment_spans(history, a, i, handle));
        }
    }
}

/// A sink stays attached from the event that issued its handle until an
/// event removes it.
pub proof fn lemma_span_keeps_attached(history: Seq<FanOutStep>, a: int, i: int, handle: SinkHandle)
    requires
        i <= history.len(),
        attachment_spans(history, a, i, handle),
    ensures
        state_before(history, i).attached(handle),
    decreases i - a,
{
    let before = state_before(history, i - 1);
    let event = history[i - 1];
    assert(history.take(i).drop_last() =~= history.take(i - 1));
    assert(state_before(history, i) == step(before, event));
    lemma_replay_wf(history.take(i - 1));
    lemma_attach_effect(before);
    if a < i - 1 {
        lemma_span_keeps_attached(history, a, i - 1, handle);
        assert(!removes(event, handle));
        match event {
            FanOutStep::Detach(gone) => lemma_detach_effect(before, gone),
            FanOutStep::Write(gone, _) => lemma_detach_effect(before, gone),
            _ => {},
        }
    }
}

/// A write to a sink begins only inside the sink's attachment: after the
/// event that attached it, and with no detach of it in between.
pub proof fn lemma_delivery_within_attachment(
    history: Seq<FanOutStep>,
    i: int,
    handle: SinkHandle,
)
    requires
        0 <= i < history.len(),
        write_begins(history, i, handle),
    ensures
        exists|a: int| attachment_spans(history, a, i, handle),
{
    lemma_attached_within_span(history, i, handle);
}

/// Once an attached sink has been removed, by a detach or by a write that
/// found it closed, no later write to it begins.
pub proof fn lemma_no_delivery_after_detach(
    history: Seq<FanOutStep>,
    d: int,
    i: int,
    handle: SinkHandle,
)
    requires
        0 <= d < i < history.len(),
        state_before(history, d).attached(handle),
        removes(history[d], handle),
    ensures
        !write_begins(history, i, handle),
{
    if state_before(history, i).attached(handle) {
        lemma_attached_within_span(history, i, handle);
        let a = choose|a: int| attachment_spans(history, a, i, handle);
        assert(d < a) by {
            if a < d {
                assert(!removes(history[d], handle));
            }
        }
        lemma_replay_wf(history.take(d));
        lemma_issued_monotonic(history, d, a);
        let j = state_before(history, d).sinks.index_of(handle);
        assert(state_before(history, d).sinks[j].id < state_before(history, d).issued);
    }
}

} // verus!
