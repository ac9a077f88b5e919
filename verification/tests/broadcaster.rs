use media_relay::broadcaster::{Broadcaster, Disposition, SinkHandle, WriteOutcome};

#[test]
fn new_broadcaster_is_empty() {
    let broadcaster = Broadcaster::new();
    assert_eq!(broadcaster.source(), None);
    assert_eq!(broadcaster.sink_count(), 0);
    assert_eq!(broadcaster.snapshot(), Vec::<SinkHandle>::new());
}

#[test]
fn source_is_bound_exactly_once() {
    let mut broadcaster = Broadcaster::new();
    assert!(broadcaster.bind_source(1234));
    assert_eq!(broadcaster.source(), Some(1234));
    assert!(!broadcaster.bind_source(9999));
    assert_eq!(broadcaster.source(), Some(1234));
}

#[test]
fn handles_are_issued_in_order_and_never_again() {
    let mut broadcaster = Broadcaster::new();
    let a = broadcaster.attach().unwrap();
    let b = broadcaster.attach().unwrap();
    assert_eq!(a, SinkHandle { id: 0 });
    assert_eq!(b, SinkHandle { id: 1 });
    assert!(broadcaster.detach(a));
    assert!(broadcaster.detach(b));
    let c = broadcaster.attach().unwrap();
    assert_eq!(c, SinkHandle { id: 2 });
    assert_eq!(broadcaster.snapshot(), vec![c]);
}

#[test]
fn snapshot_lists_sinks_oldest_first() {
    let mut broadcaster = Broadcaster::new();
    let a = broadcaster.attach().unwrap();
    let b = broadcaster.attach().unwrap();
    let c = broadcaster.attach().unwrap();
    assert_eq!(broadcaster.snapshot(), vec![a, b, c]);
    assert!(broadcaster.detach(b));
    assert_eq!(broadcaster.snapshot(), vec![a, c]);
    assert_eq!(broadcaster.sink_count(), 2);
    assert!(broadcaster.is_attached(a));
    assert!(!broadcaster.is_attached(b));
    assert!(broadcaster.is_attached(c));
}

#[test]
fn detaching_a_sink_never_attached_is_a_no_op() {
    let mut broadcaster = Broadcaster::new();
    let a = broadcaster.attach().unwrap();
    assert!(!broadcaster.detach(SinkHandle { id: 77 }));
    assert_eq!(broadcaster.snapshot(), vec![a]);
    let mut empty = Broadcaster::new();
    assert!(!empty.detach(a));
    assert_eq!(empty.sink_count(), 0);
}

#[test]
fn detaching_twice_is_a_no_op() {
    let mut broadcaster = Broadcaster::new();
    let a = broadcaster.attach().unwrap();
    let b = broadcaster.attach().unwrap();
    assert!(broadcaster.detach(a));
    assert!(!broadcaster.detach(a));
    assert_eq!(broadcaster.snapshot(), vec![b]);
}

#[test]
fn closed_sink_is_detached_by_its_write() {
    let mut broadcaster = Broadcaster::new();
    let a = broadcaster.attach().unwrap();
    let b = broadcaster.attach().unwrap();
    assert_eq!(broadcaster.settle(a, WriteOutcome::Closed), Disposition::Detached);
    assert_eq!(broadcaster.snapshot(), vec![b]);
    assert!(!broadcaster.is_attached(a));
}

#[test]
fn backpressure_drops_the_packet_and_keeps_the_sink() {
    let mut broadcaster = Broadcaster::new();
    let a = broadcaster.attach().unwrap();
    let b = broadcaster.attach().unwrap();
    assert_eq!(broadcaster.settle(a, WriteOutcome::Backpressure), Disposition::Dropped);
    assert_eq!(broadcaster.settle(b, WriteOutcome::Delivered), Disposition::Delivered);
    assert_eq!(broadcaster.snapshot(), vec![a, b]);
}

// Runs forwarding passes over a broadcaster the way a driver does: a snapshot,
// a check right before each write, the write, and the settling of its outcome.
fn pass(
    broadcaster: &mut Broadcaster,
    packet: u32,
    slow: &[SinkHandle],
    log: &mut Vec<(SinkHandle, u32)>,
) {
    for sink in broadcaster.snapshot() {
        if !broadcaster.is_attached(sink) {
            continue;
        }
        let outcome = if slow.contains(&sink) {
            WriteOutcome::Backpressure
        } else {
            log.push((sink, packet));
            WriteOutcome::Delivered
        };
        broadcaster.settle(sink, outcome);
    }
}

fn received(log: &[(SinkHandle, u32)], sink: SinkHandle) -> Vec<u32> {
    log.iter().filter(|(to, _)| *to == sink).map(|(_, packet)| *packet).collect()
}

#[test]
fn sink_receives_only_between_attach_and_detach() {
    let mut broadcaster = Broadcaster::new();
    let mut log = Vec::new();
    pass(&mut broadcaster, 1, &[], &mut log);
    let a = broadcaster.attach().unwrap();
    pass(&mut broadcaster, 2, &[], &mut log);
    let b = broadcaster.attach().unwrap();
    pass(&mut broadcaster, 3, &[], &mut log);
    pass(&mut broadcaster, 4, &[], &mut log);
    broadcaster.detach(a);
    pass(&mut broadcaster, 5, &[], &mut log);
    broadcaster.detach(b);
    pass(&mut broadcaster, 6, &[], &mut log);
    assert_eq!(received(&log, a), vec![2, 3, 4]);
    assert_eq!(received(&log, b), vec![3, 4, 5]);
}

#[test]
fn detach_during_a_pass_stops_delivery_at_once() {
    let mut broadcaster = Broadcaster::new();
    let a = broadcaster.attach().unwrap();
    let b = broadcaster.attach().unwrap();
    let snapshot = broadcaster.snapshot();
    assert_eq!(snapshot, vec![a, b]);
    assert!(broadcaster.is_attached(a));
    broadcaster.settle(a, WriteOutcome::Delivered);
    broadcaster.detach(b);
    assert!(!broadcaster.is_attached(b));
}

#[test]
fn slow_sink_does_not_hold_back_the_others() {
    let mut broadcaster = Broadcaster::new();
    let mut log = Vec::new();
    let a = broadcaster.attach().unwrap();
    let slow = broadcaster.attach().unwrap();
    let c = broadcaster.attach().unwrap();
    for packet in 1..=5 {
        pass(&mut broadcaster, packet, &[slow], &mut log);
    }
    assert_eq!(received(&log, a), vec![1, 2, 3, 4, 5]);
    assert_eq!(received(&log, c), vec![1, 2, 3, 4, 5]);
    assert_eq!(received(&log, slow), Vec::<u32>::new());
    assert_eq!(broadcaster.snapshot(), vec![a, slow, c]);
}
