use media_relay::channel::{HandshakeChannel, CAPACITY};

#[test]
fn capacity_is_one() {
    assert_eq!(CAPACITY, 1);
}

#[test]
fn message_goes_through_unchanged() {
    let mut channel = HandshakeChannel::new();
    assert!(!channel.is_full());
    assert_eq!(channel.submit("offer".to_string()), Ok(()));
    assert!(channel.is_full());
    assert_eq!(channel.receive(), Some("offer".to_string()));
    assert!(!channel.is_full());
    assert_eq!(channel.receive(), None);
}

#[test]
fn second_submission_is_handed_back() {
    let mut channel = HandshakeChannel::new();
    assert_eq!(channel.submit("first".to_string()), Ok(()));
    assert_eq!(channel.submit("second".to_string()), Err("second".to_string()));
    assert_eq!(channel.receive(), Some("first".to_string()));
    assert_eq!(channel.submit("second".to_string()), Ok(()));
    assert_eq!(channel.receive(), Some("second".to_string()));
}

#[test]
fn connect_storm_is_serialized() {
    let mut channel = HandshakeChannel::new();
    let mut waiting: Vec<String> = (0..50).map(|i| format!("viewer-{}", i)).collect();
    let expected = waiting.clone();
    let mut received = Vec::new();
    let mut refusals = 0;
    while !waiting.is_empty() {
        let mut still_waiting = Vec::new();
        for message in waiting {
            match channel.submit(message) {
                Ok(()) => {}
                Err(back) => {
                    refusals += 1;
                    still_waiting.push(back);
                }
            }
        }
        if let Some(message) = channel.receive() {
            received.push(message);
        }
        waiting = still_waiting;
    }
    assert_eq!(channel.receive(), None);
    assert_eq!(received, expected);
    assert_eq!(refusals, 49 * 50 / 2);
}
