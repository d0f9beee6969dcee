use gpioirq::channel::{EventChannel, RecvOutcome, SendOutcome, CHANNEL_CAPACITY};
use gpioirq::event::InputEvent;

fn event(n: usize) -> InputEvent {
    InputEvent { event_type: 1, code: (n % 700) as u16, value: n as i32 }
}

#[test]
fn the_capacity_is_32() {
    assert_eq!(CHANNEL_CAPACITY, 32);
}

#[test]
fn a_new_channel_is_empty() {
    let mut channel = EventChannel::new();
    assert_eq!(channel.len(), 0);
    assert!(channel.is_empty());
    assert!(!channel.is_full());
    assert_eq!(channel.try_recv(), RecvOutcome::Empty);
}

#[test]
fn a_burst_of_32_goes_through_without_waiting() {
    let mut channel = EventChannel::new();
    for n in 0..32 {
        assert_eq!(channel.try_send(event(n)), SendOutcome::Sent);
        assert_eq!(channel.len(), n + 1);
    }
    assert!(channel.is_full());
    for n in 0..32 {
        assert_eq!(channel.try_recv(), RecvOutcome::Event(event(n)));
    }
    assert_eq!(channel.try_recv(), RecvOutcome::Empty);
}

#[test]
fn a_shorter_burst_goes_through_without_waiting() {
    let mut channel = EventChannel::new();
    for n in 0..5 {
        assert_eq!(channel.try_send(event(n)), SendOutcome::Sent);
    }
    assert_eq!(channel.len(), 5);
    assert!(!channel.is_full());
    assert!(!channel.is_empty());
}

#[test]
fn the_event_beyond_the_capacity_waits_and_is_not_dropped() {
    let mut channel = EventChannel::new();
    for n in 0..32 {
        assert_eq!(channel.try_send(event(n)), SendOutcome::Sent);
    }
    assert_eq!(channel.try_send(event(32)), SendOutcome::Full(event(32)));
    assert_eq!(channel.try_send(event(32)), SendOutcome::Full(event(32)));
    assert_eq!(channel.len(), 32);
    assert_eq!(channel.try_recv(), RecvOutcome::Event(event(0)));
    assert_eq!(channel.try_send(event(32)), SendOutcome::Sent);
    assert_eq!(channel.try_send(event(33)), SendOutcome::Full(event(33)));
    for n in 1..33 {
        assert_eq!(channel.try_recv(), RecvOutcome::Event(event(n)));
    }
    assert_eq!(channel.try_recv(), RecvOutcome::Empty);
}

#[test]
fn a_long_burst_with_a_slow_consumer_arrives_whole_and_in_order() {
    let mut channel = EventChannel::new();
    let mut received = Vec::new();
    let mut waits = 0;
    let mut n = 0;
    while n < 1000 {
        match channel.try_send(event(n)) {
            SendOutcome::Sent => n += 1,
            SendOutcome::Full(back) => {
                assert_eq!(back, event(n));
                waits += 1;
                match channel.try_recv() {
                    RecvOutcome::Event(e) => received.push(e),
                    other => panic!("a full channel gave {:?}", other),
                }
            }
            SendOutcome::Closed(_) => panic!("the channel is open"),
        }
        assert!(channel.len() <= 32);
    }
    assert_eq!(waits, 1000 - 32);
    channel.release_sender();
    loop {
        match channel.try_recv() {
            RecvOutcome::Event(e) => received.push(e),
            RecvOutcome::EndOfStream => break,
            RecvOutcome::Empty => panic!("the sender is gone"),
        }
    }
    let sent: Vec<InputEvent> = (0..1000).map(event).collect();
    assert_eq!(received, sent);
}

#[test]
fn what_is_queued_drains_after_the_sender_is_released() {
    let mut channel = EventChannel::new();
    assert_eq!(channel.try_send(event(1)), SendOutcome::Sent);
    assert_eq!(channel.try_send(event(2)), SendOutcome::Sent);
    channel.release_sender();
    assert_eq!(channel.len(), 2);
    assert_eq!(channel.try_recv(), RecvOutcome::Event(event(1)));
    assert_eq!(channel.try_recv(), RecvOutcome::Event(event(2)));
    assert_eq!(channel.try_recv(), RecvOutcome::EndOfStream);
    assert_eq!(channel.try_recv(), RecvOutcome::EndOfStream);
}

#[test]
fn an_empty_channel_without_sender_is_at_its_end() {
    let mut channel = EventChannel::new();
    channel.release_sender();
    assert_eq!(channel.try_recv(), RecvOutcome::EndOfStream);
}

#[test]
fn a_send_after_the_receiver_is_released_is_refused() {
    let mut channel = EventChannel::new();
    assert_eq!(channel.try_send(event(1)), SendOutcome::Sent);
    channel.release_receiver();
    assert_eq!(channel.try_send(event(2)), SendOutcome::Closed(event(2)));
    assert_eq!(channel.len(), 1);
}

#[test]
fn a_send_after_the_sender_is_released_is_refused() {
    let mut channel = EventChannel::new();
    channel.release_sender();
    assert_eq!(channel.try_send(event(7)), SendOutcome::Closed(event(7)));
    assert!(channel.is_empty());
}

#[test]
fn a_closed_channel_that_is_full_reports_closed() {
    let mut channel = EventChannel::new();
    for n in 0..32 {
        assert_eq!(channel.try_send(event(n)), SendOutcome::Sent);
    }
    channel.release_receiver();
    assert_eq!(channel.try_send(event(32)), SendOutcome::Closed(event(32)));
}
