use paced_pipeline::channel::{Channel, RecvOutcome, SendOutcome, CHANNEL_CAPACITY};
use paced_pipeline::record::Record;

#[test]
fn capacity_is_four() {
    assert_eq!(CHANNEL_CAPACITY, 4);
}

#[test]
fn new_channel_is_open_and_empty() {
    let mut channel = Channel::new();
    assert_eq!(channel.len(), 0);
    assert!(channel.sender_open());
    assert!(channel.receiver_open());
    assert_eq!(channel.try_recv(), RecvOutcome::Empty);
}

#[test]
fn records_come_out_in_the_order_they_went_in() {
    let mut channel = Channel::new();
    for n in 0u64..4 {
        assert_eq!(channel.try_send(Record::filled(n, n as u8)), SendOutcome::Accepted);
    }
    for n in 0u64..4 {
        assert_eq!(channel.try_recv(), RecvOutcome::Received(Record::filled(n, n as u8)));
    }
    assert_eq!(channel.try_recv(), RecvOutcome::Empty);
}

#[test]
fn fifth_record_waits_and_nothing_is_dropped() {
    let mut channel = Channel::new();
    for n in 0u64..4 {
        assert_eq!(channel.try_send(Record::filled(n, 0)), SendOutcome::Accepted);
        assert_eq!(channel.len(), n as usize + 1);
    }
    let fifth = Record::filled(4, 0);
    assert_eq!(channel.try_send(fifth), SendOutcome::Full(fifth));
    assert_eq!(channel.len(), 4);
    assert_eq!(channel.try_recv(), RecvOutcome::Received(Record::filled(0, 0)));
    assert_eq!(channel.try_send(fifth), SendOutcome::Accepted);
    assert_eq!(channel.len(), 4);
    for n in 1u64..5 {
        assert_eq!(channel.try_recv(), RecvOutcome::Received(Record::filled(n, 0)));
    }
}

#[test]
fn closed_sender_lets_the_receiver_drain_first() {
    let mut channel = Channel::new();
    assert_eq!(channel.try_send(Record::filled(0, 1)), SendOutcome::Accepted);
    assert_eq!(channel.try_send(Record::filled(1, 2)), SendOutcome::Accepted);
    channel.close_sender();
    assert!(!channel.sender_open());
    assert_eq!(channel.len(), 2);
    assert_eq!(channel.try_recv(), RecvOutcome::Received(Record::filled(0, 1)));
    assert_eq!(channel.try_recv(), RecvOutcome::Received(Record::filled(1, 2)));
    assert_eq!(channel.try_recv(), RecvOutcome::EndOfStream);
    assert_eq!(channel.try_recv(), RecvOutcome::EndOfStream);
}

#[test]
fn closing_the_sender_twice_changes_nothing() {
    let mut channel = Channel::new();
    assert_eq!(channel.try_send(Record::filled(0, 0)), SendOutcome::Accepted);
    channel.close_sender();
    channel.close_sender();
    assert_eq!(channel.len(), 1);
    assert!(channel.receiver_open());
    assert_eq!(channel.try_recv(), RecvOutcome::Received(Record::filled(0, 0)));
}

#[test]
fn send_after_close_hands_the_record_back() {
    let mut channel = Channel::new();
    channel.close_sender();
    let record = Record::filled(9, 9);
    assert_eq!(channel.try_send(record), SendOutcome::Disconnected(record));
    assert_eq!(channel.len(), 0);
}

#[test]
fn send_to_a_gone_receiver_fails_and_the_buffer_is_dropped() {
    let mut channel = Channel::new();
    assert_eq!(channel.try_send(Record::filled(0, 0)), SendOutcome::Accepted);
    assert_eq!(channel.try_send(Record::filled(1, 1)), SendOutcome::Accepted);
    channel.close_receiver();
    assert!(!channel.receiver_open());
    assert!(channel.sender_open());
    assert_eq!(channel.len(), 0);
    let record = Record::filled(2, 2);
    assert_eq!(channel.try_send(record), SendOutcome::Disconnected(record));
    assert_eq!(channel.try_recv(), RecvOutcome::EndOfStream);
}
