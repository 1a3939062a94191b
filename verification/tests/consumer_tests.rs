use paced_pipeline::consumer::{Consumer, ConsumerAction, ConsumerEvent, ConsumerPhase};
use paced_pipeline::error::PipelineError;
use paced_pipeline::record::Record;
use paced_pipeline::report::Progress;

fn receiving(baseline: u128) -> Consumer {
    let mut consumer = Consumer::new();
    assert_eq!(
        consumer.step(ConsumerEvent::SinkOpened { now: baseline }),
        Some(ConsumerAction::Receive)
    );
    consumer
}

#[test]
fn new_consumer_is_about_to_open_the_sink() {
    assert_eq!(Consumer::new().phase(), ConsumerPhase::Opening);
}

#[test]
fn sink_failure_is_fatal_before_the_loop() {
    let mut consumer = Consumer::new();
    assert_eq!(
        consumer.step(ConsumerEvent::SinkFailed),
        Some(ConsumerAction::Finish(Err(PipelineError::SinkCreation)))
    );
    assert_eq!(consumer.phase(), ConsumerPhase::Finished);
}

#[test]
fn opened_sink_starts_the_first_wait() {
    let consumer = receiving(1_000);
    assert_eq!(consumer.phase(), ConsumerPhase::Receiving { baseline: 1_000 });
}

#[test]
fn received_record_is_handed_on_for_writing() {
    let mut consumer = receiving(1_000);
    let record = Record::filled(12, 12);
    assert_eq!(
        consumer.step(ConsumerEvent::Received { record, now: 4_000 }),
        Some(ConsumerAction::Write(record))
    );
    assert_eq!(
        consumer.phase(),
        ConsumerPhase::Writing { sequence: 12, baseline: 1_000, received_at: 4_000 }
    );
}

#[test]
fn first_wait_is_measured_from_sink_creation() {
    let mut consumer = receiving(1_000);
    let _ = consumer.step(ConsumerEvent::Received { record: Record::filled(0, 0), now: 4_000 });
    assert_eq!(
        consumer.step(ConsumerEvent::Written { now: 9_500 }),
        Some(ConsumerAction::Report(Progress { sequence: 0, wait_nanos: 3_000, write_nanos: 5_500 }))
    );
    assert_eq!(consumer.phase(), ConsumerPhase::Receiving { baseline: 9_500 });
}

#[test]
fn wait_and_write_account_for_the_whole_interval() {
    let mut consumer = receiving(0);
    let mut previous_done: u128 = 0;
    let stamps: [(u64, u128, u128); 4] =
        [(0, 2_499_000, 2_510_000), (1, 5_000_000, 5_000_000), (2, 5_000_001, 9_123_456), (
            3,
            9_123_456,
            9_123_457,
        )];
    for (sequence, received_at, written_at) in stamps {
        let record = Record::filled(sequence, sequence as u8);
        let _ = consumer.step(ConsumerEvent::Received { record, now: received_at });
        match consumer.step(ConsumerEvent::Written { now: written_at }) {
            Some(ConsumerAction::Report(progress)) => {
                assert_eq!(progress.sequence, sequence);
                assert_eq!(progress.wait_nanos, received_at - previous_done);
                assert_eq!(progress.write_nanos, written_at - received_at);
                assert_eq!(progress.wait_nanos + progress.write_nanos, written_at - previous_done);
            },
            _ => panic!("expected a report"),
        }
        previous_done = written_at;
    }
}

#[test]
fn durations_never_go_negative() {
    let mut consumer = receiving(500);
    let _ = consumer.step(ConsumerEvent::Received { record: Record::filled(0, 0), now: 400 });
    assert_eq!(
        consumer.step(ConsumerEvent::Written { now: 300 }),
        Some(ConsumerAction::Report(Progress { sequence: 0, wait_nanos: 0, write_nanos: 0 }))
    );
    assert_eq!(consumer.phase(), ConsumerPhase::Receiving { baseline: 300 });
}

#[test]
fn end_of_stream_finishes_with_success() {
    let mut consumer = receiving(0);
    assert_eq!(consumer.step(ConsumerEvent::EndOfStream), Some(ConsumerAction::Finish(Ok(()))));
    assert_eq!(consumer.phase(), ConsumerPhase::Finished);
}

#[test]
fn write_failure_is_fatal_and_not_retried() {
    let mut consumer = receiving(0);
    let _ = consumer.step(ConsumerEvent::Received { record: Record::filled(5, 5), now: 1 });
    assert_eq!(
        consumer.step(ConsumerEvent::WriteFailed),
        Some(ConsumerAction::Finish(Err(PipelineError::SinkWrite)))
    );
    assert_eq!(consumer.phase(), ConsumerPhase::Finished);
    assert_eq!(consumer.step(ConsumerEvent::Written { now: 2 }), None);
    assert_eq!(consumer.step(ConsumerEvent::WriteFailed), None);
    assert_eq!(
        consumer.step(ConsumerEvent::Received { record: Record::filled(6, 6), now: 3 }),
        None
    );
    assert_eq!(consumer.phase(), ConsumerPhase::Finished);
}

#[test]
fn consumer_refuses_events_out_of_place() {
    let mut consumer = Consumer::new();
    assert_eq!(consumer.step(ConsumerEvent::EndOfStream), None);
    assert_eq!(consumer.step(ConsumerEvent::Written { now: 0 }), None);
    assert_eq!(consumer.phase(), ConsumerPhase::Opening);
    let mut consumer = receiving(7);
    assert_eq!(consumer.step(ConsumerEvent::SinkOpened { now: 8 }), None);
    assert_eq!(consumer.step(ConsumerEvent::SinkFailed), None);
    assert_eq!(consumer.step(ConsumerEvent::WriteFailed), None);
    assert_eq!(consumer.phase(), ConsumerPhase::Receiving { baseline: 7 });
    let _ = consumer.step(ConsumerEvent::Received { record: Record::filled(0, 0), now: 9 });
    assert_eq!(consumer.step(ConsumerEvent::EndOfStream), None);
    assert_eq!(
        consumer.phase(),
        ConsumerPhase::Writing { sequence: 0, baseline: 7, received_at: 9 }
    );
}
