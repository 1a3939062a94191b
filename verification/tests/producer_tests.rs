use paced_pipeline::error::{ConsumerExit, PipelineError};
use paced_pipeline::clock::elapsed;
use paced_pipeline::producer::{
    pacing_delay, Producer, ProducerAction, ProducerEvent, ProducerPhase, CYCLE_NANOS,
};
use paced_pipeline::record::Record;

fn started() -> Producer {
    let mut producer = Producer::new();
    assert_eq!(
        producer.step(ProducerEvent::Registered { ok: true }),
        Some(ProducerAction::Proceed)
    );
    producer
}

fn next_record(producer: &mut Producer, now: u128) -> Record {
    match producer.step(ProducerEvent::Tick { shutdown_requested: false, now }) {
        Some(ProducerAction::Send(record)) => record,
        other => panic!("expected a record, got {:?}", other.is_some()),
    }
}

#[test]
fn cycle_target_is_2500_microseconds() {
    assert_eq!(CYCLE_NANOS, 2_500_000);
}

#[test]
fn new_producer_waits_for_startup() {
    let producer = Producer::new();
    assert_eq!(producer.phase(), ProducerPhase::Starting);
}

#[test]
fn failed_registration_ends_the_run_before_any_cycle() {
    let mut producer = Producer::new();
    assert_eq!(
        producer.step(ProducerEvent::Registered { ok: false }),
        Some(ProducerAction::Exit(Err(PipelineError::SignalRegistration)))
    );
    assert_eq!(producer.phase(), ProducerPhase::Done);
    assert_eq!(producer.step(ProducerEvent::Tick { shutdown_requested: false, now: 0 }), None);
    assert_eq!(producer.phase(), ProducerPhase::Done);
}

#[test]
fn first_record_has_sequence_zero_and_zero_payload() {
    let mut producer = started();
    let record = next_record(&mut producer, 10);
    assert_eq!(record, Record::filled(0, 0));
    assert_eq!(producer.phase(), ProducerPhase::Sending { started_at: 10 });
}

#[test]
fn sequence_counts_up_and_fill_wraps_at_256() {
    let mut producer = started();
    for n in 0u64..600 {
        let record = next_record(&mut producer, 0);
        assert_eq!(record.sequence, n);
        let fill = (n % 256) as u8;
        assert!(record.payload.iter().all(|byte| *byte == fill));
        assert_eq!(
            producer.step(ProducerEvent::Sent { delivered: true, now: CYCLE_NANOS as u128 }),
            Some(ProducerAction::Proceed)
        );
    }
    let record = next_record(&mut producer, 0);
    assert_eq!(record, Record::filled(600, 88));
}

#[test]
fn short_cycle_sleeps_for_the_remainder() {
    let mut producer = started();
    let _ = next_record(&mut producer, 5);
    assert_eq!(
        producer.step(ProducerEvent::Sent { delivered: true, now: 1_000_005 }),
        Some(ProducerAction::Sleep { nanos: 1_500_000 })
    );
    assert_eq!(producer.phase(), ProducerPhase::Idle);
}

#[test]
fn cycle_at_or_past_the_target_does_not_sleep() {
    let mut producer = started();
    let _ = next_record(&mut producer, 100);
    assert_eq!(
        producer.step(ProducerEvent::Sent { delivered: true, now: 2_500_100 }),
        Some(ProducerAction::Proceed)
    );
    let _ = next_record(&mut producer, 100);
    assert_eq!(
        producer.step(ProducerEvent::Sent { delivered: true, now: 9_000_000 }),
        Some(ProducerAction::Proceed)
    );
}

#[test]
fn pacing_delay_has_exact_values() {
    assert_eq!(pacing_delay(0, 0), Some(2_500_000));
    assert_eq!(pacing_delay(0, 1), Some(2_499_999));
    assert_eq!(pacing_delay(7, 2_500_006), Some(1));
    assert_eq!(pacing_delay(7, 2_500_007), None);
    assert_eq!(pacing_delay(0, u128::MAX), None);
    assert_eq!(pacing_delay(u128::MAX - 10, u128::MAX), Some(2_499_990));
}

#[test]
fn clock_that_steps_back_counts_as_no_time() {
    assert_eq!(elapsed(50, 20), 0);
    assert_eq!(elapsed(20, 50), 30);
    assert_eq!(elapsed(u128::MAX, 0), 0);
    assert_eq!(pacing_delay(50, 20), Some(2_500_000));
}

#[test]
fn shutdown_is_seen_at_the_top_of_a_cycle() {
    let mut producer = started();
    assert_eq!(
        producer.step(ProducerEvent::Tick { shutdown_requested: true, now: 3 }),
        Some(ProducerAction::CloseAndJoin)
    );
    assert_eq!(producer.phase(), ProducerPhase::Closing);
}

#[test]
fn shutdown_does_not_interrupt_a_send() {
    let mut producer = started();
    let _ = next_record(&mut producer, 0);
    assert_eq!(producer.step(ProducerEvent::Tick { shutdown_requested: true, now: 1 }), None);
    assert_eq!(producer.phase(), ProducerPhase::Sending { started_at: 0 });
    assert_eq!(
        producer.step(ProducerEvent::Sent { delivered: true, now: 2_500_000 }),
        Some(ProducerAction::Proceed)
    );
    assert_eq!(
        producer.step(ProducerEvent::Tick { shutdown_requested: true, now: 2_500_001 }),
        Some(ProducerAction::CloseAndJoin)
    );
}

#[test]
fn failed_send_stops_the_loop_without_an_error() {
    let mut producer = started();
    let _ = next_record(&mut producer, 0);
    assert_eq!(
        producer.step(ProducerEvent::Sent { delivered: false, now: 1 }),
        Some(ProducerAction::CloseAndJoin)
    );
    assert_eq!(producer.phase(), ProducerPhase::Closing);
}

#[test]
fn joined_consumer_decides_the_outcome() {
    let exits = [
        (ConsumerExit::Returned(Ok(())), Ok(())),
        (ConsumerExit::Returned(Err(PipelineError::SinkWrite)), Err(PipelineError::SinkWrite)),
        (
            ConsumerExit::Returned(Err(PipelineError::SinkCreation)),
            Err(PipelineError::SinkCreation),
        ),
        (ConsumerExit::Crashed, Err(PipelineError::ConsumerCrashed)),
    ];
    for (exit, outcome) in exits {
        let mut producer = started();
        let _ = producer.step(ProducerEvent::Tick { shutdown_requested: true, now: 0 });
        assert_eq!(
            producer.step(ProducerEvent::Joined { exit }),
            Some(ProducerAction::Exit(outcome))
        );
        assert_eq!(producer.phase(), ProducerPhase::Done);
    }
}

#[test]
fn events_out_of_place_are_refused_and_change_nothing() {
    let mut producer = Producer::new();
    assert_eq!(producer.step(ProducerEvent::Tick { shutdown_requested: false, now: 0 }), None);
    assert_eq!(producer.step(ProducerEvent::Sent { delivered: true, now: 0 }), None);
    assert_eq!(
        producer.step(ProducerEvent::Joined { exit: ConsumerExit::Returned(Ok(())) }),
        None
    );
    assert_eq!(producer.phase(), ProducerPhase::Starting);
    let mut producer = started();
    assert_eq!(producer.step(ProducerEvent::Registered { ok: true }), None);
    assert_eq!(producer.step(ProducerEvent::Sent { delivered: true, now: 0 }), None);
    assert_eq!(producer.step(ProducerEvent::Joined { exit: ConsumerExit::Crashed }), None);
    assert_eq!(producer.phase(), ProducerPhase::Idle);
    assert_eq!(next_record(&mut producer, 0).sequence, 0);
}
