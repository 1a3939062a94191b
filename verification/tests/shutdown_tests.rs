use paced_pipeline::error::PipelineError;
use paced_pipeline::producer::{Producer, ProducerAction, ProducerEvent, ProducerPhase};
use paced_pipeline::record::Record;
use paced_pipeline::shutdown::ShutdownFlag;

#[test]
fn new_flag_is_lowered() {
    let mut flag = ShutdownFlag::new();
    assert!(!flag.is_requested());
    assert!(!flag.is_requested());
}

#[test]
fn requested_flag_stays_raised() {
    let mut flag = ShutdownFlag::new();
    flag.request();
    assert!(flag.is_requested());
    flag.request();
    assert!(flag.is_requested());
}

#[test]
fn clones_share_one_flag() {
    let mut flag = ShutdownFlag::new();
    let mut other = flag.clone();
    assert!(!other.is_requested());
    other.request();
    assert!(flag.is_requested());
    assert!(flag.clone().is_requested());
    assert!(!ShutdownFlag::new().is_requested());
}

#[test]
fn tick_generates_while_the_flag_is_lowered() {
    let mut flag = ShutdownFlag::new();
    let mut producer = Producer::new();
    let _ = producer.step(ProducerEvent::Registered { ok: true });
    assert_eq!(producer.tick(&mut flag, 40), Some(ProducerAction::Send(Record::filled(0, 0))));
    assert_eq!(producer.phase(), ProducerPhase::Sending { started_at: 40 });
}

#[test]
fn tick_stops_once_the_flag_is_raised() {
    let mut flag = ShutdownFlag::new();
    let mut producer = Producer::new();
    let _ = producer.step(ProducerEvent::Registered { ok: true });
    let _ = producer.tick(&mut flag, 0);
    let _ = producer.step(ProducerEvent::Sent { delivered: true, now: 1 });
    flag.request();
    assert_eq!(producer.tick(&mut flag, 2), Some(ProducerAction::CloseAndJoin));
    assert_eq!(producer.phase(), ProducerPhase::Closing);
    assert_eq!(producer.tick(&mut flag, 3), None);
}

#[test]
fn seen_request_is_remembered_by_its_holder() {
    let mut flag = ShutdownFlag::new();
    let raiser = flag.clone();
    assert!(!flag.is_requested());
    raiser.request();
    for _ in 0..3 {
        assert!(flag.is_requested());
    }
    for now in 0..3u128 {
        let mut producer = Producer::new();
        let _ = producer.step(ProducerEvent::Registered { ok: true });
        assert_eq!(producer.tick(&mut flag, now), Some(ProducerAction::CloseAndJoin));
        assert_eq!(producer.phase(), ProducerPhase::Closing);
    }
}

#[test]
fn tick_out_of_place_is_refused() {
    let mut flag = ShutdownFlag::new();
    let mut producer = Producer::new();
    assert_eq!(producer.tick(&mut flag, 0), None);
    assert_eq!(producer.phase(), ProducerPhase::Starting);
}

#[test]
fn registration_that_succeeded_readies_the_producer() {
    let mut producer = match Producer::after_registration(Ok(())) {
        Ok(producer) => producer,
        Err(_) => panic!("expected a producer"),
    };
    assert_eq!(producer.phase(), ProducerPhase::Idle);
    assert_eq!(
        producer.step(ProducerEvent::Tick { shutdown_requested: false, now: 0 }),
        Some(ProducerAction::Send(Record::filled(0, 0)))
    );
}

#[test]
fn registration_that_failed_is_a_startup_failure() {
    match Producer::after_registration(Err(ctrlc::Error::MultipleHandlers)) {
        Ok(_) => panic!("expected a failure"),
        Err(failure) => {
            assert_eq!(failure.kind, PipelineError::SignalRegistration);
            assert!(matches!(failure.cause, ctrlc::Error::MultipleHandlers));
        },
    }
    let refused = std::io::Error::new(std::io::ErrorKind::PermissionDenied, "refused");
    match Producer::after_registration(Err(ctrlc::Error::System(refused))) {
        Ok(_) => panic!("expected a failure"),
        Err(failure) => {
            assert_eq!(failure.kind, PipelineError::SignalRegistration);
            assert!(matches!(failure.cause, ctrlc::Error::System(_)));
        },
    }
}

#[test]
fn start_installs_one_handler_that_raises_the_flag() {
    let mut flag = ShutdownFlag::new();
    let mut producer = match Producer::start(&flag) {
        Ok(producer) => producer,
        Err(failure) => panic!("the handler was not installed: {:?}", failure.cause),
    };
    assert_eq!(producer.phase(), ProducerPhase::Idle);
    assert!(!flag.is_requested());
    assert_eq!(producer.tick(&mut flag, 0), Some(ProducerAction::Send(Record::filled(0, 0))));
    assert_eq!(
        producer.step(ProducerEvent::Sent { delivered: true, now: 2_500_000 }),
        Some(ProducerAction::Proceed)
    );

    match Producer::start(&ShutdownFlag::new()) {
        Ok(_) => panic!("a second handler was installed"),
        Err(failure) => {
            assert_eq!(failure.kind, PipelineError::SignalRegistration);
            assert!(matches!(failure.cause, ctrlc::Error::MultipleHandlers));
        },
    }

    assert!(nix::sys::signal::raise(nix::sys::signal::Signal::SIGINT).is_ok());
    let deadline = std::time::Instant::now() + std::time::Duration::from_secs(10);
    while !flag.is_requested() && std::time::Instant::now() < deadline {
        std::hint::spin_loop();
    }
    assert!(flag.is_requested());
    assert_eq!(producer.tick(&mut flag, 2_500_001), Some(ProducerAction::CloseAndJoin));
}
