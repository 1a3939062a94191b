//! The whole pipeline as one deterministic machine.
//!
//! A `Pipeline` puts a producer, a channel, a consumer and a sink side by side and
//! moves one of the two workers at a time. The order of the turns, the readings of
//! the clock, the moment at which shutdown is requested and the moments at which
//! the sink fails are all inputs, collected in a schedule. Every way in which two
//! threads can interleave around the channel is one such schedule, so what holds
//! of every schedule holds of every run.

use vstd::prelude::*;
use crate::channel::{
    channel_close_receiver, channel_close_sender, channel_new, channel_recv, channel_send, Channel,
    ChannelView, RecvOutcome, SendOutcome, CHANNEL_CAPACITY,
};
use crate::consumer::{consumer_step, Consumer, ConsumerAction, ConsumerEvent, ConsumerPhase};
use crate::error::{ConsumerExit, PipelineError};
use crate::consistency::{
    consistent, lemma_drain_counts_down, lemma_drain_turns_step, lemma_new_is_consistent,
    lemma_run_from_keeps_consistent, lemma_turn_keeps_consistent,
};
use crate::producer::{
    producer_ready, producer_step, Producer, ProducerAction, ProducerEvent, ProducerPhase,
    ProducerView,
};
use crate::record::Record;
use crate::report::Progress;

verus! {

/// One move of one worker, with everything the world contributes to it.
#[derive(Clone, Copy, Debug, PartialEq, Eq)]
pub enum Turn {
    /// The producer moves. It sees the shutdown flag as given and reads `now`
    /// from the clock.
    Producer { shutdown_requested: bool, now: u128 },
    /// The consumer moves. If the move touches the sink (creating it, or writing
    /// to it), the sink complies exactly when `sink_accepts`.
    Consumer { sink_accepts: bool, now: u128 },
}

/// What a turn came to.
#[derive(Clone, Copy, Debug, PartialEq, Eq)]
pub enum TurnResult {
    /// The worker took a step.
    Advanced,
    /// The worker is waiting for the other side; nothing changed.
    Blocked,
    /// The worker has nothing left to do; nothing changed.
    Halted,
}

/// The pipeline as a mathematical value.
pub struct PipelineView {
    pub producer: ProducerView,
    /// The record that the producer is trying to send.
    pub outbox: Option<Record>,
    pub channel: ChannelView,
    pub consumer: ConsumerPhase,
    /// The record that the consumer is writing.
    pub in_hand: Option<Record>,
    /// Whether the sink has been created.
    pub sink_created: bool,
    /// The records in the sink, in the order in which they were written.
    pub written: Seq<Record>,
    /// The reports announced so far, one for each record in the sink.
    pub reports: Seq<Progress>,
    /// The result with which the consumer left its loop, once it has.
    pub consumer_exit: Option<Result<(), PipelineError>>,
    /// The outcome of the run, once the producer has joined the consumer.
    pub outcome: Option<Result<(), PipelineError>>,
}

/// The pipeline right after a successful startup: nothing generated, nothing
/// buffered, no sink yet.
pub open spec fn pipeline_new() -> PipelineView {
    PipelineView {
        producer: producer_ready(),
        outbox: None,
        channel: channel_new(),
        consumer: ConsumerPhase::Opening,
        in_hand: None,
        sink_created: false,
        written: Seq::empty(),
        reports: Seq::empty(),
        consumer_exit: None,
        outcome: None,
    }
}

/// One move of the producer.
///
/// At the top of its loop it looks at the flag and either generates a record or
/// closes the channel. With a record in its hands it offers it to the channel:
/// it moves on if the channel takes it, waits if the channel is full, and closes
/// its side if the consumer is gone. Once closed it waits for the consumer's
/// result and makes it the outcome of the run.
pub open spec fn producer_turn(pre: PipelineView, shutdown_requested: bool, now: u128) -> (
    PipelineView,
    TurnResult,
) {
    match pre.producer.phase {
        ProducerPhase::Idle => {
            let (producer, action) = producer_step(
                pre.producer,
                ProducerEvent::Tick { shutdown_requested, now },
            ).unwrap();
            match action {
                ProducerAction::Send(record) => (
                    PipelineView { producer, outbox: Some(record), ..pre },
                    TurnResult::Advanced,
                ),
                _ => (
                    PipelineView { producer, channel: channel_close_sender(pre.channel), ..pre },
                    TurnResult::Advanced,
                ),
            }
        },
        ProducerPhase::Sending { started_at } => match pre.outbox {
            Some(record) => {
                let (channel, sent) = channel_send(pre.channel, record);
                match sent {
                    SendOutcome::Accepted => (
                        PipelineView {
                            producer: producer_step(
                                pre.producer,
                                ProducerEvent::Sent { delivered: true, now },
                            ).unwrap().0,
                            outbox: None,
                            channel,
                            ..pre
                        },
                        TurnResult::Advanced,
                    ),
                    SendOutcome::Full(_) => (pre, TurnResult::Blocked),
                    SendOutcome::Disconnected(_) => (
                        PipelineView {
                            producer: producer_step(
                                pre.producer,
                                ProducerEvent::Sent { delivered: false, now },
                            ).unwrap().0,
                            outbox: None,
                            channel: channel_close_sender(channel),
                            ..pre
                        },
                        TurnResult::Advanced,
                    ),
                }
            },
            None => (pre, TurnResult::Halted),
        },
        ProducerPhase::Closing => match pre.consumer_exit {
            Some(result) => {
                let (producer, action) = producer_step(
                    pre.producer,
                    ProducerEvent::Joined { exit: ConsumerExit::Returned(result) },
                ).unwrap();
                match action {
                    ProducerAction::Exit(outcome) => (
                        PipelineView { producer, outcome: Some(outcome), ..pre },
                        TurnResult::Advanced,
                    ),
                    _ => (PipelineView { producer, ..pre }, TurnResult::Advanced),
                }
            },
            None => (pre, TurnResult::Blocked),
        },
        _ => (pre, TurnResult::Halted),
    }
}

/// The pipeline after the consumer has left its loop with `result`: its side of
/// the channel is closed and whatever it held is dropped.
pub open spec fn consumer_leaves(
    pre: PipelineView,
    consumer: ConsumerPhase,
    result: Result<(), PipelineError>,
) -> PipelineView {
    PipelineView {
        consumer,
        in_hand: None,
        channel: channel_close_receiver(pre.channel),
        consumer_exit: Some(result),
        ..pre
    }
}

/// One move of the consumer.
///
/// It first creates the sink. Then it takes the oldest record from the channel,
/// waiting while the channel is empty and leaving with success once the channel is
/// closed and drained. A record in its hands goes to the sink and is reported; if
/// the sink refuses it, the consumer leaves with the failure.
pub open spec fn consumer_turn(pre: PipelineView, sink_accepts: bool, now: u128) -> (
    PipelineView,
    TurnResult,
) {
    match pre.consumer {
        ConsumerPhase::Opening => {
            let event = if sink_accepts {
                ConsumerEvent::SinkOpened { now }
            } else {
                ConsumerEvent::SinkFailed
            };
            let (consumer, action) = consumer_step(pre.consumer, event).unwrap();
            match action {
                ConsumerAction::Finish(result) => (
                    consumer_leaves(pre, consumer, result),
                    TurnResult::Advanced,
                ),
                _ => (PipelineView { consumer, sink_created: true, ..pre }, TurnResult::Advanced),
            }
        },
        ConsumerPhase::Receiving { baseline } => {
            let (channel, received) = channel_recv(pre.channel);
            match received {
                RecvOutcome::Received(record) => {
                    let (consumer, action) = consumer_step(
                        pre.consumer,
                        ConsumerEvent::Received { record, now },
                    ).unwrap();
                    match action {
                        ConsumerAction::Write(taken) => (
                            PipelineView { consumer, channel, in_hand: Some(taken), ..pre },
                            TurnResult::Advanced,
                        ),
                        _ => (PipelineView { consumer, channel, ..pre }, TurnResult::Advanced),
                    }
                },
                RecvOutcome::Empty => (pre, TurnResult::Blocked),
                RecvOutcome::EndOfStream => {
                    let (consumer, action) = consumer_step(
                        pre.consumer,
                        ConsumerEvent::EndOfStream,
                    ).unwrap();
                    match action {
                        ConsumerAction::Finish(result) => (
                            consumer_leaves(pre, consumer, result),
                            TurnResult::Advanced,
                        ),
                        _ => (PipelineView { consumer, ..pre }, TurnResult::Advanced),
                    }
                },
            }
        },
        ConsumerPhase::Writing { sequence, baseline, received_at } => match pre.in_hand {
            Some(record) => {
                let event = if sink_accepts {
                    ConsumerEvent::Written { now }
                } else {
                    ConsumerEvent::WriteFailed
                };
                let (consumer, action) = consumer_step(pre.consumer, event).unwrap();
                match action {
                    ConsumerAction::Report(progress) => (
                        PipelineView {
                            consumer,
                            in_hand: None,
                            written: pre.written.push(record),
                            reports: pre.reports.push(progress),
                            ..pre
                        },
                        TurnResult::Advanced,
                    ),
                    ConsumerAction::Finish(result) => (
                        consumer_leaves(pre, consumer, result),
                        TurnResult::Advanced,
                    ),
                    _ => (PipelineView { consumer, ..pre }, TurnResult::Advanced),
                }
            },
            None => (pre, TurnResult::Halted),
        },
        ConsumerPhase::Finished => (pre, TurnResult::Halted),
    }
}

/// One turn of the pipeline.
pub open spec fn pipeline_turn(pre: PipelineView, turn: Turn) -> (PipelineView, TurnResult) {
    match turn {
        Turn::Producer { shutdown_requested, now } => producer_turn(pre, shutdown_requested, now),
        Turn::Consumer { sink_accepts, now } => consumer_turn(pre, sink_accepts, now),
    }
}

/// The pipeline after the turns of `schedule`, taken in order from `pre`.
pub open spec fn run_from(pre: PipelineView, schedule: Seq<Turn>) -> PipelineView
    decreases schedule.len(),
{
    if schedule.len() == 0 {
        pre
    } else {
        pipeline_turn(run_from(pre, schedule.drop_last()), schedule.last()).0
    }
}

/// The pipeline after `schedule`, taken from a fresh start.
pub open spec fn run(schedule: Seq<Turn>) -> PipelineView {
    run_from(pipeline_new(), schedule)
}

/// Whether every producer turn of `schedule` sees the shutdown flag raised.
pub open spec fn shutdown_from_start(schedule: Seq<Turn>) -> bool {
    forall|i: int|
        0 <= i < schedule.len() ==> (#[trigger] schedule[i] matches Turn::Producer {
            shutdown_requested,
            ..
        } ==> shutdown_requested)
}

/// Whether the sink complies in every consumer turn of `schedule`.
pub open spec fn sink_healthy(schedule: Seq<Turn>) -> bool {
    forall|i: int|
        0 <= i < schedule.len() ==> (#[trigger] schedule[i] matches Turn::Consumer {
            sink_accepts,
            ..
        } ==> sink_accepts)
}

/// Number of rounds in which a requested shutdown has certainly run its course.
pub const DRAIN_ROUNDS: usize = 15;

/// The schedule that drains the pipeline: `rounds` rounds in each of which the
/// producer moves with shutdown requested and then the consumer moves with a
/// sink that accepts, every turn at clock reading `now`.
pub open spec fn drain_turns(rounds: nat, now: u128) -> Seq<Turn>
    decreases rounds,
{
    if rounds == 0 {
        Seq::empty()
    } else {
        drain_turns((rounds - 1) as nat, now).push(
            Turn::Producer { shutdown_requested: true, now },
        ).push(Turn::Consumer { sink_accepts: true, now })
    }
}

/// The bytes of the sink that holds `written`: the payloads one after the other, in
/// the order of writing, with nothing before, between or after them.
pub open spec fn artifact_of(written: Seq<Record>) -> Seq<u8>
    decreases written.len(),
{
    if written.len() == 0 {
        Seq::empty()
    } else {
        artifact_of(written.drop_last()) + written.last().payload@
    }
}

/// A producer, a channel, a consumer and a sink, driven one turn at a time.
pub struct Pipeline {
    producer: Producer,
    outbox: Option<Record>,
    channel: Channel,
    consumer: Consumer,
    in_hand: Option<Record>,
    sink_created: bool,
    written: Vec<Record>,
    reports: Vec<Progress>,
    consumer_exit: Option<Result<(), PipelineError>>,
    outcome: Option<Result<(), PipelineError>>,
}

impl View for Pipeline {
    type V = PipelineView;

    closed spec fn view(&self) -> PipelineView {
        PipelineView {
            producer: self.producer@,
            outbox: self.outbox,
            channel: self.channel@,
            consumer: self.consumer@,
            in_hand: self.in_hand,
            sink_created: self.sink_created,
            written: self.written@,
            reports: self.reports@,
            consumer_exit: self.consumer_exit,
            outcome: self.outcome,
        }
    }
}

impl Pipeline {
    /// A pipeline whose startup succeeded and whose workers have not moved yet.
    pub fn new() -> (pipeline: Pipeline)
        ensures
            pipeline@ == pipeline_new(),
            consistent(pipeline@),
    {
        proof {
            lemma_new_is_consistent();
        }
        let mut producer = Producer::new();
        let _ = producer.step(ProducerEvent::Registered { ok: true });
        Pipeline {
            producer,
            outbox: None,
            channel: Channel::new(),
            consumer: Consumer::new(),
            in_hand: None,
            sink_created: false,
            written: Vec::new(),
            reports: Vec::new(),
            consumer_exit: None,
            outcome: None,
        }
    }

    /// Takes one turn and says what came of it.
    pub fn turn(&mut self, turn: Turn) -> (result: TurnResult)
        ensures
            (final(self)@, result) == pipeline_turn(old(self)@, turn),
            consistent(old(self)@) ==> consistent(final(self)@),
    {
        proof {
            if consistent(self@) {
                lemma_turn_keeps_consistent(self@, turn);
            }
        }
        match turn {
            Turn::Producer { shutdown_requested, now } => self.producer_turn(
                shutdown_requested,
                now,
            ),
            Turn::Consumer { sink_accepts, now } => self.consumer_turn(sink_accepts, now),
        }
    }

    /// Takes the turns of `schedule` in order.
    pub fn run(&mut self, schedule: &Vec<Turn>)
        ensures
            final(self)@ == run_from(old(self)@, schedule@),
            consistent(old(self)@) ==> consistent(final(self)@),
    {
        proof {
            if consistent(self@) {
                lemma_run_from_keeps_consistent(self@, schedule@);
            }
        }
        let mut taken: usize = 0;
        while taken < schedule.len()
            invariant
                taken <= schedule.len(),
                self@ == run_from(old(self)@, schedule@.take(taken as int)),
            decreases schedule.len() - taken,
        {
            proof {
                assert(schedule@.take(taken + 1).drop_last() =~= schedule@.take(taken as int));
            }
            let _ = self.turn(schedule[taken]);
            taken = taken + 1;
        }
        proof {
            assert(schedule@.take(taken as int) =~= schedule@);
        }
    }

    /// Requests shutdown and gives the workers `DRAIN_ROUNDS` rounds of turns, the
    /// sink accepting whatever it is given. Returns the outcome of the run, which
    /// is there whenever the pipeline was in a state that a run can reach.
    pub fn shut_down(&mut self, now: u128) -> (outcome: Option<Result<(), PipelineError>>)
        ensures
            final(self)@ == run_from(old(self)@, drain_turns(DRAIN_ROUNDS as nat, now)),
            outcome == final(self)@.outcome,
            consistent(old(self)@) ==> outcome is Some,
    {
        let mut round: usize = 0;
        while round < DRAIN_ROUNDS
            invariant
                round <= DRAIN_ROUNDS,
                self@ == run_from(old(self)@, drain_turns(round as nat, now)),
            decreases DRAIN_ROUNDS - round,
        {
            proof {
                lemma_drain_turns_step(old(self)@, round as nat, now);
            }
            let _ = self.turn(Turn::Producer { shutdown_requested: true, now });
            let _ = self.turn(Turn::Consumer { sink_accepts: true, now });
            round = round + 1;
        }
        proof {
            if consistent(old(self)@) {
                lemma_drain_counts_down(old(self)@, DRAIN_ROUNDS as nat, now);
            }
        }
        self.outcome
    }

    /// The producer's phase.
    pub fn producer_phase(&self) -> (phase: ProducerPhase)
        ensures
            phase == self@.producer.phase,
    {
        self.producer.phase()
    }

    /// The consumer's phase.
    pub fn consumer_phase(&self) -> (phase: ConsumerPhase)
        ensures
            phase == self@.consumer,
    {
        self.consumer.phase()
    }

    /// Number of records waiting in the channel; never more than its capacity.
    pub fn buffered(&self) -> (count: usize)
        ensures
            count == self@.channel.buffered.len(),
            count <= CHANNEL_CAPACITY,
    {
        self.channel.len()
    }

    /// Whether the sink has been created.
    pub fn sink_created(&self) -> (created: bool)
        ensures
            created == self@.sink_created,
    {
        self.sink_created
    }

    /// The records in the sink, in the order in which they were written.
    pub fn written(&self) -> (records: &Vec<Record>)
        ensures
            records@ == self@.written,
    {
        &self.written
    }

    /// The reports announced so far.
    pub fn reports(&self) -> (reports: &Vec<Progress>)
        ensures
            reports@ == self@.reports,
    {
        &self.reports
    }

    /// The result with which the consumer left its loop, if it has.
    pub fn consumer_exit(&self) -> (exit: Option<Result<(), PipelineError>>)
        ensures
            exit == self@.consumer_exit,
    {
        self.consumer_exit
    }

    /// The outcome of the run, if it has ended.
    pub fn outcome(&self) -> (outcome: Option<Result<(), PipelineError>>)
        ensures
            outcome == self@.outcome,
    {
        self.outcome
    }

    /// The bytes that the sink holds.
    pub fn artifact(&self) -> (bytes: Vec<u8>)
        ensures
            bytes@ == artifact_of(self@.written),
    {
        let mut bytes: Vec<u8> = Vec::new();
        let mut done: usize = 0;
        while done < self.written.len()
            invariant
                done <= self.written.len(),
                bytes@ == artifact_of(self.written@.take(done as int)),
            decreases self.written.len() - done,
        {
            proof {
                assert(self.written@.take(done + 1).drop_last() =~= self.written@.take(
                    done as int,
                ));
            }
            bytes.extend_from_slice(&self.written[done].payload);
            done = done + 1;
        }
        proof {
            assert(self.written@.take(done as int) =~= self.written@);
        }
        bytes
    }

    fn producer_turn(&mut self, shutdown_requested: bool, now: u128) -> (result: TurnResult)
        ensures
            (final(self)@, result) == producer_turn(old(self)@, shutdown_requested, now),
    {
        match self.producer.phase() {
            ProducerPhase::Idle => {
                match self.producer.step(ProducerEvent::Tick { shutdown_requested, now }) {
                    Some(ProducerAction::Send(record)) => {
                        self.outbox = Some(record);
                    },
                    _ => {
                        self.channel.close_sender();
                    },
                }
                TurnResult::Advanced
            },
            ProducerPhase::Sending { started_at: _ } => match self.outbox {
                Some(record) => match self.channel.try_send(record) {
                    SendOutcome::Accepted => {
                        let _ = self.producer.step(ProducerEvent::Sent { delivered: true, now });
                        self.outbox = None;
                        TurnResult::Advanced
                    },
                    SendOutcome::Full(_) => TurnResult::Blocked,
                    SendOutcome::Disconnected(_) => {
                        let _ = self.producer.step(ProducerEvent::Sent { delivered: false, now });
                        self.outbox = None;
                        self.channel.close_sender();
                        TurnResult::Advanced
                    },
                },
                None => TurnResult::Halted,
            },
            ProducerPhase::Closing => match self.consumer_exit {
                Some(result) => {
                    let exit = ConsumerExit::Returned(result);
                    match self.producer.step(ProducerEvent::Joined { exit }) {
                        Some(ProducerAction::Exit(outcome)) => {
                            self.outcome = Some(outcome);
                        },
                        _ => {},
                    }
                    TurnResult::Advanced
                },
                None => TurnResult::Blocked,
            },
            _ => TurnResult::Halted,
        }
    }

    fn consumer_leaves(&mut self, result: Result<(), PipelineError>)
        ensures
            final(self)@ == consumer_leaves(old(self)@, old(self)@.consumer, result),
    {
        self.in_hand = None;
        self.channel.close_receiver();
        self.consumer_exit = Some(result);
    }

    fn consumer_turn(&mut self, sink_accepts: bool, now: u128) -> (result: TurnResult)
        ensures
            (final(self)@, result) == consumer_turn(old(self)@, sink_accepts, now),
    {
        match self.consumer.phase() {
            ConsumerPhase::Opening => {
                let event = if sink_accepts {
                    ConsumerEvent::SinkOpened { now }
                } else {
                    ConsumerEvent::SinkFailed
                };
                match self.consumer.step(event) {
                    Some(ConsumerAction::Finish(result)) => {
                        self.consumer_leaves(result);
                    },
                    _ => {
                        self.sink_created = true;
                    },
                }
                TurnResult::Advanced
            },
            ConsumerPhase::Receiving { baseline: _ } => match self.channel.try_recv() {
                RecvOutcome::Received(record) => {
                    match self.consumer.step(ConsumerEvent::Received { record, now }) {
                        Some(ConsumerAction::Write(taken)) => {
                            self.in_hand = Some(taken);
                        },
                        _ => {},
                    }
                    TurnResult::Advanced
                },
                RecvOutcome::Empty => TurnResult::Blocked,
                RecvOutcome::EndOfStream => {
                    match self.consumer.step(ConsumerEvent::EndOfStream) {
                        Some(ConsumerAction::Finish(result)) => {
                            self.consumer_leaves(result);
                        },
                        _ => {},
                    }
                    TurnResult::Advanced
                },
            },
            ConsumerPhase::Writing { sequence: _, baseline: _, received_at: _ } => match self.in_hand {
                Some(record) => {
                    let event = if sink_accepts {
                        ConsumerEvent::Written { now }
                    } else {
                        ConsumerEvent::WriteFailed
                    };
                    match self.consumer.step(event) {
                        Some(ConsumerAction::Report(progress)) => {
                            self.in_hand = None;
                            self.written.push(record);
                            self.reports.push(progress);
                        },
                        Some(ConsumerAction::Finish(result)) => {
                            self.consumer_leaves(result);
                        },
                        _ => {},
                    }
                    TurnResult::Advanced
                },
                None => TurnResult::Halted,
            },
            ConsumerPhase::Finished => TurnResult::Halted,
        }
    }
}

} // verus!
