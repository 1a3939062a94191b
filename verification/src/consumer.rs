//! The consumer's decisions: what to do with each record that arrives, how the
//! time of a record splits into waiting and writing, and how the loop ends.
//!
//! Like the producer, the machine performs nothing itself. Its caller opens the
//! sink, blocks on the channel, writes the payload and reads the clock, and tells
//! the machine what came of it.

use vstd::prelude::*;
use crate::error::PipelineError;
use crate::clock::{elapsed, elapsed_between, micros_of};
use crate::record::Record;
use crate::report::Progress;

verus! {

/// Path of the output file: created, or emptied if it exists, when the consumer
/// starts, and then only appended to.
pub const OUTPUT_PATH: &'static str = "output.bin";

/// Where the consumer stands in its life.
#[derive(Clone, Copy, Debug, PartialEq, Eq)]
pub enum ConsumerPhase {
    /// The sink is being created.
    Opening,
    /// Waiting for a record. The wait is measured from `baseline`.
    Receiving { baseline: u128 },
    /// The record with this sequence number arrived at `received_at` and is being
    /// written.
    Writing { sequence: u64, baseline: u128, received_at: u128 },
    /// The loop is over and its result has been handed out.
    Finished,
}

/// What the caller observed since the last action.
#[derive(Clone, Copy, Debug, PartialEq, Eq)]
pub enum ConsumerEvent {
    /// The sink exists and is empty; the clock read `now` once it was ready.
    SinkOpened { now: u128 },
    /// The sink could not be created.
    SinkFailed,
    /// A record came out of the channel at `now`.
    Received { record: Record, now: u128 },
    /// The channel is closed and drained.
    EndOfStream,
    /// The payload is in the sink in full; the clock read `now` afterwards.
    Written { now: u128 },
    /// The sink refused the payload.
    WriteFailed,
}

/// What the caller has to do next.
#[derive(Clone, Copy, Debug, PartialEq, Eq)]
pub enum ConsumerAction {
    /// Block on the channel until a record or the end of the stream arrives.
    Receive,
    /// Write the whole payload of this record to the sink.
    Write(Record),
    /// Announce this report, then block on the channel again.
    Report(Progress),
    /// Leave the loop with this result.
    Finish(Result<(), PipelineError>),
}

/// The report for a record that was awaited from `baseline`, arrived at
/// `received_at` and was persisted by `written_at`.
pub open spec fn progress_of(sequence: u64, baseline: u128, received_at: u128, written_at: u128)
    -> Progress {
    Progress {
        sequence,
        wait_nanos: elapsed_between(baseline, received_at),
        write_nanos: elapsed_between(received_at, written_at),
    }
}

/// The consumer's transition function. `None` means that `event` cannot happen in
/// phase `pre`; otherwise the result is the next phase and the action.
pub open spec fn consumer_step(pre: ConsumerPhase, event: ConsumerEvent) -> Option<
    (ConsumerPhase, ConsumerAction),
> {
    match (pre, event) {
        (ConsumerPhase::Opening, ConsumerEvent::SinkOpened { now }) => Some(
            (ConsumerPhase::Receiving { baseline: now }, ConsumerAction::Receive),
        ),
        (ConsumerPhase::Opening, ConsumerEvent::SinkFailed) => Some(
            (ConsumerPhase::Finished, ConsumerAction::Finish(Err(PipelineError::SinkCreation))),
        ),
        (ConsumerPhase::Receiving { baseline }, ConsumerEvent::Received { record, now }) => Some(
            (
                ConsumerPhase::Writing { sequence: record.sequence, baseline, received_at: now },
                ConsumerAction::Write(record),
            ),
        ),
        (ConsumerPhase::Receiving { baseline }, ConsumerEvent::EndOfStream) => Some(
            (ConsumerPhase::Finished, ConsumerAction::Finish(Ok(()))),
        ),
        (
            ConsumerPhase::Writing { sequence, baseline, received_at },
            ConsumerEvent::Written { now },
        ) => Some(
            (
                ConsumerPhase::Receiving { baseline: now },
                ConsumerAction::Report(progress_of(sequence, baseline, received_at, now)),
            ),
        ),
        (ConsumerPhase::Writing { sequence, baseline, received_at }, ConsumerEvent::WriteFailed) => Some(
            (ConsumerPhase::Finished, ConsumerAction::Finish(Err(PipelineError::SinkWrite))),
        ),
        _ => None,
    }
}

/// The consumer's place in its loop.
pub struct Consumer {
    phase: ConsumerPhase,
}

impl View for Consumer {
    type V = ConsumerPhase;

    closed spec fn view(&self) -> ConsumerPhase {
        self.phase
    }
}

impl Consumer {
    /// A consumer that is about to create its sink.
    pub fn new() -> (consumer: Consumer)
        ensures
            consumer@ == ConsumerPhase::Opening,
    {
        Consumer { phase: ConsumerPhase::Opening }
    }

    /// The current phase.
    pub fn phase(&self) -> (phase: ConsumerPhase)
        ensures
            phase == self@,
    {
        self.phase
    }

    /// Feeds one event to the consumer and returns the action to carry out, or
    /// `None`, with the consumer unchanged, when the event does not belong to the
    /// current phase.
    pub fn step(&mut self, event: ConsumerEvent) -> (action: Option<ConsumerAction>)
        ensures
            (match consumer_step(old(self)@, event) {
                Some((next, due)) => final(self)@ == next && action == Some(due),
                None => final(self)@ == old(self)@ && action is None,
            }),
    {
        match (self.phase, event) {
            (ConsumerPhase::Opening, ConsumerEvent::SinkOpened { now }) => {
                self.phase = ConsumerPhase::Receiving { baseline: now };
                Some(ConsumerAction::Receive)
            },
            (ConsumerPhase::Opening, ConsumerEvent::SinkFailed) => {
                self.phase = ConsumerPhase::Finished;
                Some(ConsumerAction::Finish(Err(PipelineError::SinkCreation)))
            },
            (ConsumerPhase::Receiving { baseline }, ConsumerEvent::Received { record, now }) => {
                self.phase =
                ConsumerPhase::Writing { sequence: record.sequence, baseline, received_at: now };
                Some(ConsumerAction::Write(record))
            },
            (ConsumerPhase::Receiving { baseline: _ }, ConsumerEvent::EndOfStream) => {
                self.phase = ConsumerPhase::Finished;
                Some(ConsumerAction::Finish(Ok(())))
            },
            (
                ConsumerPhase::Writing { sequence, baseline, received_at },
                ConsumerEvent::Written { now },
            ) => {
                self.phase = ConsumerPhase::Receiving { baseline: now };
                Some(
                    ConsumerAction::Report(
                        Progress {
                            sequence,
                            wait_nanos: elapsed(baseline, received_at),
                            write_nanos: elapsed(received_at, now),
                        },
                    ),
                )
            },
            (
                ConsumerPhase::Writing { sequence: _, baseline: _, received_at: _ },
                ConsumerEvent::WriteFailed,
            ) => {
                self.phase = ConsumerPhase::Finished;
                Some(ConsumerAction::Finish(Err(PipelineError::SinkWrite)))
            },
            _ => None,
        }
    }
}

/// Latency accounting. Take a record that is awaited from `previous_done`, arrives
/// at `received_at` and is persisted by `written_at`, on a clock that does not go
/// backwards. The first wait is measured from the moment at which the sink became
/// ready. The report of the record carries its sequence number; its wait and its
/// write time together are the time from `previous_done` to `written_at`; and
/// `written_at` is the moment from which the next wait is measured. In whole
/// microseconds, as printed, the two figures add up to that span or to one less.
/// Both figures are unsigned, so neither is ever negative.
pub proof fn law_latency_accounting(
    previous_done: u128,
    record: Record,
    received_at: u128,
    written_at: u128,
)
    requires
        previous_done <= received_at <= written_at,
    ensures
        ({
            let waiting = ConsumerPhase::Receiving { baseline: previous_done };
            let writing = consumer_step(
                waiting,
                ConsumerEvent::Received { record, now: received_at },
            ).unwrap().0;
            let (next, action) = consumer_step(
                writing,
                ConsumerEvent::Written { now: written_at },
            ).unwrap();
            let progress = progress_of(record.sequence, previous_done, received_at, written_at);
            &&& consumer_step(
                ConsumerPhase::Opening,
                ConsumerEvent::SinkOpened { now: previous_done },
            ) == Some((waiting, ConsumerAction::Receive))
            &&& action == ConsumerAction::Report(progress)
            &&& next == ConsumerPhase::Receiving { baseline: written_at }
            &&& progress.wait_nanos + progress.write_nanos == written_at - previous_done
            &&& micros_of(progress.wait_nanos) + micros_of(progress.write_nanos) <= micros_of(
                (written_at - previous_done) as u128,
            ) <= micros_of(progress.wait_nanos) + micros_of(progress.write_nanos) + 1
        }),
{
}

/// The consumer ends only at the end of the stream or on a failure of the sink,
/// and stays ended. It leaves with success exactly when the stream ends while it
/// waits; it leaves with an error exactly when the sink fails; every record it
/// receives is the record it asks to have written; and once it has finished it
/// accepts no event at all.
pub proof fn law_consumer_terminates_once(pre: ConsumerPhase, event: ConsumerEvent)
    ensures
        (match consumer_step(pre, event) {
            Some((next, action)) => {
                &&& pre !is Finished
                &&& action is Finish <==> next is Finished
                &&& action == ConsumerAction::Finish(Ok(())) <==> pre is Receiving && event
                    == ConsumerEvent::EndOfStream
                &&& action is Finish && action != ConsumerAction::Finish(Ok(())) <==> event
                    == ConsumerEvent::SinkFailed || event == ConsumerEvent::WriteFailed
                &&& event matches ConsumerEvent::Received { record, .. } ==> action
                    == ConsumerAction::Write(record)
            },
            None => true,
        }),
        pre is Finished ==> consumer_step(pre, event) is None,
{
}

/// The consumer after `events` were fed, in order, to a fresh consumer. An event
/// that is refused leaves the consumer as it was.
pub open spec fn consumer_after(events: Seq<ConsumerEvent>) -> ConsumerPhase
    decreases events.len(),
{
    if events.len() == 0 {
        ConsumerPhase::Opening
    } else {
        let before = consumer_after(events.drop_last());
        match consumer_step(before, events.last()) {
            Some((next, _)) => next,
            None => before,
        }
    }
}

/// The records that a fresh consumer takes in while it is fed `events`: those of
/// the `Received` events that it accepts, in order.
pub open spec fn records_taken(events: Seq<ConsumerEvent>) -> Seq<Record>
    decreases events.len(),
{
    if events.len() == 0 {
        Seq::empty()
    } else {
        let earlier = records_taken(events.drop_last());
        match (consumer_step(consumer_after(events.drop_last()), events.last()), events.last()) {
            (Some(_), ConsumerEvent::Received { record, .. }) => earlier.push(record),
            _ => earlier,
        }
    }
}

/// The records that a fresh consumer hands out for writing while it is fed
/// `events`, in order.
pub open spec fn records_handed_on(events: Seq<ConsumerEvent>) -> Seq<Record>
    decreases events.len(),
{
    if events.len() == 0 {
        Seq::empty()
    } else {
        let earlier = records_handed_on(events.drop_last());
        match consumer_step(consumer_after(events.drop_last()), events.last()) {
            Some((_, ConsumerAction::Write(record))) => earlier.push(record),
            _ => earlier,
        }
    }
}

/// The reports that a fresh consumer makes while it is fed `events`, in order.
pub open spec fn reports_made(events: Seq<ConsumerEvent>) -> Seq<Progress>
    decreases events.len(),
{
    if events.len() == 0 {
        Seq::empty()
    } else {
        let earlier = reports_made(events.drop_last());
        match consumer_step(consumer_after(events.drop_last()), events.last()) {
            Some((_, ConsumerAction::Report(progress))) => earlier.push(progress),
            _ => earlier,
        }
    }
}

/// Whatever events reach the consumer, in whatever order, it hands on for writing
/// exactly the records it took in, unchanged and in the order of their arrival.
/// It reports a record once its write is done, with its sequence number: there is
/// one report for every record handed on, less the one that is being written or
/// whose write has failed.
pub proof fn law_records_are_written_in_order(events: Seq<ConsumerEvent>)
    ensures
        ({
            let handed_on = records_handed_on(events);
            let reports = reports_made(events);
            &&& handed_on == records_taken(events)
            &&& match consumer_after(events) {
                ConsumerPhase::Opening => handed_on.len() == 0 && reports.len() == 0,
                ConsumerPhase::Receiving { .. } => reports.len() == handed_on.len(),
                ConsumerPhase::Writing { sequence, .. } => reports.len() + 1 == handed_on.len()
                    && handed_on.last().sequence == sequence,
                ConsumerPhase::Finished => reports.len() == handed_on.len() || reports.len() + 1
                    == handed_on.len(),
            }
            &&& forall|i: int|
                0 <= i < reports.len() ==> (#[trigger] reports[i]).sequence
                    == handed_on[i].sequence
        }),
    decreases events.len(),
{
    if events.len() > 0 {
        law_records_are_written_in_order(events.drop_last());
    }
}

} // verus!
