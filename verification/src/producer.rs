//! The producer's decisions: when to generate a record, how long to rest after a
//! cycle, and when to stop and wait for the consumer.
//!
//! The machine never blocks and never reads a clock. Its caller reports what it
//! observed (the shutdown flag, the time, whether a send was delivered, how the
//! consumer ended) and carries out the action it gets back.

use vstd::prelude::*;
use crate::clock::{elapsed, elapsed_between};
use crate::error::{outcome_of, run_outcome, ConsumerExit, PipelineError, StartupFailure};
use crate::record::{fill_at, record_at, records, sequence_at, Record};
use crate::shutdown::{set_interrupt_handler, ShutdownFlag};

verus! {

/// Target duration of one producer cycle, in nanoseconds (2500 microseconds).
pub const CYCLE_NANOS: u64 = 2_500_000;

/// Where the producer stands in its life.
#[derive(Clone, Copy, Debug, PartialEq, Eq)]
pub enum ProducerPhase {
    /// Waiting to hear whether the shutdown handler was installed.
    Starting,
    /// At the top of its loop, about to look at the shutdown flag.
    Idle,
    /// A record is on its way into the channel; the cycle began at `started_at`.
    Sending { started_at: u128 },
    /// The loop is over; the channel is to be closed and the consumer awaited.
    Closing,
    /// The outcome of the run has been handed out.
    Done,
}

/// What the caller observed since the last action.
#[derive(Clone, Copy, Debug, PartialEq, Eq)]
pub enum ProducerEvent {
    /// The attempt to install the shutdown handler has finished.
    Registered { ok: bool },
    /// A new cycle may begin: the shutdown flag and the clock were read.
    Tick { shutdown_requested: bool, now: u128 },
    /// The blocking send returned at `now`; `delivered` is false when the
    /// receiving side had already gone away.
    Sent { delivered: bool, now: u128 },
    /// The consumer has ended.
    Joined { exit: ConsumerExit },
}

/// What the caller has to do next.
#[derive(Clone, Copy, Debug, PartialEq, Eq)]
pub enum ProducerAction {
    /// Start the next cycle at once.
    Proceed,
    /// Push this record into the channel, blocking while the channel is full.
    Send(Record),
    /// Rest for this many nanoseconds, then start the next cycle.
    Sleep { nanos: u64 },
    /// Close the sending side of the channel and wait for the consumer to end.
    CloseAndJoin,
    /// Leave with this outcome.
    Exit(Result<(), PipelineError>),
}

/// The rest that tops a cycle up to the target duration: `Some` of the missing
/// nanoseconds while the cycle is shorter than the target, `None` once it is not.
pub open spec fn cycle_remainder(started_at: u128, finished_at: u128) -> Option<u64> {
    let elapsed = elapsed_between(started_at, finished_at);
    if elapsed < CYCLE_NANOS {
        Some((CYCLE_NANOS - elapsed) as u64)
    } else {
        None
    }
}

/// The action that ends a cycle which ran from `started_at` to `finished_at`.
pub open spec fn pacing_action(started_at: u128, finished_at: u128) -> ProducerAction {
    match cycle_remainder(started_at, finished_at) {
        Some(nanos) => ProducerAction::Sleep { nanos },
        None => ProducerAction::Proceed,
    }
}

/// The producer as a mathematical value: its phase and how many records it has
/// generated since it was created.
pub struct ProducerView {
    pub phase: ProducerPhase,
    pub generated: nat,
}

/// The producer's transition function. `None` means that `event` cannot happen in
/// the phase of `pre`; otherwise the result is the next state and the action.
pub open spec fn producer_step(pre: ProducerView, event: ProducerEvent) -> Option<
    (ProducerView, ProducerAction),
> {
    match (pre.phase, event) {
        (ProducerPhase::Starting, ProducerEvent::Registered { ok }) => if ok {
            Some((ProducerView { phase: ProducerPhase::Idle, ..pre }, ProducerAction::Proceed))
        } else {
            Some(
                (
                    ProducerView { phase: ProducerPhase::Done, ..pre },
                    ProducerAction::Exit(Err(PipelineError::SignalRegistration)),
                ),
            )
        },
        (ProducerPhase::Idle, ProducerEvent::Tick { shutdown_requested, now }) => if shutdown_requested {
            Some(
                (ProducerView { phase: ProducerPhase::Closing, ..pre }, ProducerAction::CloseAndJoin),
            )
        } else {
            Some(
                (
                    ProducerView {
                        phase: ProducerPhase::Sending { started_at: now },
                        generated: pre.generated + 1,
                    },
                    ProducerAction::Send(record_at(pre.generated)),
                ),
            )
        },
        (ProducerPhase::Sending { started_at }, ProducerEvent::Sent { delivered, now }) => if delivered {
            Some(
                (ProducerView { phase: ProducerPhase::Idle, ..pre }, pacing_action(started_at, now)),
            )
        } else {
            Some(
                (ProducerView { phase: ProducerPhase::Closing, ..pre }, ProducerAction::CloseAndJoin),
            )
        },
        (ProducerPhase::Closing, ProducerEvent::Joined { exit }) => Some(
            (
                ProducerView { phase: ProducerPhase::Done, ..pre },
                ProducerAction::Exit(outcome_of(exit)),
            ),
        ),
        _ => None,
    }
}

/// Whether feeding `event` to `pre` gives `post` and `action`: the next state and
/// the action of the transition function, or `pre` itself and no action when the
/// event is refused.
pub open spec fn steps_to(
    pre: ProducerView,
    event: ProducerEvent,
    post: ProducerView,
    action: Option<ProducerAction>,
) -> bool {
    match producer_step(pre, event) {
        Some((next, due)) => post == next && action == Some(due),
        None => post == pre && action is None,
    }
}

/// The producer before any event.
pub open spec fn producer_initial() -> ProducerView {
    ProducerView { phase: ProducerPhase::Starting, generated: 0 }
}

/// The producer at the top of its first cycle.
pub open spec fn producer_ready() -> ProducerView {
    ProducerView { phase: ProducerPhase::Idle, generated: 0 }
}

/// The record generator and its place in the producer's loop.
pub struct Producer {
    phase: ProducerPhase,
    next_sequence: u64,
    fill: u8,
    generated: Ghost<nat>,
}

impl View for Producer {
    type V = ProducerView;

    closed spec fn view(&self) -> ProducerView {
        ProducerView { phase: self.phase, generated: self.generated@ }
    }
}

/// How long to rest after a cycle that ran from `started_at` to `finished_at`:
/// the remainder of the target duration, or `None` when the cycle used it up.
pub fn pacing_delay(started_at: u128, finished_at: u128) -> (delay: Option<u64>)
    ensures
        delay == cycle_remainder(started_at, finished_at),
{
    let spent = elapsed(started_at, finished_at);
    if spent < CYCLE_NANOS as u128 {
        Some(CYCLE_NANOS - spent as u64)
    } else {
        None
    }
}

impl Producer {
    #[verifier::type_invariant]
    spec fn counters_agree(self) -> bool {
        &&& self.next_sequence == sequence_at(self.generated@)
        &&& self.fill == fill_at(self.generated@)
    }

    /// A producer that has generated nothing and awaits the outcome of startup.
    pub fn new() -> (producer: Producer)
        ensures
            producer@ == producer_initial(),
    {
        Producer { phase: ProducerPhase::Starting, next_sequence: 0, fill: 0, generated: Ghost(0) }
    }

    /// The producer after an attempt to install the interrupt handler that ended
    /// as `installed`: ready for its first cycle if the handler is in place, and
    /// otherwise the startup failure with the platform's report.
    pub fn after_registration(installed: Result<(), ctrlc::Error>) -> (started: Result<
        Producer,
        StartupFailure,
    >)
        ensures
            (match installed {
                Ok(_) => started matches Ok(producer) && producer@ == producer_ready(),
                Err(cause) => started matches Err(failure) && failure.kind
                    == PipelineError::SignalRegistration && failure.cause == cause,
            }),
    {
        let mut producer = Producer::new();
        match installed {
            Ok(_) => {
                let _ = producer.step(ProducerEvent::Registered { ok: true });
                Ok(producer)
            },
            Err(cause) => match producer.step(ProducerEvent::Registered { ok: false }) {
                Some(ProducerAction::Exit(Err(kind))) => Err(StartupFailure { kind, cause }),
                _ => Err(StartupFailure { kind: PipelineError::SignalRegistration, cause }),
            },
        }
    }

    /// Has `flag` raised whenever the process is interrupted, and returns the
    /// producer that will watch it. Whether the handler can be installed is up to
    /// the platform; if it cannot, no loop is to run.
    pub fn start(flag: &ShutdownFlag) -> (started: Result<Producer, StartupFailure>)
        ensures
            (match started {
                Ok(producer) => producer@ == producer_ready(),
                Err(failure) => failure.kind == PipelineError::SignalRegistration,
            }),
    {
        Producer::after_registration(set_interrupt_handler(flag.clone()))
    }

    /// Begins a cycle at clock reading `now`: looks at `flag` and feeds what it
    /// reads to the producer as a `Tick`. The flag can be raised at any moment, so
    /// either reading is possible until the request has been seen; from then on
    /// the reading is that shutdown is requested.
    pub fn tick(&mut self, flag: &mut ShutdownFlag, now: u128) -> (action: Option<ProducerAction>)
        ensures
            steps_to(
                old(self)@,
                ProducerEvent::Tick { shutdown_requested: final(flag).has_seen_request(), now },
                final(self)@,
                action,
            ),
            old(flag).has_seen_request() ==> final(flag).has_seen_request(),
    {
        let shutdown_requested = flag.is_requested();
        self.step(ProducerEvent::Tick { shutdown_requested, now })
    }

    /// The current phase.
    pub fn phase(&self) -> (phase: ProducerPhase)
        ensures
            phase == self@.phase,
    {
        self.phase
    }

    /// Generates the next record and advances both counters, each wrapping at the
    /// end of its range.
    fn generate(&mut self, started_at: u128) -> (record: Record)
        ensures
            record == record_at(old(self)@.generated),
            final(self)@ == (ProducerView {
                phase: ProducerPhase::Sending { started_at },
                generated: old(self)@.generated + 1,
            }),
    {
        proof {
            use_type_invariant(&*self);
        }
        let record = Record::filled(self.next_sequence, self.fill);
        *self = Producer {
            phase: ProducerPhase::Sending { started_at },
            next_sequence: self.next_sequence.wrapping_add(1),
            fill: self.fill.wrapping_add(1),
            generated: Ghost(self.generated@ + 1),
        };
        record
    }

    /// Feeds one event to the producer and returns the action to carry out, or
    /// `None`, with the producer unchanged, when the event does not belong to the
    /// current phase.
    pub fn step(&mut self, event: ProducerEvent) -> (action: Option<ProducerAction>)
        ensures
            steps_to(old(self)@, event, final(self)@, action),
    {
        match (self.phase, event) {
            (ProducerPhase::Starting, ProducerEvent::Registered { ok }) => {
                if ok {
                    self.enter(ProducerPhase::Idle);
                    Some(ProducerAction::Proceed)
                } else {
                    self.enter(ProducerPhase::Done);
                    Some(ProducerAction::Exit(Err(PipelineError::SignalRegistration)))
                }
            },
            (ProducerPhase::Idle, ProducerEvent::Tick { shutdown_requested, now }) => {
                if shutdown_requested {
                    self.enter(ProducerPhase::Closing);
                    Some(ProducerAction::CloseAndJoin)
                } else {
                    let record = self.generate(now);
                    Some(ProducerAction::Send(record))
                }
            },
            (ProducerPhase::Sending { started_at }, ProducerEvent::Sent { delivered, now }) => {
                if delivered {
                    self.enter(ProducerPhase::Idle);
                    match pacing_delay(started_at, now) {
                        Some(nanos) => Some(ProducerAction::Sleep { nanos }),
                        None => Some(ProducerAction::Proceed),
                    }
                } else {
                    self.enter(ProducerPhase::Closing);
                    Some(ProducerAction::CloseAndJoin)
                }
            },
            (ProducerPhase::Closing, ProducerEvent::Joined { exit }) => {
                self.enter(ProducerPhase::Done);
                Some(ProducerAction::Exit(run_outcome(exit)))
            },
            _ => None,
        }
    }

    /// Moves to `phase` without touching the counters.
    fn enter(&mut self, phase: ProducerPhase)
        ensures
            final(self)@ == (ProducerView { phase, ..old(self)@ }),
    {
        proof {
            use_type_invariant(&*self);
        }
        self.phase = phase;
    }
}

/// The cadence is a floor on the cycle time. A cycle that ran short is topped up
/// to exactly the target duration; a cycle that reached or passed the target gets
/// no rest at all, and nothing is taken off later cycles to catch up.
pub proof fn law_cycle_floor(started_at: u128, finished_at: u128)
    ensures
        (match cycle_remainder(started_at, finished_at) {
            Some(nanos) => nanos > 0 && elapsed_between(started_at, finished_at) + nanos
                == CYCLE_NANOS,
            None => elapsed_between(started_at, finished_at) >= CYCLE_NANOS,
        }),
{
}

/// How far a phase is along the producer's life.
pub open spec fn phase_rank(phase: ProducerPhase) -> nat {
    match phase {
        ProducerPhase::Starting => 0,
        ProducerPhase::Idle => 1,
        ProducerPhase::Sending { .. } => 1,
        ProducerPhase::Closing => 2,
        ProducerPhase::Done => 3,
    }
}

/// The producer's life runs one way. It never goes back to an earlier stage. It
/// asks for the channel to be closed exactly when it leaves its loop, and so
/// exactly once. It hands out the outcome exactly when it comes to its end, and
/// so exactly once. It generates a record exactly when it hands one out for
/// sending, which it does only from the top of its loop. Once it has ended, it
/// accepts no event.
pub proof fn law_producer_runs_one_way(pre: ProducerView, event: ProducerEvent)
    ensures
        (match producer_step(pre, event) {
            Some((next, action)) => {
                &&& phase_rank(pre.phase) <= phase_rank(next.phase)
                &&& action == ProducerAction::CloseAndJoin <==> next.phase is Closing
                &&& next.phase is Closing ==> phase_rank(pre.phase) < phase_rank(next.phase)
                &&& action is Exit <==> next.phase is Done
                &&& next.phase is Done ==> phase_rank(pre.phase) < phase_rank(next.phase)
                &&& action is Send <==> next.generated == pre.generated + 1
                &&& action !is Send ==> next.generated == pre.generated
                &&& action is Send ==> pre.phase is Idle
            },
            None => true,
        }),
        pre.phase is Done ==> producer_step(pre, event) is None,
{
}

/// The producer after `events` were fed, in order, to a fresh producer. An event
/// that is refused leaves the producer as it was.
pub open spec fn producer_after(events: Seq<ProducerEvent>) -> ProducerView
    decreases events.len(),
{
    if events.len() == 0 {
        producer_initial()
    } else {
        let before = producer_after(events.drop_last());
        match producer_step(before, events.last()) {
            Some((next, _)) => next,
            None => before,
        }
    }
}

/// The records that a fresh producer hands out for sending while it is fed
/// `events`, in the order in which it hands them out.
pub open spec fn records_sent(events: Seq<ProducerEvent>) -> Seq<Record>
    decreases events.len(),
{
    if events.len() == 0 {
        Seq::empty()
    } else {
        let earlier = records_sent(events.drop_last());
        match producer_step(producer_after(events.drop_last()), events.last()) {
            Some((_, ProducerAction::Send(record))) => earlier.push(record),
            _ => earlier,
        }
    }
}

/// Whatever events reach the producer, in whatever order, the records it hands
/// out are the records of the run: the first carries sequence number zero, each
/// next one the next number, and each payload repeats the byte of its position.
pub proof fn law_records_leave_in_order(events: Seq<ProducerEvent>)
    ensures
        records_sent(events) == records(producer_after(events).generated),
    decreases events.len(),
{
    if events.len() > 0 {
        law_records_leave_in_order(events.drop_last());
    }
}

} // verus!
