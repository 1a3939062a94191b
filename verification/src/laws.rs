//! The laws of the pipeline: what holds of every run.
//!
//! A run is a schedule of turns taken from a fresh pipeline. Each law below is
//! stated for all schedules, and so for every way in which the two workers can
//! interleave, every reading of the clock, every moment of shutdown and every
//! moment at which the sink fails.

use vstd::prelude::*;
use crate::channel::CHANNEL_CAPACITY;
use crate::error::PipelineError;
use crate::consistency::{
    in_flight, lemma_artifact_blocks, lemma_clean_schedules_concat, lemma_drain_counts_down,
    lemma_drain_turns_are_a_clean_shutdown, lemma_run_from_concat, lemma_run_is_consistent,
    lemma_sink_is_final_after_exit,
};
use crate::pipeline::{
    artifact_of, drain_turns, pipeline_new, producer_turn, run, shutdown_from_start,
    sink_healthy, Turn, TurnResult, DRAIN_ROUNDS,
};
use crate::record::{fill_at, lemma_uniform_payload, record_at, records, sequence_at, PAYLOAD_LEN};

verus! {

/// Sequencing. The sequence numbers in the sink, and those of the reports, count
/// up from zero by one in the order of writing: the record at position `i` carries
/// `i`. This is stated for runs that write no more records than there are `u64`
/// values; `law_sequencing_wraps` covers the rest.
pub proof fn law_sequencing(schedule: Seq<Turn>)
    requires
        run(schedule).written.len() <= 0x1_0000_0000_0000_0000,
    ensures
        run(schedule).reports.len() == run(schedule).written.len(),
        forall|i: int|
            0 <= i < run(schedule).written.len() ==> (#[trigger] run(schedule).written[i]).sequence
                == i,
        forall|i: int|
            0 <= i < run(schedule).reports.len() ==> (#[trigger] run(schedule).reports[i]).sequence
                == i,
{
    law_sequencing_wraps(schedule);
}

/// Sequencing, for runs of any length. The record at position `i` of the sink
/// carries `i` reduced modulo the number of `u64` values, and so does its report.
pub proof fn law_sequencing_wraps(schedule: Seq<Turn>)
    ensures
        run(schedule).reports.len() == run(schedule).written.len(),
        forall|i: int|
            0 <= i < run(schedule).written.len() ==> (#[trigger] run(schedule).written[i]).sequence
                == sequence_at(i as nat),
        forall|i: int|
            0 <= i < run(schedule).reports.len() ==> (#[trigger] run(schedule).reports[i]).sequence
                == sequence_at(i as nat),
{
    lemma_run_is_consistent(schedule);
}

/// Payload correctness. Every byte of the record at position `i` of the sink is
/// `i` modulo 256.
pub proof fn law_payload_correctness(schedule: Seq<Turn>)
    ensures
        forall|i: int, j: int|
            0 <= i < run(schedule).written.len() && 0 <= j < PAYLOAD_LEN ==> (
            #[trigger] run(schedule).written[i].payload@[j]) == i % 256,
{
    lemma_run_is_consistent(schedule);
    let v = run(schedule);
    assert forall|i: int, j: int| 0 <= i < v.written.len() && 0 <= j < PAYLOAD_LEN implies (
    #[trigger] v.written[i].payload@[j]) == i % 256 by {
        lemma_uniform_payload(fill_at(i as nat));
    }
}

/// The layout of the output. After any run the sink is as many blocks of
/// `PAYLOAD_LEN` bytes as records were written, and every byte of block `i` is
/// `i` modulo 256.
pub proof fn law_artifact_layout(schedule: Seq<Turn>)
    ensures
        artifact_of(run(schedule).written).len() == run(schedule).written.len() * PAYLOAD_LEN,
        forall|k: int|
            0 <= k < run(schedule).written.len() * PAYLOAD_LEN ==> (#[trigger] artifact_of(
                run(schedule).written,
            )[k]) == (k / (PAYLOAD_LEN as int)) % 256,
{
    lemma_artifact_blocks(run(schedule).written);
    law_payload_correctness(schedule);
}

/// Bounded buffering. At no point of a run does the channel hold more records
/// than its capacity.
pub proof fn law_bounded_buffering(schedule: Seq<Turn>)
    ensures
        run(schedule).channel.buffered.len() <= CHANNEL_CAPACITY,
{
    lemma_run_is_consistent(schedule);
}

/// Backpressure. A producer that finds the channel full is held back: its turn
/// changes nothing, so the record in its hands and the records in the channel all
/// stay where they are.
pub proof fn law_backpressure(schedule: Seq<Turn>, shutdown_requested: bool, now: u128)
    requires
        run(schedule).producer.phase is Sending,
        run(schedule).channel.buffered.len() == CHANNEL_CAPACITY,
    ensures
        producer_turn(run(schedule), shutdown_requested, now) == (
            run(schedule),
            TurnResult::Blocked,
        ),
{
    lemma_run_is_consistent(schedule);
}

/// No loss. While the consumer is in its loop, every record generated so far is
/// in the sink, in the consumer's hands, in the channel or in the producer's
/// hands, in generation order. Once the consumer has left with success, and so
/// whenever the run ends with success, the sink holds every generated record.
pub proof fn law_no_loss(schedule: Seq<Turn>)
    ensures
        run(schedule).consumer !is Finished ==> in_flight(run(schedule)) == records(
            run(schedule).producer.generated,
        ),
        run(schedule).consumer_exit == Some(Ok::<(), PipelineError>(())) ==> run(schedule).written
            == records(run(schedule).producer.generated),
        run(schedule).outcome == Some(Ok::<(), PipelineError>(())) ==> run(schedule).written
            == records(run(schedule).producer.generated),
{
    lemma_run_is_consistent(schedule);
}

/// Shutdown completes and loses nothing. Take any reachable state, request
/// shutdown, and give both workers `DRAIN_ROUNDS` rounds of turns with a healthy
/// sink. Then the run has ended and no further record was generated. If the
/// consumer was still in its loop, the run ends with success and the sink holds
/// exactly the records generated before the shutdown: those already written, the
/// one being written, those buffered and the one being sent, in that order. If the
/// consumer had already left, its result is the outcome and the sink is as it was.
pub proof fn law_shutdown_completes(schedule: Seq<Turn>, now: u128)
    ensures
        ({
            let before = run(schedule);
            let end = run(schedule + drain_turns(DRAIN_ROUNDS as nat, now));
            &&& end.outcome is Some
            &&& end.outcome == end.consumer_exit
            &&& end.producer.generated == before.producer.generated
            &&& before.consumer_exit is None ==> {
                &&& end.outcome == Some(Ok::<(), PipelineError>(()))
                &&& end.written == in_flight(before)
                &&& end.written == records(before.producer.generated)
            }
            &&& before.consumer_exit is Some ==> {
                &&& end.outcome == before.consumer_exit
                &&& end.written == before.written
            }
        }),
{
    let before = run(schedule);
    lemma_run_is_consistent(schedule);
    lemma_run_from_concat(pipeline_new(), schedule, drain_turns(DRAIN_ROUNDS as nat, now));
    lemma_drain_counts_down(before, DRAIN_ROUNDS as nat, now);
}

/// Shutdown sequencing. The sending side of the channel is closed exactly while
/// the producer is out of its loop. The consumer leaves with success only after
/// that side was closed and the channel was drained, with every generated record
/// in the sink. The run has an outcome only after the consumer has left, and the
/// outcome is the consumer's result.
pub proof fn law_shutdown_sequencing(schedule: Seq<Turn>)
    ensures
        ({
            let v = run(schedule);
            &&& !v.channel.sender_open <==> v.producer.phase is Closing || v.producer.phase is Done
            &&& v.consumer_exit == Some(Ok::<(), PipelineError>(())) ==> {
                &&& !v.channel.sender_open
                &&& v.channel.buffered.len() == 0
                &&& v.written == records(v.producer.generated)
            }
            &&& v.outcome is Some ==> v.consumer_exit is Some && v.outcome == v.consumer_exit
        }),
{
    lemma_run_is_consistent(schedule);
}

/// Clean idle stop. If shutdown is requested before the producer's first cycle
/// and the sink is healthy, nothing is generated and nothing is written, and a
/// run that ends does so with success and with the sink created.
pub proof fn law_clean_idle_stop(schedule: Seq<Turn>)
    requires
        shutdown_from_start(schedule),
        sink_healthy(schedule),
    ensures
        run(schedule).producer.generated == 0,
        run(schedule).written.len() == 0,
        run(schedule).consumer_exit is Some ==> run(schedule).consumer_exit == Some(
            Ok::<(), PipelineError>(()),
        ) && run(schedule).sink_created,
        run(schedule).outcome is Some ==> run(schedule).outcome == Some(Ok::<(), PipelineError>(()))
            && run(schedule).sink_created,
    decreases schedule.len(),
{
    lemma_run_is_consistent(schedule);
    if schedule.len() > 0 {
        let earlier = schedule.drop_last();
        assert(shutdown_from_start(earlier) && sink_healthy(earlier));
        law_clean_idle_stop(earlier);
        lemma_run_is_consistent(earlier);
    }
}

/// Clean idle stop, to the end. If shutdown is requested before the producer's
/// first cycle and the sink is healthy, then after `DRAIN_ROUNDS` further rounds
/// the run has ended with success, the sink exists, and it holds not a single
/// byte.
pub proof fn law_idle_stop_completes(schedule: Seq<Turn>, now: u128)
    requires
        shutdown_from_start(schedule),
        sink_healthy(schedule),
    ensures
        ({
            let end = run(schedule + drain_turns(DRAIN_ROUNDS as nat, now));
            &&& end.outcome == Some(Ok::<(), PipelineError>(()))
            &&& end.sink_created
            &&& end.producer.generated == 0
            &&& end.written.len() == 0
            &&& artifact_of(end.written).len() == 0
        }),
{
    let drain = drain_turns(DRAIN_ROUNDS as nat, now);
    lemma_drain_turns_are_a_clean_shutdown(DRAIN_ROUNDS as nat, now);
    lemma_clean_schedules_concat(schedule, drain);
    law_clean_idle_stop(schedule + drain);
    law_shutdown_completes(schedule, now);
}

/// Write-failure propagation. Let the sink refuse a record after `before`, and
/// let any turns follow. Then the sink holds exactly the records written before
/// the failure, which are the first records of the run and intact; the refused
/// record is the next one of the run; the consumer has left with the write error;
/// and if the run has ended, that error is its outcome.
pub proof fn law_write_failure(before: Seq<Turn>, now: u128, after: Seq<Turn>)
    requires
        run(before).consumer is Writing,
    ensures
        ({
            let failing = before.push(Turn::Consumer { sink_accepts: false, now });
            let end = run(failing + after);
            let count = run(before).written.len();
            &&& end.written == run(before).written
            &&& end.written == records(count)
            &&& run(before).in_hand == Some(record_at(count))
            &&& end.consumer_exit == Some(Err::<(), PipelineError>(PipelineError::SinkWrite))
            &&& end.outcome is Some ==> end.outcome == Some(
                Err::<(), PipelineError>(PipelineError::SinkWrite),
            )
        }),
{
    let failing = before.push(Turn::Consumer { sink_accepts: false, now });
    let start = run(before);
    lemma_run_is_consistent(before);
    // The record in hand is the one that follows those in the sink.
    assert(in_flight(start)[start.written.len() as int] == start.in_hand.unwrap());
    // The failing turn ends the consumer, and nothing that follows touches the sink.
    assert(failing.drop_last() =~= before);
    lemma_run_from_concat(pipeline_new(), failing, after);
    lemma_sink_is_final_after_exit(run(failing), after);
    lemma_run_is_consistent(failing + after);
}

/// A failure ends the run by itself. Once the consumer has left its loop, three
/// turns of the producer end the run with the consumer's result, whether or not
/// shutdown was ever requested: the producer finds the channel disconnected at
/// its next send at the latest, closes its side and joins.
pub proof fn law_consumer_exit_ends_the_run(
    schedule: Seq<Turn>,
    flags: (bool, bool, bool),
    clock: (u128, u128, u128),
)
    requires
        run(schedule).consumer_exit is Some,
    ensures
        ({
            let first = Turn::Producer { shutdown_requested: flags.0, now: clock.0 };
            let second = Turn::Producer { shutdown_requested: flags.1, now: clock.1 };
            let third = Turn::Producer { shutdown_requested: flags.2, now: clock.2 };
            let end = run(schedule.push(first).push(second).push(third));
            &&& end.outcome == run(schedule).consumer_exit
            &&& end.written == run(schedule).written
        }),
{
    let first = Turn::Producer { shutdown_requested: flags.0, now: clock.0 };
    let second = Turn::Producer { shutdown_requested: flags.1, now: clock.1 };
    let third = Turn::Producer { shutdown_requested: flags.2, now: clock.2 };
    let one = schedule.push(first);
    let two = one.push(second);
    let three = two.push(third);
    lemma_run_is_consistent(schedule);
    lemma_run_is_consistent(one);
    lemma_run_is_consistent(two);
    assert(one.drop_last() =~= schedule);
    assert(two.drop_last() =~= one);
    assert(three.drop_last() =~= two);
}

} // verus!
