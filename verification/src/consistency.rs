//! What every state of a run has in common, and why no turn can break it.
//!
//! `consistent` says where the records of a run are and how the phases of the two
//! workers, the sides of the channel and the results hang together. The lemmas
//! carry the proofs of the laws: consistency is established by a fresh pipeline
//! and kept by every turn, schedules compose, the sink is final once the consumer
//! has left, and every round of draining brings the end closer.

use vstd::prelude::*;
use crate::consumer::ConsumerPhase;
use crate::error::PipelineError;
use crate::pipeline::{
    artifact_of, consumer_turn, drain_turns, pipeline_new, pipeline_turn, producer_turn, run,
    run_from, shutdown_from_start, sink_healthy, PipelineView, Turn,
};
use crate::producer::ProducerPhase;
use crate::record::{record_at, records, Record, PAYLOAD_LEN};

verus! {

/// The record in a worker's hands, as a sequence of at most one record.
pub open spec fn held(slot: Option<Record>) -> Seq<Record> {
    match slot {
        Some(record) => seq![record],
        None => Seq::empty(),
    }
}

/// Every record that has been generated and not been dropped, oldest first: those
/// in the sink, the one being written, those in the channel and the one being sent.
pub open spec fn in_flight(v: PipelineView) -> Seq<Record> {
    v.written + held(v.in_hand) + v.channel.buffered + held(v.outbox)
}

/// Whether `result` is one with which the consumer can leave its loop.
pub open spec fn is_consumer_result(result: Result<(), PipelineError>) -> bool {
    ||| result == Ok::<(), PipelineError>(())
    ||| result == Err::<(), PipelineError>(PipelineError::SinkCreation)
    ||| result == Err::<(), PipelineError>(PipelineError::SinkWrite)
}

/// What every state of a run has in common.
pub open spec fn consistent(v: PipelineView) -> bool {
    // The channel is within its capacity.
    &&& v.channel.wf()
    // Each worker holds a record exactly while it is busy with one.
    &&& (v.outbox is Some <==> v.producer.phase is Sending)
    &&& (v.in_hand is Some <==> v.consumer is Writing)
    &&& (v.consumer matches ConsumerPhase::Writing { sequence, .. } ==> v.in_hand.unwrap().sequence
        == sequence)
    // Each side of the channel is open exactly while its worker is in its loop.
    &&& v.producer.phase !is Starting
    &&& (v.channel.sender_open <==> v.producer.phase is Idle || v.producer.phase is Sending)
    &&& (v.channel.receiver_open <==> v.consumer !is Finished)
    // The consumer's result exists exactly once it has left its loop, and the
    // outcome of the run is that result.
    &&& (v.consumer_exit is Some <==> v.consumer is Finished)
    &&& (v.consumer_exit matches Some(result) ==> is_consumer_result(result))
    &&& (v.outcome is Some <==> v.producer.phase is Done)
    &&& (v.outcome is Some ==> v.outcome == v.consumer_exit)
    // The sink holds the first records of the run, in order.
    &&& v.written == records(v.written.len())
    &&& v.written.len() <= v.producer.generated
    // While the consumer runs, nothing that was generated is missing.
    &&& (v.consumer !is Finished ==> in_flight(v) == records(v.producer.generated))
    // Once the consumer has left with success, the sink holds everything.
    &&& (v.consumer_exit == Some(Ok::<(), PipelineError>(())) ==> {
        &&& v.written == records(v.producer.generated)
        &&& !v.channel.sender_open
    })
    // One report for each record in the sink, with its sequence number.
    &&& v.reports.len() == v.written.len()
    &&& (forall|i: int|
        0 <= i < v.reports.len() ==> (#[trigger] v.reports[i]).sequence == v.written[i].sequence)
    // The sink exists from the moment it was created, and is empty before.
    &&& (v.sink_created <==> v.consumer !is Opening && v.consumer_exit != Some(
        Err::<(), PipelineError>(PipelineError::SinkCreation),
    ))
    &&& (!v.sink_created ==> v.written.len() == 0)
}

/// One more record extends the run by the record of the next position.
pub proof fn lemma_records_push(count: nat)
    ensures
        records(count + 1) == records(count).push(record_at(count)),
{
}

/// A fresh pipeline is consistent.
pub proof fn lemma_new_is_consistent()
    ensures
        consistent(pipeline_new()),
{
    assert(in_flight(pipeline_new()) =~= records(0));
}

/// No move of the producer breaks consistency.
pub proof fn lemma_producer_turn_keeps_consistent(
    pre: PipelineView,
    shutdown_requested: bool,
    now: u128,
)
    requires
        consistent(pre),
    ensures
        consistent(producer_turn(pre, shutdown_requested, now).0),
{
    let post = producer_turn(pre, shutdown_requested, now).0;
    match pre.producer.phase {
        ProducerPhase::Idle => {
            // A new record, if one is generated, is the next of the run.
            lemma_records_push(pre.producer.generated);
        },
        ProducerPhase::Sending { .. } => {
            // A record that the channel takes only moves from hand to buffer.
            assert(in_flight(post) =~= in_flight(pre) || post.consumer is Finished);
        },
        _ => {},
    }
}

/// No move of the consumer breaks consistency.
pub proof fn lemma_consumer_turn_keeps_consistent(pre: PipelineView, sink_accepts: bool, now: u128)
    requires
        consistent(pre),
    ensures
        consistent(consumer_turn(pre, sink_accepts, now).0),
{
    let post = consumer_turn(pre, sink_accepts, now).0;
    match pre.consumer {
        ConsumerPhase::Receiving { .. } => {
            if pre.channel.buffered.len() > 0 {
                // The oldest buffered record only moves from buffer to hand.
                assert(in_flight(post) =~= in_flight(pre));
            }
        },
        ConsumerPhase::Writing { .. } => {
            if sink_accepts {
                // The record in hand is the one that follows those in the sink.
                let position = pre.written.len();
                assert(in_flight(pre)[position as int] == pre.in_hand.unwrap());
                lemma_records_push(position);
                assert(in_flight(post) =~= in_flight(pre));
            }
        },
        _ => {},
    }
}

/// No turn breaks consistency.
pub proof fn lemma_turn_keeps_consistent(pre: PipelineView, turn: Turn)
    requires
        consistent(pre),
    ensures
        consistent(pipeline_turn(pre, turn).0),
{
    match turn {
        Turn::Producer { shutdown_requested, now } => {
            lemma_producer_turn_keeps_consistent(pre, shutdown_requested, now);
        },
        Turn::Consumer { sink_accepts, now } => {
            lemma_consumer_turn_keeps_consistent(pre, sink_accepts, now);
        },
    }
}

/// Consistency survives any schedule.
pub proof fn lemma_run_from_keeps_consistent(pre: PipelineView, schedule: Seq<Turn>)
    requires
        consistent(pre),
    ensures
        consistent(run_from(pre, schedule)),
    decreases schedule.len(),
{
    if schedule.len() > 0 {
        lemma_run_from_keeps_consistent(pre, schedule.drop_last());
        lemma_turn_keeps_consistent(run_from(pre, schedule.drop_last()), schedule.last());
    }
}

/// Every state that a run can reach is consistent.
pub proof fn lemma_run_is_consistent(schedule: Seq<Turn>)
    ensures
        consistent(run(schedule)),
{
    lemma_new_is_consistent();
    lemma_run_from_keeps_consistent(pipeline_new(), schedule);
}

/// Running two schedules one after the other is running their concatenation.
pub proof fn lemma_run_from_concat(pre: PipelineView, first: Seq<Turn>, second: Seq<Turn>)
    ensures
        run_from(pre, first + second) == run_from(run_from(pre, first), second),
    decreases second.len(),
{
    if second.len() > 0 {
        assert((first + second).drop_last() =~= first + second.drop_last());
        lemma_run_from_concat(pre, first, second.drop_last());
    }
}

/// Once the consumer has left its loop, the sink, the reports and the consumer's
/// result stay as they are, whatever turns follow.
pub proof fn lemma_sink_is_final_after_exit(pre: PipelineView, schedule: Seq<Turn>)
    requires
        pre.consumer is Finished,
    ensures
        run_from(pre, schedule).consumer is Finished,
        run_from(pre, schedule).written == pre.written,
        run_from(pre, schedule).reports == pre.reports,
        run_from(pre, schedule).consumer_exit == pre.consumer_exit,
        run_from(pre, schedule).sink_created == pre.sink_created,
    decreases schedule.len(),
{
    if schedule.len() > 0 {
        lemma_sink_is_final_after_exit(pre, schedule.drop_last());
    }
}

/// Joining two schedules keeps what both have in common.
pub proof fn lemma_clean_schedules_concat(first: Seq<Turn>, second: Seq<Turn>)
    requires
        shutdown_from_start(first),
        shutdown_from_start(second),
        sink_healthy(first),
        sink_healthy(second),
    ensures
        shutdown_from_start(first + second),
        sink_healthy(first + second),
{
}

/// The sink as bytes: one block of `PAYLOAD_LEN` bytes for each record, in the
/// order of writing, and nothing else.
pub proof fn lemma_artifact_blocks(written: Seq<Record>)
    ensures
        artifact_of(written).len() == written.len() * PAYLOAD_LEN,
        forall|k: int|
            0 <= k < written.len() * PAYLOAD_LEN ==> (#[trigger] artifact_of(written)[k])
                == written[k / (PAYLOAD_LEN as int)].payload@[k % (PAYLOAD_LEN as int)],
    decreases written.len(),
{
    broadcast use vstd::array::array_len_matches_n;

    if written.len() > 0 {
        lemma_artifact_blocks(written.drop_last());
    }
}

/// One more round of draining is one more turn of each worker.
pub proof fn lemma_drain_turns_step(pre: PipelineView, rounds: nat, now: u128)
    ensures
        run_from(pre, drain_turns(rounds + 1, now)) == consumer_turn(
            producer_turn(run_from(pre, drain_turns(rounds, now)), true, now).0,
            true,
            now,
        ).0,
{
    let shorter = drain_turns(rounds, now);
    let produce = Turn::Producer { shutdown_requested: true, now };
    let consume = Turn::Consumer { sink_accepts: true, now };
    let longer = drain_turns(rounds + 1, now);
    assert(longer.drop_last() =~= shorter.push(produce));
    assert(shorter.push(produce).drop_last() =~= shorter);
    assert(run_from(pre, longer) == pipeline_turn(
        run_from(pre, shorter.push(produce)),
        consume,
    ).0);
}

/// In the schedule that drains the pipeline, shutdown is requested throughout and
/// the sink is healthy.
pub proof fn lemma_drain_turns_are_a_clean_shutdown(rounds: nat, now: u128)
    ensures
        drain_turns(rounds, now).len() == 2 * rounds,
        shutdown_from_start(drain_turns(rounds, now)),
        sink_healthy(drain_turns(rounds, now)),
    decreases rounds,
{
    if rounds > 0 {
        lemma_drain_turns_are_a_clean_shutdown((rounds - 1) as nat, now);
    }
}

/// An upper bound on the rounds of draining that a state still needs: one round
/// to join, up to two for the producer to leave its loop, and for the consumer
/// one turn for each thing it still has to do.
pub open spec fn rounds_to_go(v: PipelineView) -> nat {
    if v.outcome is Some {
        0
    } else {
        let producer_part: nat = match v.producer.phase {
            ProducerPhase::Idle => 1,
            ProducerPhase::Sending { .. } => 2,
            _ => 0,
        };
        let consumer_part: nat = match v.consumer {
            ConsumerPhase::Finished => 0,
            ConsumerPhase::Opening => 2,
            ConsumerPhase::Receiving { .. } => 1,
            ConsumerPhase::Writing { .. } => 2,
        };
        1 + producer_part + consumer_part + 2 * (v.channel.buffered.len() + held(v.outbox).len())
    }
}

/// What draining keeps: the number of generated records, and a consumer that has
/// not failed before does not fail now.
pub open spec fn drains_to(before: PipelineView, after: PipelineView) -> bool {
    &&& consistent(after)
    &&& after.producer.generated == before.producer.generated
    &&& before.consumer_exit is Some ==> after.consumer_exit == before.consumer_exit
        && after.written == before.written
    &&& before.consumer_exit is None ==> after.consumer_exit is None || after.consumer_exit
        == Some(Ok::<(), PipelineError>(()))
}

/// A round of draining brings a run that has not ended closer to its end.
pub proof fn lemma_drain_round_makes_progress(pre: PipelineView, now: u128)
    requires
        consistent(pre),
    ensures
        ({
            let post = consumer_turn(producer_turn(pre, true, now).0, true, now).0;
            &&& drains_to(pre, post)
            &&& pre.outcome is None ==> rounds_to_go(post) < rounds_to_go(pre)
            &&& pre.outcome is Some ==> post == pre
        }),
{
    lemma_producer_turn_keeps_consistent(pre, true, now);
    lemma_consumer_turn_keeps_consistent(producer_turn(pre, true, now).0, true, now);
}

/// Draining for `rounds` rounds uses up that many of the rounds still needed.
pub proof fn lemma_drain_counts_down(pre: PipelineView, rounds: nat, now: u128)
    requires
        consistent(pre),
    ensures
        drains_to(pre, run_from(pre, drain_turns(rounds, now))),
        rounds_to_go(run_from(pre, drain_turns(rounds, now))) + rounds <= rounds_to_go(pre)
            || rounds_to_go(run_from(pre, drain_turns(rounds, now))) == 0,
    decreases rounds,
{
    if rounds > 0 {
        let earlier = (rounds - 1) as nat;
        lemma_drain_counts_down(pre, earlier, now);
        lemma_drain_turns_step(pre, earlier, now);
        lemma_drain_round_makes_progress(run_from(pre, drain_turns(earlier, now)), now);
    }
}

} // verus!
