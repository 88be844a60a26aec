//! The scheduler over a whole run of events.
//!
//! A trace is the sequence of state changes in the order in which the
//! scheduler picks them up, each with the clock reading taken for it. The
//! stream of instructions that a trace gives rise to is a function of the
//! trace alone: one instruction per transition into `Playing`, in arrival
//! order, nothing merged, nothing reordered. Whether anybody receives the
//! stream is no part of it.

use crate::messages::{StartSeconds, StateChanged};
use crate::slots::{lemma_other_slot_injective, other_slot};
use crate::state_changed_actor::{emission, instruction_for, reaction, schedulable};
use vstd::prelude::*;

verus! {

/// A state change together with the clock reading taken when the scheduler
/// picked it up.
#[derive(Clone, Copy, Debug, PartialEq, Eq, Structural)]
pub struct Arrival {
    pub event: StateChanged,
    pub now: u64,
}

/// The scheduler answers the arrival: it is a transition into `Playing` whose
/// handoff instant has a timestamp.
pub open spec fn answered(arrival: Arrival) -> bool {
    arrival.event.is_playing() && schedulable(arrival.event, arrival.now)
}

/// The instruction that answers an answered arrival.
pub open spec fn answer(arrival: Arrival) -> StartSeconds {
    instruction_for(arrival.event, arrival.now)
}

/// The arrivals of `trace` that the scheduler answers, in arrival order.
pub open spec fn answered_arrivals(trace: Seq<Arrival>) -> Seq<Arrival> {
    trace.filter(|arrival: Arrival| answered(arrival))
}

/// The instructions that the scheduler emits while it works through `trace`,
/// oldest first.
pub open spec fn emitted(trace: Seq<Arrival>) -> Seq<StartSeconds> {
    trace.filter_map(|arrival: Arrival| reaction(arrival.event, arrival.now))
}

/// The number of instructions already emitted when the scheduler picks up
/// arrival `index` of `trace`.
pub open spec fn emitted_before(trace: Seq<Arrival>, index: int) -> int {
    emitted(trace.take(index)).len() as int
}

/// The arrivals of `trace` that slot `player_id` raised, in arrival order.
pub open spec fn raised_by(trace: Seq<Arrival>, player_id: usize) -> Seq<Arrival> {
    trace.filter(|arrival: Arrival| arrival.event.player_id == player_id)
}

/// The instructions of `stream` that are addressed to slot `player_id`, in
/// stream order.
pub open spec fn addressed_to(stream: Seq<StartSeconds>, player_id: usize) -> Seq<StartSeconds> {
    stream.filter(|instruction: StartSeconds| instruction.player_id == player_id)
}

/// Before the first event nothing has been emitted.
pub proof fn lemma_emitted_of_empty()
    ensures
        emitted(Seq::<Arrival>::empty()) == Seq::<StartSeconds>::empty(),
{
}

/// Handling one more arrival appends its emission to the stream and leaves
/// what was emitted before as it was.
pub proof fn lemma_emitted_push(trace: Seq<Arrival>, arrival: Arrival)
    ensures
        emitted(trace.push(arrival)) == emitted(trace) + emission(arrival.event, arrival.now),
{
    assert(trace.push(arrival).drop_last() =~= trace);
}

/// The stream of two runs handled back to back is the stream of the first
/// followed by the stream of the second: nothing is batched or reordered
/// across events.
pub proof fn lemma_emitted_concat(first: Seq<Arrival>, second: Seq<Arrival>)
    ensures
        emitted(first + second) == emitted(first) + emitted(second),
    decreases second.len(),
{
    if second.len() > 0 {
        let shorter = second.drop_last();
        let arrival = second.last();
        lemma_emitted_concat(first, shorter);
        assert(second =~= shorter.push(arrival));
        lemma_emitted_push(first + shorter, arrival);
        lemma_emitted_push(shorter, arrival);
    }
}

/// A run without a transition into `Playing` emits nothing.
pub proof fn lemma_idle_trace_emits_nothing(trace: Seq<Arrival>)
    requires
        forall|index: int|
            0 <= index < trace.len() ==> !(#[trigger] trace[index]).event.is_playing(),
    ensures
        emitted(trace) == Seq::<StartSeconds>::empty(),
    decreases trace.len(),
{
    if trace.len() > 0 {
        let shorter = trace.drop_last();
        assert forall|index: int| 0 <= index < shorter.len() implies !(#[trigger] shorter[index])
            .event.is_playing() by {}
        lemma_idle_trace_emits_nothing(shorter);
        lemma_emitted_push(shorter, trace.last());
    }
}

/// Every arrival that the scheduler answers is answered exactly once, and the
/// answers leave in arrival order: the stream is the sequence of answered
/// arrivals with each arrival replaced by its instruction.
pub proof fn lemma_one_instruction_per_answer(trace: Seq<Arrival>)
    ensures
        emitted(trace) == answered_arrivals(trace).map_values(|arrival: Arrival| answer(arrival)),
        emitted(trace).len() == answered_arrivals(trace).len(),
    decreases trace.len(),
{
    if trace.len() == 0 {
        reveal(Seq::filter);
    } else {
        let shorter = trace.drop_last();
        let arrival = trace.last();
        assert(trace =~= shorter.push(arrival));
        lemma_one_instruction_per_answer(shorter);
        lemma_emitted_push(shorter, arrival);
        lemma_filter_of_push(shorter, arrival, |arrival: Arrival| answered(arrival));
    }
}

/// The instruction for the answered arrival at `index` stands in the stream
/// right behind everything emitted before that arrival.
pub proof fn lemma_instruction_position(trace: Seq<Arrival>, index: int)
    requires
        0 <= index < trace.len(),
        answered(trace[index]),
    ensures
        0 <= emitted_before(trace, index) < emitted(trace).len(),
        emitted(trace)[emitted_before(trace, index)] == answer(trace[index]),
{
    let head = trace.take(index);
    let tail = trace.skip(index + 1);
    assert(trace =~= head.push(trace[index]) + tail);
    lemma_emitted_push(head, trace[index]);
    lemma_emitted_concat(head.push(trace[index]), tail);
}

/// Instructions leave in the order in which their events arrived: of two
/// answered arrivals, the earlier one's instruction stands earlier in the
/// stream. This holds for any two answered arrivals, so in particular for two
/// of the same slot.
pub proof fn lemma_order_preserved(trace: Seq<Arrival>, earlier: int, later: int)
    requires
        0 <= earlier < later < trace.len(),
        answered(trace[earlier]),
        answered(trace[later]),
    ensures
        0 <= emitted_before(trace, earlier) < emitted_before(trace, later) < emitted(trace).len(),
        emitted(trace)[emitted_before(trace, earlier)] == answer(trace[earlier]),
        emitted(trace)[emitted_before(trace, later)] == answer(trace[later]),
{
    lemma_instruction_position(trace, earlier);
    lemma_instruction_position(trace, later);
    let head = trace.take(earlier);
    let between = trace.subrange(earlier + 1, later);
    assert(trace.take(later) =~= head.push(trace[earlier]) + between);
    lemma_emitted_push(head, trace[earlier]);
    lemma_emitted_concat(head.push(trace[earlier]), between);
}

/// Filtering a sequence that grew by one element keeps or drops that element
/// and leaves the rest of the result as it was.
proof fn lemma_filter_of_push<A>(items: Seq<A>, item: A, keep: spec_fn(A) -> bool)
    ensures
        keep(item) ==> items.push(item).filter(keep) == items.filter(keep).push(item),
        !keep(item) ==> items.push(item).filter(keep) == items.filter(keep),
{
    reveal(Seq::filter);
    assert(items.push(item).drop_last() =~= items);
}

/// The events of one slot keep their order among themselves however the
/// events of the other slot fall between them: the instructions addressed to
/// a slot's partner are exactly the answers to that slot's own events, in
/// the order in which the slot raised them.
pub proof fn lemma_slot_order_survives_interleaving(trace: Seq<Arrival>, player_id: usize)
    ensures
        addressed_to(emitted(trace), other_slot(player_id)) == emitted(
            raised_by(trace, player_id),
        ),
    decreases trace.len(),
{
    let from_slot = |arrival: Arrival| arrival.event.player_id == player_id;
    let to_partner = |instruction: StartSeconds| instruction.player_id == other_slot(player_id);
    if trace.len() == 0 {
        reveal(Seq::filter);
    } else {
        let shorter = trace.drop_last();
        let arrival = trace.last();
        assert(trace =~= shorter.push(arrival));
        lemma_slot_order_survives_interleaving(shorter, player_id);
        lemma_emitted_push(shorter, arrival);
        lemma_filter_of_push(shorter, arrival, from_slot);
        lemma_other_slot_injective(arrival.event.player_id, player_id);
        if from_slot(arrival) {
            lemma_emitted_push(raised_by(shorter, player_id), arrival);
        }
        match reaction(arrival.event, arrival.now) {
            Some(instruction) => {
                assert(emitted(trace) =~= emitted(shorter).push(instruction));
                lemma_filter_of_push(emitted(shorter), instruction, to_partner);
            },
            None => {},
        }
    }
}

/// The scheduler does not deduplicate: an answered arrival that comes twice
/// in a row is answered twice.
pub proof fn lemma_duplicates_answered_twice(trace: Seq<Arrival>, arrival: Arrival)
    requires
        answered(arrival),
    ensures
        emitted(trace.push(arrival).push(arrival)) == emitted(trace).push(answer(arrival)).push(
            answer(arrival),
        ),
{
    lemma_emitted_push(trace, arrival);
    lemma_emitted_push(trace.push(arrival), arrival);
}

} // verus!
