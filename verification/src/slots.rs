//! The two player slots and how one names the other.
//!
//! Gapless playback alternates between slot 0 and slot 1. Flipping the lowest
//! bit of a slot id gives the id of its partner.

use vstd::prelude::*;

verus! {

/// The id names one of the two slots.
pub open spec fn is_slot(player_id: usize) -> bool {
    player_id == 0 || player_id == 1
}

/// The id with its lowest bit flipped.
pub open spec fn other_slot(player_id: usize) -> usize {
    player_id ^ 1
}

/// The slot that takes over when `player_id` finishes its track.
pub fn next_player_id(player_id: usize) -> (next: usize)
    ensures
        next == other_slot(player_id),
        is_slot(player_id) ==> next == 1 - player_id,
{
    proof {
        if is_slot(player_id) {
            lemma_slots_form_closed_pair(player_id);
        }
    }
    player_id ^ 1
}

/// The two slots form a closed pair: the partner of a slot is the other slot,
/// so 0 hands over to 1 and 1 hands over to 0.
pub proof fn lemma_slots_form_closed_pair(player_id: usize)
    requires
        is_slot(player_id),
    ensures
        is_slot(other_slot(player_id)),
        other_slot(player_id) == 1 - player_id,
        player_id == 0 ==> other_slot(player_id) == 1,
        player_id == 1 ==> other_slot(player_id) == 0,
{
    assert(0usize ^ 1 == 1) by (bit_vector);
    assert(1usize ^ 1 == 0) by (bit_vector);
}

/// No id is its own partner, and the partner of the partner is the id itself.
pub proof fn lemma_other_slot_swaps(player_id: usize)
    ensures
        other_slot(player_id) != player_id,
        other_slot(other_slot(player_id)) == player_id,
{
    assert((player_id ^ 1) != player_id) by (bit_vector);
    assert(((player_id ^ 1) ^ 1) == player_id) by (bit_vector);
}

/// Different ids have different partners.
pub proof fn lemma_other_slot_injective(first: usize, second: usize)
    ensures
        other_slot(first) == other_slot(second) <==> first == second,
{
    assert((first ^ 1) == (second ^ 1) <==> first == second) by (bit_vector);
}

} // verus!
