//! The playback handoff scheduler.
//!
//! The actor watches the state changes of both player slots. A slot that
//! starts to play tells, by its position and the length of its track, when
//! that track will end; the actor answers with the instruction that starts the
//! other slot at that instant. It keeps nothing between events: each answer is
//! worked out from the event and the clock reading alone.
//!
//! The actor does no I/O. Its caller reads the clock, hands the reading in
//! with the event, and passes the instruction that comes back on to whoever
//! arms the next slot.

use crate::messages::{StartSeconds, StateChanged};
use crate::slots::{is_slot, next_player_id, other_slot};
use crate::timing::{
    checked_handoff_time, handoff_nseconds, handoff_time, representable, TimingError,
};
use vstd::prelude::*;

verus! {

/// The clock can express the handoff instant of the event. An event that is
/// not a transition into `Playing` asks nothing of the clock.
pub open spec fn schedulable(msg: StateChanged, now: u64) -> bool {
    msg.is_playing() ==> representable(handoff_time(now, msg.position, msg.song_duration))
}

/// The instruction that answers a playing event handled at clock reading
/// `now`: the other slot, at the instant the current track ends.
pub open spec fn instruction_for(msg: StateChanged, now: u64) -> StartSeconds {
    StartSeconds {
        nseconds: handoff_time(now, msg.position, msg.song_duration) as u64,
        player_id: other_slot(msg.player_id),
    }
}

/// What the scheduler answers to an event handled at clock reading `now`:
/// one instruction for a transition into `Playing` that can be scheduled,
/// nothing for anything else.
pub open spec fn reaction(msg: StateChanged, now: u64) -> Option<StartSeconds> {
    if msg.is_playing() && schedulable(msg, now) {
        Some(instruction_for(msg, now))
    } else {
        None
    }
}

/// The instructions that one event adds to the outbound stream: none or one.
pub open spec fn emission(msg: StateChanged, now: u64) -> Seq<StartSeconds> {
    match reaction(msg, now) {
        Some(instruction) => seq![instruction],
        None => Seq::empty(),
    }
}

/// Why an event cannot be scheduled, if it cannot.
pub open spec fn timing_fault(msg: StateChanged, now: u64) -> Option<TimingError> {
    let instant = handoff_time(now, msg.position, msg.song_duration);
    if !msg.is_playing() {
        None
    } else if instant < 0 {
        Some(TimingError::BeforeClockOrigin)
    } else if instant > u64::MAX {
        Some(TimingError::BeyondClockRange)
    } else {
        None
    }
}

/// What becomes of an event handled at clock reading `now`: the scheduler's
/// answer, or the reason why the event cannot be scheduled.
pub open spec fn outcome(msg: StateChanged, now: u64) -> Result<Option<StartSeconds>, TimingError> {
    match timing_fault(msg, now) {
        Some(fault) => Err(fault),
        None => Ok(reaction(msg, now)),
    }
}

/// The scheduler. Its view is the stream of instructions it has emitted so
/// far, oldest first.
pub struct StateChangedActor {
    stream: Ghost<Seq<StartSeconds>>,
}

impl View for StateChangedActor {
    type V = Seq<StartSeconds>;

    closed spec fn view(&self) -> Seq<StartSeconds> {
        self.stream@
    }
}

impl StateChangedActor {
    /// A scheduler that has emitted nothing yet.
    pub fn new() -> (actor: StateChangedActor)
        ensures
            actor@ == Seq::<StartSeconds>::empty(),
    {
        StateChangedActor { stream: Ghost(Seq::empty()) }
    }

    /// Handles one state change, picked up when the clock read `now`.
    ///
    /// A transition into `Playing` is answered with exactly one instruction:
    /// the other slot starts at `now - position + song_duration`. Every other
    /// state is a no-op. The answer does not depend on what was handled
    /// before.
    ///
    /// The event is taken as it is: a position beyond the end of the track is
    /// not refused, it gives a handoff in the past.
    pub fn handle(&mut self, msg: StateChanged, now: u64) -> (out: Option<StartSeconds>)
        requires
            schedulable(msg, now),
        ensures
            out is Some <==> msg.is_playing(),
            out matches Some(instruction) ==> instruction.nseconds == handoff_time(
                now,
                msg.position,
                msg.song_duration,
            ),
            out matches Some(instruction) ==> instruction.player_id == other_slot(msg.player_id),
            out matches Some(instruction) ==> (is_slot(msg.player_id) ==> instruction.player_id
                == 1 - msg.player_id),
            out == reaction(msg, now),
            final(self)@ == old(self)@ + emission(msg, now),
    {
        if msg.is_playing() {
            let nseconds: u64 = handoff_nseconds(now, msg.position, msg.song_duration);
            let player_id: usize = next_player_id(msg.player_id);
            let instruction = StartSeconds { nseconds, player_id };
            self.stream = Ghost(self.stream@.push(instruction));
            Some(instruction)
        } else {
            None
        }
    }

    /// Handles one state change like [`StateChangedActor::handle`], for a
    /// caller that cannot promise that the handoff instant has a timestamp.
    ///
    /// Where it has none, the event is refused with the reason and nothing is
    /// emitted.
    pub fn try_handle(&mut self, msg: StateChanged, now: u64) -> (out: Result<
        Option<StartSeconds>,
        TimingError,
    >)
        ensures
            schedulable(msg, now) <==> out is Ok,
            out == outcome(msg, now),
            out is Err ==> final(self)@ == old(self)@,
            final(self)@ == old(self)@ + emission(msg, now),
    {
        if msg.is_playing() {
            match checked_handoff_time(now, msg.position, msg.song_duration) {
                Ok(_) => Ok(self.handle(msg, now)),
                Err(fault) => Err(fault),
            }
        } else {
            Ok(self.handle(msg, now))
        }
    }
}

/// The answer to a playing event names the partner of the slot that raised
/// it, whatever the clock reads.
pub proof fn lemma_reaction_toggles_slot(msg: StateChanged, now: u64)
    requires
        msg.is_playing(),
        schedulable(msg, now),
    ensures
        reaction(msg, now) matches Some(instruction) && instruction.player_id == (msg.player_id
            ^ 1),
        msg.player_id == 0 ==> reaction(msg, now)->0.player_id == 1,
        msg.player_id == 1 ==> reaction(msg, now)->0.player_id == 0,
{
    if msg.player_id == 0 || msg.player_id == 1 {
        crate::slots::lemma_slots_form_closed_pair(msg.player_id);
    }
}

/// Two playing events with the same position and duration, handled at two
/// clock readings, are answered with timestamps exactly as far apart as the
/// readings: the track's start is derived afresh each time, nothing
/// accumulates.
pub proof fn lemma_reaction_follows_clock(
    first: StateChanged,
    now1: u64,
    second: StateChanged,
    now2: u64,
)
    requires
        first.is_playing(),
        second.is_playing(),
        first.position == second.position,
        first.song_duration == second.song_duration,
        schedulable(first, now1),
        schedulable(second, now2),
    ensures
        instruction_for(second, now2).nseconds - instruction_for(first, now1).nseconds == now2
            - now1,
        now1 <= now2 ==> instruction_for(first, now1).nseconds <= instruction_for(
            second,
            now2,
        ).nseconds,
{
}

/// An answer lies in the past exactly when the event reports a position
/// beyond the end of its track.
pub proof fn lemma_answer_in_past_iff_overrun(msg: StateChanged, now: u64)
    requires
        msg.is_playing(),
        schedulable(msg, now),
    ensures
        instruction_for(msg, now).nseconds < now <==> !msg.within_track(),
{
}

} // verus!
