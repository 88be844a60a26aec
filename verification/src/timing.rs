//! Handoff arithmetic on a monotonic nanosecond clock.
//!
//! When a slot reports that it is `position` nanoseconds into a track while
//! the clock reads `now`, the track began at `now - position`. It ends, and
//! the other slot must begin, one track length later.
//!
//! Clock readings, positions and durations are `u64` nanoseconds. The instants
//! worked out from them are mathematical integers: a track may have begun
//! before the clock's origin, and a handoff may lie beyond its range.

use vstd::prelude::*;

verus! {

/// The clock instant at which the current track began to play.
///
/// It is negative when the track began before the clock's origin.
pub open spec fn track_start(now: u64, position: u64) -> int {
    now - position
}

/// The clock instant at which the current track ends and the next slot must
/// begin.
pub open spec fn handoff_time(now: u64, position: u64, song_duration: u64) -> int {
    track_start(now, position) + song_duration
}

/// The instant is a timestamp that the clock can express.
pub open spec fn representable(instant: int) -> bool {
    0 <= instant <= u64::MAX
}

/// Why a handoff instant has no timestamp.
#[derive(Clone, Copy, Debug, PartialEq, Eq, Structural)]
pub enum TimingError {
    /// The handoff instant lies before the clock's origin.
    BeforeClockOrigin,
    /// The handoff instant lies beyond the last timestamp of the clock.
    BeyondClockRange,
}

/// Computes the handoff timestamp, or says on which side of the clock's range
/// the handoff instant falls.
pub fn checked_handoff_time(now: u64, position: u64, song_duration: u64) -> (result: Result<
    u64,
    TimingError,
>)
    ensures
        result is Ok <==> representable(handoff_time(now, position, song_duration)),
        result matches Ok(nseconds) ==> nseconds == handoff_time(now, position, song_duration),
        result == Err::<u64, TimingError>(TimingError::BeforeClockOrigin) <==> handoff_time(
            now,
            position,
            song_duration,
        ) < 0,
        result == Err::<u64, TimingError>(TimingError::BeyondClockRange) <==> handoff_time(
            now,
            position,
            song_duration,
        ) > u64::MAX,
{
    if position <= now {
        let started: u64 = now - position;
        match started.checked_add(song_duration) {
            Some(nseconds) => Ok(nseconds),
            None => Err(TimingError::BeyondClockRange),
        }
    } else {
        // The track began `lead` nanoseconds before the clock's origin.
        let lead: u64 = position - now;
        if lead <= song_duration {
            Ok(song_duration - lead)
        } else {
            Err(TimingError::BeforeClockOrigin)
        }
    }
}

/// Computes the handoff timestamp of a track whose handoff instant the clock
/// can express.
pub fn handoff_nseconds(now: u64, position: u64, song_duration: u64) -> (nseconds: u64)
    requires
        representable(handoff_time(now, position, song_duration)),
    ensures
        nseconds == handoff_time(now, position, song_duration),
{
    if position <= now {
        let started: u64 = now - position;
        started + song_duration
    } else {
        let lead: u64 = position - now;
        song_duration - lead
    }
}

/// Anchoring the handoff at the track's start gives the same instant as
/// adding what is left of the track to the current time.
pub proof fn lemma_handoff_is_now_plus_remainder(now: u64, position: u64, song_duration: u64)
    ensures
        handoff_time(now, position, song_duration) == now + (song_duration - position),
{
}

/// The handoff lies in the past exactly when the reported position is beyond
/// the end of the track. At the end of the track it is due at once; at the
/// start of the track it is a whole track length away.
pub proof fn lemma_handoff_in_past_iff_overrun(now: u64, position: u64, song_duration: u64)
    ensures
        handoff_time(now, position, song_duration) < now <==> position > song_duration,
        position == song_duration ==> handoff_time(now, position, song_duration) == now,
        position == 0 ==> handoff_time(now, position, song_duration) == now + song_duration,
{
}

/// Events of one track agree on its handoff: when the position has advanced
/// by as much as the clock between two events, both derive the same start of
/// the track and so the same handoff instant. Nothing drifts however often
/// the instant is derived again.
pub proof fn lemma_same_track_same_handoff(
    now1: u64,
    position1: u64,
    now2: u64,
    position2: u64,
    song_duration: u64,
)
    requires
        position2 - position1 == now2 - now1,
    ensures
        track_start(now2, position2) == track_start(now1, position1),
        handoff_time(now2, position2, song_duration) == handoff_time(
            now1,
            position1,
            song_duration,
        ),
{
}

} // verus!
