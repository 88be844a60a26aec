//! The messages that flow into and out of the handoff scheduler.
//!
//! A player slot reports every change of its lifecycle stage as a
//! [`StateChanged`] event. The scheduler answers a transition into
//! [`PlayerState::Playing`] with one [`StartSeconds`] instruction for the
//! other slot of the pair.

use vstd::prelude::*;

verus! {

/// The lifecycle stage that a player slot reports.
///
/// Only `Playing` carries scheduling significance. Every other stage,
/// including one this library has no name for, is informational.
#[derive(Clone, Copy, Debug, PartialEq, Eq, Structural)]
pub enum PlayerState {
    Stopped,
    Buffering,
    Paused,
    Playing,
    Error,
    /// A stage reported under a code that none of the named stages covers.
    Unknown(i32),
}

/// A player slot changed its state.
///
/// `song_duration` and `position` are nanoseconds. A well-behaved slot
/// reports `position <= song_duration`; the scheduler does not insist on it.
#[derive(Clone, Copy, Debug, PartialEq, Eq, Structural)]
pub struct StateChanged {
    /// The slot that changed.
    pub player_id: usize,
    /// The stage the slot is in now.
    pub state: PlayerState,
    /// Total length of the track loaded in the slot, in nanoseconds.
    pub song_duration: u64,
    /// How far into the track the slot was when it raised the event, in nanoseconds.
    pub position: u64,
}

/// The instruction to start a slot at an absolute clock time.
#[derive(Clone, Copy, Debug, PartialEq, Eq, Structural)]
pub struct StartSeconds {
    /// The clock timestamp at which the slot must begin, in nanoseconds.
    pub nseconds: u64,
    /// The slot that must start.
    pub player_id: usize,
}

impl StateChanged {
    /// The event marks the instant at which a track is known to be playing.
    pub open spec fn spec_is_playing(&self) -> bool {
        self.state == PlayerState::Playing
    }

    /// Whether the event is a transition into `Playing`, the only kind that
    /// the scheduler answers and the only kind for which it needs a clock
    /// reading.
    #[verifier::when_used_as_spec(spec_is_playing)]
    pub fn is_playing(&self) -> (playing: bool)
        ensures
            playing == (self.state == PlayerState::Playing),
    {
        self.state == PlayerState::Playing
    }

    /// The reported position lies within the track.
    pub open spec fn within_track(&self) -> bool {
        self.position <= self.song_duration
    }
}

} // verus!
