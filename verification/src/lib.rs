//! Gapless playback handoff between two alternating player slots.
//!
//! When the track in one slot starts to play, the scheduler works out the
//! clock time at which that track will end and tells the other slot to start
//! then.

pub mod messages;
pub mod slots;
pub mod state_changed_actor;
pub mod timing;
pub mod trace;

pub use messages::{PlayerState, StartSeconds, StateChanged};
pub use state_changed_actor::StateChangedActor;
pub use timing::TimingError;
pub use trace::Arrival;
