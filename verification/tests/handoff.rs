use player::{PlayerState, StartSeconds, StateChanged, StateChangedActor};

fn playing(player_id: usize, song_duration: u64, position: u64) -> StateChanged {
    StateChanged { player_id, state: PlayerState::Playing, song_duration, position }
}

#[test]
fn playing_event_schedules_the_other_slot() {
    let mut actor = StateChangedActor::new();
    let out = actor.handle(playing(0, 200_000, 50_000), 1_000_000);
    assert_eq!(out, Some(StartSeconds { player_id: 1, nseconds: 1_150_000 }));
}

#[test]
fn paused_event_emits_nothing() {
    let mut actor = StateChangedActor::new();
    let msg = StateChanged {
        player_id: 0,
        state: PlayerState::Paused,
        song_duration: 200_000,
        position: 50_000,
    };
    assert_eq!(actor.handle(msg, 1_000_000), None);
}

#[test]
fn slot_one_hands_over_to_slot_zero() {
    let mut actor = StateChangedActor::new();
    let out = actor.handle(playing(1, 100_000, 0), 5_000_000);
    assert_eq!(out, Some(StartSeconds { player_id: 0, nseconds: 5_100_000 }));
}

#[test]
fn consecutive_playing_events_are_answered_in_order() {
    let mut actor = StateChangedActor::new();
    let mut outbound: Vec<StartSeconds> = Vec::new();
    for now in [10_000u64, 20_000u64] {
        if let Some(instruction) = actor.handle(playing(0, 1000, 0), now) {
            outbound.push(instruction);
        }
    }
    // Each track has its full 1000 ns left when its event is picked up.
    assert_eq!(
        outbound,
        vec![
            StartSeconds { player_id: 1, nseconds: 11_000 },
            StartSeconds { player_id: 1, nseconds: 21_000 },
        ]
    );
    assert_eq!(outbound[1].nseconds - outbound[0].nseconds, 20_000 - 10_000);
}

#[test]
fn consecutive_events_at_the_end_of_the_track_hand_over_at_once() {
    let mut actor = StateChangedActor::new();
    let mut outbound: Vec<StartSeconds> = Vec::new();
    for now in [10_000u64, 20_000u64] {
        if let Some(instruction) = actor.handle(playing(0, 1000, 1000), now) {
            outbound.push(instruction);
        }
    }
    assert_eq!(
        outbound,
        vec![
            StartSeconds { player_id: 1, nseconds: 10_000 },
            StartSeconds { player_id: 1, nseconds: 20_000 },
        ]
    );
}
