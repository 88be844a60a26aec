use player::{PlayerState, StartSeconds, StateChanged, StateChangedActor};
use tokio::sync::mpsc::channel;

fn playing(player_id: usize, song_duration: u64, position: u64) -> StateChanged {
    StateChanged { player_id, state: PlayerState::Playing, song_duration, position }
}

#[test]
fn instructions_cross_the_channel_in_order() {
    let (subscriber, mut receiver) = channel::<StartSeconds>(4);
    let mut actor = StateChangedActor::new();
    for (msg, now) in [(playing(0, 1000, 0), 10_000u64), (playing(0, 1000, 0), 20_000u64)] {
        if let Some(instruction) = actor.handle(msg, now) {
            subscriber.try_send(instruction).ok();
        }
    }
    assert_eq!(receiver.try_recv().ok(), Some(StartSeconds { player_id: 1, nseconds: 11_000 }));
    assert_eq!(receiver.try_recv().ok(), Some(StartSeconds { player_id: 1, nseconds: 21_000 }));
    assert_eq!(receiver.try_recv().ok(), None);
}

#[test]
fn scheduler_carries_on_without_a_receiver() {
    let (subscriber, receiver) = channel::<StartSeconds>(1);
    drop(receiver);
    let mut actor = StateChangedActor::new();

    let first = actor.handle(playing(0, 200_000, 50_000), 1_000_000);
    assert_eq!(first, Some(StartSeconds { player_id: 1, nseconds: 1_150_000 }));
    assert!(subscriber.try_send(first.unwrap()).is_err());

    let second = actor.handle(playing(1, 100_000, 0), 5_000_000);
    assert_eq!(second, Some(StartSeconds { player_id: 0, nseconds: 5_100_000 }));
    assert!(subscriber.try_send(second.unwrap()).is_err());
}
