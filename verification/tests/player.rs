use kopuz::engine::Phase;
use kopuz::player::{can_resume, is_finished, LoadReply, NowPlayingMeta, PlayerState};

fn meta(duration_nanos: u64) -> NowPlayingMeta {
    NowPlayingMeta {
        title: "t".to_string(),
        artist: "a".to_string(),
        album: "al".to_string(),
        duration_nanos,
        artwork: None,
    }
}

#[test]
fn every_load_gets_a_fresh_token() {
    let mut state = PlayerState::new();
    assert_eq!(state.begin_load(), 1);
    assert_eq!(state.begin_load(), 2);
}

#[test]
fn a_successful_load_becomes_now_playing() {
    let mut state = PlayerState::new();
    assert!(state.finish_load(meta(1), LoadReply::Replied(Err("bad".to_string()))).is_err());
    assert!(state.now_playing.is_none());
    assert!(state.finish_load(meta(5), LoadReply::Replied(Ok(()))).is_ok());
    assert_eq!(state.now_playing.as_ref().map(|m| m.duration_nanos), Some(5));
    assert_eq!(
        state.finish_load(meta(9), LoadReply::TimedOut),
        Err("player load timed out".to_string())
    );
    assert_eq!(state.now_playing.as_ref().map(|m| m.duration_nanos), Some(5));
    state.stop();
    assert!(state.now_playing.is_none());
}

#[test]
fn seeks_stop_short_of_the_end() {
    let mut state = PlayerState::new();
    assert_eq!(state.seek_target(90_000_000_000), 90_000_000_000);
    assert_eq!(state.update_metadata(meta(10_000_000_000)), 10_000_000_000);
    assert_eq!(state.seek_target(9_000_000_000), 8_000_000_000);
    assert_eq!(state.seek_target(1_000_000_000), 1_000_000_000);
    state.update_metadata(meta(1_500_000_000));
    assert_eq!(state.seek_target(1_000_000_000), 0);
    state.update_metadata(meta(2_000_000_500));
    assert_eq!(state.seek_target(1_000_000_000), 500);
}

#[test]
fn phases_read_as_finished_or_resumable() {
    assert!(is_finished(Phase::Idle) && is_finished(Phase::Ended));
    assert!(!is_finished(Phase::Playing) && !is_finished(Phase::Paused));
    assert!(can_resume(Phase::Playing) && can_resume(Phase::Paused));
    assert!(!can_resume(Phase::Idle) && !can_resume(Phase::Ended));
}
