use std::sync::atomic::AtomicU64;
use std::sync::Arc;

use kopuz::engine::{EngineStatus, Event, Phase, SinkConfig, Transition};
use kopuz::engine_core::{fade_frame_count, Action, EngineCore};

const TEST_CONFIG: SinkConfig = SinkConfig { channels: 2, sample_rate: 44_100 };

/// Drives a load the way the engine host does: spawn, probe, and open the
/// output when asked to.
fn start(core: &mut EngineCore, token: u64, duration_nanos: u64, transition: Transition) -> Vec<Action> {
    let mut all = core.load(token, duration_nanos, transition, None, Ok(()));
    all.extend(core.worker_ready(token, Some(44_100), true, Ok(TEST_CONFIG)));
    if all.iter().any(|a| matches!(a, Action::OpenOutput { .. })) {
        all.extend(core.output_opened(Ok(TEST_CONFIG)));
    }
    all
}

fn status(core: &EngineCore, played: &Arc<AtomicU64>) -> EngineStatus {
    let s = core.snapshot();
    EngineStatus::new(
        s.token,
        s.phase,
        s.paused,
        s.duration_nanos,
        s.base_micros,
        played.clone(),
        s.channels,
        s.sample_rate,
    )
}

fn ended_count(actions: &[Action], token: u64) -> usize {
    actions
        .iter()
        .filter(|a| matches!(a, Action::Emit(Event::Ended { token: t }) if *t == token))
        .count()
}

fn epoch(core: &EngineCore) -> u64 {
    core.current.expect("a current session").epoch
}

#[test]
fn load_plays_and_position_advances() {
    let mut core = EngineCore::new();
    let actions = start(&mut core, 1, 5_000_000_000, Transition::Immediate);
    assert!(actions.iter().any(|a| matches!(a, Action::StartCurrent { .. })));
    assert_eq!(core.phase(), Phase::Playing);

    let played = Arc::new(AtomicU64::new(0));
    let status = status(&core, &played);
    let before = status.position_at(0);
    let after = status.position_at(TEST_CONFIG.sample_rate as u64 * TEST_CONFIG.channels as u64);
    assert!(after >= before + 900_000_000, "position should advance ~1s: {before} -> {after}");
}

#[test]
fn eof_emits_ended_once_and_seek_revives() {
    let mut core = EngineCore::new();
    let mut seen = start(&mut core, 7, 250_000_000, Transition::Immediate);
    core.worker_eof(7, epoch(&core));
    seen.extend(core.tick(false, true, 250_000_000));
    assert_eq!(core.phase(), Phase::Ended);
    for _ in 0..10 {
        seen.extend(core.tick(false, true, 250_000_000));
    }
    assert_eq!(ended_count(&seen, 7), 1, "Ended must fire exactly once");

    seen.extend(core.seek(50_000_000));
    assert_eq!(core.phase(), Phase::Playing);
    core.worker_eof(7, epoch(&core));
    seen.extend(core.tick(false, true, 250_000_000));
    assert_eq!(core.phase(), Phase::Ended);
    assert_eq!(ended_count(&seen, 7), 2, "revived session may end once more");
}

#[test]
fn pause_freezes_drain_and_blocks_ended() {
    let mut core = EngineCore::new();
    start(&mut core, 3, 250_000_000, Transition::Immediate);
    let paused = core.pause();
    assert!(paused.contains(&Action::PauseSink), "device must be paused");
    assert_eq!(core.phase(), Phase::Paused);

    core.worker_eof(3, epoch(&core));
    let mut seen = Vec::new();
    for _ in 0..10 {
        // A paused device pulls nothing, so the ring never drains.
        seen.extend(core.tick(false, false, 100_000_000));
    }
    assert_eq!(ended_count(&seen, 3), 0);
    assert_ne!(core.phase(), Phase::Ended);

    let resumed = core.resume();
    assert!(resumed.contains(&Action::PlaySink));
    assert_eq!(core.phase(), Phase::Playing);
    seen.extend(core.tick(false, true, 250_000_000));
    assert_eq!(core.phase(), Phase::Ended);
}

#[test]
fn crossfade_mixes_and_emits_track_switched() {
    let mut core = EngineCore::new();
    start(&mut core, 1, 30_000_000_000, Transition::Immediate);
    let actions = start(&mut core, 2, 30_000_000_000, Transition::Crossfade(500_000));
    assert!(actions.contains(&Action::CurrentToFading));
    let expected_frames = fade_frame_count(500_000, 44_100);
    assert_eq!(expected_frames, 22_050);
    assert!(actions.contains(&Action::Swap { fade_frames: Some(expected_frames) }));
    assert_eq!(core.snapshot().token, 2);

    let after = core.tick(true, false, 1_000_000_000);
    assert!(after.contains(&Action::Emit(Event::TrackSwitched { token: 2 })));
    assert!(core.fading.is_none());
    assert_eq!(core.phase(), Phase::Playing);
}

#[test]
fn stop_for_transition_goes_idle_without_pausing_device() {
    let mut core = EngineCore::new();
    start(&mut core, 1, 5_000_000_000, Transition::Immediate);
    let actions = core.stop(false);
    assert_eq!(core.phase(), Phase::Idle);
    assert!(!actions.contains(&Action::PauseSink), "device keeps running");
    let played = Arc::new(AtomicU64::new(12_345));
    assert_eq!(status(&core, &played).position(), 0);

    start(&mut core, 2, 5_000_000_000, Transition::Immediate);
    assert!(core.stop(true).contains(&Action::PauseSink));
}

#[test]
fn superseding_load_drops_stale_session() {
    let mut core = EngineCore::new();
    core.load(1, 1_000_000_000, Transition::Immediate, None, Ok(()));
    let second = core.load(2, 5_000_000_000, Transition::Immediate, None, Ok(()));
    // The superseded load's reply is answered with an error, not dropped.
    assert_eq!(second[0], Action::SupersedePending, "superseded load must resolve as an error");
    assert!(!second.contains(&Action::DiscardPending));

    // The stale worker finally reports in; it changes nothing.
    assert!(core.worker_ready(1, Some(44_100), true, Ok(TEST_CONFIG)).is_empty());
    core.worker_eof(1, 0);
    assert!(core.current.is_none());

    let mut actions = core.worker_ready(2, Some(44_100), true, Ok(TEST_CONFIG));
    if actions.iter().any(|a| matches!(a, Action::OpenOutput { .. })) {
        actions.extend(core.output_opened(Ok(TEST_CONFIG)));
    }
    let snapshot = core.snapshot();
    assert_eq!(snapshot.token, 2);
    assert_eq!(snapshot.phase, Phase::Playing);
}

#[test]
fn cancelling_a_probing_load_drops_its_reply() {
    let mut core = EngineCore::new();
    core.load(1, 1_000_000_000, Transition::Immediate, None, Ok(()));
    assert_eq!(core.cancel_pending(), vec![Action::DiscardPending]);
    assert!(core.cancel_pending().is_empty());
}

#[test]
fn a_failed_spawn_is_rejected() {
    let mut core = EngineCore::new();
    let actions = core.load(4, 1_000_000_000, Transition::Immediate, None, Err("no thread".to_string()));
    let message = "failed to spawn decode worker: no thread".to_string();
    assert!(actions.contains(&Action::RejectLoad { message: message.clone() }));
    assert!(actions.contains(&Action::Emit(Event::Error { token: 4, message })));
    assert!(core.pending.is_none());
}

#[test]
fn a_failed_probe_reports_an_error() {
    let mut core = EngineCore::new();
    core.load(5, 1_000_000_000, Transition::Immediate, None, Ok(()));
    let actions = core.worker_ready(5, None, false, Err("bad file".to_string()));
    assert!(actions.contains(&Action::Emit(Event::Error { token: 5, message: "bad file".to_string() })));
    assert_eq!(core.phase(), Phase::Idle);
}

#[test]
fn seeks_clamp_before_the_end() {
    let mut core = EngineCore::new();
    start(&mut core, 6, 10_000_000_000, Transition::Immediate);
    let actions = core.seek(60_000_000_000);
    let target = actions.iter().find_map(|a| match a {
        Action::SeekCurrent { target_nanos, .. } => Some(*target_nanos),
        _ => None,
    });
    assert_eq!(target, Some(8_000_000_000));
}
