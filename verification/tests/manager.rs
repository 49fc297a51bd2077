use replay_buffer::manager::{
    record_window, start_manager, tick_manager, ManagerAction, ManagerEvent, RecordAction,
    RecordEvent, RecordTarget, TickAction, TickProgress,
};
use replay_buffer::session::{ReplayBufferState, ReplaySession};
use replay_buffer::settings::{ReplayBufferSettings, ReplayWindowRule, NANOS_PER_SEC};
use replay_buffer::targets::{target_key, CaptureWindow};
use std::path::PathBuf;

fn settings() -> ReplayBufferSettings {
    ReplayBufferSettings {
        enabled: true,
        clip_duration_secs: 30,
        targets: vec![ReplayWindowRule {
            owner_name: "Game".to_string(),
            window_title: "Window".to_string(),
            executable_path: None,
        }],
    }
}

fn window(id: u8, owner_name: &str) -> CaptureWindow {
    CaptureWindow {
        id: id.to_string(),
        owner_name: owner_name.to_string(),
        name: "Window".to_string(),
        executable_path: None,
    }
}

#[test]
fn the_manager_looks_and_waits_in_turn() {
    assert!(matches!(start_manager(ManagerEvent::Started), ManagerAction::Tick));
    assert!(matches!(
        start_manager(ManagerEvent::Ticked(Ok(()))),
        ManagerAction::Sleep { millis: 2000, warning: None }
    ));
    assert!(matches!(start_manager(ManagerEvent::Slept), ManagerAction::Tick));
}

#[test]
fn an_error_of_a_look_is_reported_and_the_manager_goes_on() {
    match start_manager(ManagerEvent::Ticked(Err("no store".to_string()))) {
        ManagerAction::Sleep { millis, warning } => {
            assert_eq!(millis, 2000);
            assert_eq!(warning.unwrap(), "Replay buffer manager tick failed: no store");
        }
        other => panic!("{other:?}"),
    }
}

#[test]
fn a_look_asks_in_turn_and_records_the_named_window() {
    let mut progress = TickProgress { settings: None, recording_active: None, windows: None };
    assert!(matches!(tick_manager(&progress), TickAction::LoadSettings));
    progress.settings = Some(Ok(settings()));
    assert!(matches!(tick_manager(&progress), TickAction::QueryRecording));
    progress.recording_active = Some(false);
    assert!(matches!(tick_manager(&progress), TickAction::ListWindows));
    progress.windows = Some(vec![window(1, "Shell"), window(2, "GAME")]);
    match tick_manager(&progress) {
        TickAction::Record(target) => {
            assert_eq!(target.key.owner_name, "game");
            assert_eq!(target.window_id, "2");
            assert_eq!(target.retain, 94 * NANOS_PER_SEC);
        }
        other => panic!("{other:?}"),
    }
}

#[test]
fn a_look_stops_the_session_where_nothing_is_to_be_recorded() {
    let known = |settings: ReplayBufferSettings, active: bool, owner: &str| TickProgress {
        settings: Some(Ok(settings)),
        recording_active: Some(active),
        windows: Some(vec![window(1, owner)]),
    };
    assert!(matches!(tick_manager(&known(settings(), false, "Game")), TickAction::Record(_)));
    for progress in [
        known(ReplayBufferSettings { enabled: false, ..settings() }, false, "Game"),
        known(ReplayBufferSettings { targets: Vec::new(), ..settings() }, false, "Game"),
        known(settings(), true, "Game"),
        known(settings(), false, "Shell"),
    ] {
        assert!(matches!(tick_manager(&progress), TickAction::StopSession));
    }
    // A buffer that is switched off asks nothing more.
    let off = TickProgress {
        settings: Some(Ok(ReplayBufferSettings::default())),
        recording_active: None,
        windows: None,
    };
    assert!(matches!(tick_manager(&off), TickAction::StopSession));
}

#[test]
fn a_look_without_settings_fails() {
    let progress = TickProgress {
        settings: Some(Err("bad settings".to_string())),
        recording_active: None,
        windows: None,
    };
    match tick_manager(&progress) {
        TickAction::Fail(why) => assert_eq!(why, "bad settings"),
        other => panic!("{other:?}"),
    }
}

#[test]
fn what_was_not_asked_makes_no_difference() {
    for recording_active in [None, Some(true), Some(false)] {
        for windows in [None, Some(vec![window(1, "Game")])] {
            let progress = TickProgress {
                settings: Some(Ok(ReplayBufferSettings { enabled: false, ..settings() })),
                recording_active,
                windows,
            };
            assert!(matches!(tick_manager(&progress), TickAction::StopSession));
        }
    }
}

fn target(owner_name: &str) -> RecordTarget {
    RecordTarget {
        key: target_key(&window(7, owner_name)),
        window_id: "7".to_string(),
        retain: 5,
    }
}

fn session(owner_name: &str, live: u8) -> ReplaySession<u8> {
    ReplaySession::new(target_key(&window(7, owner_name)), PathBuf::from(owner_name), live)
}

#[test]
fn a_window_that_is_recorded_is_only_pruned() {
    let mut state = ReplayBufferState { session: Some(session("Game", 1)) };
    match record_window(&mut state, &target("GAME "), RecordEvent::Wanted) {
        RecordAction::Prune(retain) => assert_eq!(retain, 5),
        _ => panic!(),
    }
    assert_eq!(state.session.unwrap().live, 1);
}

#[test]
fn a_window_is_recorded_in_place_of_another() {
    let mut state = ReplayBufferState { session: Some(session("Game", 1)) };
    let other = target("Other");
    match record_window(&mut state, &other, RecordEvent::Wanted) {
        RecordAction::Stop(old) => assert_eq!(old.live, 1),
        _ => panic!(),
    }
    assert!(state.session.is_none());
    match record_window(&mut state, &other, RecordEvent::Stopped) {
        RecordAction::Start { key, window_id } => {
            assert_eq!(key.owner_name, "other");
            assert_eq!(window_id, "7");
        }
        _ => panic!(),
    }
    assert!(state.session.is_none());
    let started = RecordEvent::Started(Ok(session("Other", 2)));
    assert!(matches!(record_window(&mut state, &other, started), RecordAction::Done));
    assert_eq!(state.session.unwrap().live, 2);
}

#[test]
fn a_session_that_cannot_be_started_is_not_put_in_place() {
    let mut state: ReplayBufferState<u8> = ReplayBufferState::default();
    let game = target("Game");
    assert!(matches!(
        record_window(&mut state, &game, RecordEvent::Wanted),
        RecordAction::Start { .. }
    ));
    let failed = RecordEvent::Started(Err("no recorder".to_string()));
    match record_window(&mut state, &game, failed) {
        RecordAction::GiveUp(why) => assert_eq!(why, "no recorder"),
        _ => panic!(),
    }
    assert!(state.session.is_none());
}
