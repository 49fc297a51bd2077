use replay_buffer::session::{
    lock_selected_microphone, start_session, stop_replay_session, Claim, MicrophoneAction,
    MicrophoneProgress, ReplayBufferState, ReplaySession, SessionOptions, StartAction,
    StartProgress, StopStep,
};
use replay_buffer::targets::{target_key, CaptureWindow, ReplayTargetKey};
use std::path::PathBuf;

fn key(owner_name: &str) -> ReplayTargetKey {
    target_key(&CaptureWindow {
        id: "1".to_string(),
        owner_name: owner_name.to_string(),
        name: "Window".to_string(),
        executable_path: None,
    })
}

fn session(owner_name: &str, live: u8) -> ReplaySession<u8> {
    ReplaySession::new(key(owner_name), PathBuf::from(owner_name), live)
}

#[test]
fn a_session_is_started_where_none_runs() {
    let mut state: ReplayBufferState<u8> = ReplayBufferState::default();
    assert!(matches!(state.claim(&key("Game")), Claim::Start { replaced: None }));
    assert!(state.stop_session().is_none());
}

#[test]
fn a_session_keeps_running_for_its_target() {
    let mut state = ReplayBufferState::default();
    state.install(session("Game", 1));
    assert!(matches!(state.claim(&key(" GAME")), Claim::Running));
    assert_eq!(state.session.as_ref().unwrap().live, 1);
}

#[test]
fn a_session_is_replaced_for_another_target() {
    let mut state = ReplayBufferState::default();
    state.install(session("Game", 1));
    match state.claim(&key("Other")) {
        Claim::Start { replaced: Some(old) } => assert_eq!(old.live, 1),
        _ => panic!(),
    }
    assert!(state.session.is_none());
    state.install(session("Other", 2));
    let stopped = state.stop_session().unwrap();
    assert_eq!(stopped.live, 2);
    assert_eq!(stopped.dir, PathBuf::from("Other"));
    assert!(state.session.is_none());
}

fn starting(default_system_audio: bool) -> StartProgress {
    StartProgress::new(key("Game"), "42".to_string(), default_system_audio)
}

#[test]
fn a_session_lies_in_a_directory_of_its_own() {
    let first = starting(true).dir_name;
    let second = starting(true).dir_name;
    assert_ne!(first, second);
    for name in [first, second] {
        assert_eq!(name.len(), 36);
        for (i, c) in name.chars().enumerate() {
            match i {
                8 | 13 | 18 | 23 => assert_eq!(c, '-'),
                14 => assert_eq!(c, '4'),
                19 => assert!("89ab".contains(c)),
                _ => assert!("0123456789abcdef".contains(c)),
            }
        }
    }
}

#[test]
fn a_session_starts_step_by_step() {
    let mut progress = starting(false);
    match start_session(&progress) {
        StartAction::CreateDir { parent, name } => {
            assert_eq!(parent, "replay-buffer");
            assert_eq!(name, progress.dir_name);
        }
        other => panic!("{other:?}"),
    }
    progress.dir = Some(Ok(PathBuf::from("cache/replay-buffer/x")));
    assert!(matches!(start_session(&progress), StartAction::ReadSettings));
    progress.system_audio = Some(Ok(Some(true)));
    assert!(matches!(start_session(&progress), StartAction::LockMicrophone));
    progress.microphone = Some(Ok(false));
    match start_session(&progress) {
        StartAction::Build { dir, window_id, options } => {
            assert_eq!(dir, PathBuf::from("cache/replay-buffer/x"));
            assert_eq!(window_id, "42");
            assert_eq!(
                options,
                SessionOptions { system_audio: true, max_output_size: 1920, microphone: false }
            );
        }
        other => panic!("{other:?}"),
    }
    progress.recorder = Some(Ok(true));
    match start_session(&progress) {
        StartAction::Finish { key, dir, reports_segments } => {
            assert_eq!(key.owner_name, "game");
            assert_eq!(dir, PathBuf::from("cache/replay-buffer/x"));
            assert!(reports_segments);
        }
        other => panic!("{other:?}"),
    }
}

#[test]
fn system_audio_is_the_default_unless_chosen() {
    for (default, stored, expected) in [
        (true, Ok(None), true),
        (false, Ok(None), false),
        (true, Err("no store".to_string()), true),
        (true, Ok(Some(false)), false),
    ] {
        let progress = StartProgress {
            dir: Some(Ok(PathBuf::from("dir"))),
            system_audio: Some(stored),
            microphone: Some(Ok(true)),
            ..starting(default)
        };
        match start_session(&progress) {
            StartAction::Build { options, .. } => {
                assert_eq!(options.system_audio, expected);
                assert!(options.microphone);
            }
            other => panic!("{other:?}"),
        }
    }
}

#[test]
fn a_start_fails_with_the_step_that_fails() {
    let fails = |progress: &StartProgress| match start_session(progress) {
        StartAction::Fail(why) => why,
        other => panic!("{other:?}"),
    };
    let mut progress = starting(false);
    progress.dir = Some(Err("no dir".to_string()));
    assert_eq!(fails(&progress), "no dir");
    progress.dir = Some(Ok(PathBuf::from("dir")));
    progress.system_audio = Some(Ok(None));
    progress.microphone = Some(Err("no microphone".to_string()));
    assert_eq!(fails(&progress), "no microphone");
    progress.microphone = Some(Ok(true));
    progress.recorder = Some(Err("no recorder".to_string()));
    assert_eq!(fails(&progress), "no recorder");
}

#[test]
fn a_session_is_stopped_in_order() {
    let session = session("Game", 1);
    let dir = PathBuf::from("Game");
    assert_eq!(
        stop_replay_session(&session, true),
        [StopStep::CancelRecording, StopStep::JoinBridge, StopStep::RemoveDir(dir.clone())]
    );
    assert_eq!(
        stop_replay_session(&session, false),
        [StopStep::CancelRecording, StopStep::RemoveDir(dir)]
    );
}

fn microphone(label: Option<&str>) -> MicrophoneProgress<u8> {
    MicrophoneProgress {
        label: label.map(str::to_string),
        settings: Some(3),
        current: None,
        input: None,
        ready: None,
        locked: None,
    }
}

#[test]
fn without_a_chosen_microphone_none_is_recorded() {
    assert!(matches!(lock_selected_microphone(&microphone(None)), MicrophoneAction::UseNone));
}

#[test]
fn the_microphone_that_is_set_up_is_taken_if_chosen() {
    let mut progress = microphone(Some("Mic"));
    assert!(matches!(lock_selected_microphone(&progress), MicrophoneAction::TryLock));
    progress.current = Some(Some("Mic".to_string()));
    assert!(matches!(lock_selected_microphone(&progress), MicrophoneAction::UseCurrent));
}

#[test]
fn another_microphone_is_set_up_first() {
    for current in [None, Some("Other".to_string())] {
        let mut progress = microphone(Some("Mic"));
        progress.current = Some(current);
        match lock_selected_microphone(&progress) {
            MicrophoneAction::SetInput { label, settings } => {
                assert_eq!(label, "Mic");
                assert_eq!(*settings, Some(3));
            }
            other => panic!("{other:?}"),
        }
        progress.input = Some(Ok(()));
        assert!(matches!(lock_selected_microphone(&progress), MicrophoneAction::AwaitReady));
        progress.ready = Some(Ok(()));
        assert!(matches!(lock_selected_microphone(&progress), MicrophoneAction::Lock));
        progress.locked = Some(Ok(()));
        assert!(matches!(lock_selected_microphone(&progress), MicrophoneAction::UseLocked));
    }
}

#[test]
fn a_microphone_that_cannot_be_had_is_a_failure() {
    let fails = |progress: &MicrophoneProgress<u8>| match lock_selected_microphone(progress) {
        MicrophoneAction::Fail(why) => why,
        other => panic!("{other:?}"),
    };
    let mut progress = microphone(Some("Mic"));
    progress.current = Some(None);
    progress.input = Some(Err("gone".to_string()));
    assert_eq!(fails(&progress), "Failed to initialize replay microphone 'Mic': gone");
    progress.input = Some(Ok(()));
    progress.ready = Some(Err("never ready".to_string()));
    assert_eq!(fails(&progress), "never ready");
    progress.ready = Some(Ok(()));
    progress.locked = Some(Err("busy".to_string()));
    assert_eq!(fails(&progress), "Failed to lock replay microphone 'Mic': busy");
}
