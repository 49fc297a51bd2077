use replay_buffer::saving::{
    clip_replay_buffer, snapshot_after_segment_wait, ClipAction, ClipProgress, WaitAction,
    WaitStage,
};
use replay_buffer::segments::{SegmentRecord, SegmentSnapshot};
use replay_buffer::settings::{ReplayBufferSettings, NANOS_PER_SEC};
use std::path::PathBuf;

fn snapshot(ends: &[u64]) -> SegmentSnapshot {
    let mut start = 0;
    let mut video_segments = Vec::new();
    for (i, end) in ends.iter().enumerate() {
        video_segments.push(SegmentRecord {
            path: PathBuf::from(format!("video_{i}")),
            index: i as u32,
            start,
            end: *end,
        });
        start = *end;
    }
    SegmentSnapshot {
        video_init: Some(PathBuf::from("init.mp4")),
        audio_init: None,
        video_segments,
        audio_segments: Vec::new(),
    }
}

fn nothing_known() -> ClipProgress {
    ClipProgress {
        recording_active: None,
        settings: None,
        session_active: None,
        snapshot: None,
        protected: None,
        saved: None,
        released: None,
        announced: None,
    }
}

fn prepared() -> ClipProgress {
    ClipProgress {
        recording_active: Some(false),
        settings: Some(Ok(ReplayBufferSettings::default())),
        session_active: Some(true),
        snapshot: Some(Ok(snapshot(&[NANOS_PER_SEC, 2 * NANOS_PER_SEC]))),
        ..nothing_known()
    }
}

fn error_of(progress: &ClipProgress) -> String {
    match clip_replay_buffer(progress) {
        ClipAction::Finish(Err(message)) => message,
        other => panic!("{other:?}"),
    }
}

#[test]
fn waiting_looks_twice_at_once() {
    let first = snapshot_after_segment_wait(WaitStage::Initial, Some(snapshot(&[5])), 2200);
    assert!(matches!(
        first,
        WaitAction::LookAgain(WaitStage::Polling { initial_latest: Some(5) })
    ));
    let empty = snapshot_after_segment_wait(WaitStage::Initial, Some(snapshot(&[])), 0);
    assert!(matches!(empty, WaitAction::LookAgain(WaitStage::Polling { initial_latest: None })));
}

#[test]
fn waiting_ends_with_new_video_or_at_the_deadline() {
    let stage = WaitStage::Polling { initial_latest: Some(5) };
    assert!(matches!(
        snapshot_after_segment_wait(stage, Some(snapshot(&[5])), 2199),
        WaitAction::Sleep(100)
    ));
    assert!(matches!(
        snapshot_after_segment_wait(stage, Some(snapshot(&[5])), 2200),
        WaitAction::Ready(_)
    ));
    match snapshot_after_segment_wait(stage, Some(snapshot(&[5, 9])), 0) {
        WaitAction::Ready(snapshot) => assert_eq!(snapshot.video_segments.len(), 2),
        other => panic!("{other:?}"),
    }
    // No video at all is nothing new.
    assert!(matches!(
        snapshot_after_segment_wait(stage, Some(snapshot(&[])), 0),
        WaitAction::Sleep(100)
    ));
    let from_none = WaitStage::Polling { initial_latest: None };
    assert!(matches!(
        snapshot_after_segment_wait(from_none, Some(snapshot(&[0])), 0),
        WaitAction::Ready(_)
    ));
}

#[test]
fn waiting_fails_on_a_poisoned_lock() {
    for stage in [WaitStage::Initial, WaitStage::Polling { initial_latest: None }] {
        match snapshot_after_segment_wait(stage, None, 5000) {
            WaitAction::Failed(message) => {
                assert_eq!(message, "Replay buffer tracker lock poisoned")
            }
            other => panic!("{other:?}"),
        }
    }
}

#[test]
fn questions_come_in_their_order() {
    let mut progress = nothing_known();
    assert!(matches!(clip_replay_buffer(&progress), ClipAction::QueryRecording));
    progress.recording_active = Some(false);
    assert!(matches!(clip_replay_buffer(&progress), ClipAction::LoadSettings));
    progress.settings = Some(Ok(ReplayBufferSettings::default()));
    assert!(matches!(clip_replay_buffer(&progress), ClipAction::FindSession));
    progress.session_active = Some(true);
    assert!(matches!(clip_replay_buffer(&progress), ClipAction::TakeSnapshot));
}

#[test]
fn each_failure_before_writing_is_reported() {
    let mut progress = prepared();
    progress.recording_active = Some(true);
    assert_eq!(
        error_of(&progress),
        "Replay buffer is paused while another recording is active"
    );
    progress = ClipProgress { settings: Some(Err("bad settings".to_string())), ..prepared() };
    assert_eq!(error_of(&progress), "bad settings");
    progress = ClipProgress { session_active: Some(false), ..prepared() };
    assert_eq!(error_of(&progress), "Replay buffer is not active");
    progress = ClipProgress { snapshot: Some(Err("no snapshot".to_string())), ..prepared() };
    assert_eq!(error_of(&progress), "no snapshot");
    progress = ClipProgress { snapshot: Some(Ok(snapshot(&[]))), ..prepared() };
    assert_eq!(error_of(&progress), "Not enough replay buffer data to save a clip");
    progress = ClipProgress { protected: Some(false), ..prepared() };
    assert_eq!(error_of(&progress), "Replay buffer tracker lock poisoned");
}

#[test]
fn files_are_protected_while_the_clip_is_written() {
    let expected: Vec<PathBuf> =
        ["init.mp4", "video_0", "video_1"].iter().map(PathBuf::from).collect();
    for saved in [Ok(PathBuf::from("clip")), Err("disk full".to_string())] {
        let mut progress = prepared();
        match clip_replay_buffer(&progress) {
            ClipAction::Protect(paths) => assert_eq!(paths, expected),
            other => panic!("{other:?}"),
        }
        progress.protected = Some(true);
        match clip_replay_buffer(&progress) {
            ClipAction::Materialize(selection) => {
                assert_eq!(selection.protected_paths, expected);
                assert_eq!(selection.duration, 2 * NANOS_PER_SEC as i128);
            }
            other => panic!("{other:?}"),
        }
        progress.saved = Some(saved.clone());
        match clip_replay_buffer(&progress) {
            ClipAction::Unprotect(paths) => assert_eq!(paths, expected),
            other => panic!("{other:?}"),
        }
        progress.released = Some(true);
        match (clip_replay_buffer(&progress), &saved) {
            (ClipAction::Announce(path), Ok(saved)) => assert_eq!(path, *saved),
            (ClipAction::Finish(Err(why)), Err(saved)) => assert_eq!(why, *saved),
            other => panic!("{other:?}"),
        }
        for announced in [true, false] {
            progress.announced = Some(announced);
            match clip_replay_buffer(&progress) {
                ClipAction::Finish(result) => assert_eq!(result, saved),
                other => panic!("{other:?}"),
            }
        }
        progress.released = Some(false);
        assert_eq!(error_of(&progress), "Replay buffer tracker lock poisoned");
    }
}
