//! Saving a clip: the waiting for the newest segment, and the steps from the request to
//! the finished recording.

use crate::clip::{select_clip_segments, selection_of, ClipSelection, SelectionView};
use crate::segments::{latest_end, latest_end_of, SegmentSnapshot};
use crate::settings::{clip_length_of, ReplayBufferSettings};
use std::path::PathBuf;
use vstd::prelude::*;

verus! {

/// How long saving a clip waits for the segment that is being written, in milliseconds.
pub const CLIP_SEGMENT_WAIT_MILLIS: u64 = 2200;

/// How long it waits between two looks at the tracker, in milliseconds.
pub const CLIP_SEGMENT_POLL_MILLIS: u64 = 100;

/// How far the waiting for the newest segment has come.
#[derive(Debug, Clone, Copy)]
pub enum WaitStage {
    /// The tracker was not looked at yet.
    Initial,
    /// At the first look the video ended at `initial_latest`.
    Polling { initial_latest: Option<u64> },
}

/// What comes next in the waiting for the newest segment.
#[derive(Debug)]
pub enum WaitAction {
    /// Look again at once, now in the given stage.
    LookAgain(WaitStage),
    /// Look again after so many milliseconds.
    Sleep(u64),
    /// The clip is taken from this snapshot.
    Ready(SegmentSnapshot),
    /// There is no snapshot to take the clip from.
    Failed(String),
}

/// The contents of a `WaitAction`.
pub ghost enum WaitActionView {
    LookAgain(WaitStage),
    Sleep(u64),
    Ready(SegmentSnapshot),
    Failed(Seq<char>),
}

impl View for WaitAction {
    type V = WaitActionView;

    open spec fn view(&self) -> WaitActionView {
        match *self {
            WaitAction::LookAgain(stage) => WaitActionView::LookAgain(stage),
            WaitAction::Sleep(millis) => WaitActionView::Sleep(millis),
            WaitAction::Ready(snapshot) => WaitActionView::Ready(snapshot),
            WaitAction::Failed(message) => WaitActionView::Failed(message@),
        }
    }
}

/// Whether the video has moved on since the first look.
pub open spec fn has_moved_on(initial_latest: Option<u64>, latest: Option<u64>) -> bool {
    latest is Some && latest != initial_latest
}

/// What comes next in the waiting after a look at the tracker.
pub open spec fn wait_action(
    stage: WaitStage,
    snapshot: Option<SegmentSnapshot>,
    waited_millis: u64,
) -> WaitActionView {
    match (snapshot, stage) {
        (None, _) => WaitActionView::Failed("Replay buffer tracker lock poisoned"@),
        (Some(snapshot), WaitStage::Initial) => WaitActionView::LookAgain(
            WaitStage::Polling { initial_latest: latest_end_of(snapshot@.video_segments) },
        ),
        (Some(snapshot), WaitStage::Polling { initial_latest }) => if waited_millis
            >= CLIP_SEGMENT_WAIT_MILLIS || has_moved_on(
            initial_latest,
            latest_end_of(snapshot@.video_segments),
        ) {
            WaitActionView::Ready(snapshot)
        } else {
            WaitActionView::Sleep(CLIP_SEGMENT_POLL_MILLIS)
        },
    }
}

/// Decides after each look at the tracker. `snapshot` is `None` where the lock of the
/// tracker is poisoned, and `waited_millis` is the time since the first look. The first
/// look tells where the video ended; from then on the snapshot is taken as soon as the
/// video has moved on, and whatever it holds once the wait has lasted
/// `CLIP_SEGMENT_WAIT_MILLIS`.
pub fn snapshot_after_segment_wait(
    stage: WaitStage,
    snapshot: Option<SegmentSnapshot>,
    waited_millis: u64,
) -> (r: WaitAction)
    ensures
        match (snapshot, stage) {
            (None, _) => r matches WaitAction::Failed(message) && message@
                == "Replay buffer tracker lock poisoned"@,
            (Some(snapshot), WaitStage::Initial) => r == WaitAction::LookAgain(
                WaitStage::Polling { initial_latest: latest_end_of(snapshot@.video_segments) },
            ),
            (Some(snapshot), WaitStage::Polling { initial_latest }) => if waited_millis
                >= CLIP_SEGMENT_WAIT_MILLIS || has_moved_on(
                initial_latest,
                latest_end_of(snapshot@.video_segments),
            ) {
                r == WaitAction::Ready(snapshot)
            } else {
                r == WaitAction::Sleep(CLIP_SEGMENT_POLL_MILLIS)
            },
        },
        r@ == wait_action(stage, snapshot, waited_millis),
{
    let snapshot = match snapshot {
        Some(snapshot) => snapshot,
        None => return WaitAction::Failed("Replay buffer tracker lock poisoned".to_owned()),
    };
    let latest = latest_end(&snapshot.video_segments);
    match stage {
        WaitStage::Initial => WaitAction::LookAgain(
            WaitStage::Polling { initial_latest: latest },
        ),
        WaitStage::Polling { initial_latest } => {
            if waited_millis >= CLIP_SEGMENT_WAIT_MILLIS || (latest.is_some() && latest
                != initial_latest) {
                WaitAction::Ready(snapshot)
            } else {
                WaitAction::Sleep(CLIP_SEGMENT_POLL_MILLIS)
            }
        },
    }
}

/// What is known so far while a clip is being saved. A field is `None` until the
/// question that it answers was asked.
#[derive(Debug)]
pub struct ClipProgress {
    /// Whether another recording is running.
    pub recording_active: Option<bool>,
    /// The settings, or why there are none.
    pub settings: Option<Result<ReplayBufferSettings, String>>,
    /// Whether a replay session is running.
    pub session_active: Option<bool>,
    /// The segments to choose from, or why there are none.
    pub snapshot: Option<Result<SegmentSnapshot, String>>,
    /// Whether the tracker could be locked to protect the files.
    pub protected: Option<bool>,
    /// Where the clip was saved, or why it was not.
    pub saved: Option<Result<PathBuf, String>>,
    /// Whether the tracker could be locked to hand the files back.
    pub released: Option<bool>,
    /// Whether the other windows could be told of the clip.
    pub announced: Option<bool>,
}

/// What comes next in saving a clip.
#[derive(Debug)]
pub enum ClipAction {
    QueryRecording,
    LoadSettings,
    FindSession,
    TakeSnapshot,
    Protect(Vec<PathBuf>),
    Materialize(ClipSelection),
    Unprotect(Vec<PathBuf>),
    /// Play the sound, and tell the other windows of the clip at this path.
    Announce(PathBuf),
    Finish(Result<PathBuf, String>),
}

/// The contents of a `ClipAction`.
pub ghost enum ClipActionView {
    QueryRecording,
    LoadSettings,
    FindSession,
    TakeSnapshot,
    Protect(Seq<PathBuf>),
    Materialize(SelectionView),
    Unprotect(Seq<PathBuf>),
    Announce(PathBuf),
    Finish(Result<PathBuf, Seq<char>>),
}

/// A result with the text of its error.
pub open spec fn result_view<T>(r: Result<T, String>) -> Result<T, Seq<char>> {
    match r {
        Ok(value) => Ok(value),
        Err(message) => Err(message@),
    }
}

impl View for ClipAction {
    type V = ClipActionView;

    open spec fn view(&self) -> ClipActionView {
        match *self {
            ClipAction::QueryRecording => ClipActionView::QueryRecording,
            ClipAction::LoadSettings => ClipActionView::LoadSettings,
            ClipAction::FindSession => ClipActionView::FindSession,
            ClipAction::TakeSnapshot => ClipActionView::TakeSnapshot,
            ClipAction::Protect(paths) => ClipActionView::Protect(paths@),
            ClipAction::Materialize(selection) => ClipActionView::Materialize(selection@),
            ClipAction::Unprotect(paths) => ClipActionView::Unprotect(paths@),
            ClipAction::Announce(path) => ClipActionView::Announce(path),
            ClipAction::Finish(result) => ClipActionView::Finish(result_view(result)),
        }
    }
}

/// The clip that is being saved, as far as it is known.
pub open spec fn chosen_clip(progress: ClipProgress) -> Option<SelectionView> {
    match (progress.settings, progress.snapshot) {
        (Some(Ok(settings)), Some(Ok(snapshot))) => selection_of(
            snapshot@,
            clip_length_of(settings@),
        ),
        _ => None,
    }
}

/// The questions that come before a clip is chosen, each with the action that asks it
/// and the answers that end the saving; `None` where all were answered well.
pub open spec fn preparing_action(progress: ClipProgress) -> Option<ClipActionView> {
    match progress.recording_active {
        None => Some(ClipActionView::QueryRecording),
        Some(true) => Some(
            ClipActionView::Finish(
                Err("Replay buffer is paused while another recording is active"@),
            ),
        ),
        Some(false) => match progress.settings {
            None => Some(ClipActionView::LoadSettings),
            Some(Err(why)) => Some(ClipActionView::Finish(Err(why@))),
            Some(Ok(_)) => match progress.session_active {
                None => Some(ClipActionView::FindSession),
                Some(false) => Some(ClipActionView::Finish(Err("Replay buffer is not active"@))),
                Some(true) => match progress.snapshot {
                    None => Some(ClipActionView::TakeSnapshot),
                    Some(Err(why)) => Some(ClipActionView::Finish(Err(why@))),
                    Some(Ok(_)) => None,
                },
            },
        },
    }
}

/// How saving ends once the files are handed back: a clip that was written is announced,
/// and whether or not that could be done, the outcome of the writing is the outcome.
pub open spec fn closing_action(
    saved: Result<PathBuf, String>,
    announced: Option<bool>,
) -> ClipActionView {
    match (saved, announced) {
        (Ok(path), None) => ClipActionView::Announce(path),
        _ => ClipActionView::Finish(result_view(saved)),
    }
}

/// What is done with the chosen clip: its files are protected, it is written, and its
/// files are handed back whether or not the writing succeeded.
pub open spec fn writing_action(progress: ClipProgress, clip: SelectionView) -> ClipActionView {
    match (progress.protected, progress.saved, progress.released) {
        (None, _, _) => ClipActionView::Protect(clip.protected_paths),
        (Some(true), None, _) => ClipActionView::Materialize(clip),
        (Some(true), Some(_), None) => ClipActionView::Unprotect(clip.protected_paths),
        (Some(true), Some(saved), Some(true)) => closing_action(saved, progress.announced),
        _ => ClipActionView::Finish(Err("Replay buffer tracker lock poisoned"@)),
    }
}

/// What comes next in saving a clip.
pub open spec fn clip_action(progress: ClipProgress) -> ClipActionView {
    match (preparing_action(progress), chosen_clip(progress)) {
        (Some(action), _) => action,
        (None, None) => ClipActionView::Finish(
            Err("Not enough replay buffer data to save a clip"@),
        ),
        (None, Some(clip)) => writing_action(progress, clip),
    }
}

fn finish_with(message: &str) -> (r: ClipAction)
    ensures
        r@ == ClipActionView::Finish(Err(message@)),
{
    ClipAction::Finish(Err(message.to_owned()))
}

/// Decides what comes next in saving a clip.
pub fn clip_replay_buffer(progress: &ClipProgress) -> (r: ClipAction)
    ensures
        r@ == clip_action(*progress),
{
    match progress.recording_active {
        None => return ClipAction::QueryRecording,
        Some(true) => return finish_with(
            "Replay buffer is paused while another recording is active",
        ),
        Some(false) => {},
    }
    let settings = match &progress.settings {
        None => return ClipAction::LoadSettings,
        Some(Err(why)) => return finish_with(why.as_str()),
        Some(Ok(settings)) => settings,
    };
    match progress.session_active {
        None => return ClipAction::FindSession,
        Some(false) => return finish_with("Replay buffer is not active"),
        Some(true) => {},
    }
    let snapshot = match &progress.snapshot {
        None => return ClipAction::TakeSnapshot,
        Some(Err(why)) => return finish_with(why.as_str()),
        Some(Ok(snapshot)) => snapshot,
    };
    let selection = match select_clip_segments(snapshot, settings.clip_length()) {
        None => return finish_with("Not enough replay buffer data to save a clip"),
        Some(selection) => selection,
    };
    match progress.protected {
        None => return ClipAction::Protect(selection.protected_paths),
        Some(false) => return finish_with("Replay buffer tracker lock poisoned"),
        Some(true) => {},
    }
    let saved = match &progress.saved {
        None => return ClipAction::Materialize(selection),
        Some(saved) => saved,
    };
    match progress.released {
        None => ClipAction::Unprotect(selection.protected_paths),
        Some(false) => finish_with("Replay buffer tracker lock poisoned"),
        Some(true) => match saved {
            Ok(path) => match progress.announced {
                None => ClipAction::Announce(path.clone()),
                Some(_) => ClipAction::Finish(Ok(path.clone())),
            },
            Err(why) => finish_with(why.as_str()),
        },
    }
}

} // verus!
