//! What holds of saving a clip from the request to the end.

use crate::clip::selection_of;
use crate::clip_laws::{
    after_steps, is_last_of, law_clip_exists_where_video_does,
    law_clip_is_the_last_of_the_snapshot, law_clip_rounds_outward, reaches_into, TrackerStep,
};
use crate::saving::{
    chosen_clip, clip_action, has_moved_on, wait_action, ClipAction, ClipActionView, ClipProgress,
    WaitAction, WaitStage,
};
use crate::segment_laws::{is_contiguous, law_prune_keeps_latest_video};
use crate::segments::{last_end, latest_end_of, SegmentSnapshot, TrackerView};
use crate::settings::{clip_length_of, ReplayBufferSettings};
use std::path::PathBuf;
use vstd::prelude::*;

verus! {

/// While another recording is running no clip is saved, whatever else is known.
pub proof fn law_recording_blocks_clips(progress: ClipProgress)
    requires
        progress.recording_active == Some(true),
    ensures
        clip_action(progress) == ClipActionView::Finish(
            Err("Replay buffer is paused while another recording is active"@),
        ),
{
}

/// A clip is reported as saved at a path only where nothing failed on the way and it
/// was written there.
pub proof fn law_saved_means_nothing_failed(progress: ClipProgress, path: PathBuf)
    ensures
        clip_action(progress) == ClipActionView::Finish(Ok(path)) <==> {
            &&& progress.recording_active == Some(false)
            &&& progress.settings matches Some(Ok(_))
            &&& progress.session_active == Some(true)
            &&& progress.snapshot matches Some(Ok(_))
            &&& chosen_clip(progress) is Some
            &&& progress.protected == Some(true)
            &&& progress.saved matches Some(Ok(saved)) && saved == path
            &&& progress.released == Some(true)
            &&& progress.announced is Some
        },
{
}

/// The files that were protected are the files of the clip that is written, and they
/// are handed back afterwards, whether or not the writing succeeded; only then the clip
/// is announced or the failure reported.
pub proof fn law_protection_brackets_writing(
    progress: ClipProgress,
    paths: Seq<PathBuf>,
    saved: Result<PathBuf, String>,
)
    requires
        clip_action(progress) == ClipActionView::Protect(paths),
    ensures
        ({
            let writing = ClipProgress {
                protected: Some(true),
                saved: None,
                released: None,
                announced: None,
                ..progress
            };
            let written = ClipProgress { saved: Some(saved), ..writing };
            let released = ClipProgress { released: Some(true), ..written };
            &&& clip_action(writing) matches ClipActionView::Materialize(clip)
                && clip.protected_paths == paths
            &&& clip_action(written) == ClipActionView::Unprotect(paths)
            &&& clip_action(released) == (match saved {
                Ok(path) => ClipActionView::Announce(path),
                Err(why) => ClipActionView::Finish(Err(why@)),
            })
        }),
{
}

/// A clip is announced exactly where it was written, its files are handed back, and it
/// was not announced before: once on success, at the path that is the result, and never
/// on failure.
pub proof fn law_announced_once_on_success(progress: ClipProgress, path: PathBuf)
    ensures
        clip_action(progress) == ClipActionView::Announce(path) <==> {
            &&& progress.announced is None
            &&& clip_action(ClipProgress { announced: Some(true), ..progress })
                == ClipActionView::Finish(Ok(path))
        },
{
}

/// An announcement that fails does not make the saving fail.
pub proof fn law_failed_announcement_is_ignored(progress: ClipProgress)
    ensures
        clip_action(ClipProgress { announced: Some(false), ..progress }) == clip_action(
            ClipProgress { announced: Some(true), ..progress },
        ),
{
}

/// An action always asks what is not known yet, so saving a clip takes at most as many
/// actions as there are questions, and then it ends.
pub proof fn law_saving_ends(progress: ClipProgress)
    ensures
        match clip_action(progress) {
            ClipActionView::QueryRecording => progress.recording_active is None,
            ClipActionView::LoadSettings => progress.settings is None,
            ClipActionView::FindSession => progress.session_active is None,
            ClipActionView::TakeSnapshot => progress.snapshot is None,
            ClipActionView::Protect(_) => progress.protected is None,
            ClipActionView::Materialize(_) => progress.saved is None,
            ClipActionView::Unprotect(_) => progress.released is None,
            ClipActionView::Announce(_) => progress.announced is None,
            ClipActionView::Finish(_) => true,
        },
{
}

/// The video of a session never ends earlier than it did, whatever is recorded and
/// pruned.
pub proof fn law_video_end_never_goes_back(tracker: TrackerView, steps: Seq<TrackerStep>)
    ensures
        last_end(after_steps(tracker, steps).video_segments) >= last_end(tracker.video_segments),
        tracker.video_segments.len() > 0 ==> after_steps(tracker, steps).video_segments.len() > 0,
    decreases steps.len(),
{
    if steps.len() > 0 {
        law_video_end_never_goes_back(tracker, steps.drop_last());
        if let TrackerStep::Prune(retain) = steps.last() {
            law_prune_keeps_latest_video(after_steps(tracker, steps.drop_last()), retain);
        }
    }
}

/// A clip for which the video has moved on while it was waited for ends later than the
/// video did at the first look.
pub proof fn law_waiting_gains_video(tracker: TrackerView, steps: Seq<TrackerStep>)
    requires
        has_moved_on(
            latest_end_of(tracker.video_segments),
            latest_end_of(after_steps(tracker, steps).video_segments),
        ),
    ensures
        tracker.video_segments.len() == 0 || last_end(after_steps(tracker, steps).video_segments)
            > last_end(tracker.video_segments),
{
    law_video_end_never_goes_back(tracker, steps);
}

/// The length that the settings give to a clip, in nanoseconds.
pub open spec fn asked_length(settings: ReplayBufferSettings) -> int {
    settings.clip_duration_secs * 1_000_000_000
}

/// The clip that is written is the clip of as many seconds as the settings say, at the
/// end of the snapshot that was taken. Where the video has no gaps, the clip starts with
/// a segment that ends within these seconds.
pub proof fn law_saved_clip_is_the_last_seconds(
    progress: ClipProgress,
    settings: ReplayBufferSettings,
    snapshot: SegmentSnapshot,
    action: ClipAction,
)
    requires
        progress.settings == Some(Ok::<ReplayBufferSettings, String>(settings)),
        progress.snapshot == Some(Ok::<SegmentSnapshot, String>(snapshot)),
        action@ == clip_action(progress),
    ensures
        action matches ClipAction::Materialize(clip) ==> {
            &&& is_last_of(clip, snapshot, asked_length(settings))
            &&& is_contiguous(snapshot.video_segments@) ==> snapshot.video_segments@.last().end
                - clip.video_segments@[0].end < asked_length(settings)
        },
{
    if let ClipAction::Materialize(clip) = action {
        let requested = clip_length_of(settings@);
        assert(requested == asked_length(settings));
        assert(selection_of(snapshot@, requested) == Some(clip@));
        law_clip_is_the_last_of_the_snapshot(snapshot, requested, clip);
        if is_contiguous(snapshot.video_segments@) {
            law_clip_rounds_outward(snapshot@, requested);
        }
    }
}

/// The files that are protected before a clip is written and handed back afterwards are
/// the files of that clip.
pub proof fn law_protected_files_are_those_of_the_clip(
    progress: ClipProgress,
    saved: Result<PathBuf, String>,
    first: ClipAction,
    second: ClipAction,
    third: ClipAction,
)
    requires
        first@ == clip_action(progress),
        first is Protect,
        second@ == clip_action(
            ClipProgress { protected: Some(true), saved: None, ..progress },
        ),
        third@ == clip_action(
            ClipProgress {
                protected: Some(true),
                saved: Some(saved),
                released: None,
                ..progress
            },
        ),
    ensures
        second matches ClipAction::Materialize(clip) && {
            &&& first matches ClipAction::Protect(paths) && paths@ == clip.protected_paths@
            &&& third matches ClipAction::Unprotect(paths) && paths@ == clip.protected_paths@
        },
{
}

/// Whether a clip can be chosen: the initialisation part of the video is known, and some
/// video reaches into the time that the settings ask for.
pub open spec fn has_clip(settings: ReplayBufferSettings, snapshot: SegmentSnapshot) -> bool {
    &&& snapshot.video_init is Some
    &&& exists|i: int|
        0 <= i < snapshot.video_segments@.len() && reaches_into(
            #[trigger] snapshot.video_segments@[i],
            snapshot.video_segments@.last().end,
            asked_length(settings),
        )
}

/// Whether all is known that a clip is chosen from.
pub open spec fn is_prepared(progress: ClipProgress) -> bool {
    &&& progress.recording_active == Some(false)
    &&& progress.settings matches Some(Ok(_))
    &&& progress.session_active == Some(true)
    &&& progress.snapshot matches Some(Ok(_))
}

/// Whether all is known that a clip is chosen from, and one can be chosen.
pub open spec fn can_choose(progress: ClipProgress) -> bool {
    &&& is_prepared(progress)
    &&& has_clip(progress.settings->0->Ok_0, progress.snapshot->0->Ok_0)
}

proof fn lemma_chosen_clip(progress: ClipProgress)
    requires
        is_prepared(progress),
    ensures
        chosen_clip(progress) is Some <==> can_choose(progress),
{
    let settings = progress.settings->0->Ok_0;
    let snapshot = progress.snapshot->0->Ok_0;
    assert(clip_length_of(settings@) == asked_length(settings));
    law_clip_exists_where_video_does(snapshot, clip_length_of(settings@));
}

/// Saving asks its questions in their order: whether another recording is running, the
/// settings, the session, the snapshot.
pub proof fn law_questions_come_in_order(progress: ClipProgress, action: ClipAction)
    requires
        action@ == clip_action(progress),
    ensures
        action is QueryRecording <==> progress.recording_active is None,
        action is LoadSettings <==> {
            &&& progress.recording_active == Some(false)
            &&& progress.settings is None
        },
        action is FindSession <==> {
            &&& progress.recording_active == Some(false)
            &&& progress.settings matches Some(Ok(_))
            &&& progress.session_active is None
        },
        action is TakeSnapshot <==> {
            &&& progress.recording_active == Some(false)
            &&& progress.settings matches Some(Ok(_))
            &&& progress.session_active == Some(true)
            &&& progress.snapshot is None
        },
{
}

/// Where a clip can be chosen, its files are protected, then it is written, then its
/// files are handed back, then it is announced if it was written, and saving ends with
/// the path where it was written. None of this happens otherwise.
pub proof fn law_clip_is_written_in_order(progress: ClipProgress, action: ClipAction)
    requires
        action@ == clip_action(progress),
    ensures
        action is Protect <==> can_choose(progress) && progress.protected is None,
        action is Materialize <==> {
            &&& can_choose(progress)
            &&& progress.protected == Some(true)
            &&& progress.saved is None
        },
        action is Unprotect <==> {
            &&& can_choose(progress)
            &&& progress.protected == Some(true)
            &&& progress.saved is Some
            &&& progress.released is None
        },
        action is Announce <==> {
            &&& can_choose(progress)
            &&& progress.protected == Some(true)
            &&& progress.saved matches Some(Ok(_))
            &&& progress.released == Some(true)
            &&& progress.announced is None
        },
        action matches ClipAction::Announce(path) ==> progress.saved == Some(
            Ok::<PathBuf, String>(path),
        ),
        (action matches ClipAction::Finish(result) && result is Ok) <==> {
            &&& can_choose(progress)
            &&& progress.protected == Some(true)
            &&& progress.saved matches Some(Ok(_))
            &&& progress.released == Some(true)
            &&& progress.announced is Some
        },
        action matches ClipAction::Finish(Ok(path)) ==> progress.saved == Some(
            Ok::<PathBuf, String>(path),
        ),
{
    if is_prepared(progress) {
        lemma_chosen_clip(progress);
    }
}

/// Whether saving ends with this error.
pub open spec fn fails_with(action: ClipAction, message: Seq<char>) -> bool {
    action matches ClipAction::Finish(Err(text)) && text@ == message
}

/// Each thing that can go wrong ends the saving with a report of its own, and the reason
/// that was given for it is passed on as it is.
pub proof fn law_failures_are_reported(progress: ClipProgress, action: ClipAction)
    requires
        action@ == clip_action(progress),
    ensures
        progress.recording_active == Some(true) ==> fails_with(
            action,
            "Replay buffer is paused while another recording is active"@,
        ),
        progress.recording_active == Some(false) ==> {
            &&& progress.settings matches Some(Err(why)) ==> fails_with(action, why@)
            &&& progress.settings matches Some(Ok(_)) ==> {
                &&& progress.session_active == Some(false) ==> fails_with(
                    action,
                    "Replay buffer is not active"@,
                )
                &&& progress.session_active == Some(true) ==> (progress.snapshot matches Some(
                    Err(why),
                ) ==> fails_with(action, why@))
            }
        },
        is_prepared(progress) && !can_choose(progress) ==> fails_with(
            action,
            "Not enough replay buffer data to save a clip"@,
        ),
        can_choose(progress) ==> {
            &&& progress.protected == Some(false) ==> fails_with(
                action,
                "Replay buffer tracker lock poisoned"@,
            )
            &&& progress.protected == Some(true) ==> (progress.saved matches Some(saved) ==> {
                &&& progress.released == Some(false) ==> fails_with(
                    action,
                    "Replay buffer tracker lock poisoned"@,
                )
                &&& progress.released == Some(true) ==> (saved matches Err(why) ==> fails_with(
                    action,
                    why@,
                ))
            })
        },
{
    if is_prepared(progress) {
        lemma_chosen_clip(progress);
    }
}

/// The end of the video in a snapshot, if there is any.
pub open spec fn video_end(snapshot: SegmentSnapshot) -> Option<u64> {
    if snapshot.video_segments@.len() == 0 {
        None
    } else {
        Some(snapshot.video_segments@.last().end)
    }
}

/// The first look at the tracker only notes where the video ends. From then on the
/// snapshot of a look is taken, as it is, where it has video that ends elsewhere than
/// noted, or where the wait has lasted 2.2 seconds; else there is another look a tenth
/// of a second later. A poisoned lock ends the wait.
pub proof fn law_wait_for_new_video(
    stage: WaitStage,
    snapshot: Option<SegmentSnapshot>,
    waited_millis: u64,
    action: WaitAction,
)
    requires
        action@ == wait_action(stage, snapshot, waited_millis),
    ensures
        match (snapshot, stage) {
            (None, _) => action matches WaitAction::Failed(message) && message@
                == "Replay buffer tracker lock poisoned"@,
            (Some(taken), WaitStage::Initial) => action matches WaitAction::LookAgain(next) && (
            next matches WaitStage::Polling { initial_latest } && initial_latest == video_end(
                taken,
            )),
            (Some(taken), WaitStage::Polling { initial_latest }) => {
                let has_new_video = video_end(taken) is Some && video_end(taken)
                    != initial_latest;
                if has_new_video || waited_millis >= 2200 {
                    action == WaitAction::Ready(taken)
                } else {
                    action == WaitAction::Sleep(100)
                }
            },
        },
{
}

} // verus!
