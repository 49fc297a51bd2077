//! What holds of clips, and of clips and pruning together.

use crate::clip::{
    clip_audio, clip_video, ending_after, indices_of, optional_path, paths_of, selection_of,
    ClipSelection,
};
use crate::segment_laws::{
    is_contiguous, law_prune_keeps_latest_video, law_prune_keeps_protected, law_prune_splits,
    lemma_ends_ascend,
};
use crate::segments::{
    dropped_segments, is_kept, last_end, lemma_dropped_count, protecting, prune_cutoff, pruned,
    recorded, snapshot_of, window_start, SegmentCompletedEvent, SegmentRecord, SegmentSnapshot,
    SnapshotView, TrackerView,
};
use crate::settings::{
    clip_length_of, retention_of, SettingsView, NANOS_PER_SEC, RETENTION_SAFETY_SECS,
    SEGMENT_MARGIN_SECS,
};
use std::path::PathBuf;
use vstd::prelude::*;

verus! {

/// Where the first `k` segments end by `start` and the others after it, filtering
/// leaves the others.
proof fn lemma_ending_after_is_suffix(segments: Seq<SegmentRecord>, start: u64, k: int)
    requires
        0 <= k <= segments.len(),
        forall|i: int| 0 <= i < k ==> (#[trigger] segments[i]).end <= start,
        forall|i: int| k <= i < segments.len() ==> (#[trigger] segments[i]).end > start,
    ensures
        ending_after(segments, start) == segments.skip(k),
    decreases segments.len(),
{
    reveal(Seq::filter);
    if segments.len() > 0 {
        let rest = segments.drop_last();
        if k < segments.len() {
            lemma_ending_after_is_suffix(rest, start, k);
            assert(segments.skip(k) =~= rest.skip(k).push(segments.last()));
        } else {
            lemma_ending_after_is_suffix(rest, start, k - 1);
        }
    }
    assert(segments.len() == 0 ==> segments.skip(k) =~= segments);
}

/// The position of the first segment that ends after `start`.
spec fn first_after(segments: Seq<SegmentRecord>, start: u64) -> int
    decreases segments.len(),
{
    if segments.len() == 0 || segments[0].end > start {
        0
    } else {
        1 + first_after(segments.drop_first(), start)
    }
}

proof fn lemma_first_after(segments: Seq<SegmentRecord>, start: u64)
    requires
        is_contiguous(segments),
    ensures
        ({
            let k = first_after(segments, start);
            &&& 0 <= k <= segments.len()
            &&& forall|i: int| 0 <= i < k ==> (#[trigger] segments[i]).end <= start
            &&& forall|i: int| k <= i < segments.len() ==> (#[trigger] segments[i]).end > start
        }),
    decreases segments.len(),
{
    if segments.len() > 0 {
        if segments[0].end > start {
            assert forall|i: int| 0 <= i < segments.len() implies (#[trigger] segments[i]).end
                > start by {
                lemma_ends_ascend(segments, 0, i);
            }
        } else {
            let rest = segments.drop_first();
            assert forall|i: int, j: int| 0 <= i && j == i + 1 && j < rest.len() implies (
            #[trigger] rest[i]).end == (#[trigger] rest[j]).start by {
                assert(segments[i + 1].end == segments[j + 1].start);
            }
            lemma_first_after(rest, start);
            assert forall|i: int| 0 < i < segments.len() implies #[trigger] segments[i] == rest[i
                - 1] by {}
        }
    }
}

/// A clip is the end of the video timeline. It starts at the beginning of the
/// requested time or before, unless it takes in all the video there is. And it is
/// rounded by no more than its first segment: without that one it would be shorter
/// than requested.
pub proof fn law_clip_rounds_outward(snapshot: SnapshotView, requested: u64)
    requires
        is_contiguous(snapshot.video_segments),
        selection_of(snapshot, requested) is Some,
    ensures
        ({
            let clip = selection_of(snapshot, requested)->0;
            let video = snapshot.video_segments;
            let k = video.len() - clip.video_segments.len();
            &&& 0 <= k < video.len()
            &&& clip.video_segments == video.skip(k)
            &&& clip.video_segments == video || clip.video_segments[0].start <= window_start(
                last_end(video),
                requested,
            )
            &&& last_end(video) - clip.video_segments[0].end < requested
        }),
{
    let video = snapshot.video_segments;
    let start = window_start(last_end(video), requested);
    lemma_first_after(video, start);
    let k = first_after(video, start);
    lemma_ending_after_is_suffix(video, start, k);
    let clip = selection_of(snapshot, requested)->0;
    assert(clip.video_segments == video.skip(k));
    assert(k < video.len());
    assert(clip.video_segments[0] == video[k]);
    lemma_ends_ascend(video, k, video.len() - 1);
    assert(video[k].start <= video[k].end);
    if k > 0 {
        assert(video[k - 1].end == video[k].start);
    } else {
        assert(video.skip(0) =~= video);
    }
}

/// A clip lasts at least as long as requested, or as long as the video reaches back,
/// and its length is never negative.
pub proof fn law_clip_long_enough(snapshot: SnapshotView, requested: u64)
    requires
        is_contiguous(snapshot.video_segments),
        selection_of(snapshot, requested) is Some,
    ensures
        ({
            let clip = selection_of(snapshot, requested)->0;
            let video = snapshot.video_segments;
            &&& clip.duration >= requested || clip.duration >= last_end(video) - video[0].start
            &&& clip.duration >= 0
        }),
{
    law_clip_rounds_outward(snapshot, requested);
    let video = snapshot.video_segments;
    let clip = selection_of(snapshot, requested)->0;
    let k = video.len() - clip.video_segments.len();
    assert(clip.video_segments[0] == video[k]);
    assert(video[k].start <= video[k].end);
    assert(video[0].start <= video[0].end);
    lemma_ends_ascend(video, k, video.len() - 1);
}

/// There is a clip where time was requested, some video was recorded, and its
/// initialisation part is known.
pub proof fn law_clip_exists(snapshot: SnapshotView, requested: u64)
    requires
        is_contiguous(snapshot.video_segments),
    ensures
        selection_of(snapshot, requested) is Some <==> {
            &&& requested > 0
            &&& last_end(snapshot.video_segments) > 0
            &&& snapshot.video_init is Some
        },
{
    let video = snapshot.video_segments;
    let start = window_start(last_end(video), requested);
    lemma_first_after(video, start);
    let k = first_after(video, start);
    lemma_ending_after_is_suffix(video, start, k);
    if video.len() > 0 {
        assert(video.last() == video[video.len() - 1]);
        assert(k < video.len() ==> video[k].end > start);
        if k < video.len() {
            lemma_ends_ascend(video, k, video.len() - 1);
        }
    }
}

/// The audio of a clip has the indices of its video, and the initialisation part of
/// the audio goes along only where there is audio.
pub proof fn law_clip_audio_goes_with_video(snapshot: SnapshotView, requested: u64, i: int)
    requires
        selection_of(snapshot, requested) is Some,
    ensures
        ({
            let clip = selection_of(snapshot, requested)->0;
            &&& clip.audio_init is Some ==> clip.audio_segments.len() > 0
            &&& 0 <= i < clip.audio_segments.len() ==> indices_of(clip.video_segments).contains(
                clip.audio_segments[i].index,
            )
        }),
{
    let clip = selection_of(snapshot, requested)->0;
    let indices = indices_of(clip.video_segments);
    if 0 <= i < clip.audio_segments.len() {
        snapshot.audio_segments.lemma_filter_pred(
            |segment: SegmentRecord| indices.contains(segment.index),
            i,
        );
    }
}

proof fn lemma_filter_subset<A>(s: Seq<A>, pred: spec_fn(A) -> bool, a: A)
    requires
        s.filter(pred).contains(a),
    ensures
        s.contains(a),
        pred(a),
{
    s.lemma_filter_contains_rev(pred, a);
    let i = choose|i: int| 0 <= i < s.filter(pred).len() && s.filter(pred)[i] == a;
    s.lemma_filter_pred(pred, i);
}

proof fn lemma_filter_wider<A>(
    s: Seq<A>,
    narrow: spec_fn(A) -> bool,
    wide: spec_fn(A) -> bool,
    a: A,
)
    requires
        forall|x: A| narrow(x) ==> #[trigger] wide(x),
        s.filter(narrow).contains(a),
    ensures
        s.filter(wide).contains(a),
{
    lemma_filter_subset(s, narrow, a);
    let i = choose|i: int| 0 <= i < s.len() && s[i] == a;
    assert(wide(a));
    s.lemma_filter_contains(wide, i);
}

proof fn lemma_more_indices(less: Seq<SegmentRecord>, more: Seq<SegmentRecord>, index: u32)
    requires
        forall|segment: SegmentRecord| less.contains(segment) ==> #[trigger] more.contains(segment),
        indices_of(less).contains(index),
    ensures
        indices_of(more).contains(index),
{
    let all_less = less.map_values(|segment: SegmentRecord| segment.index);
    let all_more = more.map_values(|segment: SegmentRecord| segment.index);
    let i = choose|i: int| 0 <= i < all_less.len() && all_less[i] == index;
    assert(less.contains(less[i]));
    assert(more.contains(less[i]));
    let j = choose|j: int| 0 <= j < more.len() && more[j] == less[i];
    assert(all_more[j] == index);
}

/// Asking for a longer clip never loses a segment: where there is a clip of the shorter
/// time there is one of the longer time, and it has all the video and all the audio of
/// the other one.
pub proof fn law_longer_clip_loses_nothing(snapshot: SnapshotView, shorter: u64, longer: u64)
    requires
        shorter <= longer,
        selection_of(snapshot, shorter) is Some,
    ensures
        selection_of(snapshot, longer) is Some,
        ({
            let less = selection_of(snapshot, shorter)->0;
            let more = selection_of(snapshot, longer)->0;
            &&& forall|segment: SegmentRecord|
                less.video_segments.contains(segment) ==> #[trigger] more.video_segments.contains(
                    segment,
                )
            &&& forall|segment: SegmentRecord|
                less.audio_segments.contains(segment) ==> #[trigger] more.audio_segments.contains(
                    segment,
                )
            &&& less.audio_init is Some ==> more.audio_init == less.audio_init
        }),
{
    let less = clip_video(snapshot, shorter);
    let more = clip_video(snapshot, longer);
    let late = window_start(last_end(snapshot.video_segments), shorter);
    let early = window_start(last_end(snapshot.video_segments), longer);
    assert forall|segment: SegmentRecord| less.contains(segment) implies #[trigger] more.contains(
        segment,
    ) by {
        lemma_filter_wider(
            snapshot.video_segments,
            |segment: SegmentRecord| segment.end > late,
            |segment: SegmentRecord| segment.end > early,
            segment,
        );
    }
    assert(less.contains(less[0]));
    assert(more.contains(less[0]));
    let narrow = |segment: SegmentRecord| indices_of(less).contains(segment.index);
    let wide = |segment: SegmentRecord| indices_of(more).contains(segment.index);
    assert forall|segment: SegmentRecord| narrow(segment) implies #[trigger] wide(segment) by {
        lemma_more_indices(less, more, segment.index);
    }
    let less_audio = clip_audio(snapshot, shorter);
    let more_audio = clip_audio(snapshot, longer);
    assert forall|segment: SegmentRecord| less_audio.contains(segment) implies
        #[trigger] more_audio.contains(segment) by {
        lemma_filter_wider(snapshot.audio_segments, narrow, wide, segment);
    }
    if less_audio.len() > 0 {
        assert(less_audio.contains(less_audio[0]));
        assert(more_audio.contains(less_audio[0]));
    }
}

/// A clip of a longer time is never shorter, where the video timeline has no gaps.
pub proof fn law_longer_clip_lasts_longer(snapshot: SnapshotView, shorter: u64, longer: u64)
    requires
        shorter <= longer,
        is_contiguous(snapshot.video_segments),
        selection_of(snapshot, shorter) is Some,
    ensures
        selection_of(snapshot, longer) is Some,
        selection_of(snapshot, shorter)->0.duration <= selection_of(snapshot, longer)->0.duration,
{
    law_longer_clip_loses_nothing(snapshot, shorter, longer);
    let video = snapshot.video_segments;
    let late = window_start(last_end(video), shorter);
    let early = window_start(last_end(video), longer);
    lemma_first_after(video, late);
    lemma_first_after(video, early);
    let m = first_after(video, late);
    let n = first_after(video, early);
    lemma_ending_after_is_suffix(video, late, m);
    lemma_ending_after_is_suffix(video, early, n);
    if m < n {
        assert(video[m].end <= early);
    }
    if n < m {
        lemma_ends_ascend(video, n, m - 1);
        assert(video[m - 1].end == video[m].start);
        assert(video[n].start <= video[n].end);
    }
}

/// A clip is made of segments of the snapshot, and all its files are to be protected.
pub proof fn law_clip_protects_its_files(
    snapshot: SnapshotView,
    requested: u64,
    segment: SegmentRecord,
)
    requires
        selection_of(snapshot, requested) is Some,
    ensures
        ({
            let clip = selection_of(snapshot, requested)->0;
            &&& clip.protected_paths.contains(clip.video_init)
            &&& clip.audio_init matches Some(path) ==> clip.protected_paths.contains(path)
            &&& clip.video_segments.contains(segment) ==> {
                &&& snapshot.video_segments.contains(segment)
                &&& clip.protected_paths.contains(segment.path)
            }
            &&& clip.audio_segments.contains(segment) ==> {
                &&& snapshot.audio_segments.contains(segment)
                &&& clip.protected_paths.contains(segment.path)
            }
        }),
{
    let clip = selection_of(snapshot, requested)->0;
    let inits = seq![clip.video_init] + optional_path(clip.audio_init);
    let video = paths_of(clip.video_segments);
    let audio = paths_of(clip.audio_segments);
    assert(clip.protected_paths[0] == clip.video_init);
    if let Some(path) = clip.audio_init {
        assert(clip.protected_paths[1] == path);
    }
    if clip.video_segments.contains(segment) {
        lemma_filter_subset(
            snapshot.video_segments,
            |segment: SegmentRecord| segment.end > window_start(
                last_end(snapshot.video_segments),
                requested,
            ),
            segment,
        );
        let i = choose|i: int|
            0 <= i < clip.video_segments.len() && clip.video_segments[i] == segment;
        assert(clip.protected_paths[inits.len() + i] == segment.path);
    }
    if clip.audio_segments.contains(segment) {
        let indices = indices_of(clip.video_segments);
        lemma_filter_subset(
            snapshot.audio_segments,
            |segment: SegmentRecord| indices.contains(segment.index),
            segment,
        );
        let i = choose|i: int|
            0 <= i < clip.audio_segments.len() && clip.audio_segments[i] == segment;
        assert(clip.protected_paths[inits.len() + video.len() + i] == segment.path);
    }
}

/// Pruning takes away no video that a clip needs, where at least the length of the
/// clip is retained.
pub proof fn law_prune_keeps_clip_video(tracker: TrackerView, retain: u64, requested: u64)
    requires
        requested <= retain,
    ensures
        clip_video(snapshot_of(pruned(tracker, retain)), requested) == clip_video(
            snapshot_of(tracker),
            requested,
        ),
{
    let cutoff = prune_cutoff(tracker, retain);
    let protected = tracker.protected_paths;
    let dropped = dropped_segments(tracker.video_segments, cutoff, protected);
    let after = pruned(tracker, retain);
    let start = window_start(last_end(tracker.video_segments), requested);
    let pred = |segment: SegmentRecord| segment.end > start;
    law_prune_splits(tracker, retain);
    law_prune_keeps_latest_video(tracker, retain);
    lemma_dropped_count(tracker.video_segments, cutoff, protected);
    assert forall|i: int| 0 <= i < dropped.len() implies !pred(#[trigger] dropped[i]) by {
        assert(!is_kept(tracker.video_segments[i], cutoff, protected));
    }
    dropped.lemma_all_neg_filter_empty(pred);
    Seq::filter_distributes_over_add(dropped, after.video_segments, pred);
    assert(dropped.filter(pred) + after.video_segments.filter(pred)
        =~= after.video_segments.filter(pred));
}

/// No audio segment ends more than `slack` nanoseconds before the video segment of the
/// same index.
pub open spec fn audio_lags_by_at_most(tracker: TrackerView, slack: int) -> bool {
    forall|i: int, j: int|
        0 <= i < tracker.audio_segments.len() && 0 <= j < tracker.video_segments.len() && (
        #[trigger] tracker.audio_segments[i]).index == (
        #[trigger] tracker.video_segments[j]).index ==> tracker.video_segments[j].end
            <= tracker.audio_segments[i].end + slack
}

/// Pruning leaves a clip as it was, where at least the length of the clip is retained
/// and the audio lags behind the video by no more than is retained beyond it.
pub proof fn law_prune_keeps_clip(tracker: TrackerView, retain: u64, requested: u64)
    requires
        requested <= retain,
        audio_lags_by_at_most(tracker, retain - requested),
    ensures
        selection_of(snapshot_of(pruned(tracker, retain)), requested) == selection_of(
            snapshot_of(tracker),
            requested,
        ),
{
    law_prune_keeps_clip_video(tracker, retain, requested);
    law_prune_keeps_latest_video(tracker, retain);
    law_prune_splits(tracker, retain);
    let cutoff = prune_cutoff(tracker, retain);
    let protected = tracker.protected_paths;
    let start = window_start(last_end(tracker.video_segments), requested);
    let video = clip_video(snapshot_of(tracker), requested);
    let indices = indices_of(video);
    let dropped = dropped_segments(tracker.audio_segments, cutoff, protected);
    let after = pruned(tracker, retain);
    let pred = |segment: SegmentRecord| indices.contains(segment.index);
    lemma_dropped_count(tracker.audio_segments, cutoff, protected);
    assert forall|i: int| 0 <= i < dropped.len() implies !pred(#[trigger] dropped[i]) by {
        assert(!is_kept(tracker.audio_segments[i], cutoff, protected));
        assert(dropped[i] == tracker.audio_segments[i]);
        if indices.contains(dropped[i].index) {
            let all = video.map_values(|segment: SegmentRecord| segment.index);
            let m = choose|m: int| 0 <= m < all.len() && all[m] == dropped[i].index;
            assert(video.contains(video[m]));
            lemma_filter_subset(
                tracker.video_segments,
                |segment: SegmentRecord| segment.end > start,
                video[m],
            );
            let j = choose|j: int|
                0 <= j < tracker.video_segments.len() && tracker.video_segments[j] == video[m];
            assert(tracker.audio_segments[i].index == tracker.video_segments[j].index);
        }
    }
    dropped.lemma_all_neg_filter_empty(pred);
    Seq::filter_distributes_over_add(dropped, after.audio_segments, pred);
    assert(dropped.filter(pred) + after.audio_segments.filter(pred)
        =~= after.audio_segments.filter(pred));
}

/// Pruning by the settings leaves the clip of these settings as it was, where the
/// audio lags behind the video by no more than the safety and the margin.
pub proof fn law_retention_suffices(tracker: TrackerView, settings: SettingsView)
    requires
        audio_lags_by_at_most(
            tracker,
            (RETENTION_SAFETY_SECS + SEGMENT_MARGIN_SECS) * NANOS_PER_SEC,
        ),
    ensures
        selection_of(
            snapshot_of(pruned(tracker, retention_of(settings))),
            clip_length_of(settings),
        ) == selection_of(snapshot_of(tracker), clip_length_of(settings)),
{
    law_prune_keeps_clip(tracker, retention_of(settings), clip_length_of(settings));
}

/// What happens to the tracker of a session while a clip of it is being saved.
pub ghost enum TrackerStep {
    Record(SegmentCompletedEvent),
    Prune(u64),
}

/// The tracker after some steps.
pub open spec fn after_steps(tracker: TrackerView, steps: Seq<TrackerStep>) -> TrackerView
    decreases steps.len(),
{
    if steps.len() == 0 {
        tracker
    } else {
        let before = after_steps(tracker, steps.drop_last());
        match steps.last() {
            TrackerStep::Record(event) => recorded(before, event),
            TrackerStep::Prune(retain) => pruned(before, retain),
        }
    }
}

proof fn lemma_protected_survive_steps(
    tracker: TrackerView,
    steps: Seq<TrackerStep>,
    segment: SegmentRecord,
)
    requires
        tracker.protected_paths.contains(segment.path),
    ensures
        after_steps(tracker, steps).protected_paths == tracker.protected_paths,
        tracker.video_segments.contains(segment) ==> after_steps(
            tracker,
            steps,
        ).video_segments.contains(segment),
        tracker.audio_segments.contains(segment) ==> after_steps(
            tracker,
            steps,
        ).audio_segments.contains(segment),
    decreases steps.len(),
{
    if steps.len() > 0 {
        lemma_protected_survive_steps(tracker, steps.drop_last(), segment);
        let before = after_steps(tracker, steps.drop_last());
        match steps.last() {
            TrackerStep::Record(event) => {
                let after = recorded(before, event);
                if before.video_segments.contains(segment) {
                    let i = choose|i: int|
                        0 <= i < before.video_segments.len() && before.video_segments[i]
                            == segment;
                    assert(after.video_segments[i] == segment);
                }
                if before.audio_segments.contains(segment) {
                    let i = choose|i: int|
                        0 <= i < before.audio_segments.len() && before.audio_segments[i]
                            == segment;
                    assert(after.audio_segments[i] == segment);
                }
            },
            TrackerStep::Prune(retain) => {
                law_prune_keeps_protected(before, retain, segment);
            },
        }
    }
}

/// Once the files of a clip are protected, no recording and no pruning takes a segment
/// of the clip away.
pub proof fn law_protected_clip_survives(
    tracker: TrackerView,
    requested: u64,
    steps: Seq<TrackerStep>,
    segment: SegmentRecord,
)
    requires
        selection_of(snapshot_of(tracker), requested) is Some,
    ensures
        ({
            let clip = selection_of(snapshot_of(tracker), requested)->0;
            let after = after_steps(protecting(tracker, clip.protected_paths), steps);
            &&& clip.video_segments.contains(segment) ==> after.video_segments.contains(segment)
            &&& clip.audio_segments.contains(segment) ==> after.audio_segments.contains(segment)
        }),
{
    let clip = selection_of(snapshot_of(tracker), requested)->0;
    law_clip_protects_its_files(snapshot_of(tracker), requested, segment);
    if clip.video_segments.contains(segment) || clip.audio_segments.contains(segment) {
        lemma_protected_survive_steps(
            protecting(tracker, clip.protected_paths),
            steps,
            segment,
        );
    }
}

/// Whether a segment reaches into the last `length` nanoseconds before `latest`.
pub open spec fn reaches_into(segment: SegmentRecord, latest: u64, length: int) -> bool {
    segment.end > 0 && segment.end + length > latest
}

/// Whether some of the segments has the index.
pub open spec fn has_index(segments: Seq<SegmentRecord>, index: u32) -> bool {
    exists|i: int| 0 <= i < segments.len() && (#[trigger] segments[i]).index == index
}

/// The files of a clip in the order in which they are protected: the initialisation
/// parts, the video, the audio.
pub open spec fn lists_files_of(paths: Seq<PathBuf>, clip: ClipSelection) -> bool {
    let inits: int = if clip.audio_init is Some {
        2
    } else {
        1
    };
    let video = clip.video_segments@;
    let audio = clip.audio_segments@;
    &&& paths.len() == inits + video.len() + audio.len()
    &&& paths[0] == clip.video_init
    &&& clip.audio_init matches Some(path) ==> paths[1] == path
    &&& forall|i: int| 0 <= i < video.len() ==> paths[inits + i] == (#[trigger] video[i]).path
    &&& forall|i: int|
        0 <= i < audio.len() ==> paths[inits + video.len() + i] == (#[trigger] audio[i]).path
}

/// Whether `clip` is the clip of the last `length` nanoseconds of a snapshot: its video
/// is all the video that reaches into that time, its audio all the audio that was
/// recorded along with this video, in their order. It lasts from the start of its first
/// video segment to the end of the video. The initialisation parts are those of the
/// snapshot, the one of the audio where there is audio.
pub open spec fn is_last_of(
    clip: ClipSelection,
    snapshot: SegmentSnapshot,
    length: int,
) -> bool {
    let latest = snapshot.video_segments@.last().end;
    let video = clip.video_segments@;
    let audio = clip.audio_segments@;
    &&& video == snapshot.video_segments@.filter(
        |segment: SegmentRecord| reaches_into(segment, latest, length),
    )
    &&& audio == snapshot.audio_segments@.filter(
        |segment: SegmentRecord| has_index(video, segment.index),
    )
    &&& video.len() > 0
    &&& clip.duration == latest - video[0].start
    &&& Some(clip.video_init) == snapshot.video_init
    &&& clip.audio_init == if audio.len() > 0 {
        snapshot.audio_init
    } else {
        None
    }
    &&& lists_files_of(clip.protected_paths@, clip)
}

proof fn lemma_indices(segments: Seq<SegmentRecord>, index: u32)
    ensures
        indices_of(segments).contains(index) <==> has_index(segments, index),
{
    let all = segments.map_values(|segment: SegmentRecord| segment.index);
    if indices_of(segments).contains(index) {
        let i = choose|i: int| 0 <= i < all.len() && all[i] == index;
        assert(segments[i].index == index);
    }
    if has_index(segments, index) {
        let i = choose|i: int| 0 <= i < segments.len() && (#[trigger] segments[i]).index == index;
        assert(all[i] == index);
    }
}

/// A clip that is selected is the clip of the time that was asked for.
pub proof fn law_clip_is_the_last_of_the_snapshot(
    snapshot: SegmentSnapshot,
    requested: u64,
    clip: ClipSelection,
)
    requires
        selection_of(snapshot@, requested) == Some(clip@),
    ensures
        is_last_of(clip, snapshot, requested as int),
{
    let all_video = snapshot.video_segments@;
    let start = window_start(last_end(all_video), requested);
    let latest = all_video.last().end;
    let video = clip.video_segments@;
    let late = |segment: SegmentRecord| segment.end > start;
    let reaching = |segment: SegmentRecord| reaches_into(segment, latest, requested as int);
    all_video.lemma_filter_len(late);
    assert(late =~= reaching);
    let listed = |segment: SegmentRecord| indices_of(video).contains(segment.index);
    let indexed = |segment: SegmentRecord| has_index(video, segment.index);
    assert forall|segment: SegmentRecord| #[trigger] listed(segment) == indexed(segment) by {
        lemma_indices(video, segment.index);
    }
    assert(listed =~= indexed);
}

/// There is a clip exactly where the initialisation part of the video is known and some
/// video reaches into the time that was asked for.
pub proof fn law_clip_exists_where_video_does(snapshot: SegmentSnapshot, requested: u64)
    ensures
        selection_of(snapshot@, requested) is Some <==> {
            &&& snapshot.video_init is Some
            &&& exists|i: int|
                0 <= i < snapshot.video_segments@.len() && reaches_into(
                    #[trigger] snapshot.video_segments@[i],
                    snapshot.video_segments@.last().end,
                    requested as int,
                )
        },
{
    let video = snapshot.video_segments@;
    let start = window_start(last_end(video), requested);
    let late = |segment: SegmentRecord| segment.end > start;
    let chosen = video.filter(late);
    if chosen.len() > 0 {
        assert(chosen.contains(chosen[0]));
        lemma_filter_subset(video, late, chosen[0]);
        let i = choose|i: int| 0 <= i < video.len() && video[i] == chosen[0];
        assert(reaches_into(video[i], video.last().end, requested as int));
    }
    if exists|i: int|
        0 <= i < video.len() && reaches_into(
            #[trigger] video[i],
            video.last().end,
            requested as int,
        ) {
        let i = choose|i: int|
            0 <= i < video.len() && reaches_into(
                #[trigger] video[i],
                video.last().end,
                requested as int,
            );
        video.lemma_filter_contains(late, i);
    }
}

/// The lengths of some segments together.
pub open spec fn total_length(segments: Seq<SegmentRecord>) -> int
    decreases segments.len(),
{
    if segments.len() == 0 {
        0
    } else {
        total_length(segments.drop_last()) + (segments.last().end - segments.last().start)
    }
}

proof fn lemma_total_length(segments: Seq<SegmentRecord>)
    requires
        is_contiguous(segments),
        segments.len() > 0,
    ensures
        total_length(segments) == segments.last().end - segments[0].start,
    decreases segments.len(),
{
    let rest = segments.drop_last();
    if rest.len() > 0 {
        let n = rest.len() as int;
        assert(segments[n - 1].end == segments[n].start);
        assert forall|i: int, j: int| 0 <= i && j == i + 1 && j < rest.len() implies (
        #[trigger] rest[i]).end == (#[trigger] rest[j]).start by {
            assert(segments[i].end == segments[j].start);
        }
        lemma_total_length(rest);
    } else {
        assert(total_length(rest) == 0);
    }
}

/// A clip lasts from the start of its first video segment to the end of its last one,
/// with or without audio, where time was asked for and the video has any. Where the
/// video has no gaps, the clip lasts as long as its video segments together.
pub proof fn law_clip_lasts_as_long_as_its_video(
    snapshot: SegmentSnapshot,
    requested: u64,
    clip: ClipSelection,
)
    requires
        selection_of(snapshot@, requested) == Some(clip@),
    ensures
        requested > 0 && snapshot.video_segments@.last().end > 0 ==> clip.duration
            == clip.video_segments@.last().end - clip.video_segments@[0].start,
        is_contiguous(snapshot.video_segments@) ==> {
            &&& clip.duration == clip.video_segments@.last().end - clip.video_segments@[0].start
            &&& clip.duration == total_length(clip.video_segments@)
        },
{
    let video = snapshot.video_segments@;
    law_clip_is_the_last_of_the_snapshot(snapshot, requested, clip);
    if is_contiguous(video) {
        law_clip_exists(snapshot@, requested);
        law_clip_rounds_outward(snapshot@, requested);
        let k = video.len() - clip.video_segments@.len();
        let chosen = clip.video_segments@;
        assert(chosen == video.skip(k));
        assert forall|i: int, j: int| 0 <= i && j == i + 1 && j < chosen.len() implies (
        #[trigger] chosen[i]).end == (#[trigger] chosen[j]).start by {
            assert(video[i + k].end == video[j + k].start);
        }
        assert forall|i: int| 0 <= i < chosen.len() implies (#[trigger] chosen[i]).start
            <= chosen[i].end by {
            assert(video[i + k].start <= video[i + k].end);
        }
        lemma_total_length(chosen);
    }
    if requested > 0 && video.last().end > 0 {
        reveal(Seq::filter);
        let latest = video.last().end;
        let reaching = |segment: SegmentRecord| reaches_into(segment, latest, requested as int);
        assert(video.len() > 0) by {
            video.lemma_filter_len(reaching);
        }
        assert(reaching(video.last()));
        assert(video.filter(reaching).last() == video.last());
    }
}

/// The files of some segments are their files, in their order.
pub proof fn law_segment_paths(segments: Seq<SegmentRecord>)
    ensures
        paths_of(segments).len() == segments.len(),
        forall|i: int|
            0 <= i < segments.len() ==> #[trigger] paths_of(segments)[i] == segments[i].path,
{
}

} // verus!
