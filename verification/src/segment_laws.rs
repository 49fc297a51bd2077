//! What holds of a tracker across its operations.

use crate::segments::{
    counted_duration, dropped_count, dropped_segments, empty_tracker, following_record, is_kept,
    kept_segments, last_end, lemma_dropped_count, lemma_dropped_count_unique, protecting,
    prune_cutoff, pruned, pruned_away, recorded, saturated, snapshot_of, unprotecting,
    window_start, SegmentCompletedEvent, SegmentMediaType, SegmentRecord, SegmentSnapshot,
    SegmentTracker, TrackerView,
};
use std::path::PathBuf;
use vstd::prelude::*;

verus! {

/// Segments that follow each other without a gap.
pub open spec fn is_contiguous(segments: Seq<SegmentRecord>) -> bool {
    &&& forall|i: int| 0 <= i < segments.len() ==> (#[trigger] segments[i]).start <= segments[i].end
    &&& forall|i: int, j: int|
        0 <= i && j == i + 1 && j < segments.len() ==> (#[trigger] segments[i]).end == (
        #[trigger] segments[j]).start
}

/// Both timelines of the tracker are without gaps.
pub open spec fn has_contiguous_timelines(tracker: TrackerView) -> bool {
    is_contiguous(tracker.video_segments) && is_contiguous(tracker.audio_segments)
}

/// Without gaps, a later segment never ends earlier.
pub proof fn lemma_ends_ascend(segments: Seq<SegmentRecord>, i: int, j: int)
    requires
        is_contiguous(segments),
        0 <= i <= j < segments.len(),
    ensures
        segments[i].end <= segments[j].end,
    decreases j - i,
{
    if i < j {
        lemma_ends_ascend(segments, i, j - 1);
        assert(segments[j - 1].end == segments[j].start);
        assert(segments[j].start <= segments[j].end);
    }
}

proof fn lemma_push_contiguous(segments: Seq<SegmentRecord>, event: SegmentCompletedEvent)
    requires
        is_contiguous(segments),
    ensures
        is_contiguous(segments.push(following_record(segments, event))),
{
    let record = following_record(segments, event);
    let after = segments.push(record);
    assert forall|i: int, j: int| 0 <= i && j == i + 1 && j < after.len() implies (
    #[trigger] after[i]).end == (#[trigger] after[j]).start by {
        if j == segments.len() {
            assert(segments.last() == after[i]);
        } else {
            assert(segments[i].end == segments[j].start);
        }
    }
}

proof fn lemma_skip_contiguous(segments: Seq<SegmentRecord>, k: int)
    requires
        is_contiguous(segments),
        0 <= k <= segments.len(),
    ensures
        is_contiguous(segments.skip(k)),
{
    let after = segments.skip(k);
    assert forall|i: int, j: int| 0 <= i && j == i + 1 && j < after.len() implies (
    #[trigger] after[i]).end == (#[trigger] after[j]).start by {
        assert(segments[i + k].end == segments[j + k].start);
    }
    assert forall|i: int| 0 <= i < after.len() implies (#[trigger] after[i]).start
        <= after[i].end by {
        assert(segments[i + k].start <= segments[i + k].end);
    }
}

/// A new tracker has no gaps in its timelines, and recording, pruning, protecting and
/// handing back bring none in.
pub proof fn law_timelines_stay_contiguous(
    tracker: TrackerView,
    event: SegmentCompletedEvent,
    retain: u64,
    paths: Seq<PathBuf>,
)
    ensures
        has_contiguous_timelines(empty_tracker()),
        has_contiguous_timelines(tracker) ==> has_contiguous_timelines(recorded(tracker, event)),
        has_contiguous_timelines(tracker) ==> has_contiguous_timelines(pruned(tracker, retain)),
        has_contiguous_timelines(tracker) ==> has_contiguous_timelines(protecting(tracker, paths)),
        has_contiguous_timelines(tracker) ==> has_contiguous_timelines(
            unprotecting(tracker, paths),
        ),
{
    if has_contiguous_timelines(tracker) {
        lemma_push_contiguous(tracker.video_segments, event);
        lemma_push_contiguous(tracker.audio_segments, event);
        let cutoff = prune_cutoff(tracker, retain);
        let protected = tracker.protected_paths;
        lemma_dropped_count(tracker.video_segments, cutoff, protected);
        lemma_dropped_count(tracker.audio_segments, cutoff, protected);
        lemma_skip_contiguous(
            tracker.video_segments,
            dropped_count(tracker.video_segments, cutoff, protected) as int,
        );
        lemma_skip_contiguous(
            tracker.audio_segments,
            dropped_count(tracker.audio_segments, cutoff, protected) as int,
        );
    }
}

/// The tracker after a run of events.
pub open spec fn recorded_all(
    tracker: TrackerView,
    events: Seq<SegmentCompletedEvent>,
) -> TrackerView
    decreases events.len(),
{
    if events.len() == 0 {
        tracker
    } else {
        recorded(recorded_all(tracker, events.drop_last()), events.last())
    }
}

/// The length of all segments of one media type that a run of events reports.
pub open spec fn reported_length(
    events: Seq<SegmentCompletedEvent>,
    media_type: SegmentMediaType,
) -> nat
    decreases events.len(),
{
    if events.len() == 0 {
        0
    } else {
        let event = events.last();
        reported_length(events.drop_last(), media_type) + (if !event.is_init && event.media_type
            == media_type {
            counted_duration(event.duration)
        } else {
            0
        })
    }
}

/// The timelines of a session end where the lengths of its segments add up to.
pub proof fn law_timeline_ends_at_reported_length(events: Seq<SegmentCompletedEvent>)
    ensures
        last_end(recorded_all(empty_tracker(), events).video_segments) == saturated(
            reported_length(events, SegmentMediaType::Video) as int,
        ),
        last_end(recorded_all(empty_tracker(), events).audio_segments) == saturated(
            reported_length(events, SegmentMediaType::Audio) as int,
        ),
    decreases events.len(),
{
    if events.len() > 0 {
        law_timeline_ends_at_reported_length(events.drop_last());
    }
}

/// Nothing is lost or reordered: the removed segments and the rest are what was there.
pub proof fn law_prune_splits(tracker: TrackerView, retain: u64)
    ensures
        ({
            let cutoff = prune_cutoff(tracker, retain);
            let after = pruned(tracker, retain);
            let video = dropped_segments(tracker.video_segments, cutoff, tracker.protected_paths);
            let audio = dropped_segments(tracker.audio_segments, cutoff, tracker.protected_paths);
            &&& pruned_away(tracker, retain) == video + audio
            &&& tracker.video_segments == video + after.video_segments
            &&& tracker.audio_segments == audio + after.audio_segments
        }),
{
    let cutoff = prune_cutoff(tracker, retain);
    let protected = tracker.protected_paths;
    lemma_dropped_count(tracker.video_segments, cutoff, protected);
    lemma_dropped_count(tracker.audio_segments, cutoff, protected);
    let after = pruned(tracker, retain);
    assert(tracker.video_segments =~= dropped_segments(tracker.video_segments, cutoff, protected)
        + after.video_segments);
    assert(tracker.audio_segments =~= dropped_segments(tracker.audio_segments, cutoff, protected)
        + after.audio_segments);
}

proof fn lemma_dropped_are_old(
    segments: Seq<SegmentRecord>,
    cutoff: u64,
    protected: Set<PathBuf>,
    segment: SegmentRecord,
)
    requires
        dropped_segments(segments, cutoff, protected).contains(segment),
    ensures
        segment.end < cutoff,
        !protected.contains(segment.path),
{
    lemma_dropped_count(segments, cutoff, protected);
    let dropped = dropped_segments(segments, cutoff, protected);
    let i = choose|i: int| 0 <= i < dropped.len() && dropped[i] == segment;
    assert(!is_kept(segments[i], cutoff, protected));
}

/// Pruning takes away only segments that end before the cutoff, and never one whose
/// file is protected.
pub proof fn law_prune_removes_only_old_unprotected(
    tracker: TrackerView,
    retain: u64,
    segment: SegmentRecord,
)
    requires
        pruned_away(tracker, retain).contains(segment),
    ensures
        segment.end + retain < last_end(tracker.video_segments),
        !tracker.protected_paths.contains(segment.path),
{
    let cutoff = prune_cutoff(tracker, retain);
    let protected = tracker.protected_paths;
    let video = dropped_segments(tracker.video_segments, cutoff, protected);
    let audio = dropped_segments(tracker.audio_segments, cutoff, protected);
    let i = choose|i: int| 0 <= i < (video + audio).len() && (video + audio)[i] == segment;
    if i < video.len() {
        assert(video[i] == segment);
        lemma_dropped_are_old(tracker.video_segments, cutoff, protected, segment);
    } else {
        assert(audio[i - video.len()] == segment);
        lemma_dropped_are_old(tracker.audio_segments, cutoff, protected, segment);
    }
}

proof fn lemma_protected_stays(
    segments: Seq<SegmentRecord>,
    cutoff: u64,
    protected: Set<PathBuf>,
    segment: SegmentRecord,
)
    requires
        segments.contains(segment),
        protected.contains(segment.path),
    ensures
        kept_segments(segments, cutoff, protected).contains(segment),
{
    lemma_dropped_count(segments, cutoff, protected);
    let k = dropped_count(segments, cutoff, protected);
    let i = choose|i: int| 0 <= i < segments.len() && segments[i] == segment;
    if i < k {
        assert(!is_kept(segments[i], cutoff, protected));
    }
    assert(kept_segments(segments, cutoff, protected)[i - k] == segment);
}

/// Pruning keeps protected segments, however short the time to retain is.
pub proof fn law_prune_keeps_protected(
    tracker: TrackerView,
    retain: u64,
    segment: SegmentRecord,
)
    requires
        tracker.protected_paths.contains(segment.path),
    ensures
        tracker.video_segments.contains(segment) ==> pruned(tracker, retain).video_segments.contains(
            segment,
        ),
        tracker.audio_segments.contains(segment) ==> pruned(tracker, retain).audio_segments.contains(
            segment,
        ),
{
    let cutoff = prune_cutoff(tracker, retain);
    if tracker.video_segments.contains(segment) {
        lemma_protected_stays(tracker.video_segments, cutoff, tracker.protected_paths, segment);
    }
    if tracker.audio_segments.contains(segment) {
        lemma_protected_stays(tracker.audio_segments, cutoff, tracker.protected_paths, segment);
    }
}

/// Pruning leaves the latest video segment, so it never empties the video timeline
/// and never moves its end.
pub proof fn law_prune_keeps_latest_video(tracker: TrackerView, retain: u64)
    ensures
        tracker.video_segments.len() > 0 ==> {
            &&& pruned(tracker, retain).video_segments.len() > 0
            &&& pruned(tracker, retain).video_segments.last() == tracker.video_segments.last()
        },
        last_end(pruned(tracker, retain).video_segments) == last_end(tracker.video_segments),
{
    let cutoff = prune_cutoff(tracker, retain);
    lemma_dropped_count(tracker.video_segments, cutoff, tracker.protected_paths);
    let k = dropped_count(tracker.video_segments, cutoff, tracker.protected_paths);
    if tracker.video_segments.len() > 0 {
        assert(is_kept(tracker.video_segments.last(), cutoff, tracker.protected_paths));
    }
}

/// Where pruning takes video away, what it leaves covers more than the time to retain.
pub proof fn law_prune_retains_window(tracker: TrackerView, retain: u64)
    requires
        is_contiguous(tracker.video_segments),
        pruned(tracker, retain).video_segments.len() < tracker.video_segments.len(),
    ensures
        ({
            let left = pruned(tracker, retain).video_segments;
            left.last().end - left[0].start > retain
        }),
{
    let segments = tracker.video_segments;
    let cutoff = prune_cutoff(tracker, retain);
    lemma_dropped_count(segments, cutoff, tracker.protected_paths);
    law_prune_keeps_latest_video(tracker, retain);
    let k = dropped_count(segments, cutoff, tracker.protected_paths) as int;
    assert(!is_kept(segments[k - 1], cutoff, tracker.protected_paths));
    assert(segments[k - 1].end == segments[k].start);
}

/// The first video segment that pruning leaves reaches into the time to retain, or it
/// is protected.
pub proof fn law_prune_removes_older(tracker: TrackerView, retain: u64)
    requires
        tracker.video_segments.len() > 0,
    ensures
        ({
            let first = pruned(tracker, retain).video_segments[0];
            ||| first.end >= window_start(last_end(tracker.video_segments), retain)
            ||| tracker.protected_paths.contains(first.path)
        }),
{
    law_prune_keeps_latest_video(tracker, retain);
    lemma_dropped_count(
        tracker.video_segments,
        prune_cutoff(tracker, retain),
        tracker.protected_paths,
    );
}

proof fn lemma_kept_again(segments: Seq<SegmentRecord>, cutoff: u64, protected: Set<PathBuf>)
    ensures
        kept_segments(kept_segments(segments, cutoff, protected), cutoff, protected)
            == kept_segments(segments, cutoff, protected),
{
    lemma_dropped_count(segments, cutoff, protected);
    let kept = kept_segments(segments, cutoff, protected);
    lemma_dropped_count_unique(kept, cutoff, protected, 0);
    assert(kept.skip(0) =~= kept);
}

/// Pruning a second time changes nothing.
pub proof fn law_prune_idempotent(tracker: TrackerView, retain: u64)
    ensures
        pruned(pruned(tracker, retain), retain) == pruned(tracker, retain),
        pruned_away(pruned(tracker, retain), retain) == Seq::<SegmentRecord>::empty(),
{
    let cutoff = prune_cutoff(tracker, retain);
    let protected = tracker.protected_paths;
    let once = pruned(tracker, retain);
    law_prune_keeps_latest_video(tracker, retain);
    lemma_kept_again(tracker.video_segments, cutoff, protected);
    lemma_kept_again(tracker.audio_segments, cutoff, protected);
    lemma_dropped_count(tracker.video_segments, cutoff, protected);
    lemma_dropped_count(tracker.audio_segments, cutoff, protected);
    lemma_dropped_count_unique(once.video_segments, cutoff, protected, 0);
    lemma_dropped_count_unique(once.audio_segments, cutoff, protected, 0);
    assert(pruned_away(once, retain) =~= Seq::<SegmentRecord>::empty());
}

proof fn lemma_earlier_cutoff_keeps_more(
    segments: Seq<SegmentRecord>,
    earlier: u64,
    later: u64,
    protected: Set<PathBuf>,
)
    requires
        earlier <= later,
    ensures
        ends_with(
            kept_segments(segments, earlier, protected),
            kept_segments(segments, later, protected),
        ),
{
    lemma_dropped_count(segments, earlier, protected);
    lemma_dropped_count(segments, later, protected);
    let n = dropped_count(segments, earlier, protected) as int;
    let m = dropped_count(segments, later, protected) as int;
    if m < n {
        assert(!is_kept(segments[m], earlier, protected));
    }
    assert(segments.skip(m) =~= segments.skip(n).skip(m - n));
}

/// Whether the last segments of `more` are those of `less`.
pub open spec fn ends_with(more: Seq<SegmentRecord>, less: Seq<SegmentRecord>) -> bool {
    less.len() <= more.len() && less == more.skip(more.len() - less.len())
}

/// Retaining a longer time never keeps less: what a shorter time would leave is the end
/// of what the longer one leaves.
pub proof fn law_longer_retention_keeps_more(tracker: TrackerView, shorter: u64, longer: u64)
    requires
        shorter <= longer,
    ensures
        ends_with(
            pruned(tracker, longer).video_segments,
            pruned(tracker, shorter).video_segments,
        ),
        ends_with(
            pruned(tracker, longer).audio_segments,
            pruned(tracker, shorter).audio_segments,
        ),
{
    let earlier = prune_cutoff(tracker, longer);
    let later = prune_cutoff(tracker, shorter);
    let protected = tracker.protected_paths;
    lemma_earlier_cutoff_keeps_more(tracker.video_segments, earlier, later, protected);
    lemma_earlier_cutoff_keeps_more(tracker.audio_segments, earlier, later, protected);
}

/// Handing files back right after protecting them leaves what had been protected before,
/// without these files. Where none of them had been, the tracker is as it was.
pub proof fn law_unprotect_undoes_protect(tracker: TrackerView, paths: Seq<PathBuf>)
    ensures
        unprotecting(protecting(tracker, paths), paths) == unprotecting(tracker, paths),
        tracker.protected_paths.disjoint(paths.to_set()) ==> unprotecting(
            protecting(tracker, paths),
            paths,
        ) == tracker,
{
    let after = unprotecting(protecting(tracker, paths), paths);
    assert(after =~= unprotecting(tracker, paths));
    if tracker.protected_paths.disjoint(paths.to_set()) {
        assert(after =~= tracker);
    }
}

/// Whether `after` is `before` with one segment more: the segment of `event`, which
/// starts where the one before it ends, or at 0, and lasts as long as was reported. A
/// length below 0 counts as none, and no time is past the greatest one.
pub open spec fn has_segment_of(
    before: Seq<SegmentRecord>,
    after: Seq<SegmentRecord>,
    event: SegmentCompletedEvent,
) -> bool {
    let added = after.last();
    &&& after.len() == before.len() + 1
    &&& forall|i: int| 0 <= i < before.len() ==> #[trigger] after[i] == before[i]
    &&& added.path == event.path
    &&& added.index == event.index
    &&& added.start == if before.len() == 0 {
        0
    } else {
        before.last().end
    }
    &&& event.duration <= 0 ==> added.end == added.start
    &&& event.duration > 0 ==> (added.end - added.start == event.duration || added.end == u64::MAX
        && added.start + event.duration > u64::MAX)
}

/// A report changes one thing: a segment goes to the end of the timeline of its own
/// media type, an initialisation part takes the place of the one of its own media type,
/// and all else stays.
pub proof fn law_record_changes_one_thing(
    before: SegmentTracker,
    event: SegmentCompletedEvent,
    after: SegmentTracker,
)
    requires
        after@ == recorded(before@, event),
    ensures
        after.protected_paths@ == before.protected_paths@,
        if !event.is_init && event.media_type == SegmentMediaType::Video {
            has_segment_of(before.video_segments@, after.video_segments@, event)
        } else {
            after.video_segments@ == before.video_segments@
        },
        if !event.is_init && event.media_type == SegmentMediaType::Audio {
            has_segment_of(before.audio_segments@, after.audio_segments@, event)
        } else {
            after.audio_segments@ == before.audio_segments@
        },
        after.video_init == if event.is_init && event.media_type == SegmentMediaType::Video {
            Some(event.path)
        } else {
            before.video_init
        },
        after.audio_init == if event.is_init && event.media_type == SegmentMediaType::Audio {
            Some(event.path)
        } else {
            before.audio_init
        },
{
}

/// A snapshot holds all that the tracker knows of its segments, and nothing else.
pub proof fn law_snapshot_is_whole(tracker: SegmentTracker, snapshot: SegmentSnapshot)
    requires
        snapshot@ == snapshot_of(tracker@),
    ensures
        snapshot.video_init == tracker.video_init,
        snapshot.audio_init == tracker.audio_init,
        snapshot.video_segments@ == tracker.video_segments@,
        snapshot.audio_segments@ == tracker.audio_segments@,
{
}

/// A new tracker knows nothing and protects nothing.
pub proof fn law_new_tracker_is_empty(tracker: SegmentTracker)
    requires
        tracker@ == empty_tracker(),
    ensures
        tracker.video_init is None,
        tracker.audio_init is None,
        tracker.video_segments@.len() == 0,
        tracker.audio_segments@.len() == 0,
        forall|path: PathBuf| !tracker.protected_paths@.contains(path),
{
}

/// Protecting adds the given files to those that are protected, handing back takes them
/// away, and neither touches anything else.
pub proof fn law_protection_changes_by_the_given_files(
    before: SegmentTracker,
    paths: Seq<PathBuf>,
    protected: SegmentTracker,
    released: SegmentTracker,
    path: PathBuf,
)
    requires
        protected@ == protecting(before@, paths),
        released@ == unprotecting(before@, paths),
    ensures
        protected.protected_paths@.contains(path) <==> {
            ||| before.protected_paths@.contains(path)
            ||| paths.contains(path)
        },
        released.protected_paths@.contains(path) <==> {
            &&& before.protected_paths@.contains(path)
            &&& !paths.contains(path)
        },
        protected.video_init == before.video_init,
        protected.audio_init == before.audio_init,
        protected.video_segments@ == before.video_segments@,
        protected.audio_segments@ == before.audio_segments@,
        released.video_init == before.video_init,
        released.audio_init == before.audio_init,
        released.video_segments@ == before.video_segments@,
        released.audio_segments@ == before.audio_segments@,
{
}

/// Whether `removed` and `left` are the two parts of `segments` that pruning makes: each
/// segment that is removed ends before `cutoff` and is not protected, and the first one
/// that is left ends at `cutoff` or later, or is protected.
pub open spec fn is_cut(
    segments: Seq<SegmentRecord>,
    removed: Seq<SegmentRecord>,
    left: Seq<SegmentRecord>,
    cutoff: int,
    protected: Set<PathBuf>,
) -> bool {
    &&& segments == removed + left
    &&& forall|i: int|
        0 <= i < removed.len() ==> (#[trigger] removed[i]).end < cutoff && !protected.contains(
            removed[i].path,
        )
    &&& left.len() > 0 ==> (left[0].end >= cutoff || protected.contains(left[0].path))
}

/// A timeline is cut before the first segment that reaches the cutoff or is protected.
pub proof fn law_segments_are_cut(
    segments: Seq<SegmentRecord>,
    cutoff: u64,
    protected: Set<PathBuf>,
)
    ensures
        is_cut(
            segments,
            dropped_segments(segments, cutoff, protected),
            kept_segments(segments, cutoff, protected),
            cutoff as int,
            protected,
        ),
{
    lemma_dropped_count(segments, cutoff, protected);
    let removed = dropped_segments(segments, cutoff, protected);
    let left = kept_segments(segments, cutoff, protected);
    assert(segments =~= removed + left);
    assert forall|i: int| 0 <= i < removed.len() implies (#[trigger] removed[i]).end < cutoff
        && !protected.contains(removed[i].path) by {
        assert(!is_kept(segments[i], cutoff, protected));
    }
}

/// Pruning cuts both timelines the given time before the end of the latest video, gives
/// back what it removed, the video first, and touches nothing else.
pub proof fn law_prune_cuts_both_timelines(
    before: SegmentTracker,
    retain: u64,
    after: SegmentTracker,
    removed: Seq<SegmentRecord>,
)
    requires
        after@ == pruned(before@, retain),
        removed == pruned_away(before@, retain),
    ensures
        ({
            let video = before.video_segments@;
            let audio = before.audio_segments@;
            let latest: int = if video.len() == 0 {
                0
            } else {
                video.last().end as int
            };
            let n = video.len() - after.video_segments@.len();
            &&& 0 <= n <= removed.len()
            &&& is_cut(
                video,
                removed.take(n),
                after.video_segments@,
                latest - retain,
                before.protected_paths@,
            )
            &&& is_cut(
                audio,
                removed.skip(n),
                after.audio_segments@,
                latest - retain,
                before.protected_paths@,
            )
        }),
        after.video_init == before.video_init,
        after.audio_init == before.audio_init,
        after.protected_paths@ == before.protected_paths@,
{
    let cutoff = prune_cutoff(before@, retain);
    let protected = before.protected_paths@;
    let video = before.video_segments@;
    let audio = before.audio_segments@;
    law_segments_are_cut(video, cutoff, protected);
    law_segments_are_cut(audio, cutoff, protected);
    lemma_dropped_count(video, cutoff, protected);
    let n = video.len() - after.video_segments@.len();
    assert(removed.take(n) =~= dropped_segments(video, cutoff, protected));
    assert(removed.skip(n) =~= dropped_segments(audio, cutoff, protected));
}

} // verus!
