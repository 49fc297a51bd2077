//! The media segments that a running replay session has written, as a timeline per
//! media type.
//!
//! Times are counted in nanoseconds from the start of the session.

use crate::paths::PathSet;
use std::path::PathBuf;
use vstd::prelude::*;

verus! {

/// The two kinds of media that a session writes.
#[derive(Debug, Clone, Copy, PartialEq, Eq, Structural)]
pub enum SegmentMediaType {
    Video,
    Audio,
}

/// What the recorder reports when it has finished a file.
#[derive(Debug)]
pub struct SegmentCompletedEvent {
    pub path: PathBuf,
    pub index: u32,
    /// Length of the segment in nanoseconds, as the recorder measured it. It may be
    /// negative where the measurement went wrong.
    pub duration: i64,
    /// Whether the file is the initialisation part that precedes all segments.
    pub is_init: bool,
    pub media_type: SegmentMediaType,
}

/// One finished segment and its place on the timeline.
#[derive(Debug)]
pub struct SegmentRecord {
    pub path: PathBuf,
    pub index: u32,
    pub start: u64,
    pub end: u64,
}

impl Clone for SegmentRecord {
    fn clone(&self) -> (r: SegmentRecord)
        ensures
            r == *self,
    {
        SegmentRecord {
            path: self.path.clone(),
            index: self.index,
            start: self.start,
            end: self.end,
        }
    }
}

/// What a tracker held at one moment.
#[derive(Debug)]
pub struct SegmentSnapshot {
    pub video_init: Option<PathBuf>,
    pub audio_init: Option<PathBuf>,
    pub video_segments: Vec<SegmentRecord>,
    pub audio_segments: Vec<SegmentRecord>,
}

/// The contents of a snapshot.
pub ghost struct SnapshotView {
    pub video_init: Option<PathBuf>,
    pub audio_init: Option<PathBuf>,
    pub video_segments: Seq<SegmentRecord>,
    pub audio_segments: Seq<SegmentRecord>,
}

impl View for SegmentSnapshot {
    type V = SnapshotView;

    open spec fn view(&self) -> SnapshotView {
        SnapshotView {
            video_init: self.video_init,
            audio_init: self.audio_init,
            video_segments: self.video_segments@,
            audio_segments: self.audio_segments@,
        }
    }
}

impl Clone for SegmentSnapshot {
    fn clone(&self) -> (r: SegmentSnapshot)
        ensures
            r@ == self@,
    {
        SegmentSnapshot {
            video_init: self.video_init.clone(),
            audio_init: self.audio_init.clone(),
            video_segments: self.video_segments.clone(),
            audio_segments: self.audio_segments.clone(),
        }
    }
}

/// The segments of a session, and the paths that must not be deleted.
#[derive(Debug)]
pub struct SegmentTracker {
    pub video_init: Option<PathBuf>,
    pub audio_init: Option<PathBuf>,
    pub video_segments: Vec<SegmentRecord>,
    pub audio_segments: Vec<SegmentRecord>,
    pub protected_paths: PathSet,
}

/// The contents of a tracker.
#[verifier::ext_equal]
pub ghost struct TrackerView {
    pub video_init: Option<PathBuf>,
    pub audio_init: Option<PathBuf>,
    pub video_segments: Seq<SegmentRecord>,
    pub audio_segments: Seq<SegmentRecord>,
    pub protected_paths: Set<PathBuf>,
}

impl View for SegmentTracker {
    type V = TrackerView;

    open spec fn view(&self) -> TrackerView {
        TrackerView {
            video_init: self.video_init,
            audio_init: self.audio_init,
            video_segments: self.video_segments@,
            audio_segments: self.audio_segments@,
            protected_paths: self.protected_paths@,
        }
    }
}

/// What a snapshot of the tracker holds.
pub open spec fn snapshot_of(tracker: TrackerView) -> SnapshotView {
    SnapshotView {
        video_init: tracker.video_init,
        audio_init: tracker.audio_init,
        video_segments: tracker.video_segments,
        audio_segments: tracker.audio_segments,
    }
}

/// The end of the last segment, if there is one.
pub open spec fn latest_end_of(segments: Seq<SegmentRecord>) -> Option<u64> {
    if segments.len() == 0 {
        None
    } else {
        Some(segments.last().end)
    }
}

/// The end of the last segment, 0 where there is none.
pub open spec fn last_end(segments: Seq<SegmentRecord>) -> u64 {
    if segments.len() == 0 {
        0
    } else {
        segments.last().end
    }
}

/// A length that was measured negative counts as none.
pub open spec fn counted_duration(duration: i64) -> nat {
    if duration > 0 {
        duration as nat
    } else {
        0
    }
}

/// `n`, or the greatest time where `n` is past it.
pub open spec fn saturated(n: int) -> u64 {
    if n <= u64::MAX {
        n as u64
    } else {
        u64::MAX
    }
}

/// The record of a segment that follows `segments`.
pub open spec fn following_record(
    segments: Seq<SegmentRecord>,
    event: SegmentCompletedEvent,
) -> SegmentRecord {
    SegmentRecord {
        path: event.path,
        index: event.index,
        start: last_end(segments),
        end: saturated(last_end(segments) + counted_duration(event.duration)),
    }
}

/// The tracker after `event`.
pub open spec fn recorded(tracker: TrackerView, event: SegmentCompletedEvent) -> TrackerView {
    match (event.is_init, event.media_type) {
        (true, SegmentMediaType::Video) => TrackerView { video_init: Some(event.path), ..tracker },
        (true, SegmentMediaType::Audio) => TrackerView { audio_init: Some(event.path), ..tracker },
        (false, SegmentMediaType::Video) => TrackerView {
            video_segments: tracker.video_segments.push(
                following_record(tracker.video_segments, event),
            ),
            ..tracker
        },
        (false, SegmentMediaType::Audio) => TrackerView {
            audio_segments: tracker.audio_segments.push(
                following_record(tracker.audio_segments, event),
            ),
            ..tracker
        },
    }
}

/// Whether a segment stays: it reaches the cutoff, or its file is protected.
pub open spec fn is_kept(segment: SegmentRecord, cutoff: u64, protected: Set<PathBuf>) -> bool {
    segment.end >= cutoff || protected.contains(segment.path)
}

/// How many segments lie before the first one that stays.
pub open spec fn dropped_count(
    segments: Seq<SegmentRecord>,
    cutoff: u64,
    protected: Set<PathBuf>,
) -> nat
    decreases segments.len(),
{
    if segments.len() == 0 || is_kept(segments[0], cutoff, protected) {
        0
    } else {
        1 + dropped_count(segments.drop_first(), cutoff, protected)
    }
}

/// The segments that pruning takes away.
pub open spec fn dropped_segments(
    segments: Seq<SegmentRecord>,
    cutoff: u64,
    protected: Set<PathBuf>,
) -> Seq<SegmentRecord> {
    segments.take(dropped_count(segments, cutoff, protected) as int)
}

/// The segments that pruning leaves.
pub open spec fn kept_segments(
    segments: Seq<SegmentRecord>,
    cutoff: u64,
    protected: Set<PathBuf>,
) -> Seq<SegmentRecord> {
    segments.skip(dropped_count(segments, cutoff, protected) as int)
}

/// The start of the last `length` nanoseconds before `latest`, never before 0.
pub open spec fn window_start(latest: u64, length: u64) -> u64 {
    if latest >= length {
        (latest - length) as u64
    } else {
        0
    }
}

/// Where pruning to `retain` nanoseconds cuts.
pub open spec fn prune_cutoff(tracker: TrackerView, retain: u64) -> u64 {
    window_start(last_end(tracker.video_segments), retain)
}

/// The tracker after pruning to `retain` nanoseconds.
pub open spec fn pruned(tracker: TrackerView, retain: u64) -> TrackerView {
    let cutoff = prune_cutoff(tracker, retain);
    TrackerView {
        video_segments: kept_segments(tracker.video_segments, cutoff, tracker.protected_paths),
        audio_segments: kept_segments(tracker.audio_segments, cutoff, tracker.protected_paths),
        ..tracker
    }
}

/// The segments that pruning to `retain` nanoseconds takes away.
pub open spec fn pruned_away(tracker: TrackerView, retain: u64) -> Seq<SegmentRecord> {
    let cutoff = prune_cutoff(tracker, retain);
    dropped_segments(tracker.video_segments, cutoff, tracker.protected_paths) + dropped_segments(
        tracker.audio_segments,
        cutoff,
        tracker.protected_paths,
    )
}

/// The tracker after the given files were protected.
pub open spec fn protecting(tracker: TrackerView, paths: Seq<PathBuf>) -> TrackerView {
    TrackerView {
        protected_paths: tracker.protected_paths.union(paths.to_set()),
        ..tracker
    }
}

/// The tracker after the given files were handed back.
pub open spec fn unprotecting(tracker: TrackerView, paths: Seq<PathBuf>) -> TrackerView {
    TrackerView {
        protected_paths: tracker.protected_paths.difference(paths.to_set()),
        ..tracker
    }
}

/// A tracker that has seen nothing.
pub open spec fn empty_tracker() -> TrackerView {
    TrackerView {
        video_init: None,
        audio_init: None,
        video_segments: seq![],
        audio_segments: seq![],
        protected_paths: Set::empty(),
    }
}

/// The set of the first `i + 1` elements has the element at `i` besides those before.
proof fn lemma_take_next<A>(s: Seq<A>, i: int)
    requires
        0 <= i < s.len(),
    ensures
        s.take(i + 1).to_set() == s.take(i).to_set().insert(s[i]),
{
    assert(s.take(i + 1) =~= s.take(i).push(s[i]));
    assert forall|a: A| s.take(i).to_set().insert(s[i]).contains(a) implies s.take(
        i + 1,
    ).to_set().contains(a) by {
        if a == s[i] {
            assert(s.take(i + 1)[i] == a);
        } else {
            let k = choose|k: int| 0 <= k < i && s.take(i)[k] == a;
            assert(s.take(i + 1)[k] == a);
        }
    }
    assert(s.take(i + 1).to_set() =~= s.take(i).to_set().insert(s[i]));
}

/// What lies before `dropped_count` does not stay, and what lies there does.
pub proof fn lemma_dropped_count(segments: Seq<SegmentRecord>, cutoff: u64, protected: Set<PathBuf>)
    ensures
        ({
            let k = dropped_count(segments, cutoff, protected);
            &&& k <= segments.len()
            &&& forall|i: int| 0 <= i < k ==> !is_kept(#[trigger] segments[i], cutoff, protected)
            &&& k < segments.len() ==> is_kept(segments[k as int], cutoff, protected)
        }),
    decreases segments.len(),
{
    if segments.len() > 0 && !is_kept(segments[0], cutoff, protected) {
        let rest = segments.drop_first();
        lemma_dropped_count(rest, cutoff, protected);
        let k = dropped_count(segments, cutoff, protected);
        assert forall|i: int| 0 <= i < k implies !is_kept(
            #[trigger] segments[i],
            cutoff,
            protected,
        ) by {
            if i > 0 {
                assert(segments[i] == rest[i - 1]);
            }
        }
    }
}

/// `dropped_count` is the only position with these properties.
pub proof fn lemma_dropped_count_unique(
    segments: Seq<SegmentRecord>,
    cutoff: u64,
    protected: Set<PathBuf>,
    k: nat,
)
    requires
        k <= segments.len(),
        forall|i: int| 0 <= i < k ==> !is_kept(#[trigger] segments[i], cutoff, protected),
        k < segments.len() ==> is_kept(segments[k as int], cutoff, protected),
    ensures
        k == dropped_count(segments, cutoff, protected),
{
    lemma_dropped_count(segments, cutoff, protected);
    let n = dropped_count(segments, cutoff, protected);
    if k < n {
        assert(!is_kept(segments[k as int], cutoff, protected));
    } else if n < k {
        assert(!is_kept(segments[n as int], cutoff, protected));
    }
}

/// The end of the last segment, if there is one.
pub fn latest_end(segments: &Vec<SegmentRecord>) -> (r: Option<u64>)
    ensures
        r == latest_end_of(segments@),
{
    let n: usize = segments.len();
    if n == 0 {
        None
    } else {
        Some(segments[n - 1].end)
    }
}

/// Takes the segments before the first one that stays off the front, and returns
/// them in their order.
pub fn prune_segments(
    segments: &mut Vec<SegmentRecord>,
    cutoff: u64,
    protected: &PathSet,
) -> (removed: Vec<SegmentRecord>)
    ensures
        removed@ == dropped_segments(old(segments)@, cutoff, protected@),
        final(segments)@ == kept_segments(old(segments)@, cutoff, protected@),
{
    let ghost before = segments@;
    let mut split: usize = 0;
    while split < segments.len() && segments[split].end < cutoff && !protected.contains(
        &segments[split].path,
    )
        invariant
            segments@ == before,
            split <= before.len(),
            forall|i: int| 0 <= i < split ==> !is_kept(#[trigger] before[i], cutoff, protected@),
        decreases before.len() - split,
    {
        split += 1;
    }
    proof {
        lemma_dropped_count_unique(before, cutoff, protected@, split as nat);
    }
    let mut removed = segments.split_off(split);
    std::mem::swap(&mut removed, segments);
    assert(removed@ =~= dropped_segments(before, cutoff, protected@));
    assert(segments@ =~= kept_segments(before, cutoff, protected@));
    removed
}

impl SegmentTracker {
    /// Takes in what the recorder reports: an initialisation part replaces the one
    /// known so far, a segment goes to the end of its timeline.
    pub fn record(&mut self, event: SegmentCompletedEvent)
        ensures
            final(self)@ == recorded(old(self)@, event),
    {
        if event.is_init {
            match event.media_type {
                SegmentMediaType::Video => self.video_init = Some(event.path),
                SegmentMediaType::Audio => self.audio_init = Some(event.path),
            }
            return;
        }
        let segments = match event.media_type {
            SegmentMediaType::Video => &mut self.video_segments,
            SegmentMediaType::Audio => &mut self.audio_segments,
        };
        let start: u64 = latest_end(segments).unwrap_or(0);
        let duration: u64 = if event.duration > 0 {
            event.duration as u64
        } else {
            0
        };
        let end: u64 = start.saturating_add(duration);
        segments.push(SegmentRecord { path: event.path, index: event.index, start, end });
    }

    /// A copy of the segments as they are now.
    pub fn snapshot(&self) -> (r: SegmentSnapshot)
        ensures
            r@ == snapshot_of(self@),
    {
        SegmentSnapshot {
            video_init: self.video_init.clone(),
            audio_init: self.audio_init.clone(),
            video_segments: self.video_segments.clone(),
            audio_segments: self.audio_segments.clone(),
        }
    }

    /// Keeps pruning away from the given files.
    pub fn protect(&mut self, paths: &[PathBuf])
        ensures
            final(self)@ == protecting(old(self)@, paths@),
    {
        let ghost before = self@;
        let mut i: usize = 0;
        while i < paths.len()
            invariant
                i <= paths@.len(),
                self@ == protecting(before, paths@.take(i as int)),
            decreases paths@.len() - i,
        {
            proof {
                lemma_take_next(paths@, i as int);
            }
            self.protected_paths.insert(paths[i].clone());
            i += 1;
        }
        assert(paths@.take(i as int) =~= paths@);
    }

    /// Hands the given files back to pruning.
    pub fn unprotect(&mut self, paths: &[PathBuf])
        ensures
            final(self)@ == unprotecting(old(self)@, paths@),
    {
        let ghost before = self@;
        let mut i: usize = 0;
        while i < paths.len()
            invariant
                i <= paths@.len(),
                self@ == unprotecting(before, paths@.take(i as int)),
            decreases paths@.len() - i,
        {
            proof {
                lemma_take_next(paths@, i as int);
            }
            self.protected_paths.remove(&paths[i]);
            i += 1;
        }
        assert(paths@.take(i as int) =~= paths@);
    }

    /// Forgets the segments that end more than `retain` nanoseconds before the
    /// latest video, up to the first one that is protected, and returns them: their
    /// files are no longer needed. Video comes before audio.
    pub fn prune(&mut self, retain: u64) -> (removed: Vec<SegmentRecord>)
        ensures
            final(self)@ == pruned(old(self)@, retain),
            removed@ == pruned_away(old(self)@, retain),
    {
        let latest: u64 = latest_end(&self.video_segments).unwrap_or(0);
        let cutoff: u64 = latest.saturating_sub(retain);
        let mut removed = prune_segments(&mut self.video_segments, cutoff, &self.protected_paths);
        let mut removed_audio = prune_segments(
            &mut self.audio_segments,
            cutoff,
            &self.protected_paths,
        );
        removed.append(&mut removed_audio);
        removed
    }
}

impl Default for SegmentTracker {
    fn default() -> (tracker: SegmentTracker)
        ensures
            tracker@ == empty_tracker(),
    {
        SegmentTracker {
            video_init: None,
            audio_init: None,
            video_segments: Vec::new(),
            audio_segments: Vec::new(),
            protected_paths: PathSet::new(),
        }
    }
}

} // verus!
