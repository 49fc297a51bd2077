//! Which segments make up a clip.

use crate::segments::{
    last_end, latest_end, window_start, SegmentRecord, SegmentSnapshot, SnapshotView,
};
use std::collections::HashSet;
use std::path::PathBuf;
use vstd::prelude::*;

verus! {

broadcast use vstd::std_specs::hash::group_hash_axioms;

/// The segments that make up a clip.
#[derive(Debug)]
pub struct ClipSelection {
    pub video_init: PathBuf,
    /// Set only where the clip has audio.
    pub audio_init: Option<PathBuf>,
    pub video_segments: Vec<SegmentRecord>,
    pub audio_segments: Vec<SegmentRecord>,
    /// Length of the clip in nanoseconds.
    pub duration: i128,
    /// All files that the clip is made of.
    pub protected_paths: Vec<PathBuf>,
}

/// The contents of a selection.
#[verifier::ext_equal]
pub ghost struct SelectionView {
    pub video_init: PathBuf,
    pub audio_init: Option<PathBuf>,
    pub video_segments: Seq<SegmentRecord>,
    pub audio_segments: Seq<SegmentRecord>,
    pub duration: int,
    pub protected_paths: Seq<PathBuf>,
}

impl View for ClipSelection {
    type V = SelectionView;

    open spec fn view(&self) -> SelectionView {
        SelectionView {
            video_init: self.video_init,
            audio_init: self.audio_init,
            video_segments: self.video_segments@,
            audio_segments: self.audio_segments@,
            duration: self.duration as int,
            protected_paths: self.protected_paths@,
        }
    }
}

/// The segments that end after `start`, in their order.
pub open spec fn ending_after(segments: Seq<SegmentRecord>, start: u64) -> Seq<SegmentRecord> {
    segments.filter(|segment: SegmentRecord| segment.end > start)
}

/// The indices of the segments.
pub open spec fn indices_of(segments: Seq<SegmentRecord>) -> Set<u32> {
    segments.map_values(|segment: SegmentRecord| segment.index).to_set()
}

/// The segments whose index is one of `indices`, in their order.
pub open spec fn with_index_in(
    segments: Seq<SegmentRecord>,
    indices: Set<u32>,
) -> Seq<SegmentRecord> {
    segments.filter(|segment: SegmentRecord| indices.contains(segment.index))
}

/// The files of the segments.
pub open spec fn paths_of(segments: Seq<SegmentRecord>) -> Seq<PathBuf> {
    segments.map_values(|segment: SegmentRecord| segment.path)
}

/// The path as a sequence, empty where there is none.
pub open spec fn optional_path(path: Option<PathBuf>) -> Seq<PathBuf> {
    match path {
        Some(path) => seq![path],
        None => seq![],
    }
}

/// The video of the last `requested` nanoseconds: the segments that reach into them.
pub open spec fn clip_video(snapshot: SnapshotView, requested: u64) -> Seq<SegmentRecord> {
    ending_after(
        snapshot.video_segments,
        window_start(last_end(snapshot.video_segments), requested),
    )
}

/// The audio of the last `requested` nanoseconds: the segments with the indices of the
/// video.
pub open spec fn clip_audio(snapshot: SnapshotView, requested: u64) -> Seq<SegmentRecord> {
    with_index_in(snapshot.audio_segments, indices_of(clip_video(snapshot, requested)))
}

/// The clip of the last `requested` nanoseconds. There is none without video, or
/// without the initialisation part that it needs.
pub open spec fn selection_of(snapshot: SnapshotView, requested: u64) -> Option<SelectionView> {
    let video = clip_video(snapshot, requested);
    let audio = clip_audio(snapshot, requested);
    let audio_init = if audio.len() > 0 {
        snapshot.audio_init
    } else {
        None
    };
    if video.len() == 0 || snapshot.video_init is None {
        None
    } else {
        Some(
            SelectionView {
                video_init: snapshot.video_init->0,
                audio_init,
                video_segments: video,
                audio_segments: audio,
                duration: last_end(snapshot.video_segments) - video[0].start,
                protected_paths: seq![snapshot.video_init->0] + optional_path(audio_init)
                    + paths_of(video) + paths_of(audio),
            },
        )
    }
}

/// One more element of the sequence that is filtered.
proof fn lemma_filter_next<A>(s: Seq<A>, i: int, pred: spec_fn(A) -> bool)
    requires
        0 <= i < s.len(),
    ensures
        s.take(i + 1).filter(pred) == if pred(s[i]) {
            s.take(i).filter(pred).push(s[i])
        } else {
            s.take(i).filter(pred)
        },
{
    reveal(Seq::filter);
    assert(s.take(i + 1).drop_last() =~= s.take(i));
}

proof fn lemma_filter_none<A>(s: Seq<A>, pred: spec_fn(A) -> bool)
    ensures
        s.take(0).filter(pred) == Seq::<A>::empty(),
{
    reveal(Seq::filter);
}

fn select_ending_after(segments: &Vec<SegmentRecord>, start: u64) -> (r: Vec<SegmentRecord>)
    ensures
        r@ == ending_after(segments@, start),
{
    let ghost pred = |segment: SegmentRecord| segment.end > start;
    let mut selected: Vec<SegmentRecord> = Vec::new();
    let mut i: usize = 0;
    proof {
        lemma_filter_none(segments@, pred);
    }
    while i < segments.len()
        invariant
            i <= segments@.len(),
            pred == (|segment: SegmentRecord| segment.end > start),
            selected@ == segments@.take(i as int).filter(pred),
        decreases segments@.len() - i,
    {
        proof {
            lemma_filter_next(segments@, i as int, pred);
        }
        if segments[i].end > start {
            selected.push(segments[i].clone());
        }
        i += 1;
    }
    assert(segments@.take(i as int) =~= segments@);
    selected
}

fn collect_indices(segments: &Vec<SegmentRecord>) -> (r: HashSet<u32>)
    ensures
        r@ == indices_of(segments@),
{
    let mut indices: HashSet<u32> = HashSet::new();
    let mut i: usize = 0;
    assert(indices@ =~= indices_of(segments@.take(0)));
    while i < segments.len()
        invariant
            i <= segments@.len(),
            indices@ == indices_of(segments@.take(i as int)),
        decreases segments@.len() - i,
    {
        indices.insert(segments[i].index);
        proof {
            lemma_indices_next(segments@, i as int);
        }
        i += 1;
    }
    assert(segments@.take(i as int) =~= segments@);
    indices
}

proof fn lemma_indices_next(segments: Seq<SegmentRecord>, i: int)
    requires
        0 <= i < segments.len(),
    ensures
        indices_of(segments.take(i + 1)) == indices_of(segments.take(i)).insert(segments[i].index),
{
    let f = |segment: SegmentRecord| segment.index;
    let before = segments.take(i).map_values(f);
    let after = segments.take(i + 1).map_values(f);
    assert(after =~= before.push(segments[i].index));
    assert forall|n: u32| before.to_set().insert(segments[i].index).contains(n) implies
        after.to_set().contains(n) by {
        if n == segments[i].index {
            assert(after[i] == n);
        } else {
            let k = choose|k: int| 0 <= k < before.len() && before[k] == n;
            assert(after[k] == n);
        }
    }
    assert(after.to_set() =~= before.to_set().insert(segments[i].index));
}

fn select_with_index_in(segments: &Vec<SegmentRecord>, indices: &HashSet<u32>) -> (r: Vec<
    SegmentRecord,
>)
    ensures
        r@ == with_index_in(segments@, indices@),
{
    let ghost pred = |segment: SegmentRecord| indices@.contains(segment.index);
    let mut selected: Vec<SegmentRecord> = Vec::new();
    let mut i: usize = 0;
    proof {
        lemma_filter_none(segments@, pred);
    }
    while i < segments.len()
        invariant
            i <= segments@.len(),
            pred == (|segment: SegmentRecord| indices@.contains(segment.index)),
            selected@ == segments@.take(i as int).filter(pred),
        decreases segments@.len() - i,
    {
        proof {
            lemma_filter_next(segments@, i as int, pred);
        }
        if indices.contains(&segments[i].index) {
            selected.push(segments[i].clone());
        }
        i += 1;
    }
    assert(segments@.take(i as int) =~= segments@);
    selected
}

/// The files of the segments.
pub fn segment_paths(segments: &Vec<SegmentRecord>) -> (r: Vec<PathBuf>)
    ensures
        r@ == paths_of(segments@),
{
    let mut paths: Vec<PathBuf> = Vec::new();
    let mut i: usize = 0;
    while i < segments.len()
        invariant
            i <= segments@.len(),
            paths@ == paths_of(segments@).take(i as int),
        decreases segments@.len() - i,
    {
        paths.push(segments[i].path.clone());
        i += 1;
    }
    paths
}

/// Selects the clip of the last `requested` nanoseconds, rounded outward to whole
/// segments.
pub fn select_clip_segments(snapshot: &SegmentSnapshot, requested: u64) -> (r: Option<
    ClipSelection,
>)
    ensures
        match r {
            Some(selection) => selection_of(snapshot@, requested) == Some(selection@),
            None => selection_of(snapshot@, requested) is None,
        },
{
    let latest: u64 = match latest_end(&snapshot.video_segments) {
        Some(latest) => latest,
        None => {
            proof {
                snapshot.video_segments@.lemma_filter_len(|segment: SegmentRecord| segment.end
                    > window_start(last_end(snapshot.video_segments@), requested));
            }
            return None;
        },
    };
    let start: u64 = latest.saturating_sub(requested);
    let video_segments = select_ending_after(&snapshot.video_segments, start);
    if video_segments.len() == 0 {
        return None;
    }
    let duration: i128 = latest as i128 - video_segments[0].start as i128;
    let indices = collect_indices(&video_segments);
    let audio_segments = select_with_index_in(&snapshot.audio_segments, &indices);
    let video_init = match &snapshot.video_init {
        Some(path) => path.clone(),
        None => return None,
    };
    let audio_init = if audio_segments.len() > 0 {
        snapshot.audio_init.clone()
    } else {
        None
    };
    let mut protected_paths: Vec<PathBuf> = Vec::new();
    protected_paths.push(video_init.clone());
    if let Some(path) = &audio_init {
        protected_paths.push(path.clone());
    }
    let mut video_paths = segment_paths(&video_segments);
    let mut audio_paths = segment_paths(&audio_segments);
    protected_paths.append(&mut video_paths);
    protected_paths.append(&mut audio_paths);
    assert(protected_paths@ =~= selection_of(snapshot@, requested)->0.protected_paths);
    Some(
        ClipSelection {
            video_init,
            audio_init,
            video_segments,
            audio_segments,
            duration,
            protected_paths,
        },
    )
}

} // verus!
