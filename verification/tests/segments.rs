use replay_buffer::paths::PathSet;
use replay_buffer::segments::{
    prune_segments, SegmentCompletedEvent, SegmentMediaType, SegmentRecord, SegmentTracker,
};
use replay_buffer::settings::NANOS_PER_SEC;
use std::path::PathBuf;

fn secs(n: u64) -> u64 {
    n * NANOS_PER_SEC
}

fn segment(index: u32, start: u64, end: u64) -> SegmentRecord {
    SegmentRecord {
        path: PathBuf::from(format!("segment_{index:03}.m4s")),
        index,
        start: secs(start),
        end: secs(end),
    }
}

fn event(media_type: SegmentMediaType, index: u32, duration: i64) -> SegmentCompletedEvent {
    SegmentCompletedEvent {
        path: PathBuf::from(format!("{media_type:?}_{index}")),
        index,
        duration,
        is_init: false,
        media_type,
    }
}

fn indices(segments: &[SegmentRecord]) -> Vec<u32> {
    segments.iter().map(|s| s.index).collect()
}

#[test]
fn prune_keeps_protected_segments() {
    let mut tracker = SegmentTracker {
        video_segments: vec![segment(1, 0, 2), segment(2, 2, 4)],
        ..Default::default()
    };
    let protected = tracker.video_segments[0].path.clone();
    tracker.protect(&[protected]);
    tracker.prune(secs(1));

    assert_eq!(tracker.video_segments.len(), 2);
}

#[test]
fn prune_retains_requested_window_and_removes_older_segments() {
    let mut tracker = SegmentTracker {
        video_segments: vec![
            segment(1, 0, 2),
            segment(2, 2, 4),
            segment(3, 4, 6),
            segment(4, 6, 8),
            segment(5, 8, 10),
        ],
        ..Default::default()
    };

    tracker.prune(secs(5));

    assert_eq!(tracker.video_segments.first().unwrap().index, 3);
    assert!(
        tracker.video_segments.last().unwrap().end - tracker.video_segments[0].start >= secs(5)
    );
}

#[test]
fn prune_returns_what_it_removes() {
    let mut tracker = SegmentTracker {
        video_segments: vec![segment(1, 0, 2), segment(2, 2, 4), segment(3, 4, 6)],
        audio_segments: vec![segment(11, 0, 1), segment(12, 1, 3), segment(13, 3, 6)],
        ..Default::default()
    };
    let removed = tracker.prune(secs(2));
    assert_eq!(indices(&removed), [1, 11, 12]);
    assert_eq!(indices(&tracker.video_segments), [2, 3]);
    assert_eq!(indices(&tracker.audio_segments), [13]);
    assert!(tracker.prune(secs(2)).is_empty());
    assert_eq!(indices(&tracker.video_segments), [2, 3]);
}

#[test]
fn prune_stops_at_the_first_protected_segment() {
    let mut tracker = SegmentTracker {
        video_segments: vec![segment(1, 0, 2), segment(2, 2, 4), segment(3, 4, 6), segment(4, 6, 8)],
        ..Default::default()
    };
    let protected = [PathBuf::from("segment_002.m4s")];
    tracker.protect(&protected);
    assert_eq!(indices(&tracker.prune(0)), [1]);
    assert_eq!(indices(&tracker.video_segments), [2, 3, 4]);
    tracker.unprotect(&protected);
    assert_eq!(indices(&tracker.prune(0)), [2, 3]);
    assert_eq!(indices(&tracker.video_segments), [4]);
}

#[test]
fn a_segment_that_ends_at_the_cutoff_stays() {
    let mut segments = vec![segment(1, 0, 2), segment(2, 2, 4)];
    assert!(prune_segments(&mut segments, secs(2), &PathSet::new()).is_empty());
    assert_eq!(indices(&prune_segments(&mut segments, secs(2) + 1, &PathSet::new())), [1]);
    assert_eq!(indices(&prune_segments(&mut segments, secs(9), &PathSet::new())), [2]);
    assert!(segments.is_empty());
}

#[test]
fn an_empty_tracker_has_nothing_to_prune() {
    let mut tracker = SegmentTracker::default();
    assert!(tracker.prune(0).is_empty());
    assert!(tracker.video_segments.is_empty());
}

#[test]
fn audio_without_video_is_not_pruned() {
    let mut tracker = SegmentTracker {
        audio_segments: vec![segment(1, 0, 2)],
        ..Default::default()
    };
    assert!(tracker.prune(0).is_empty());
}

#[test]
fn init_parts_are_kept_apart_from_segments() {
    let mut tracker = SegmentTracker::default();
    for (media_type, name) in [
        (SegmentMediaType::Video, "old.mp4"),
        (SegmentMediaType::Video, "video.mp4"),
        (SegmentMediaType::Audio, "audio.mp4"),
    ] {
        tracker.record(SegmentCompletedEvent {
            path: PathBuf::from(name),
            index: 0,
            duration: 5,
            is_init: true,
            media_type,
        });
    }
    assert_eq!(tracker.video_init, Some(PathBuf::from("video.mp4")));
    assert_eq!(tracker.audio_init, Some(PathBuf::from("audio.mp4")));
    assert!(tracker.video_segments.is_empty() && tracker.audio_segments.is_empty());
}

#[test]
fn segments_follow_each_other() {
    let mut tracker = SegmentTracker::default();
    tracker.record(event(SegmentMediaType::Video, 1, 20));
    tracker.record(event(SegmentMediaType::Audio, 1, 7));
    tracker.record(event(SegmentMediaType::Video, 2, -3));
    tracker.record(event(SegmentMediaType::Video, 3, 5));
    let times: Vec<(u64, u64)> =
        tracker.video_segments.iter().map(|s| (s.start, s.end)).collect();
    assert_eq!(times, [(0, 20), (20, 20), (20, 25)]);
    assert_eq!(tracker.video_segments[2].path, PathBuf::from("Video_3"));
    assert_eq!(tracker.video_segments[2].index, 3);
    assert_eq!((tracker.audio_segments[0].start, tracker.audio_segments[0].end), (0, 7));
}

#[test]
fn time_stops_at_its_greatest_value() {
    let mut tracker = SegmentTracker {
        video_segments: vec![SegmentRecord {
            path: PathBuf::from("a"),
            index: 1,
            start: 0,
            end: u64::MAX - 1,
        }],
        ..Default::default()
    };
    tracker.record(event(SegmentMediaType::Video, 2, 5));
    assert_eq!(tracker.video_segments[1].start, u64::MAX - 1);
    assert_eq!(tracker.video_segments[1].end, u64::MAX);
}

#[test]
fn a_snapshot_is_a_copy() {
    let mut tracker = SegmentTracker::default();
    tracker.record(event(SegmentMediaType::Video, 1, 20));
    let snapshot = tracker.snapshot();
    tracker.record(event(SegmentMediaType::Video, 2, 20));
    assert_eq!(snapshot.video_segments.len(), 1);
    assert_eq!(snapshot.clone().video_segments[0].end, 20);
    assert_eq!(snapshot.video_init, None);
}

#[test]
fn unprotect_undoes_protect() {
    let mut tracker = SegmentTracker::default();
    let before = PathBuf::from("before");
    let paths = [PathBuf::from("a"), PathBuf::from("b"), PathBuf::from("a")];
    tracker.protect(&[before.clone()]);
    tracker.protect(&paths);
    assert!(tracker.protected_paths.contains(&paths[0]));
    assert!(tracker.protected_paths.contains(&paths[1]));
    tracker.unprotect(&paths);
    assert!(!tracker.protected_paths.contains(&paths[0]));
    assert!(!tracker.protected_paths.contains(&paths[1]));
    assert!(tracker.protected_paths.contains(&before));
}

#[test]
fn paths_are_compared_as_paths() {
    let mut set = PathSet::default();
    set.insert(PathBuf::from("a/b"));
    assert!(set.contains(&PathBuf::from("a//b/")));
    set.insert(PathBuf::from("a/./b"));
    set.remove(&PathBuf::from("a/b"));
    assert!(!set.contains(&PathBuf::from("a/b")));
    set.remove(&PathBuf::from("absent"));
}

#[test]
fn timelines_have_no_gaps_after_pruning() {
    let mut tracker = SegmentTracker::default();
    for index in 0..50 {
        tracker.record(event(SegmentMediaType::Video, index, i64::from(index % 7)));
        tracker.record(event(SegmentMediaType::Audio, index, i64::from(index % 5)));
        let latest = tracker.video_segments.last().unwrap().end;
        tracker.prune(10);
        assert_eq!(tracker.video_segments.last().unwrap().end, latest);
        for segments in [&tracker.video_segments, &tracker.audio_segments] {
            for pair in segments.windows(2) {
                assert_eq!(pair[0].end, pair[1].start);
            }
            assert!(segments.iter().all(|s| s.start <= s.end));
        }
    }
    assert_eq!(tracker.video_segments.last().unwrap().end, (0..50).map(|i| i % 7).sum());
}

#[test]
fn an_emptied_audio_timeline_starts_anew() {
    let mut tracker = SegmentTracker::default();
    tracker.record(event(SegmentMediaType::Audio, 1, 5));
    tracker.record(event(SegmentMediaType::Video, 1, 100));
    assert_eq!(indices(&tracker.prune(10)), [1]);
    assert!(tracker.audio_segments.is_empty());
    tracker.record(event(SegmentMediaType::Audio, 2, 5));
    assert_eq!(tracker.audio_segments[0].start, 0);
}

/// Of files that had been protected before, handing back leaves none protected.
#[test]
fn unprotect_takes_away_what_was_protected_before() {
    let mut tracker = SegmentTracker::default();
    let (a, b) = (PathBuf::from("a"), PathBuf::from("b"));
    tracker.protect(&[a.clone(), b.clone()]);
    tracker.protect(&[b.clone()]);
    tracker.unprotect(&[b.clone()]);
    assert!(tracker.protected_paths.contains(&a));
    assert!(!tracker.protected_paths.contains(&b));
}

#[test]
fn a_longer_retention_never_keeps_less() {
    let left = |retain: u64| {
        let mut tracker = SegmentTracker {
            video_segments: (0..10u32).map(|i| segment(i, i.into(), u64::from(i) + 1)).collect(),
            audio_segments: (0..8u32).map(|i| segment(i, i.into(), u64::from(i) + 1)).collect(),
            ..Default::default()
        };
        tracker.prune(secs(retain));
        (indices(&tracker.video_segments), indices(&tracker.audio_segments))
    };
    assert_eq!(left(0), (vec![9], Vec::new()));
    assert_eq!(left(3), (vec![6, 7, 8, 9], vec![6, 7]));
    for retain in 0..12 {
        let (video, audio) = left(retain);
        let (more_video, more_audio) = left(retain + 1);
        assert!(more_video.ends_with(&video));
        assert!(more_audio.ends_with(&audio));
    }
}
