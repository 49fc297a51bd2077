use replay_buffer::clip::{segment_paths, select_clip_segments};
use replay_buffer::segments::{
    SegmentCompletedEvent, SegmentMediaType, SegmentRecord, SegmentSnapshot, SegmentTracker,
};
use replay_buffer::settings::{ReplayBufferSettings, NANOS_PER_SEC};
use std::path::PathBuf;

fn secs(n: u64) -> u64 {
    n * NANOS_PER_SEC
}

fn segment(index: u32, start: u64, end: u64) -> SegmentRecord {
    SegmentRecord {
        path: PathBuf::from(format!("segment_{index:03}.m4s")),
        index,
        start: secs(start),
        end: secs(end),
    }
}

fn audio(index: u32, start: u64, end: u64) -> SegmentRecord {
    SegmentRecord { path: PathBuf::from(format!("audio_{index}")), ..segment(index, start, end) }
}

fn indices(segments: &[SegmentRecord]) -> Vec<u32> {
    segments.iter().map(|s| s.index).collect()
}

fn four_segments() -> SegmentSnapshot {
    SegmentSnapshot {
        video_init: Some(PathBuf::from("init.mp4")),
        audio_init: None,
        video_segments: vec![
            segment(1, 0, 2),
            segment(2, 2, 4),
            segment(3, 4, 6),
            segment(4, 6, 8),
        ],
        audio_segments: Vec::new(),
    }
}

#[test]
fn select_clip_rounds_outward_to_segment_boundaries() {
    let snapshot = SegmentSnapshot {
        video_init: Some(PathBuf::from("init.mp4")),
        audio_init: None,
        video_segments: vec![
            segment(1, 0, 2),
            segment(2, 2, 4),
            segment(3, 4, 6),
            segment(4, 6, 8),
        ],
        audio_segments: Vec::new(),
    };

    let selected = select_clip_segments(&snapshot, secs(3)).unwrap();

    assert_eq!(selected.video_segments.first().unwrap().index, 3);
    assert!(selected.duration >= secs(3) as i128);
}

#[test]
fn a_clip_on_a_boundary_is_not_rounded() {
    let selected = select_clip_segments(&four_segments(), secs(4)).unwrap();
    assert_eq!(indices(&selected.video_segments), [3, 4]);
    assert_eq!(selected.duration, secs(4) as i128);
}

#[test]
fn a_long_clip_takes_all_there_is() {
    let selected = select_clip_segments(&four_segments(), secs(60)).unwrap();
    assert_eq!(indices(&selected.video_segments), [1, 2, 3, 4]);
    assert_eq!(selected.duration, secs(8) as i128);
}

#[test]
fn there_is_no_clip_of_nothing() {
    assert!(select_clip_segments(&four_segments(), 0).is_none());
    let without_init = SegmentSnapshot { video_init: None, ..four_segments() };
    assert!(select_clip_segments(&without_init, secs(3)).is_none());
    let without_video = SegmentSnapshot { video_segments: Vec::new(), ..four_segments() };
    assert!(select_clip_segments(&without_video, secs(3)).is_none());
}

#[test]
fn audio_goes_with_the_video_of_the_same_index() {
    let snapshot = SegmentSnapshot {
        audio_init: Some(PathBuf::from("audio.mp4")),
        audio_segments: vec![audio(2, 2, 4), audio(3, 4, 6), audio(4, 6, 8), audio(5, 8, 9)],
        ..four_segments()
    };
    let selected = select_clip_segments(&snapshot, secs(3)).unwrap();
    assert_eq!(indices(&selected.audio_segments), [3, 4]);
    assert_eq!(selected.video_init, PathBuf::from("init.mp4"));
    assert_eq!(selected.audio_init, Some(PathBuf::from("audio.mp4")));
    let names = [
        "init.mp4",
        "audio.mp4",
        "segment_003.m4s",
        "segment_004.m4s",
        "audio_3",
        "audio_4",
    ];
    let paths: Vec<PathBuf> = names.iter().map(PathBuf::from).collect();
    assert_eq!(selected.protected_paths, paths);
    assert_eq!(segment_paths(&selected.audio_segments), paths[4..]);
}

#[test]
fn without_audio_segments_there_is_no_audio_init() {
    let snapshot = SegmentSnapshot {
        audio_init: Some(PathBuf::from("audio.mp4")),
        audio_segments: vec![audio(1, 0, 2)],
        ..four_segments()
    };
    let selected = select_clip_segments(&snapshot, secs(3)).unwrap();
    assert!(selected.audio_segments.is_empty());
    assert_eq!(selected.audio_init, None);
    assert_eq!(selected.protected_paths.len(), 3);
}

#[test]
fn a_timeline_that_runs_backwards_gives_a_negative_length() {
    let snapshot = SegmentSnapshot {
        video_segments: vec![segment(1, 9, 12), segment(2, 2, 4)],
        ..four_segments()
    };
    let selected = select_clip_segments(&snapshot, secs(3)).unwrap();
    assert_eq!(indices(&selected.video_segments), [1, 2]);
    assert_eq!(selected.duration, -(secs(5) as i128));
}

fn long_session() -> SegmentTracker {
    let mut tracker = SegmentTracker::default();
    tracker.record(SegmentCompletedEvent {
        path: PathBuf::from("init.mp4"),
        index: 0,
        duration: 0,
        is_init: true,
        media_type: SegmentMediaType::Video,
    });
    for index in 1..=200 {
        for media_type in [SegmentMediaType::Video, SegmentMediaType::Audio] {
            tracker.record(SegmentCompletedEvent {
                path: PathBuf::from(format!("{media_type:?}_{index}")),
                index,
                duration: 2 * NANOS_PER_SEC as i64,
                is_init: false,
                media_type,
            });
        }
    }
    tracker
}

#[test]
fn pruning_by_the_settings_leaves_the_clip_as_it_was() {
    let settings = ReplayBufferSettings::default();
    let mut tracker = long_session();
    let before = select_clip_segments(&tracker.snapshot(), settings.clip_length()).unwrap();
    let removed = tracker.prune(settings.retention());
    assert_eq!(removed.len(), 2 * 152);
    let after = select_clip_segments(&tracker.snapshot(), settings.clip_length()).unwrap();
    assert_eq!(indices(&before.video_segments), indices(&after.video_segments));
    assert_eq!(indices(&before.audio_segments), indices(&after.audio_segments));
    assert_eq!(before.duration, after.duration);
    assert_eq!(before.duration, secs(30) as i128);
    assert_eq!(before.protected_paths, after.protected_paths);
}

#[test]
fn a_protected_clip_survives_pruning() {
    let mut tracker = long_session();
    let selected = select_clip_segments(&tracker.snapshot(), secs(10)).unwrap();
    tracker.protect(&selected.protected_paths);
    for index in 201..=300 {
        tracker.record(SegmentCompletedEvent {
            path: PathBuf::from(format!("late_{index}")),
            index,
            duration: 2 * NANOS_PER_SEC as i64,
            is_init: false,
            media_type: SegmentMediaType::Video,
        });
        tracker.prune(0);
    }
    for segment in &selected.video_segments {
        assert!(tracker.video_segments.iter().any(|s| s.path == segment.path));
    }
    for segment in &selected.audio_segments {
        assert!(tracker.audio_segments.iter().any(|s| s.path == segment.path));
    }
    tracker.unprotect(&selected.protected_paths);
    tracker.prune(0);
    assert_eq!(indices(&tracker.video_segments), [300]);
}

/// A clip of a longer time has all the segments of a shorter one.
#[test]
fn a_longer_clip_loses_no_segment() {
    let mut snapshot = four_segments();
    snapshot.audio_init = Some(PathBuf::from("audio_init.mp4"));
    snapshot.audio_segments = vec![audio(2, 2, 4), audio(4, 6, 8)];
    for (shorter, longer) in [(1, 3), (3, 4), (4, 60), (5, 5)] {
        let less = select_clip_segments(&snapshot, secs(shorter)).unwrap();
        let more = select_clip_segments(&snapshot, secs(longer)).unwrap();
        let (video, all_video) = (indices(&less.video_segments), indices(&more.video_segments));
        assert!(all_video.ends_with(&video));
        let (sound, all_sound) = (indices(&less.audio_segments), indices(&more.audio_segments));
        assert!(all_sound.ends_with(&sound));
        assert_eq!(more.audio_init, less.audio_init);
        assert!(less.duration <= more.duration);
    }
}
