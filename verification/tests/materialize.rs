use replay_buffer::clip::ClipSelection;
use replay_buffer::materialize::{
    materialize_clip, settle_step, ClipPlace, ClipStep, StepOutcome, TimelineSegment,
};
use replay_buffer::segments::{SegmentMediaType, SegmentRecord};
use std::path::PathBuf;

fn segments(name: &str) -> Vec<SegmentRecord> {
    (0..2)
        .map(|i| SegmentRecord {
            path: PathBuf::from(format!("{name}_{i}")),
            index: i,
            start: i as u64 * 10,
            end: i as u64 * 10 + 10,
        })
        .collect()
}

fn selection(audio_init: Option<&str>, audio_segments: Vec<SegmentRecord>) -> ClipSelection {
    ClipSelection {
        video_init: PathBuf::from("video_init"),
        audio_init: audio_init.map(PathBuf::from),
        video_segments: segments("video"),
        audio_segments,
        duration: 20,
        protected_paths: Vec::new(),
    }
}

fn kinds(steps: &[ClipStep]) -> Vec<&'static str> {
    steps
        .iter()
        .map(|step| match step {
            ClipStep::CreateRecordingsDir(_) => "recordings",
            ClipStep::ChooseName(_) => "name",
            ClipStep::CreateDir(ClipPlace::ContentDir) => "content",
            ClipStep::CreateDir(ClipPlace::SegmentDir) => "segment",
            ClipStep::CreateDir(ClipPlace::ScreenshotsDir) => "screenshots",
            ClipStep::CreateDir(_) => "other",
            ClipStep::Remux { media_type: SegmentMediaType::Video, .. } => "video",
            ClipStep::Remux { media_type: SegmentMediaType::Audio, .. } => "audio",
            ClipStep::Merge { .. } => "merge",
            ClipStep::Move { .. } => "move",
            ClipStep::Copy { .. } => "copy",
            ClipStep::WriteMarker(_) => "marker",
            ClipStep::Thumbnail { .. } => "thumbnail",
            ClipStep::SaveMeta(_) => "meta",
            ClipStep::SaveTimeline { .. } => "timeline",
        })
        .collect()
}

#[test]
fn a_clip_without_audio_is_moved_into_place() {
    let expected = [
        "recordings",
        "name",
        "content",
        "segment",
        "screenshots",
        "video",
        "move",
        "copy",
        "marker",
        "thumbnail",
        "meta",
        "timeline",
    ];
    for selection in [
        selection(None, Vec::new()),
        selection(None, segments("audio")),
        selection(Some("audio_init"), Vec::new()),
    ] {
        let steps = materialize_clip(&selection);
        assert_eq!(kinds(&steps), expected);
        match &steps[6] {
            ClipStep::Move { from, to } => {
                assert_eq!((*from, *to), (ClipPlace::VideoPart, ClipPlace::Display))
            }
            other => panic!("{other:?}"),
        }
    }
}

#[test]
fn a_clip_with_audio_is_merged() {
    let steps = materialize_clip(&selection(Some("audio_init"), segments("audio")));
    assert_eq!(kinds(&steps)[5..9], ["video", "audio", "merge", "copy"]);
    match &steps[6] {
        ClipStep::Remux { init, segments, output, .. } => {
            assert_eq!(*init, PathBuf::from("audio_init"));
            assert_eq!(*segments, [PathBuf::from("audio_0"), PathBuf::from("audio_1")]);
            assert_eq!(*output, ClipPlace::AudioPart);
        }
        other => panic!("{other:?}"),
    }
    match &steps[7] {
        ClipStep::Merge { video, audio, output } => assert_eq!(
            (*video, *audio, *output),
            (ClipPlace::VideoPart, ClipPlace::AudioPart, ClipPlace::Display)
        ),
        other => panic!("{other:?}"),
    }
}

#[test]
fn the_steps_carry_what_they_need() {
    let steps = materialize_clip(&selection(None, Vec::new()));
    match &steps[0] {
        ClipStep::CreateRecordingsDir(name) => assert_eq!(*name, "recordings"),
        other => panic!("{other:?}"),
    }
    match &steps[1] {
        ClipStep::ChooseName(name) => assert_eq!(*name, "Replay Clip.cap"),
        other => panic!("{other:?}"),
    }
    match &steps[5] {
        ClipStep::Remux { init, segments, output, .. } => {
            assert_eq!(*init, PathBuf::from("video_init"));
            assert_eq!(*segments, [PathBuf::from("video_0"), PathBuf::from("video_1")]);
            assert_eq!(*output, ClipPlace::VideoPart);
        }
        other => panic!("{other:?}"),
    }
    match &steps[7] {
        ClipStep::Copy { from, to } => {
            assert_eq!((*from, *to), (ClipPlace::Display, ClipPlace::Output))
        }
        other => panic!("{other:?}"),
    }
    match &steps[10] {
        ClipStep::SaveMeta(meta) => {
            assert_eq!(meta.project, ClipPlace::RecordingDir);
            assert_eq!(meta.pretty_name, "Replay Clip");
            assert_eq!(meta.display.path.as_str(), "content/segments/segment-0/display.mp4");
            assert_eq!(meta.display.path.file_name(), Some("display.mp4"));
            assert_eq!(meta.display.fps, 30);
            assert_eq!(meta.display.start_time, Some(0));
            assert!(meta.complete);
        }
        other => panic!("{other:?}"),
    }
    match &steps[11] {
        ClipStep::SaveTimeline { project, segment } => {
            assert_eq!(*project, ClipPlace::RecordingDir);
            assert_eq!(
                *segment,
                TimelineSegment { recording_clip: 0, timescale: 1, start: 0, end: 20 }
            );
        }
        other => panic!("{other:?}"),
    }
}

#[test]
fn places_lie_where_they_should() {
    let below = |place: ClipPlace| place.names().join("/");
    assert!(ClipPlace::RecordingDir.names().is_empty());
    assert_eq!(below(ClipPlace::ContentDir), "content");
    assert_eq!(below(ClipPlace::SegmentDir), "content/segments/segment-0");
    assert_eq!(below(ClipPlace::ScreenshotsDir), "screenshots");
    assert_eq!(below(ClipPlace::Output), "content/output.mp4");
    assert_eq!(below(ClipPlace::Display), "content/segments/segment-0/display.mp4");
    assert_eq!(below(ClipPlace::VideoPart), "content/video.mp4");
    assert_eq!(below(ClipPlace::AudioPart), "content/audio.mp4");
    assert_eq!(below(ClipPlace::DecoderMarker), ".force-ffmpeg-decoder");
    assert_eq!(below(ClipPlace::Thumbnail), "screenshots/display.jpg");
}

#[test]
fn each_failure_of_a_step_has_its_report() {
    let without_audio = materialize_clip(&selection(None, Vec::new()));
    let with_audio = materialize_clip(&selection(Some("audio_init"), segments("audio")));
    let failed = |step: &ClipStep| settle_step(step, StepOutcome::Failed("why".to_string()));
    let reports = [
        (&without_audio[0], "Failed to create recordings directory: why"),
        (&without_audio[1], "Failed to choose replay clip filename: why"),
        (&without_audio[2], "Failed to create replay clip content directory: why"),
        (&without_audio[3], "Failed to create replay clip segment directory: why"),
        (&without_audio[4], "Failed to create replay clip screenshots directory: why"),
        (&without_audio[5], "Failed to remux replay video: why"),
        (&with_audio[6], "Failed to remux replay audio: why"),
        (&with_audio[7], "Failed to merge replay clip audio: why"),
        (&without_audio[6], "Failed to move replay video output: why"),
        (&without_audio[8], "Failed to write replay clip decoder marker: why"),
        (&without_audio[10], "Failed to save replay clip metadata: why"),
        (&without_audio[11], "Failed to save replay clip config: why"),
    ];
    for (step, report) in reports {
        assert_eq!(failed(step).unwrap_err(), report);
        assert!(settle_step(step, StepOutcome::Done).is_ok());
    }
}

#[test]
fn the_copy_and_the_thumbnail_may_fail() {
    let steps = materialize_clip(&selection(None, Vec::new()));
    for step in [&steps[7], &steps[9]] {
        assert!(settle_step(step, StepOutcome::Failed("why".to_string())).is_ok());
    }
}

#[test]
fn a_task_that_breaks_down_has_a_report_of_its_own() {
    let steps = materialize_clip(&selection(Some("audio_init"), segments("audio")));
    let broken = |i: usize| {
        settle_step(&steps[i], StepOutcome::TaskFailed("why".to_string())).unwrap_err()
    };
    assert_eq!(broken(5), "Replay clip video remux task failed: why");
    assert_eq!(broken(6), "Replay clip audio remux task failed: why");
    assert_eq!(broken(7), "Replay clip merge task failed: why");
}

#[test]
fn the_description_names_the_place_of_the_video() {
    let steps = materialize_clip(&selection(None, Vec::new()));
    let described = steps.iter().find_map(|step| match step {
        ClipStep::SaveMeta(meta) => Some(meta.display.path.as_str().to_string()),
        _ => None,
    });
    assert_eq!(described.unwrap(), ClipPlace::Display.names().join("/"));
}

#[test]
fn a_clip_fails_with_the_first_step_that_may_not_fail() {
    let run = |failing: &[usize]| {
        for (i, step) in materialize_clip(&selection(None, Vec::new())).iter().enumerate() {
            let outcome = if failing.contains(&i) {
                StepOutcome::Failed(i.to_string())
            } else {
                StepOutcome::Done
            };
            settle_step(step, outcome)?;
        }
        Ok::<(), String>(())
    };
    assert_eq!(run(&[]), Ok(()));
    assert_eq!(run(&[7, 9]), Ok(()));
    assert_eq!(run(&[7, 8, 10]), Err("Failed to write replay clip decoder marker: 8".to_string()));
    assert_eq!(run(&[0, 11]), Err("Failed to create recordings directory: 0".to_string()));
}

/// Every file that a step reads was written by a step before it.
#[test]
fn steps_read_only_what_was_written() {
    for selection in [selection(None, Vec::new()), selection(Some("init"), segments("audio"))] {
        let mut written = Vec::new();
        let recording = ClipPlace::RecordingDir;
        for step in materialize_clip(&selection) {
            let (read, made) = match step {
                ClipStep::Remux { output, .. } => (vec![ClipPlace::ContentDir], Some(output)),
                ClipStep::Merge { video, audio, output } => {
                    (vec![video, audio, ClipPlace::SegmentDir], Some(output))
                }
                ClipStep::Move { from, to } => (vec![from, ClipPlace::SegmentDir], Some(to)),
                ClipStep::Copy { from, to } => (vec![from, ClipPlace::ContentDir], Some(to)),
                ClipStep::Thumbnail { video, output } => {
                    (vec![video, ClipPlace::ScreenshotsDir], Some(output))
                }
                ClipStep::CreateDir(dir) => {
                    written.push(recording);
                    (Vec::new(), Some(dir))
                }
                ClipStep::WriteMarker(marker) => (vec![recording], Some(marker)),
                ClipStep::SaveMeta(meta) => (vec![meta.project], None),
                ClipStep::SaveTimeline { project, .. } => (vec![project], None),
                _ => (Vec::new(), None),
            };
            for place in read {
                assert!(written.contains(&place), "{place:?}");
            }
            written.extend(made);
        }
        assert!(written.contains(&ClipPlace::Display));
    }
}
