//! How a clip becomes a recording on disk: the files that make it up, and the steps that
//! bring them about.

use crate::clip::{paths_of, segment_paths, ClipSelection, SelectionView};
use crate::segments::SegmentMediaType;
use crate::text::joined_text;
use relative_path::RelativePathBuf;
use std::path::PathBuf;
use vstd::prelude::*;

verus! {

/// `relative_path::RelativePathBuf`, an owned path that is relative to a recording.
#[verifier::external_type_specification]
#[verifier::external_body]
pub struct ExRelativePathBuf(relative_path::RelativePathBuf);

/// The characters that a relative path is made of.
pub uninterp spec fn relative_path_text(path: RelativePathBuf) -> Seq<char>;

/// `RelativePathBuf::from` makes a path of exactly the characters of `text`.
#[verifier::external_body]
fn relative_path(text: &str) -> (r: RelativePathBuf)
    ensures
        relative_path_text(r) == text@,
{
    RelativePathBuf::from(text)
}

/// The name of the directory that holds all recordings, below the data of the
/// application.
pub const RECORDINGS_DIR: &'static str = "recordings";

/// The directories and files of a recording.
#[derive(Debug, Clone, Copy, PartialEq, Eq, Structural)]
pub enum ClipPlace {
    /// The directory of the recording itself.
    RecordingDir,
    ContentDir,
    SegmentDir,
    ScreenshotsDir,
    Output,
    Display,
    VideoPart,
    AudioPart,
    DecoderMarker,
    Thumbnail,
}

/// Where a place lies below the directory of the recording: the names from there down.
pub open spec fn place_names(place: ClipPlace) -> Seq<Seq<char>> {
    match place {
        ClipPlace::RecordingDir => seq![],
        ClipPlace::ContentDir => seq!["content"@],
        ClipPlace::SegmentDir => seq!["content"@, "segments"@, "segment-0"@],
        ClipPlace::ScreenshotsDir => seq!["screenshots"@],
        ClipPlace::Output => seq!["content"@, "output.mp4"@],
        ClipPlace::Display => seq!["content"@, "segments"@, "segment-0"@, "display.mp4"@],
        ClipPlace::VideoPart => seq!["content"@, "video.mp4"@],
        ClipPlace::AudioPart => seq!["content"@, "audio.mp4"@],
        ClipPlace::DecoderMarker => seq![".force-ffmpeg-decoder"@],
        ClipPlace::Thumbnail => seq!["screenshots"@, "display.jpg"@],
    }
}

/// The texts of some strings.
pub open spec fn texts_of(names: Seq<&'static str>) -> Seq<Seq<char>> {
    names.map_values(|name: &'static str| name@)
}

impl ClipPlace {
    /// Where the place lies below the directory of the recording: the names from there
    /// down.
    pub fn names(self) -> (r: Vec<&'static str>)
        ensures
            texts_of(r@) == place_names(self),
    {
        let names: Vec<&'static str> = match self {
            ClipPlace::RecordingDir => vec![],
            ClipPlace::ContentDir => vec!["content"],
            ClipPlace::SegmentDir => vec!["content", "segments", "segment-0"],
            ClipPlace::ScreenshotsDir => vec!["screenshots"],
            ClipPlace::Output => vec!["content", "output.mp4"],
            ClipPlace::Display => vec!["content", "segments", "segment-0", "display.mp4"],
            ClipPlace::VideoPart => vec!["content", "video.mp4"],
            ClipPlace::AudioPart => vec!["content", "audio.mp4"],
            ClipPlace::DecoderMarker => vec![".force-ffmpeg-decoder"],
            ClipPlace::Thumbnail => vec!["screenshots", "display.jpg"],
        };
        assert(texts_of(names@) =~= place_names(self));
        names
    }
}

/// What is written down of the video of a recording.
#[derive(Debug)]
pub struct VideoMeta {
    pub path: RelativePathBuf,
    pub fps: u32,
    /// Where the video starts, in nanoseconds.
    pub start_time: Option<u64>,
}

/// What is written down of a recording. It has one segment, with nothing but the
/// display in it.
#[derive(Debug)]
pub struct RecordingMeta {
    /// The directory that the project is kept in.
    pub project: ClipPlace,
    pub pretty_name: String,
    pub display: VideoMeta,
    pub complete: bool,
}

/// The contents of the description of a recording.
pub ghost struct MetaView {
    pub project: ClipPlace,
    pub pretty_name: Seq<char>,
    pub display_path: Seq<char>,
    pub fps: u32,
    pub start_time: Option<u64>,
    pub complete: bool,
}

impl View for RecordingMeta {
    type V = MetaView;

    open spec fn view(&self) -> MetaView {
        MetaView {
            project: self.project,
            pretty_name: self.pretty_name@,
            display_path: relative_path_text(self.display.path),
            fps: self.display.fps,
            start_time: self.display.start_time,
            complete: self.complete,
        }
    }
}

/// The one segment on the timeline of the project: times in nanoseconds.
#[derive(Debug, Clone, Copy, PartialEq, Eq, Structural)]
pub struct TimelineSegment {
    pub recording_clip: u32,
    pub timescale: u32,
    pub start: i128,
    pub end: i128,
}

/// The description of every clip.
pub open spec fn clip_meta() -> MetaView {
    MetaView {
        project: ClipPlace::RecordingDir,
        pretty_name: "Replay Clip"@,
        display_path: "content/segments/segment-0/display.mp4"@,
        fps: 30,
        start_time: Some(0),
        complete: true,
    }
}

/// A step that brings a clip about. Places are those of the recording.
#[derive(Debug)]
pub enum ClipStep {
    /// Create the directory of this name, which holds all recordings.
    CreateRecordingsDir(&'static str),
    /// Choose a name for the recording: this one, changed where it is taken.
    ChooseName(&'static str),
    CreateDir(ClipPlace),
    /// Put segments behind their initialisation part and write them as one file.
    Remux {
        media_type: SegmentMediaType,
        init: PathBuf,
        segments: Vec<PathBuf>,
        output: ClipPlace,
    },
    /// Write video and audio as one file.
    Merge { video: ClipPlace, audio: ClipPlace, output: ClipPlace },
    Move { from: ClipPlace, to: ClipPlace },
    Copy { from: ClipPlace, to: ClipPlace },
    /// Write an empty file.
    WriteMarker(ClipPlace),
    /// Write a picture of the video.
    Thumbnail { video: ClipPlace, output: ClipPlace },
    SaveMeta(RecordingMeta),
    /// Save the configuration of the project, with this segment on its timeline.
    SaveTimeline { project: ClipPlace, segment: TimelineSegment },
}

/// The contents of a `ClipStep`.
pub ghost enum ClipStepView {
    CreateRecordingsDir(Seq<char>),
    ChooseName(Seq<char>),
    CreateDir(ClipPlace),
    Remux {
        media_type: SegmentMediaType,
        init: PathBuf,
        segments: Seq<PathBuf>,
        output: ClipPlace,
    },
    Merge { video: ClipPlace, audio: ClipPlace, output: ClipPlace },
    Move { from: ClipPlace, to: ClipPlace },
    Copy { from: ClipPlace, to: ClipPlace },
    WriteMarker(ClipPlace),
    Thumbnail { video: ClipPlace, output: ClipPlace },
    SaveMeta(MetaView),
    SaveTimeline {
        project: ClipPlace,
        recording_clip: u32,
        timescale: u32,
        start: int,
        end: int,
    },
}

impl View for ClipStep {
    type V = ClipStepView;

    open spec fn view(&self) -> ClipStepView {
        match *self {
            ClipStep::CreateRecordingsDir(name) => ClipStepView::CreateRecordingsDir(name@),
            ClipStep::ChooseName(name) => ClipStepView::ChooseName(name@),
            ClipStep::CreateDir(place) => ClipStepView::CreateDir(place),
            ClipStep::Remux { media_type, init, segments, output } => ClipStepView::Remux {
                media_type,
                init,
                segments: segments@,
                output,
            },
            ClipStep::Merge { video, audio, output } => ClipStepView::Merge {
                video,
                audio,
                output,
            },
            ClipStep::Move { from, to } => ClipStepView::Move { from, to },
            ClipStep::Copy { from, to } => ClipStepView::Copy { from, to },
            ClipStep::WriteMarker(place) => ClipStepView::WriteMarker(place),
            ClipStep::Thumbnail { video, output } => ClipStepView::Thumbnail { video, output },
            ClipStep::SaveMeta(meta) => ClipStepView::SaveMeta(meta@),
            ClipStep::SaveTimeline { project, segment } => ClipStepView::SaveTimeline {
                project,
                recording_clip: segment.recording_clip,
                timescale: segment.timescale,
                start: segment.start as int,
                end: segment.end as int,
            },
        }
    }
}

/// The contents of some steps.
pub open spec fn step_views(steps: Seq<ClipStep>) -> Seq<ClipStepView> {
    steps.map_values(|step: ClipStep| step@)
}

/// Whether a clip has audio to merge.
pub open spec fn has_audio(clip: SelectionView) -> bool {
    clip.audio_init is Some && clip.audio_segments.len() > 0
}

/// The steps before there is any audio or any finished video.
pub open spec fn opening_steps(clip: SelectionView) -> Seq<ClipStepView> {
    seq![
        ClipStepView::CreateRecordingsDir(RECORDINGS_DIR@),
        ClipStepView::ChooseName("Replay Clip.cap"@),
        ClipStepView::CreateDir(ClipPlace::ContentDir),
        ClipStepView::CreateDir(ClipPlace::SegmentDir),
        ClipStepView::CreateDir(ClipPlace::ScreenshotsDir),
        ClipStepView::Remux {
            media_type: SegmentMediaType::Video,
            init: clip.video_init,
            segments: paths_of(clip.video_segments),
            output: ClipPlace::VideoPart,
        },
    ]
}

/// The steps that make the finished video of the video part: the audio is merged in, or
/// the part is the whole.
pub open spec fn display_steps(clip: SelectionView) -> Seq<ClipStepView> {
    if has_audio(clip) {
        seq![
            ClipStepView::Remux {
                media_type: SegmentMediaType::Audio,
                init: clip.audio_init->0,
                segments: paths_of(clip.audio_segments),
                output: ClipPlace::AudioPart,
            },
            ClipStepView::Merge {
                video: ClipPlace::VideoPart,
                audio: ClipPlace::AudioPart,
                output: ClipPlace::Display,
            },
        ]
    } else {
        seq![ClipStepView::Move { from: ClipPlace::VideoPart, to: ClipPlace::Display }]
    }
}

/// The steps after the finished video.
pub open spec fn closing_steps(clip: SelectionView) -> Seq<ClipStepView> {
    seq![
        ClipStepView::Copy { from: ClipPlace::Display, to: ClipPlace::Output },
        ClipStepView::WriteMarker(ClipPlace::DecoderMarker),
        ClipStepView::Thumbnail { video: ClipPlace::Display, output: ClipPlace::Thumbnail },
        ClipStepView::SaveMeta(clip_meta()),
        ClipStepView::SaveTimeline {
            project: ClipPlace::RecordingDir,
            recording_clip: 0,
            timescale: 1,
            start: 0,
            end: clip.duration,
        },
    ]
}

/// The steps that bring a clip about, in their order.
pub open spec fn clip_steps(clip: SelectionView) -> Seq<ClipStepView> {
    opening_steps(clip) + display_steps(clip) + closing_steps(clip)
}

/// The steps that bring a clip about, in their order.
pub fn materialize_clip(selection: &ClipSelection) -> (steps: Vec<ClipStep>)
    ensures
        step_views(steps@) == clip_steps(selection@),
{
    let mut steps: Vec<ClipStep> = Vec::new();
    steps.push(ClipStep::CreateRecordingsDir(RECORDINGS_DIR));
    steps.push(ClipStep::ChooseName("Replay Clip.cap"));
    steps.push(ClipStep::CreateDir(ClipPlace::ContentDir));
    steps.push(ClipStep::CreateDir(ClipPlace::SegmentDir));
    steps.push(ClipStep::CreateDir(ClipPlace::ScreenshotsDir));
    steps.push(
        ClipStep::Remux {
            media_type: SegmentMediaType::Video,
            init: selection.video_init.clone(),
            segments: segment_paths(&selection.video_segments),
            output: ClipPlace::VideoPart,
        },
    );
    assert(step_views(steps@) =~= opening_steps(selection@));
    let mut merged = false;
    if let Some(audio_init) = &selection.audio_init {
        if selection.audio_segments.len() > 0 {
            steps.push(
                ClipStep::Remux {
                    media_type: SegmentMediaType::Audio,
                    init: audio_init.clone(),
                    segments: segment_paths(&selection.audio_segments),
                    output: ClipPlace::AudioPart,
                },
            );
            steps.push(
                ClipStep::Merge {
                    video: ClipPlace::VideoPart,
                    audio: ClipPlace::AudioPart,
                    output: ClipPlace::Display,
                },
            );
            merged = true;
        }
    }
    if !merged {
        steps.push(ClipStep::Move { from: ClipPlace::VideoPart, to: ClipPlace::Display });
    }
    assert(step_views(steps@) =~= opening_steps(selection@) + display_steps(selection@));
    steps.push(ClipStep::Copy { from: ClipPlace::Display, to: ClipPlace::Output });
    steps.push(ClipStep::WriteMarker(ClipPlace::DecoderMarker));
    steps.push(
        ClipStep::Thumbnail { video: ClipPlace::Display, output: ClipPlace::Thumbnail },
    );
    steps.push(
        ClipStep::SaveMeta(
            RecordingMeta {
                project: ClipPlace::RecordingDir,
                pretty_name: "Replay Clip".to_owned(),
                display: VideoMeta {
                    path: relative_path("content/segments/segment-0/display.mp4"),
                    fps: 30,
                    start_time: Some(0),
                },
                complete: true,
            },
        ),
    );
    steps.push(
        ClipStep::SaveTimeline {
            project: ClipPlace::RecordingDir,
            segment: TimelineSegment {
                recording_clip: 0,
                timescale: 1,
                start: 0,
                end: selection.duration,
            },
        },
    );
    assert(step_views(steps@) =~= clip_steps(selection@));
    steps
}

/// How a step ended.
#[derive(Debug)]
pub enum StepOutcome {
    Done,
    /// The work failed.
    Failed(String),
    /// The background task that did the work broke down.
    TaskFailed(String),
}

/// How the report of a step that failed begins; `None` where the clip goes on without
/// the step.
pub open spec fn failure_prefix(step: ClipStepView) -> Option<Seq<char>> {
    match step {
        ClipStepView::CreateRecordingsDir(_) => Some("Failed to create recordings directory: "@),
        ClipStepView::ChooseName(_) => Some("Failed to choose replay clip filename: "@),
        ClipStepView::CreateDir(ClipPlace::ContentDir) => Some(
            "Failed to create replay clip content directory: "@,
        ),
        ClipStepView::CreateDir(ClipPlace::SegmentDir) => Some(
            "Failed to create replay clip segment directory: "@,
        ),
        ClipStepView::CreateDir(_) => Some("Failed to create replay clip screenshots directory: "@),
        ClipStepView::Remux { media_type: SegmentMediaType::Video, .. } => Some(
            "Failed to remux replay video: "@,
        ),
        ClipStepView::Remux { media_type: SegmentMediaType::Audio, .. } => Some(
            "Failed to remux replay audio: "@,
        ),
        ClipStepView::Merge { .. } => Some("Failed to merge replay clip audio: "@),
        ClipStepView::Move { .. } => Some("Failed to move replay video output: "@),
        ClipStepView::Copy { .. } => None,
        ClipStepView::WriteMarker(_) => Some("Failed to write replay clip decoder marker: "@),
        ClipStepView::Thumbnail { .. } => None,
        ClipStepView::SaveMeta(_) => Some("Failed to save replay clip metadata: "@),
        ClipStepView::SaveTimeline { .. } => Some("Failed to save replay clip config: "@),
    }
}

/// How the report begins where the background task of a step broke down.
pub open spec fn task_failure_prefix(step: ClipStepView) -> Option<Seq<char>> {
    match step {
        ClipStepView::Remux { media_type: SegmentMediaType::Video, .. } => Some(
            "Replay clip video remux task failed: "@,
        ),
        ClipStepView::Remux { media_type: SegmentMediaType::Audio, .. } => Some(
            "Replay clip audio remux task failed: "@,
        ),
        ClipStepView::Merge { .. } => Some("Replay clip merge task failed: "@),
        _ => failure_prefix(step),
    }
}

/// What a clip fails with after a step; `None` where it goes on.
pub open spec fn failure_after(step: ClipStepView, outcome: StepOutcome) -> Option<Seq<char>> {
    match outcome {
        StepOutcome::Done => None,
        StepOutcome::Failed(why) => match failure_prefix(step) {
            Some(prefix) => Some(prefix + why@),
            None => None,
        },
        StepOutcome::TaskFailed(why) => match task_failure_prefix(step) {
            Some(prefix) => Some(prefix + why@),
            None => None,
        },
    }
}

/// The text of an optional string slice.
pub open spec fn optional_str(s: Option<&'static str>) -> Option<Seq<char>> {
    match s {
        Some(s) => Some(s@),
        None => None,
    }
}

fn begin_failure(step: &ClipStep) -> (r: Option<&'static str>)
    ensures
        optional_str(r) == failure_prefix(step@),
{
    match step {
        ClipStep::CreateRecordingsDir(_) => Some("Failed to create recordings directory: "),
        ClipStep::ChooseName(_) => Some("Failed to choose replay clip filename: "),
        ClipStep::CreateDir(ClipPlace::ContentDir) => Some(
            "Failed to create replay clip content directory: ",
        ),
        ClipStep::CreateDir(ClipPlace::SegmentDir) => Some(
            "Failed to create replay clip segment directory: ",
        ),
        ClipStep::CreateDir(_) => Some("Failed to create replay clip screenshots directory: "),
        ClipStep::Remux { media_type: SegmentMediaType::Video, .. } => Some(
            "Failed to remux replay video: ",
        ),
        ClipStep::Remux { media_type: SegmentMediaType::Audio, .. } => Some(
            "Failed to remux replay audio: ",
        ),
        ClipStep::Merge { .. } => Some("Failed to merge replay clip audio: "),
        ClipStep::Move { .. } => Some("Failed to move replay video output: "),
        ClipStep::Copy { .. } => None,
        ClipStep::WriteMarker(_) => Some("Failed to write replay clip decoder marker: "),
        ClipStep::Thumbnail { .. } => None,
        ClipStep::SaveMeta(_) => Some("Failed to save replay clip metadata: "),
        ClipStep::SaveTimeline { .. } => Some("Failed to save replay clip config: "),
    }
}

fn begin_task_failure(step: &ClipStep) -> (r: Option<&'static str>)
    ensures
        optional_str(r) == task_failure_prefix(step@),
{
    match step {
        ClipStep::Remux { media_type: SegmentMediaType::Video, .. } => Some(
            "Replay clip video remux task failed: ",
        ),
        ClipStep::Remux { media_type: SegmentMediaType::Audio, .. } => Some(
            "Replay clip audio remux task failed: ",
        ),
        ClipStep::Merge { .. } => Some("Replay clip merge task failed: "),
        _ => begin_failure(step),
    }
}

/// Decides whether a clip goes on after a step. The copy for older readers and the
/// thumbnail may fail; any other failure ends the clip.
pub fn settle_step(step: &ClipStep, outcome: StepOutcome) -> (r: Result<(), String>)
    ensures
        match failure_after(step@, outcome) {
            Some(message) => r matches Err(text) && text@ == message,
            None => r is Ok,
        },
{
    let (begin, why) = match outcome {
        StepOutcome::Done => return Ok(()),
        StepOutcome::Failed(why) => (begin_failure(step), why),
        StepOutcome::TaskFailed(why) => (begin_task_failure(step), why),
    };
    match begin {
        Some(begin) => Err(joined_text(begin, why.as_str())),
        None => Ok(()),
    }
}

} // verus!
