//! What holds of the steps that bring a clip about.

use crate::clip::{clip_audio, selection_of, ClipSelection, SelectionView};
use crate::clip_laws::law_segment_paths;
use crate::materialize::{
    clip_meta, clip_steps, closing_steps, display_steps, failure_after, has_audio, opening_steps,
    place_names, relative_path_text, step_views, ClipPlace, ClipStep, ClipStepView, RecordingMeta,
    StepOutcome, TimelineSegment,
};
use crate::segments::{SegmentMediaType, SegmentRecord, SnapshotView};
use std::path::PathBuf;
use vstd::prelude::*;

verus! {

/// The directory that has to be there before something is written at a place.
pub open spec fn directory_of(place: ClipPlace) -> Option<ClipPlace> {
    match place {
        ClipPlace::Output | ClipPlace::VideoPart | ClipPlace::AudioPart => Some(
            ClipPlace::ContentDir,
        ),
        ClipPlace::Display => Some(ClipPlace::SegmentDir),
        ClipPlace::Thumbnail => Some(ClipPlace::ScreenshotsDir),
        ClipPlace::DecoderMarker => Some(ClipPlace::RecordingDir),
        _ => None,
    }
}

/// Whether one place lies above another, or is the same.
pub open spec fn lies_above(upper: ClipPlace, lower: ClipPlace) -> bool {
    place_names(upper).is_prefix_of(place_names(lower))
}

/// Whether a step brings something about at a place. With a directory those above it are
/// created too.
pub open spec fn makes(step: ClipStepView, place: ClipPlace) -> bool {
    match step {
        ClipStepView::CreateDir(made) => lies_above(place, made),
        ClipStepView::Remux { output, .. } => output == place,
        ClipStepView::Merge { output, .. } => output == place,
        ClipStepView::Move { to, .. } => to == place,
        ClipStepView::Copy { to, .. } => to == place,
        ClipStepView::WriteMarker(made) => made == place,
        ClipStepView::Thumbnail { output, .. } => output == place,
        _ => false,
    }
}

/// Whether a step takes away what is at a place.
pub open spec fn takes_away(step: ClipStepView, place: ClipPlace) -> bool {
    step matches ClipStepView::Move { from, .. } && from == place
}

/// Whether a step needs what is at a place: it reads it, or writes into it. A directory
/// that is created needs nothing.
pub open spec fn needs(step: ClipStepView, place: ClipPlace) -> bool {
    ||| match step {
        ClipStepView::Merge { video, audio, .. } => video == place || audio == place,
        ClipStepView::Move { from, .. } => from == place,
        ClipStepView::Copy { from, .. } => from == place,
        ClipStepView::Thumbnail { video, .. } => video == place,
        ClipStepView::SaveMeta(meta) => meta.project == place,
        ClipStepView::SaveTimeline { project, .. } => project == place,
        _ => false,
    }
    ||| step !is CreateDir && exists|made: ClipPlace|
        #[trigger] makes(step, made) && directory_of(made) == Some(place)
}

/// Whether a place was filled by a step before the step `i` and has stayed so.
pub open spec fn is_there_before(steps: Seq<ClipStepView>, i: int, place: ClipPlace) -> bool {
    exists|j: int|
        {
            &&& 0 <= j < i
            &&& makes(#[trigger] steps[j], place)
            &&& forall|k: int| j < k < i ==> !takes_away(#[trigger] steps[k], place)
        }
}

/// Each step finds what it needs: the files that it reads and the directories that it
/// writes into were brought about by steps before it.
pub proof fn law_steps_find_what_they_need(clip: SelectionView, i: int, place: ClipPlace)
    requires
        0 <= i < clip_steps(clip).len(),
        needs(clip_steps(clip)[i], place),
    ensures
        is_there_before(clip_steps(clip), i, place),
{
    let steps = clip_steps(clip);
    let n = display_steps(clip).len() as int;
    assert(opening_steps(clip).len() == 6);
    assert(n == if has_audio(clip) { 2int } else { 1int });
    assert(steps.len() == 6 + n + 5);
    assert(forall|k: int| 0 <= k < 6 ==> #[trigger] steps[k] == opening_steps(clip)[k]);
    assert(forall|k: int| 6 <= k < 6 + n ==> #[trigger] steps[k] == display_steps(clip)[k - 6]);
    assert(forall|k: int|
        6 + n <= k < 11 + n ==> #[trigger] steps[k] == closing_steps(clip)[k - 6 - n]);
    assert(makes(steps[2], ClipPlace::RecordingDir));
    assert(makes(steps[2], ClipPlace::ContentDir));
    assert(makes(steps[3], ClipPlace::SegmentDir));
    assert(makes(steps[4], ClipPlace::ScreenshotsDir));
    assert(makes(steps[5], ClipPlace::VideoPart));
    assert(has_audio(clip) ==> makes(steps[6], ClipPlace::AudioPart));
    assert(makes(steps[5 + n], ClipPlace::Display));
    let j: int = match place {
        ClipPlace::RecordingDir | ClipPlace::ContentDir => 2,
        ClipPlace::SegmentDir => 3,
        ClipPlace::ScreenshotsDir => 4,
        ClipPlace::VideoPart => 5,
        ClipPlace::AudioPart => 6,
        _ => 5 + n,
    };
    assert(forall|k: int| 0 <= k < steps.len() ==> (takes_away(#[trigger] steps[k], place) ==> k
        == 5 + n && place == ClipPlace::VideoPart));
    assert(0 <= j < i && makes(steps[j], place));
}

/// Audio is merged in exactly where the clip has audio.
pub proof fn law_audio_is_merged(clip: SelectionView)
    ensures
        has_audio(clip) <==> exists|i: int|
            0 <= i < clip_steps(clip).len() && (#[trigger] clip_steps(clip)[i]) is Merge,
{
    let steps = clip_steps(clip);
    if has_audio(clip) {
        assert(steps[7] == display_steps(clip)[1]);
        assert(steps[7] is Merge);
    } else {
        assert forall|i: int| 0 <= i < steps.len() implies !((#[trigger] steps[i]) is Merge) by {
            if i < 6 {
                assert(steps[i] == opening_steps(clip)[i]);
            } else if i < 7 {
                assert(steps[i] == display_steps(clip)[i - 6]);
            } else {
                assert(steps[i] == closing_steps(clip)[i - 7]);
            }
        }
    }
}

/// A clip that was selected has audio to merge exactly where audio of its time was
/// recorded and the initialisation part of the audio is known.
pub proof fn law_selected_audio_is_merged(snapshot: SnapshotView, requested: u64)
    requires
        selection_of(snapshot, requested) is Some,
    ensures
        has_audio(selection_of(snapshot, requested)->0) <==> {
            &&& clip_audio(snapshot, requested).len() > 0
            &&& snapshot.audio_init is Some
        },
{
}

/// The names of a place, joined with slashes.
pub open spec fn slashed(names: Seq<Seq<char>>) -> Seq<char>
    decreases names.len(),
{
    if names.len() == 0 {
        seq![]
    } else if names.len() == 1 {
        names[0]
    } else {
        slashed(names.drop_last()) + seq!['/'] + names.last()
    }
}

/// The description of a clip names the place where its video lies.
pub proof fn law_description_names_display()
    ensures
        clip_meta().display_path == slashed(place_names(ClipPlace::Display)),
{
    reveal_with_fuel(slashed, 4);
    reveal_strlit("content");
    reveal_strlit("segments");
    reveal_strlit("segment-0");
    reveal_strlit("display.mp4");
    reveal_strlit("content/segments/segment-0/display.mp4");
    let names = place_names(ClipPlace::Display);
    assert(names.drop_last() =~= seq!["content"@, "segments"@, "segment-0"@]);
    assert(names.drop_last().drop_last() =~= seq!["content"@, "segments"@]);
    assert(names.drop_last().drop_last().drop_last() =~= seq!["content"@]);
    assert(slashed(names) =~= "content"@ + seq!['/'] + "segments"@ + seq!['/'] + "segment-0"@
        + seq!['/'] + "display.mp4"@);
    assert(clip_meta().display_path =~= slashed(names));
}

/// What a clip fails with, given how each step would end; `None` where it is written.
/// Nothing is done after the first step that ends the clip.
pub open spec fn clip_failure(
    steps: Seq<ClipStepView>,
    outcomes: Seq<StepOutcome>,
) -> Option<Seq<char>>
    decreases steps.len(),
{
    if steps.len() == 0 {
        None
    } else {
        match failure_after(steps[0], outcomes[0]) {
            Some(message) => Some(message),
            None => clip_failure(steps.drop_first(), outcomes.drop_first()),
        }
    }
}

/// A clip is written exactly where every step succeeds or may fail, and else it fails
/// with the report of the first step that may not.
pub proof fn law_first_failure_is_reported(
    steps: Seq<ClipStepView>,
    outcomes: Seq<StepOutcome>,
)
    requires
        steps.len() == outcomes.len(),
    ensures
        match clip_failure(steps, outcomes) {
            None => forall|i: int|
                0 <= i < steps.len() ==> failure_after(#[trigger] steps[i], outcomes[i]) is None,
            Some(message) => exists|i: int|
                {
                    &&& 0 <= i < steps.len()
                    &&& failure_after(#[trigger] steps[i], outcomes[i]) == Some(message)
                    &&& forall|j: int|
                        0 <= j < i ==> failure_after(#[trigger] steps[j], outcomes[j]) is None
                },
        },
    decreases steps.len(),
{
    if steps.len() > 0 {
        if let Some(message) = failure_after(steps[0], outcomes[0]) {
            assert(clip_failure(steps, outcomes) == Some(message));
        } else {
            let rest = steps.drop_first();
            let rest_outcomes = outcomes.drop_first();
            law_first_failure_is_reported(rest, rest_outcomes);
            assert forall|i: int| 0 < i < steps.len() implies #[trigger] steps[i] == rest[i - 1]
                && outcomes[i] == rest_outcomes[i - 1] by {}
            if let Some(message) = clip_failure(rest, rest_outcomes) {
                let i = choose|i: int|
                    {
                        &&& 0 <= i < rest.len()
                        &&& failure_after(#[trigger] rest[i], rest_outcomes[i]) == Some(message)
                        &&& forall|j: int|
                            0 <= j < i ==> failure_after(
                                #[trigger] rest[j],
                                rest_outcomes[j],
                            ) is None
                    };
                assert(failure_after(steps[i + 1], outcomes[i + 1]) == Some(message));
            }
        }
    }
}

/// What lies at a place of a recording.
pub ghost enum Content {
    /// Segments behind an initialisation part, as one file.
    Media { init: PathBuf, segments: Seq<PathBuf> },
    /// Video and audio, as one file.
    Merged { video: Box<Content>, audio: Box<Content> },
    /// A picture of a video.
    Picture(Box<Content>),
    EmptyFile,
    Directory,
}

/// What lies where after a step that was done.
pub open spec fn after_step(
    disk: Map<ClipPlace, Content>,
    step: ClipStep,
) -> Map<ClipPlace, Content> {
    match step {
        ClipStep::CreateDir(place) => disk.insert(place, Content::Directory),
        ClipStep::Remux { init, segments, output, .. } => disk.insert(
            output,
            Content::Media { init, segments: segments@ },
        ),
        ClipStep::Merge { video, audio, output } => disk.insert(
            output,
            Content::Merged { video: Box::new(disk[video]), audio: Box::new(disk[audio]) },
        ),
        ClipStep::Move { from, to } => disk.remove(from).insert(to, disk[from]),
        ClipStep::Copy { from, to } => disk.insert(to, disk[from]),
        ClipStep::WriteMarker(place) => disk.insert(place, Content::EmptyFile),
        ClipStep::Thumbnail { video, output } => disk.insert(
            output,
            Content::Picture(Box::new(disk[video])),
        ),
        _ => disk,
    }
}

/// What lies where after the first `n` steps.
pub open spec fn disk_after(steps: Seq<ClipStep>, n: nat) -> Map<ClipPlace, Content>
    decreases n,
{
    if n == 0 {
        Map::empty()
    } else {
        after_step(disk_after(steps, (n - 1) as nat), steps[n - 1])
    }
}

/// The files of some segments, in their order.
pub open spec fn files_of(segments: Seq<SegmentRecord>) -> Seq<PathBuf> {
    Seq::new(segments.len(), |i: int| segments[i].path)
}

/// The video of a clip: its video segments behind the initialisation part of the video.
pub open spec fn video_of(clip: ClipSelection) -> Content {
    Content::Media { init: clip.video_init, segments: files_of(clip.video_segments@) }
}

/// Whether a clip has sound: audio segments, and the initialisation part of the audio.
pub open spec fn has_sound(clip: ClipSelection) -> bool {
    clip.audio_init is Some && clip.audio_segments@.len() > 0
}

/// The sound of a clip: its audio segments behind the initialisation part of the audio.
pub open spec fn sound_of(clip: ClipSelection) -> Content {
    Content::Media { init: clip.audio_init->0, segments: files_of(clip.audio_segments@) }
}

/// What is to be seen and heard of a clip.
pub open spec fn film_of(clip: ClipSelection) -> Content {
    if has_sound(clip) {
        Content::Merged { video: Box::new(video_of(clip)), audio: Box::new(sound_of(clip)) }
    } else {
        video_of(clip)
    }
}

/// The steps of a clip one by one.
proof fn lemma_steps(clip: ClipSelection, steps: Seq<ClipStep>) -> (n: int)
    requires
        step_views(steps) == clip_steps(clip@),
    ensures
        n == if has_sound(clip) {
            2int
        } else {
            1int
        },
        steps.len() == 11 + n,
        forall|i: int| 0 <= i < 6 ==> (#[trigger] steps[i])@ == opening_steps(clip@)[i],
        forall|i: int| 6 <= i < 6 + n ==> (#[trigger] steps[i])@ == display_steps(clip@)[i - 6],
        forall|i: int|
            6 + n <= i < 11 + n ==> (#[trigger] steps[i])@ == closing_steps(clip@)[i - 6 - n],
        clip@.video_segments == clip.video_segments@,
        clip@.audio_segments == clip.audio_segments@,
{
    let views = step_views(steps);
    let n = display_steps(clip@).len() as int;
    assert(steps.len() == views.len());
    assert(opening_steps(clip@).len() == 6);
    assert(closing_steps(clip@).len() == 5);
    assert forall|i: int| 0 <= i < steps.len() implies (#[trigger] steps[i])@ == clip_steps(
        clip@,
    )[i] by {
        assert(views[i] == steps[i]@);
    }
    n
}

/// Once all steps are done, the recording is what a clip is meant to be. Its video is
/// the video segments behind their own initialisation part, merged with the audio
/// segments behind theirs where the clip has sound; a copy of it lies where older
/// readers look, with a picture of it beside; and the decoder finds its marker. The parts
/// that video and sound were merged of lie there exactly where there is sound.
pub proof fn law_recording_holds_the_clip(clip: ClipSelection, steps: Seq<ClipStep>)
    requires
        step_views(steps) == clip_steps(clip@),
    ensures
        ({
            let disk = disk_after(steps, steps.len());
            &&& disk[ClipPlace::Display] == film_of(clip)
            &&& disk[ClipPlace::Output] == film_of(clip)
            &&& disk[ClipPlace::Thumbnail] == Content::Picture(Box::new(film_of(clip)))
            &&& disk[ClipPlace::DecoderMarker] == Content::EmptyFile
            &&& disk[ClipPlace::ContentDir] == Content::Directory
            &&& disk[ClipPlace::SegmentDir] == Content::Directory
            &&& disk[ClipPlace::ScreenshotsDir] == Content::Directory
            &&& disk.dom().contains(ClipPlace::Display)
            &&& disk.dom().contains(ClipPlace::Output)
            &&& disk.dom().contains(ClipPlace::Thumbnail)
            &&& disk.dom().contains(ClipPlace::DecoderMarker)
            &&& disk.dom().contains(ClipPlace::VideoPart) <==> has_sound(clip)
            &&& disk.dom().contains(ClipPlace::AudioPart) <==> has_sound(clip)
        }),
{
    let n = lemma_steps(clip, steps);
    law_segment_paths(clip.video_segments@);
    law_segment_paths(clip.audio_segments@);
    lemma_remuxes(clip, steps, n);
    assert(steps[0] is CreateRecordingsDir);
    assert(steps[1] is ChooseName);
    assert(steps[2] == ClipStep::CreateDir(ClipPlace::ContentDir));
    assert(steps[3] == ClipStep::CreateDir(ClipPlace::SegmentDir));
    assert(steps[4] == ClipStep::CreateDir(ClipPlace::ScreenshotsDir));
    reveal_with_fuel(disk_after, 14);
    let disk = disk_after(steps, 6);
    assert(disk[ClipPlace::VideoPart] == video_of(clip));
    assert(!disk.dom().contains(ClipPlace::AudioPart));
    if has_sound(clip) {
        assert(disk_after(steps, 7)[ClipPlace::AudioPart] == sound_of(clip));
        assert(steps[7] == (ClipStep::Merge {
            video: ClipPlace::VideoPart,
            audio: ClipPlace::AudioPart,
            output: ClipPlace::Display,
        }));
    } else {
        assert(steps[6] == (ClipStep::Move {
            from: ClipPlace::VideoPart,
            to: ClipPlace::Display,
        }));
    }
    assert(disk_after(steps, (6 + n) as nat)[ClipPlace::Display] == film_of(clip));
    assert(steps[6 + n] == (ClipStep::Copy { from: ClipPlace::Display, to: ClipPlace::Output }));
    assert(steps[7 + n] == ClipStep::WriteMarker(ClipPlace::DecoderMarker));
    assert(steps[8 + n] == (ClipStep::Thumbnail {
        video: ClipPlace::Display,
        output: ClipPlace::Thumbnail,
    }));
    assert(steps[9 + n] is SaveMeta);
    assert(steps[10 + n] is SaveTimeline);
}

proof fn lemma_remuxes(clip: ClipSelection, steps: Seq<ClipStep>, n: int)
    requires
        step_views(steps) == clip_steps(clip@),
        n == if has_sound(clip) {
            2int
        } else {
            1int
        },
    ensures
        steps.len() == 11 + n,
        steps[5] matches ClipStep::Remux { media_type, init, segments, output } && {
            &&& media_type == SegmentMediaType::Video
            &&& init == clip.video_init
            &&& segments@ == files_of(clip.video_segments@)
            &&& output == ClipPlace::VideoPart
        },
        has_sound(clip) ==> (steps[6] matches ClipStep::Remux {
            media_type,
            init,
            segments,
            output,
        } && {
            &&& media_type == SegmentMediaType::Audio
            &&& init == clip.audio_init->0
            &&& segments@ == files_of(clip.audio_segments@)
            &&& output == ClipPlace::AudioPart
        }),
        forall|i: int|
            0 <= i < steps.len() && i != 5 && !(i == 6 && has_sound(clip)) ==> !(
            (#[trigger] steps[i]) is Remux),
{
    lemma_steps(clip, steps);
    law_segment_paths(clip.video_segments@);
    law_segment_paths(clip.audio_segments@);
    assert(steps[5]@ == opening_steps(clip@)[5]);
    if let ClipStep::Remux { segments, .. } = steps[5] {
        assert(segments@ =~= files_of(clip.video_segments@));
    }
    if has_sound(clip) {
        assert(steps[6]@ == display_steps(clip@)[0]);
        if let ClipStep::Remux { segments, .. } = steps[6] {
            assert(segments@ =~= files_of(clip.audio_segments@));
        }
    }
    assert forall|i: int|
        0 <= i < steps.len() && i != 5 && !(i == 6 && has_sound(clip)) implies !(
    (#[trigger] steps[i]) is Remux) by {
        if i < 6 {
            assert(steps[i]@ == opening_steps(clip@)[i]);
        } else if i < 6 + n {
            assert(steps[i]@ == display_steps(clip@)[i - 6]);
        } else {
            assert(steps[i]@ == closing_steps(clip@)[i - 6 - n]);
        }
    }
}

/// Whether a step puts media of one type behind an initialisation part.
pub open spec fn is_remux_of(step: ClipStep, wanted: SegmentMediaType) -> bool {
    step matches ClipStep::Remux { media_type, .. } && media_type == wanted
}

/// In every clip the video is remuxed exactly once, of the initialisation part of the
/// video and the files of the video segments in their order, with or without audio. The
/// audio is remuxed at most once, and exactly where the clip has sound, of the
/// initialisation part of the audio and the files of the audio segments in their order.
pub proof fn law_each_medium_is_remuxed_of_its_own(clip: ClipSelection, steps: Seq<ClipStep>)
    requires
        step_views(steps) == clip_steps(clip@),
    ensures
        exists|i: int|
            0 <= i < steps.len() && is_remux_of(#[trigger] steps[i], SegmentMediaType::Video),
        has_sound(clip) <==> exists|i: int|
            0 <= i < steps.len() && is_remux_of(#[trigger] steps[i], SegmentMediaType::Audio),
        forall|i: int, j: int, media_type: SegmentMediaType|
            0 <= i < steps.len() && 0 <= j < steps.len() && #[trigger] is_remux_of(
                steps[i],
                media_type,
            ) && #[trigger] is_remux_of(steps[j], media_type) ==> i == j,
        forall|i: int|
            0 <= i < steps.len() ==> ((#[trigger] steps[i]) matches ClipStep::Remux {
                media_type,
                init,
                segments,
                ..
            } ==> match media_type {
                SegmentMediaType::Video => {
                    &&& init == clip.video_init
                    &&& segments@ == files_of(clip.video_segments@)
                },
                SegmentMediaType::Audio => {
                    &&& Some(init) == clip.audio_init
                    &&& segments@ == files_of(clip.audio_segments@)
                },
            }),
{
    let n = lemma_steps(clip, steps);
    lemma_remuxes(clip, steps, n);
    assert(is_remux_of(steps[5], SegmentMediaType::Video));
    if has_sound(clip) {
        assert(is_remux_of(steps[6], SegmentMediaType::Audio));
    }
}

/// The recordings and the name of the recording come first: nothing is written before
/// the recording has a name among the others, and its name is chosen once.
pub proof fn law_recording_is_named_first(clip: ClipSelection, steps: Seq<ClipStep>)
    requires
        step_views(steps) == clip_steps(clip@),
    ensures
        steps[0] matches ClipStep::CreateRecordingsDir(name) && name@ == "recordings"@,
        steps[1] matches ClipStep::ChooseName(name) && name@ == "Replay Clip.cap"@,
        forall|i: int|
            0 <= i < steps.len() ==> ((#[trigger] steps[i]) is CreateRecordingsDir <==> i == 0),
        forall|i: int| 0 <= i < steps.len() ==> ((#[trigger] steps[i]) is ChooseName <==> i == 1),
{
    let n = lemma_steps(clip, steps);
    assert forall|i: int| 0 <= i < steps.len() implies ((#[trigger] steps[i]) is CreateRecordingsDir
        <==> i == 0) && (steps[i] is ChooseName <==> i == 1) by {
        if i < 6 {
            assert(steps[i]@ == opening_steps(clip@)[i]);
        } else if i < 6 + n {
            assert(steps[i]@ == display_steps(clip@)[i - 6]);
        } else {
            assert(steps[i]@ == closing_steps(clip@)[i - 6 - n]);
        }
    }
    assert(steps[0]@ == opening_steps(clip@)[0]);
    assert(steps[1]@ == opening_steps(clip@)[1]);
}

/// Whether a description is that of a clip: a finished recording of this name, kept in
/// its own directory, with one video that starts at 0 and lies where the video is put.
pub open spec fn describes_clip(meta: RecordingMeta) -> bool {
    &&& meta.project == ClipPlace::RecordingDir
    &&& meta.pretty_name@ == "Replay Clip"@
    &&& relative_path_text(meta.display.path) == slashed(place_names(ClipPlace::Display))
    &&& meta.display.fps == 30
    &&& meta.display.start_time == Some(0u64)
    &&& meta.complete
}

/// Whether the timeline of a project shows the whole clip, from its start to its end, at
/// its own speed.
pub open spec fn shows_whole(segment: TimelineSegment, clip: ClipSelection) -> bool {
    &&& segment.recording_clip == 0
    &&& segment.timescale == 1
    &&& segment.start == 0
    &&& segment.end == clip.duration
}

/// The last two steps, and only they, save the description of the clip and a timeline
/// that shows the whole of it. Both are kept in the directory of the recording.
pub proof fn law_description_comes_last(clip: ClipSelection, steps: Seq<ClipStep>)
    requires
        step_views(steps) == clip_steps(clip@),
    ensures
        steps[steps.len() - 2] matches ClipStep::SaveMeta(meta) && describes_clip(meta),
        steps[steps.len() - 1] matches ClipStep::SaveTimeline { project, segment } && project
            == ClipPlace::RecordingDir && shows_whole(segment, clip),
        forall|i: int|
            0 <= i < steps.len() ==> ((#[trigger] steps[i]) is SaveMeta <==> i == steps.len() - 2),
        forall|i: int|
            0 <= i < steps.len() ==> ((#[trigger] steps[i]) is SaveTimeline <==> i == steps.len()
                - 1),
{
    let n = lemma_steps(clip, steps);
    law_description_names_display();
    assert forall|i: int| 0 <= i < steps.len() implies ((#[trigger] steps[i]) is SaveMeta <==> i
        == steps.len() - 2) && (steps[i] is SaveTimeline <==> i == steps.len() - 1) by {
        if i < 6 {
            assert(steps[i]@ == opening_steps(clip@)[i]);
        } else if i < 6 + n {
            assert(steps[i]@ == display_steps(clip@)[i - 6]);
        } else {
            assert(steps[i]@ == closing_steps(clip@)[i - 6 - n]);
        }
    }
    assert(steps[9 + n]@ == closing_steps(clip@)[3]);
    assert(steps[10 + n]@ == closing_steps(clip@)[4]);
}

/// A clip goes on after a step that was done, and after a copy or a picture that could
/// not be made. Any other failure ends it, with the reason at the end of the report.
pub proof fn law_only_copy_and_picture_may_fail(step: ClipStep, why: String)
    ensures
        failure_after(step@, StepOutcome::Done) is None,
        failure_after(step@, StepOutcome::Failed(why)) is None <==> step is Copy
            || step is Thumbnail,
        failure_after(step@, StepOutcome::TaskFailed(why)) is None <==> step is Copy
            || step is Thumbnail,
{
}

/// What a clip fails with where a step failed, by the kind of the step.
pub proof fn law_failed_step_is_reported(step: ClipStep, why: String)
    ensures
        ({
            let failure = failure_after(step@, StepOutcome::Failed(why));
            match step {
                ClipStep::CreateRecordingsDir(_) => failure == Some(
                    "Failed to create recordings directory: "@ + why@,
                ),
                ClipStep::ChooseName(_) => failure == Some(
                    "Failed to choose replay clip filename: "@ + why@,
                ),
                ClipStep::CreateDir(place) => {
                    &&& place == ClipPlace::ContentDir ==> failure == Some(
                        "Failed to create replay clip content directory: "@ + why@,
                    )
                    &&& place == ClipPlace::SegmentDir ==> failure == Some(
                        "Failed to create replay clip segment directory: "@ + why@,
                    )
                    &&& place == ClipPlace::ScreenshotsDir ==> failure == Some(
                        "Failed to create replay clip screenshots directory: "@ + why@,
                    )
                },
                ClipStep::Remux { media_type, .. } => match media_type {
                    SegmentMediaType::Video => failure == Some(
                        "Failed to remux replay video: "@ + why@,
                    ),
                    SegmentMediaType::Audio => failure == Some(
                        "Failed to remux replay audio: "@ + why@,
                    ),
                },
                ClipStep::Merge { .. } => failure == Some(
                    "Failed to merge replay clip audio: "@ + why@,
                ),
                ClipStep::Move { .. } => failure == Some(
                    "Failed to move replay video output: "@ + why@,
                ),
                ClipStep::WriteMarker(_) => failure == Some(
                    "Failed to write replay clip decoder marker: "@ + why@,
                ),
                ClipStep::SaveMeta(_) => failure == Some(
                    "Failed to save replay clip metadata: "@ + why@,
                ),
                ClipStep::SaveTimeline { .. } => failure == Some(
                    "Failed to save replay clip config: "@ + why@,
                ),
                ClipStep::Copy { .. } | ClipStep::Thumbnail { .. } => failure is None,
            }
        }),
{
}

/// What a clip fails with where the background task of a step broke down. The steps that
/// have none are reported as if they had failed.
pub proof fn law_broken_task_is_reported(step: ClipStep, why: String)
    ensures
        ({
            let failure = failure_after(step@, StepOutcome::TaskFailed(why));
            match step {
                ClipStep::Remux { media_type, .. } => match media_type {
                    SegmentMediaType::Video => failure == Some(
                        "Replay clip video remux task failed: "@ + why@,
                    ),
                    SegmentMediaType::Audio => failure == Some(
                        "Replay clip audio remux task failed: "@ + why@,
                    ),
                },
                ClipStep::Merge { .. } => failure == Some(
                    "Replay clip merge task failed: "@ + why@,
                ),
                _ => failure == failure_after(step@, StepOutcome::Failed(why)),
            }
        }),
{
}

/// Each file of a recording lies directly in the directory that is created for it, and no
/// two places of a recording are the same.
pub proof fn law_places_lie_apart(place: ClipPlace, other: ClipPlace)
    ensures
        directory_of(place) matches Some(dir) ==> {
            &&& place_names(place).len() == place_names(dir).len() + 1
            &&& lies_above(dir, place)
        },
        place != other ==> place_names(place) != place_names(other),
{
    reveal_strlit("content");
    reveal_strlit("segments");
    reveal_strlit("segment-0");
    reveal_strlit("screenshots");
    reveal_strlit("output.mp4");
    reveal_strlit("display.mp4");
    reveal_strlit("video.mp4");
    reveal_strlit("audio.mp4");
    reveal_strlit(".force-ffmpeg-decoder");
    reveal_strlit("display.jpg");
    assert("content"@[0] != "screenshots"@[0]);
    assert("content"@.len() != ".force-ffmpeg-decoder"@.len());
    assert("screenshots"@.len() != ".force-ffmpeg-decoder"@.len());
    assert("output.mp4"@.len() != "video.mp4"@.len());
    assert("output.mp4"@.len() != "audio.mp4"@.len());
    assert("video.mp4"@[0] != "audio.mp4"@[0]);
    if place != other && place_names(place) == place_names(other) {
        assert(place_names(place).len() == place_names(other).len());
        if place_names(place).len() > 0 {
            assert(place_names(place)[0] == place_names(other)[0]);
        }
        if place_names(place).len() > 1 {
            assert(place_names(place)[1] == place_names(other)[1]);
        }
    }
}

} // verus!
