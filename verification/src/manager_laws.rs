//! What holds of the manager and the session that it looks after.

use crate::manager::{
    manager_action, record_action, session_after, tick_action, ManagerAction, ManagerEvent,
    RecordAction, RecordActionView, RecordEvent, RecordTarget, RecordTargetView, TickAction,
    TickActionView, TickProgress,
};
use crate::session::{
    microphone_action, running_key, start_action, stop_steps, MicrophoneAction,
    MicrophoneActionView, MicrophoneProgress, ReplayBufferState, ReplaySession, SessionOptions,
    StartAction, StartActionView, StartProgress, StopStep, MAX_OUTPUT_SIZE,
};
use crate::settings::ReplayBufferSettings;
use crate::target_laws::{
    law_first_target, law_found_window_is_named, law_key_ignores_spelling, names_at,
};
use crate::targets::{
    first_target, is_target, key_of, optional_normalized_path, window_views, CaptureWindow,
    WindowView,
};
use crate::text::{ascii_lowered, trimmed};
use std::path::PathBuf;
use vstd::prelude::*;

verus! {

/// A window is recorded only where the buffer is enabled, no other recording is
/// running, and some rule names the window, which is on the screen.
pub proof fn law_records_only_named_windows(progress: TickProgress, target: RecordTargetView)
    requires
        tick_action(progress) == TickActionView::Record(target),
    ensures
        progress.recording_active == Some(false),
        progress.settings matches Some(Ok(settings)) && settings.enabled && (
        progress.windows matches Some(windows) && exists|i: int|
            {
                &&& 0 <= i < windows@.len()
                &&& is_target(settings@, (#[trigger] windows@[i])@)
                &&& windows@[i].id@ == target.window_id
                &&& key_of(windows@[i]@) == target.key
            }),
{
    let settings = progress.settings->0->Ok_0;
    let windows = progress.windows->0;
    let views = window_views(windows@);
    law_first_target(settings@, views);
    let window = first_target(settings@, views)->0;
    let i = choose|i: int|
        {
            &&& 0 <= i < views.len()
            &&& #[trigger] views[i] == window
            &&& is_target(settings@, window)
            &&& forall|j: int| 0 <= j < i ==> !is_target(settings@, #[trigger] views[j])
        };
    assert(windows@[i]@ == views[i]);
}

/// While another recording is running the buffer records nothing.
pub proof fn law_recording_stops_session(progress: TickProgress)
    requires
        progress.settings matches Some(Ok(_)),
        progress.recording_active == Some(true),
    ensures
        tick_action(progress) == TickActionView::StopSession,
{
}

/// A buffer that is switched off, or that no window is named for, records nothing, and
/// nothing else is asked.
pub proof fn law_disabled_stops_session(progress: TickProgress)
    requires
        progress.settings matches Some(Ok(settings)) && (!settings.enabled
            || settings.targets@.len() == 0),
    ensures
        tick_action(progress) == TickActionView::StopSession,
{
}

/// An action of a look asks what is not known yet, or it ends the look.
pub proof fn law_look_ends(progress: TickProgress)
    ensures
        match tick_action(progress) {
            TickActionView::LoadSettings => progress.settings is None,
            TickActionView::QueryRecording => progress.recording_active is None,
            TickActionView::ListWindows => progress.windows is None,
            _ => true,
        },
{
}

/// What was not asked makes no difference: a look that has ended stays at its decision
/// whatever else becomes known.
pub proof fn law_decision_is_final(
    progress: TickProgress,
    recording_active: bool,
    windows: Vec<CaptureWindow>,
)
    requires
        !(tick_action(progress) is LoadSettings),
        !(tick_action(progress) is QueryRecording),
        !(tick_action(progress) is ListWindows),
    ensures
        progress.recording_active is None ==> tick_action(
            TickProgress { recording_active: Some(recording_active), ..progress },
        ) == tick_action(progress),
        progress.windows is None ==> tick_action(
            TickProgress { windows: Some(windows), ..progress },
        ) == tick_action(progress),
{
}

/// The session of a window keeps running for a window that differs from it only in the
/// spelling that keys do not tell apart.
pub proof fn law_same_target_keeps_session<L>(
    state: ReplayBufferState<L>,
    session: ReplaySession<L>,
    window: WindowView,
    other: WindowView,
)
    requires
        state.session == Some(session),
        session.key@ == key_of(window),
        other.owner_name == ascii_lowered(trimmed(window.owner_name)),
        other.name == ascii_lowered(trimmed(window.name)),
        other.executable_path == optional_normalized_path(window.executable_path),
    ensures
        running_key(state) == Some(key_of(other)),
{
    law_key_ignores_spelling(window);
    assert(key_of(other) == key_of(window));
}

/// A window that is wanted and not recorded yet: the session in its way is stopped first,
/// then one is started, and it is put in place only where the start succeeds. After a
/// start that fails no session is running.
pub proof fn law_session_is_replaced_in_order<L>(
    state: ReplayBufferState<L>,
    target: RecordTargetView,
    started: Result<ReplaySession<L>, String>,
)
    requires
        running_key(state) != Some(target.key),
    ensures
        ({
            let start = RecordActionView::Start {
                key: target.key,
                window_id: target.window_id,
            };
            let empty = ReplayBufferState {
                session: session_after(state, target, RecordEvent::Wanted),
            };
            &&& record_action(state, target, RecordEvent::Wanted) == (match state.session {
                Some(session) => RecordActionView::Stop(session),
                None => start,
            })
            &&& empty.session is None
            &&& record_action(empty, target, RecordEvent::Stopped) == start
            &&& session_after(empty, target, RecordEvent::Stopped) is None
            &&& session_after(empty, target, RecordEvent::Started(started)) == (match started {
                Ok(session) => Some(session),
                Err(_) => None,
            })
        }),
{
}

/// A window that is recorded already keeps its session, which is only pruned.
pub proof fn law_running_session_is_only_pruned<L>(
    state: ReplayBufferState<L>,
    target: RecordTargetView,
)
    requires
        running_key(state) == Some(target.key),
    ensures
        record_action(state, target, RecordEvent::Wanted) == RecordActionView::<L>::Prune(
            target.retain,
        ),
        session_after(state, target, RecordEvent::Wanted) == state.session,
{
}

/// A recorder is built only in the directory that was created for it, for the window to
/// record, with the microphone that was locked and with system audio as chosen.
pub proof fn law_recorder_built_last(
    progress: StartProgress,
    dir: PathBuf,
    window_id: Seq<char>,
    options: SessionOptions,
)
    requires
        start_action(progress) == (StartActionView::Build { dir, window_id, options }),
    ensures
        progress.dir == Some(Ok::<PathBuf, String>(dir)),
        progress.window_id@ == window_id,
        progress.microphone == Some(Ok::<bool, String>(options.microphone)),
        options.max_output_size == MAX_OUTPUT_SIZE,
        progress.system_audio matches Some(stored) && options.system_audio == (match stored {
            Ok(Some(chosen)) => chosen,
            _ => progress.default_system_audio,
        }),
{
}

/// A start that was given a recorder ends with a session under the key that was asked
/// for, in the directory that the recorder was built in.
pub proof fn law_started_session_is_the_one_asked_for(
    progress: StartProgress,
    dir: PathBuf,
    window_id: Seq<char>,
    options: SessionOptions,
    reports_segments: bool,
)
    requires
        start_action(progress) == (StartActionView::Build { dir, window_id, options }),
    ensures
        start_action(StartProgress { recorder: Some(Ok(reports_segments)), ..progress }) == (
        StartActionView::Finish { key: progress.key@, dir, reports_segments }),
{
}

/// An action of a start asks what is not known yet, or it ends the start.
pub proof fn law_start_ends(progress: StartProgress)
    ensures
        match start_action(progress) {
            StartActionView::CreateDir { .. } => progress.dir is None,
            StartActionView::ReadSettings => progress.system_audio is None,
            StartActionView::LockMicrophone => progress.microphone is None,
            StartActionView::Build { .. } => progress.recorder is None,
            _ => true,
        },
{
}

/// The microphone that is set up already is recorded only where it is the chosen one.
pub proof fn law_current_microphone_is_chosen<S>(progress: MicrophoneProgress<S>)
    requires
        microphone_action(progress) is UseCurrent,
    ensures
        progress.label matches Some(label) && (progress.current matches Some(Some(current))
            && current@ == label@),
{
}

/// A session goes without a microphone only where none is chosen: one that cannot be
/// had is a failure.
pub proof fn law_no_microphone_only_by_choice<S>(progress: MicrophoneProgress<S>)
    ensures
        microphone_action(progress) is UseNone <==> progress.label is None,
{
}

/// An action asks what is not known of the microphone yet, or the microphone is
/// settled.
pub proof fn law_microphone_is_settled<S>(progress: MicrophoneProgress<S>)
    ensures
        match microphone_action(progress) {
            MicrophoneActionView::TryLock => progress.current is None,
            MicrophoneActionView::SetInput { .. } => progress.input is None,
            MicrophoneActionView::AwaitReady => progress.ready is None,
            MicrophoneActionView::Lock => progress.locked is None,
            _ => true,
        },
{
}

/// The manager looks when it starts and after each pause, and after each look it pauses
/// for two seconds. A look that failed is reported with its reason, and only such a look.
pub proof fn law_manager_looks_and_pauses(event: ManagerEvent, action: ManagerAction)
    requires
        action@ == manager_action(event),
    ensures
        action is Tick <==> !(event is Ticked),
        action matches ManagerAction::Sleep { millis, warning } ==> millis == 2000 && match event {
            ManagerEvent::Ticked(Err(why)) => warning matches Some(text) && text@
                == "Replay buffer manager tick failed: "@ + why@,
            _ => warning is None,
        },
{
}

/// Whether the settings leave anything to record.
pub open spec fn may_record(settings: ReplayBufferSettings) -> bool {
    settings.enabled && settings.targets@.len() > 0
}

/// Whether some rule of the settings names some of the windows.
pub open spec fn names_any(
    settings: ReplayBufferSettings,
    windows: Seq<CaptureWindow>,
) -> bool {
    exists|r: int, w: int| #[trigger] names_at(settings, windows, r, w)
}

/// A look asks for the settings, then whether another recording is running, then for the
/// windows, and for none of these where it is settled already that nothing is recorded.
pub proof fn law_look_asks_in_order(progress: TickProgress, action: TickAction)
    requires
        action@ == tick_action(progress),
    ensures
        action is LoadSettings <==> progress.settings is None,
        action is Fail <==> (progress.settings matches Some(Err(_))),
        action matches TickAction::Fail(text) ==> (progress.settings matches Some(Err(why))
            && text@ == why@),
        action is QueryRecording <==> {
            &&& progress.settings matches Some(Ok(settings)) && may_record(settings)
            &&& progress.recording_active is None
        },
        action is ListWindows <==> {
            &&& progress.settings matches Some(Ok(settings)) && may_record(settings)
            &&& progress.recording_active == Some(false)
            &&& progress.windows is None
        },
{
    if let Some(Ok(settings)) = progress.settings {
        assert(settings@.targets.len() == settings.targets@.len());
    }
}

/// A look decides to record exactly where the buffer is on and has rules, no other
/// recording is running, and some rule names some window. It decides to stop where one
/// of these is known not to hold.
pub proof fn law_look_decides(progress: TickProgress, action: TickAction)
    requires
        action@ == tick_action(progress),
    ensures
        action is Record <==> {
            &&& progress.settings matches Some(Ok(settings)) && may_record(settings) && (
            progress.windows matches Some(windows) && names_any(settings, windows@))
            &&& progress.recording_active == Some(false)
        },
        action is StopSession <==> (progress.settings matches Some(Ok(settings)) && {
            ||| !may_record(settings)
            ||| progress.recording_active == Some(true)
            ||| progress.recording_active == Some(false) && (progress.windows matches Some(windows)
                && !names_any(settings, windows@))
        }),
{
    if let Some(Ok(settings)) = progress.settings {
        assert(settings@.targets.len() == settings.targets@.len());
        if let Some(windows) = progress.windows {
            law_found_window_is_named(settings, windows@);
        }
    }
}

/// What a look decides to record is the first window that some rule of the settings
/// names, under its key, and of its past is kept as much as these settings ask for: a
/// minute and four seconds beyond the length of their clips.
pub proof fn law_look_records_by_the_settings(
    progress: TickProgress,
    settings: ReplayBufferSettings,
    windows: Vec<CaptureWindow>,
    target: RecordTarget,
)
    requires
        progress.settings == Some(Ok::<ReplayBufferSettings, String>(settings)),
        progress.windows == Some(windows),
        TickAction::Record(target)@ == tick_action(progress),
    ensures
        target.retain == (settings.clip_duration_secs + 60 + 4) * 1_000_000_000,
        target.retain >= settings.clip_duration_secs * 1_000_000_000,
        exists|r: int, w: int|
            {
                &&& #[trigger] names_at(settings, windows@, r, w)
                &&& target.window_id@ == windows@[w].id@
                &&& target.key@ == key_of(windows@[w]@)
                &&& forall|s: int, v: int|
                    v < w ==> !#[trigger] names_at(settings, windows@, s, v)
            },
{
    law_found_window_is_named(settings, windows@);
    let found = first_target(settings@, window_views(windows@))->0;
    let (r, w) = choose|r: int, w: int|
        {
            &&& #[trigger] names_at(settings, windows@, r, w)
            &&& windows@[w]@ == found
            &&& forall|s: int, v: int| v < w ==> !#[trigger] names_at(settings, windows@, s, v)
        };
    assert(target.window_id@ == windows@[w].id@);
}

/// Whether a session records the target.
pub open spec fn records<L>(state: ReplayBufferState<L>, target: RecordTarget) -> bool {
    state.session matches Some(session) && session.key@ == target.key@
}

/// What is done about a window that is wanted. A session that records it already is
/// pruned to the time to retain and stays; another session is taken out and stopped, and
/// only then, or where there is none, one is started for the window. What was started
/// goes in place; what could not be started leaves all as it is, and the reason is given.
pub proof fn law_window_is_recorded<L>(
    before: ReplayBufferState<L>,
    target: RecordTarget,
    event: RecordEvent<L>,
    action: RecordAction<L>,
    after: ReplayBufferState<L>,
)
    requires
        action@ == record_action(before, target@, event),
        after.session == session_after(before, target@, event),
    ensures
        match event {
            RecordEvent::Wanted => if records(before, target) {
                &&& action == RecordAction::<L>::Prune(target.retain)
                &&& after.session == before.session
            } else {
                &&& after.session is None
                &&& before.session matches Some(session) ==> action == RecordAction::Stop(session)
                &&& before.session is None ==> starts(action, target)
            },
            RecordEvent::Stopped => starts(action, target) && after.session == before.session,
            RecordEvent::Started(Ok(session)) => action is Done && after.session == Some(session),
            RecordEvent::Started(Err(why)) => {
                &&& action matches RecordAction::GiveUp(text) && text@ == why@
                &&& after.session == before.session
            },
        },
{
}

/// Whether an action starts a session for the target.
pub open spec fn starts<L>(action: RecordAction<L>, target: RecordTarget) -> bool {
    action matches RecordAction::Start { key, window_id } && key@ == target.key@ && window_id@
        == target.window_id@
}

/// A start creates the directory, then reads the settings, then comes by the microphone,
/// then builds the recorder, each only where what came before did not fail.
pub proof fn law_start_goes_in_order(progress: StartProgress, action: StartAction)
    requires
        action@ == start_action(progress),
    ensures
        action is CreateDir <==> progress.dir is None,
        action is ReadSettings <==> {
            &&& progress.dir matches Some(Ok(_))
            &&& progress.system_audio is None
        },
        action is LockMicrophone <==> {
            &&& progress.dir matches Some(Ok(_))
            &&& progress.system_audio is Some
            &&& progress.microphone is None
        },
        action is Build <==> {
            &&& progress.dir matches Some(Ok(_))
            &&& progress.system_audio is Some
            &&& progress.microphone matches Some(Ok(_))
            &&& progress.recorder is None
        },
        action is Finish <==> {
            &&& progress.dir matches Some(Ok(_))
            &&& progress.system_audio is Some
            &&& progress.microphone matches Some(Ok(_))
            &&& progress.recorder matches Some(Ok(_))
        },
{
}

/// A start creates a directory of the name that was drawn, below the one of the replay
/// buffer. The recorder writes the window that was asked for into the directory that was
/// created, with system audio as the user has chosen, or by default where no choice is
/// known, no larger than 1920 pixels, and with a microphone where one was come by. The
/// session has the key that was asked for and that directory. A step that fails ends the
/// start with its reason; settings that cannot be read do not.
pub proof fn law_start_hands_on_what_is_known(progress: StartProgress, action: StartAction)
    requires
        action@ == start_action(progress),
    ensures
        match action {
            StartAction::CreateDir { parent, name } => {
                &&& parent@ == "replay-buffer"@
                &&& name@ == progress.dir_name@
            },
            StartAction::Build { dir, window_id, options } => {
                &&& progress.dir == Some(Ok::<PathBuf, String>(dir))
                &&& window_id@ == progress.window_id@
                &&& progress.microphone == Some(Ok::<bool, String>(options.microphone))
                &&& options.max_output_size == 1920
                &&& options.system_audio == match progress.system_audio {
                    Some(Ok(Some(chosen))) => chosen,
                    _ => progress.default_system_audio,
                }
            },
            StartAction::Finish { key, dir, reports_segments } => {
                &&& key@ == progress.key@
                &&& progress.dir == Some(Ok::<PathBuf, String>(dir))
                &&& progress.recorder == Some(Ok::<bool, String>(reports_segments))
            },
            StartAction::Fail(text) => match (progress.dir, progress.microphone, progress.recorder)
            {
                (Some(Err(why)), _, _) => text@ == why@,
                (Some(Ok(_)), Some(Err(why)), _) => progress.system_audio is Some && text@ == why@,
                (Some(Ok(_)), Some(Ok(_)), Some(Err(why))) => {
                    &&& progress.system_audio is Some
                    &&& text@ == why@
                },
                _ => false,
            },
            _ => true,
        },
{
}

/// A session is stopped by cancelling the recording first and removing its own directory
/// last. The thread that hands the segments on is awaited in between, where there is
/// one, and nothing else is done.
pub proof fn law_session_is_stopped_in_order(dir: PathBuf, has_bridge: bool)
    ensures
        ({
            let steps = stop_steps(dir, has_bridge);
            &&& steps.first() == StopStep::CancelRecording
            &&& steps.last() == StopStep::RemoveDir(dir)
            &&& steps.len() == if has_bridge {
                3int
            } else {
                2int
            }
            &&& has_bridge ==> steps[1] == StopStep::JoinBridge
        }),
{
}

/// Whether the microphone that is set up already is the chosen one.
pub open spec fn has_chosen_microphone<S>(progress: MicrophoneProgress<S>) -> bool {
    progress.label matches Some(label) && (progress.current matches Some(Some(current)) && current@
        == label@)
}

/// Whether the chosen microphone has to be set up: it is known that the one that is set
/// up, if any, is another one.
pub open spec fn has_to_set_up<S>(progress: MicrophoneProgress<S>) -> bool {
    &&& progress.label is Some
    &&& progress.current is Some
    &&& !has_chosen_microphone(progress)
}

/// A session comes by its microphone in order: the one that is set up is tried first and
/// taken if it is the chosen one; else the chosen one is set up, awaited, locked and
/// taken, each only where what came before did not fail.
pub proof fn law_microphone_comes_in_order<'a, S>(
    progress: MicrophoneProgress<S>,
    action: MicrophoneAction<'a, S>,
)
    requires
        action@ == microphone_action(progress),
    ensures
        action is UseNone <==> progress.label is None,
        action is TryLock <==> progress.label is Some && progress.current is None,
        action is UseCurrent <==> has_chosen_microphone(progress),
        action is SetInput <==> has_to_set_up(progress) && progress.input is None,
        action is AwaitReady <==> {
            &&& has_to_set_up(progress)
            &&& progress.input matches Some(Ok(_))
            &&& progress.ready is None
        },
        action is Lock <==> {
            &&& has_to_set_up(progress)
            &&& progress.input matches Some(Ok(_))
            &&& progress.ready matches Some(Ok(_))
            &&& progress.locked is None
        },
        action is UseLocked <==> {
            &&& has_to_set_up(progress)
            &&& progress.input matches Some(Ok(_))
            &&& progress.ready matches Some(Ok(_))
            &&& progress.locked matches Some(Ok(_))
        },
{
}

/// The microphone that is set up is the chosen one, with the settings for it. Where it
/// cannot be set up, does not become ready or cannot be locked, the reason is given, with
/// its label where it is the setting up or the locking that failed.
pub proof fn law_microphone_failures_are_reported<'a, S>(
    progress: MicrophoneProgress<S>,
    action: MicrophoneAction<'a, S>,
)
    requires
        action@ == microphone_action(progress),
    ensures
        action matches MicrophoneAction::SetInput { label, settings } ==> {
            &&& progress.label matches Some(chosen) && label@ == chosen@
            &&& *settings == progress.settings
        },
        action matches MicrophoneAction::Fail(text) ==> (progress.label matches Some(label) && match (
            progress.input,
            progress.ready,
            progress.locked,
        ) {
            (Some(Err(why)), _, _) => text@ == "Failed to initialize replay microphone '"@ + label@
                + "': "@ + why@,
            (Some(Ok(_)), Some(Err(why)), _) => text@ == why@,
            (Some(Ok(_)), Some(Ok(_)), Some(Err(why))) => text@
                == "Failed to lock replay microphone '"@ + label@ + "': "@ + why@,
            _ => false,
        }),
{
}

} // verus!
