//! The replay session: which one is running, how one is started and stopped, and how it
//! comes by its microphone.

use crate::targets::{KeyView, ReplayTargetKey};
use crate::text::joined_text;
use std::path::PathBuf;
use vstd::prelude::*;

verus! {

/// A running session: what it records, where its files lie, and what keeps it running.
pub struct ReplaySession<L> {
    pub key: ReplayTargetKey,
    pub dir: PathBuf,
    pub live: L,
}

impl<L> ReplaySession<L> {
    /// A session that was started: it records the target of `key`, its files lie in
    /// `dir`, and `live` keeps it running.
    pub fn new(key: ReplayTargetKey, dir: PathBuf, live: L) -> (session: ReplaySession<L>)
        ensures
            session.key == key,
            session.dir == dir,
            session.live == live,
    {
        ReplaySession { key, dir, live }
    }
}

/// The one session that may be running.
pub struct ReplayBufferState<L> {
    pub session: Option<ReplaySession<L>>,
}

/// The key of the running session.
pub open spec fn running_key<L>(state: ReplayBufferState<L>) -> Option<KeyView> {
    match state.session {
        Some(session) => Some(session.key@),
        None => None,
    }
}

/// What becomes of the running session when a target is to be recorded.
pub enum Claim<L> {
    /// The running session records the target already.
    Running,
    /// A session for the target has to be started, after the one given was stopped.
    Start { replaced: Option<ReplaySession<L>> },
}

impl<L> Default for ReplayBufferState<L> {
    fn default() -> (state: ReplayBufferState<L>)
        ensures
            state.session is None,
    {
        ReplayBufferState { session: None }
    }
}

impl<L> ReplayBufferState<L> {
    /// Claims the buffer for a target. A session that records another one is taken out.
    pub fn claim(&mut self, key: &ReplayTargetKey) -> (r: Claim<L>)
        ensures
            if running_key(*old(self)) == Some(key@) {
                r is Running && *final(self) == *old(self)
            } else {
                &&& r == (Claim::Start { replaced: old(self).session })
                &&& final(self).session is None
            },
    {
        let running = match &self.session {
            Some(session) => session.key == *key,
            None => false,
        };
        if running {
            Claim::Running
        } else {
            Claim::Start { replaced: self.session.take() }
        }
    }

    /// Puts a session that was started in place.
    pub fn install(&mut self, session: ReplaySession<L>)
        ensures
            final(self).session == Some(session),
    {
        self.session = Some(session);
    }

    /// Takes the running session out, if there is one, so that it can be stopped.
    pub fn stop_session(&mut self) -> (r: Option<ReplaySession<L>>)
        ensures
            r == old(self).session,
            final(self).session is None,
    {
        self.session.take()
    }
}

/// The longest side of the recorded video, in pixels.
pub const MAX_OUTPUT_SIZE: u32 = 1920;

/// A digit of a lower case hexadecimal number.
pub open spec fn is_hex_digit(c: char) -> bool {
    '0' <= c <= '9' || 'a' <= c <= 'f'
}

/// The text of a random UUID: groups of 8, 4, 4, 4 and 12 digits, with the marks of
/// version and variant.
pub open spec fn is_random_uuid_text(s: Seq<char>) -> bool {
    &&& s.len() == 36
    &&& forall|i: int|
        0 <= i < 36 ==> if i == 8 || i == 13 || i == 18 || i == 23 {
            #[trigger] s[i] == '-'
        } else {
            is_hex_digit(s[i])
        }
    &&& s[14] == '4'
    &&& s[19] == '8' || s[19] == '9' || s[19] == 'a' || s[19] == 'b'
}

/// `uuid::Uuid::new_v4`, written out with `to_string`. The text has the form of a
/// version 4 UUID; which one it is, is left to chance. Where the operating system
/// gives no random numbers, `new_v4` panics.
#[verifier::external_body]
fn random_uuid_text() -> (r: String)
    ensures
        is_random_uuid_text(r@),
{
    uuid::Uuid::new_v4().to_string()
}

/// What is known so far while a session is being started. A field that may be `None` is
/// so until the question that it answers was asked.
#[derive(Debug)]
pub struct StartProgress {
    /// What the session records.
    pub key: ReplayTargetKey,
    /// The window that it records.
    pub window_id: String,
    /// The name of the directory of the session.
    pub dir_name: String,
    /// Whether system audio is recorded where the user has not chosen.
    pub default_system_audio: bool,
    /// The directory that was created, or why it was not.
    pub dir: Option<Result<PathBuf, String>>,
    /// What the user has chosen for system audio, if anything, or why it is not known.
    pub system_audio: Option<Result<Option<bool>, String>>,
    /// Whether there is a microphone to record, or why the chosen one cannot be used.
    pub microphone: Option<Result<bool, String>>,
    /// Whether the recorder reports its segments, or why it could not be started.
    pub recorder: Option<Result<bool, String>>,
}

/// How the recorder of a session is set up.
#[derive(Debug, Clone, Copy, PartialEq, Eq, Structural)]
pub struct SessionOptions {
    pub system_audio: bool,
    pub max_output_size: u32,
    pub microphone: bool,
}

/// What comes next in starting a session.
#[derive(Debug)]
pub enum StartAction {
    /// Create a directory `parent` in the cache of the application, and a directory
    /// `name` in it.
    CreateDir { parent: &'static str, name: String },
    ReadSettings,
    LockMicrophone,
    /// Build a recorder that writes the window `window_id` into `dir`.
    Build { dir: PathBuf, window_id: String, options: SessionOptions },
    /// The session is running: it records the target of `key` into `dir`. Where it
    /// reports its segments, they go to a tracker of its own, which is empty at first.
    Finish { key: ReplayTargetKey, dir: PathBuf, reports_segments: bool },
    Fail(String),
}

/// The contents of a `StartAction`.
pub ghost enum StartActionView {
    CreateDir { parent: Seq<char>, name: Seq<char> },
    ReadSettings,
    LockMicrophone,
    Build { dir: PathBuf, window_id: Seq<char>, options: SessionOptions },
    Finish { key: KeyView, dir: PathBuf, reports_segments: bool },
    Fail(Seq<char>),
}

impl View for StartAction {
    type V = StartActionView;

    open spec fn view(&self) -> StartActionView {
        match *self {
            StartAction::CreateDir { parent, name } => StartActionView::CreateDir {
                parent: parent@,
                name: name@,
            },
            StartAction::ReadSettings => StartActionView::ReadSettings,
            StartAction::LockMicrophone => StartActionView::LockMicrophone,
            StartAction::Build { dir, window_id, options } => StartActionView::Build {
                dir,
                window_id: window_id@,
                options,
            },
            StartAction::Finish { key, dir, reports_segments } => StartActionView::Finish {
                key: key@,
                dir,
                reports_segments,
            },
            StartAction::Fail(why) => StartActionView::Fail(why@),
        }
    }
}

/// What the user has chosen, or the default where nothing is known of a choice.
pub open spec fn chosen_or(stored: Result<Option<bool>, String>, default: bool) -> bool {
    match stored {
        Ok(Some(chosen)) => chosen,
        _ => default,
    }
}

/// What comes next in starting a session: the first question that is open, unless an
/// answer before it was a failure.
pub open spec fn start_action(progress: StartProgress) -> StartActionView {
    match (progress.dir, progress.system_audio, progress.microphone, progress.recorder) {
        (None, _, _, _) => StartActionView::CreateDir {
            parent: "replay-buffer"@,
            name: progress.dir_name@,
        },
        (Some(Err(why)), _, _, _) => StartActionView::Fail(why@),
        (_, None, _, _) => StartActionView::ReadSettings,
        (_, _, None, _) => StartActionView::LockMicrophone,
        (_, _, Some(Err(why)), _) => StartActionView::Fail(why@),
        (Some(Ok(dir)), Some(stored), Some(Ok(microphone)), None) => StartActionView::Build {
            dir,
            window_id: progress.window_id@,
            options: SessionOptions {
                system_audio: chosen_or(stored, progress.default_system_audio),
                max_output_size: MAX_OUTPUT_SIZE,
                microphone,
            },
        },
        (_, _, _, Some(Err(why))) => StartActionView::Fail(why@),
        (Some(Ok(dir)), _, _, Some(Ok(reports_segments))) => StartActionView::Finish {
            key: progress.key@,
            dir,
            reports_segments,
        },
    }
}

impl StartProgress {
    /// The start of a session that records a window, in a directory with a name of its
    /// own.
    pub fn new(
        key: ReplayTargetKey,
        window_id: String,
        default_system_audio: bool,
    ) -> (r: StartProgress)
        ensures
            r.key == key,
            r.window_id == window_id,
            is_random_uuid_text(r.dir_name@),
            r.default_system_audio == default_system_audio,
            r.dir is None,
            r.system_audio is None,
            r.microphone is None,
            r.recorder is None,
    {
        StartProgress {
            key,
            window_id,
            dir_name: random_uuid_text(),
            default_system_audio,
            dir: None,
            system_audio: None,
            microphone: None,
            recorder: None,
        }
    }
}

/// Decides what comes next in starting a session.
pub fn start_session(progress: &StartProgress) -> (r: StartAction)
    ensures
        r@ == start_action(*progress),
{
    let dir = match &progress.dir {
        None => return StartAction::CreateDir {
            parent: "replay-buffer",
            name: progress.dir_name.clone(),
        },
        Some(Err(why)) => return StartAction::Fail(why.clone()),
        Some(Ok(dir)) => dir,
    };
    let system_audio: bool = match &progress.system_audio {
        None => return StartAction::ReadSettings,
        Some(Ok(Some(chosen))) => *chosen,
        Some(_) => progress.default_system_audio,
    };
    let microphone: bool = match &progress.microphone {
        None => return StartAction::LockMicrophone,
        Some(Err(why)) => return StartAction::Fail(why.clone()),
        Some(Ok(microphone)) => *microphone,
    };
    match &progress.recorder {
        None => StartAction::Build {
            dir: dir.clone(),
            window_id: progress.window_id.clone(),
            options: SessionOptions {
                system_audio,
                max_output_size: MAX_OUTPUT_SIZE,
                microphone,
            },
        },
        Some(Err(why)) => StartAction::Fail(why.clone()),
        Some(Ok(reports_segments)) => StartAction::Finish {
            key: progress.key.clone(),
            dir: dir.clone(),
            reports_segments: *reports_segments,
        },
    }
}

/// What is done to stop a session. A failure of one does not keep the others back.
#[derive(Debug, PartialEq, Eq)]
pub enum StopStep {
    CancelRecording,
    JoinBridge,
    /// Delete this directory and all that is in it.
    RemoveDir(PathBuf),
}

/// The steps that stop a session whose files lie in `dir`.
pub open spec fn stop_steps(dir: PathBuf, has_bridge: bool) -> Seq<StopStep> {
    if has_bridge {
        seq![StopStep::CancelRecording, StopStep::JoinBridge, StopStep::RemoveDir(dir)]
    } else {
        seq![StopStep::CancelRecording, StopStep::RemoveDir(dir)]
    }
}

/// The steps that stop a session: the recording is cancelled, then the thread that
/// hands the segments on is awaited, where there is one, and last the directory of the
/// session goes.
pub fn stop_replay_session<L>(session: &ReplaySession<L>, has_bridge: bool) -> (steps: Vec<
    StopStep,
>)
    ensures
        steps@ == if has_bridge {
            seq![
                StopStep::CancelRecording,
                StopStep::JoinBridge,
                StopStep::RemoveDir(session.dir),
            ]
        } else {
            seq![StopStep::CancelRecording, StopStep::RemoveDir(session.dir)]
        },
        steps@ == stop_steps(session.dir, has_bridge),
{
    let mut steps: Vec<StopStep> = Vec::new();
    steps.push(StopStep::CancelRecording);
    if has_bridge {
        steps.push(StopStep::JoinBridge);
    }
    steps.push(StopStep::RemoveDir(session.dir.clone()));
    steps
}

/// What is known so far while a session comes by its microphone. A field after the first
/// two is `None` until the question that it answers was asked.
#[derive(Debug)]
pub struct MicrophoneProgress<S> {
    /// The microphone that the user has chosen, if any.
    pub label: Option<String>,
    /// The settings for that microphone, if any.
    pub settings: Option<S>,
    /// The microphone that could be locked as it was set up, if one could.
    pub current: Option<Option<String>>,
    /// Whether the chosen microphone could be set up, or why not.
    pub input: Option<Result<(), String>>,
    /// Whether it became ready, or why not.
    pub ready: Option<Result<(), String>>,
    /// Whether it could be locked then, or why not.
    pub locked: Option<Result<(), String>>,
}

/// What comes next in coming by a microphone.
#[derive(Debug)]
pub enum MicrophoneAction<'a, S> {
    /// Try to lock the microphone that is set up.
    TryLock,
    /// Set up the microphone with this label and these settings.
    SetInput { label: &'a String, settings: &'a Option<S> },
    /// Wait until it is ready.
    AwaitReady,
    /// Lock it.
    Lock,
    /// Record no microphone.
    UseNone,
    /// Record the one that was locked as it was set up.
    UseCurrent,
    /// Record the one that was set up.
    UseLocked,
    Fail(String),
}

/// The contents of a `MicrophoneAction`.
pub ghost enum MicrophoneActionView<S> {
    TryLock,
    SetInput { label: Seq<char>, settings: Option<S> },
    AwaitReady,
    Lock,
    UseNone,
    UseCurrent,
    UseLocked,
    Fail(Seq<char>),
}

impl<'a, S> View for MicrophoneAction<'a, S> {
    type V = MicrophoneActionView<S>;

    open spec fn view(&self) -> MicrophoneActionView<S> {
        match *self {
            MicrophoneAction::TryLock => MicrophoneActionView::TryLock,
            MicrophoneAction::SetInput { label, settings } => MicrophoneActionView::SetInput {
                label: label@,
                settings: *settings,
            },
            MicrophoneAction::AwaitReady => MicrophoneActionView::AwaitReady,
            MicrophoneAction::Lock => MicrophoneActionView::Lock,
            MicrophoneAction::UseNone => MicrophoneActionView::UseNone,
            MicrophoneAction::UseCurrent => MicrophoneActionView::UseCurrent,
            MicrophoneAction::UseLocked => MicrophoneActionView::UseLocked,
            MicrophoneAction::Fail(why) => MicrophoneActionView::Fail(why@),
        }
    }
}

/// What comes next in coming by the microphone `label`: the one that is set up is taken
/// where it is the chosen one, else the chosen one is set up, awaited and locked.
pub open spec fn labelled_microphone_action<S>(
    label: Seq<char>,
    progress: MicrophoneProgress<S>,
) -> MicrophoneActionView<S> {
    match (progress.current, progress.input, progress.ready, progress.locked) {
        (None, _, _, _) => MicrophoneActionView::TryLock,
        (Some(Some(current)), _, _, _) if current@ == label => MicrophoneActionView::UseCurrent,
        (_, None, _, _) => MicrophoneActionView::SetInput {
            label,
            settings: progress.settings,
        },
        (_, Some(Err(why)), _, _) => MicrophoneActionView::Fail(
            "Failed to initialize replay microphone '"@ + label + "': "@ + why@,
        ),
        (_, _, None, _) => MicrophoneActionView::AwaitReady,
        (_, _, Some(Err(why)), _) => MicrophoneActionView::Fail(why@),
        (_, _, _, None) => MicrophoneActionView::Lock,
        (_, _, _, Some(Err(why))) => MicrophoneActionView::Fail(
            "Failed to lock replay microphone '"@ + label + "': "@ + why@,
        ),
        (_, _, _, Some(Ok(_))) => MicrophoneActionView::UseLocked,
    }
}

/// What comes next in coming by a microphone.
pub open spec fn microphone_action<S>(progress: MicrophoneProgress<S>) -> MicrophoneActionView<
    S,
> {
    match progress.label {
        None => MicrophoneActionView::UseNone,
        Some(label) => labelled_microphone_action(label@, progress),
    }
}

fn microphone_failure(before: &str, label: &str, why: &str) -> (r: String)
    ensures
        r@ == before@ + label@ + "': "@ + why@,
{
    let mut message = joined_text(before, label);
    message.append("': ");
    message.append(why);
    message
}

/// Decides what comes next in coming by a microphone.
pub fn lock_selected_microphone<'a, S>(
    progress: &'a MicrophoneProgress<S>,
) -> (r: MicrophoneAction<'a, S>)
    ensures
        r@ == microphone_action(*progress),
{
    let label = match &progress.label {
        None => return MicrophoneAction::UseNone,
        Some(label) => label,
    };
    match &progress.current {
        None => return MicrophoneAction::TryLock,
        Some(Some(current)) => {
            if *current == *label {
                return MicrophoneAction::UseCurrent;
            }
        },
        Some(None) => {},
    }
    match &progress.input {
        None => return MicrophoneAction::SetInput { label, settings: &progress.settings },
        Some(Err(why)) => return MicrophoneAction::Fail(
            microphone_failure(
                "Failed to initialize replay microphone '",
                label.as_str(),
                why.as_str(),
            ),
        ),
        Some(Ok(_)) => {},
    }
    match &progress.ready {
        None => return MicrophoneAction::AwaitReady,
        Some(Err(why)) => return MicrophoneAction::Fail(why.clone()),
        Some(Ok(_)) => {},
    }
    match &progress.locked {
        None => MicrophoneAction::Lock,
        Some(Err(why)) => MicrophoneAction::Fail(
            microphone_failure(
                "Failed to lock replay microphone '",
                label.as_str(),
                why.as_str(),
            ),
        ),
        Some(Ok(_)) => MicrophoneAction::UseLocked,
    }
}

} // verus!
