//! The manager: it looks every now and then whether the buffer should be recording, and
//! what.

use crate::session::{running_key, Claim, ReplayBufferState, ReplaySession};
use crate::settings::{retention_of, ReplayBufferSettings};
use crate::targets::{
    find_target_window, first_target, key_of, target_key, window_views, CaptureWindow, KeyView,
    ReplayTargetKey,
};
use crate::text::{joined_text, optional_text};
use vstd::prelude::*;

verus! {

/// How long the manager waits between two looks, in milliseconds.
pub const POLL_INTERVAL_MILLIS: u64 = 2000;

/// What happens to the manager.
#[derive(Debug)]
pub enum ManagerEvent {
    Started,
    /// A look has ended, perhaps with an error.
    Ticked(Result<(), String>),
    /// The time between two looks is over.
    Slept,
}

/// What the manager does.
#[derive(Debug)]
pub enum ManagerAction {
    /// Look.
    Tick,
    /// Report the warning, if there is one, and wait so many milliseconds.
    Sleep { millis: u64, warning: Option<String> },
}

/// The contents of a `ManagerAction`.
pub ghost enum ManagerActionView {
    Tick,
    Sleep { millis: u64, warning: Option<Seq<char>> },
}

impl View for ManagerAction {
    type V = ManagerActionView;

    open spec fn view(&self) -> ManagerActionView {
        match *self {
            ManagerAction::Tick => ManagerActionView::Tick,
            ManagerAction::Sleep { millis, warning } => ManagerActionView::Sleep {
                millis,
                warning: optional_text(warning),
            },
        }
    }
}

/// What the manager does after an event.
pub open spec fn manager_action(event: ManagerEvent) -> ManagerActionView {
    match event {
        ManagerEvent::Ticked(result) => ManagerActionView::Sleep {
            millis: POLL_INTERVAL_MILLIS,
            warning: match result {
                Ok(_) => None,
                Err(why) => Some("Replay buffer manager tick failed: "@ + why@),
            },
        },
        _ => ManagerActionView::Tick,
    }
}

/// Decides what the manager does next. It looks and waits in turn, and an error of one
/// look does not keep it from the next.
pub fn start_manager(event: ManagerEvent) -> (r: ManagerAction)
    ensures
        match event {
            ManagerEvent::Ticked(Ok(_)) => r == (ManagerAction::Sleep {
                millis: POLL_INTERVAL_MILLIS,
                warning: None,
            }),
            ManagerEvent::Ticked(Err(why)) => r matches ManagerAction::Sleep { millis, warning }
                && millis == POLL_INTERVAL_MILLIS && (warning matches Some(warning) && warning@
                == "Replay buffer manager tick failed: "@ + why@),
            _ => r is Tick,
        },
        r@ == manager_action(event),
{
    match event {
        ManagerEvent::Ticked(Ok(_)) => ManagerAction::Sleep {
            millis: POLL_INTERVAL_MILLIS,
            warning: None,
        },
        ManagerEvent::Ticked(Err(why)) => ManagerAction::Sleep {
            millis: POLL_INTERVAL_MILLIS,
            warning: Some(joined_text("Replay buffer manager tick failed: ", why.as_str())),
        },
        _ => ManagerAction::Tick,
    }
}

/// What is known so far in one look. A field is `None` until the question that it
/// answers was asked.
#[derive(Debug)]
pub struct TickProgress {
    /// The settings, or why there are none.
    pub settings: Option<Result<ReplayBufferSettings, String>>,
    /// Whether another recording is running.
    pub recording_active: Option<bool>,
    /// The windows on the screen.
    pub windows: Option<Vec<CaptureWindow>>,
}

/// A window to record.
#[derive(Debug)]
pub struct RecordTarget {
    pub key: ReplayTargetKey,
    pub window_id: String,
    /// How much of the past is kept of it, in nanoseconds.
    pub retain: u64,
}

/// The contents of a `RecordTarget`.
pub ghost struct RecordTargetView {
    pub key: KeyView,
    pub window_id: Seq<char>,
    pub retain: u64,
}

impl View for RecordTarget {
    type V = RecordTargetView;

    open spec fn view(&self) -> RecordTargetView {
        RecordTargetView {
            key: self.key@,
            window_id: self.window_id@,
            retain: self.retain,
        }
    }
}

/// What comes next in one look.
#[derive(Debug)]
pub enum TickAction {
    LoadSettings,
    QueryRecording,
    ListWindows,
    /// Stop the session that is running, if there is one.
    StopSession,
    /// Record this window, as `record_window` says.
    Record(RecordTarget),
    Fail(String),
}

/// The contents of a `TickAction`.
pub ghost enum TickActionView {
    LoadSettings,
    QueryRecording,
    ListWindows,
    StopSession,
    Record(RecordTargetView),
    Fail(Seq<char>),
}

impl View for TickAction {
    type V = TickActionView;

    open spec fn view(&self) -> TickActionView {
        match *self {
            TickAction::LoadSettings => TickActionView::LoadSettings,
            TickAction::QueryRecording => TickActionView::QueryRecording,
            TickAction::ListWindows => TickActionView::ListWindows,
            TickAction::StopSession => TickActionView::StopSession,
            TickAction::Record(target) => TickActionView::Record(target@),
            TickAction::Fail(why) => TickActionView::Fail(why@),
        }
    }
}

/// What comes next in one look under given settings.
pub open spec fn tick_action_under(
    settings: ReplayBufferSettings,
    progress: TickProgress,
) -> TickActionView {
    if !settings.enabled || settings@.targets.len() == 0 {
        TickActionView::StopSession
    } else {
        match (progress.recording_active, progress.windows) {
            (None, _) => TickActionView::QueryRecording,
            (Some(true), _) => TickActionView::StopSession,
            (Some(false), None) => TickActionView::ListWindows,
            (Some(false), Some(windows)) => match first_target(
                settings@,
                window_views(windows@),
            ) {
                None => TickActionView::StopSession,
                Some(window) => TickActionView::Record(
                    RecordTargetView {
                        key: key_of(window),
                        window_id: window.id,
                        retain: retention_of(settings@),
                    },
                ),
            },
        }
    }
}

/// What comes next in one look.
pub open spec fn tick_action(progress: TickProgress) -> TickActionView {
    match progress.settings {
        None => TickActionView::LoadSettings,
        Some(Err(why)) => TickActionView::Fail(why@),
        Some(Ok(settings)) => tick_action_under(settings, progress),
    }
}

/// Decides what comes next in one look.
pub fn tick_manager(progress: &TickProgress) -> (r: TickAction)
    ensures
        r@ == tick_action(*progress),
{
    let settings = match &progress.settings {
        None => return TickAction::LoadSettings,
        Some(Err(why)) => return TickAction::Fail(why.clone()),
        Some(Ok(settings)) => settings,
    };
    if !settings.enabled || settings.targets.len() == 0 {
        return TickAction::StopSession;
    }
    match progress.recording_active {
        None => return TickAction::QueryRecording,
        Some(true) => return TickAction::StopSession,
        Some(false) => {},
    }
    let windows = match &progress.windows {
        None => return TickAction::ListWindows,
        Some(windows) => windows,
    };
    match find_target_window(settings, windows) {
        None => TickAction::StopSession,
        Some(window) => TickAction::Record(
            RecordTarget {
                key: target_key(window),
                window_id: window.id.clone(),
                retain: settings.retention(),
            },
        ),
    }
}

/// What happens while a window comes to be recorded.
pub enum RecordEvent<L> {
    /// The window is to be recorded.
    Wanted,
    /// The session that was to be stopped is stopped.
    Stopped,
    /// A session was started, or it was not, for some reason.
    Started(Result<ReplaySession<L>, String>),
}

/// What is done so that a window comes to be recorded.
pub enum RecordAction<L> {
    /// Prune the running session to so many nanoseconds. Then the look is over.
    Prune(u64),
    /// Stop this session.
    Stop(ReplaySession<L>),
    /// Start a session for the window.
    Start { key: ReplayTargetKey, window_id: String },
    /// The look is over.
    Done,
    /// No session could be started, for this reason. The look is over.
    GiveUp(String),
}

/// The contents of a `RecordAction`.
pub ghost enum RecordActionView<L> {
    Prune(u64),
    Stop(ReplaySession<L>),
    Start { key: KeyView, window_id: Seq<char> },
    Done,
    GiveUp(Seq<char>),
}

impl<L> View for RecordAction<L> {
    type V = RecordActionView<L>;

    open spec fn view(&self) -> RecordActionView<L> {
        match *self {
            RecordAction::Prune(retain) => RecordActionView::Prune(retain),
            RecordAction::Stop(session) => RecordActionView::Stop(session),
            RecordAction::Start { key, window_id } => RecordActionView::Start {
                key: key@,
                window_id: window_id@,
            },
            RecordAction::Done => RecordActionView::Done,
            RecordAction::GiveUp(why) => RecordActionView::GiveUp(why@),
        }
    }
}

/// What is done next so that a window comes to be recorded: where a session records it
/// already, that one is pruned; else the session that is running is stopped, if there is
/// one, and then one is started for the window.
pub open spec fn record_action<L>(
    state: ReplayBufferState<L>,
    target: RecordTargetView,
    event: RecordEvent<L>,
) -> RecordActionView<L> {
    let start = RecordActionView::Start { key: target.key, window_id: target.window_id };
    match event {
        RecordEvent::Wanted => if running_key(state) == Some(target.key) {
            RecordActionView::Prune(target.retain)
        } else {
            match state.session {
                Some(session) => RecordActionView::Stop(session),
                None => start,
            }
        },
        RecordEvent::Stopped => start,
        RecordEvent::Started(Ok(_)) => RecordActionView::Done,
        RecordEvent::Started(Err(why)) => RecordActionView::GiveUp(why@),
    }
}

/// The session that is in place after an event: one that is to be stopped is taken out,
/// and one that was started is put in.
pub open spec fn session_after<L>(
    state: ReplayBufferState<L>,
    target: RecordTargetView,
    event: RecordEvent<L>,
) -> Option<ReplaySession<L>> {
    match event {
        RecordEvent::Wanted => if running_key(state) == Some(target.key) {
            state.session
        } else {
            None
        },
        RecordEvent::Started(Ok(session)) => Some(session),
        _ => state.session,
    }
}

/// Decides what is done next so that a window comes to be recorded.
pub fn record_window<L>(
    state: &mut ReplayBufferState<L>,
    target: &RecordTarget,
    event: RecordEvent<L>,
) -> (r: RecordAction<L>)
    ensures
        r@ == record_action(*old(state), target@, event),
        final(state).session == session_after(*old(state), target@, event),
{
    match event {
        RecordEvent::Wanted => match state.claim(&target.key) {
            Claim::Running => RecordAction::Prune(target.retain),
            Claim::Start { replaced: Some(session) } => RecordAction::Stop(session),
            Claim::Start { replaced: None } => RecordAction::Start {
                key: target.key.clone(),
                window_id: target.window_id.clone(),
            },
        },
        RecordEvent::Stopped => RecordAction::Start {
            key: target.key.clone(),
            window_id: target.window_id.clone(),
        },
        RecordEvent::Started(Ok(session)) => {
            state.install(session);
            RecordAction::Done
        },
        RecordEvent::Started(Err(why)) => RecordAction::GiveUp(why),
    }
}

} // verus!
