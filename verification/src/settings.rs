//! What the user has set up for the replay buffer.

use crate::text::{joined_text, optional_text};
use vstd::prelude::*;

verus! {

/// Nanoseconds in a second.
pub const NANOS_PER_SEC: u64 = 1_000_000_000;

/// Where the settings lie in the store of the application.
pub const SETTINGS_KEY: &'static str = "replay_buffer_settings";

/// How many seconds are kept beyond the length of a clip, so that a clip being saved
/// does not lose its beginning.
pub const RETENTION_SAFETY_SECS: u64 = 60;

/// How many seconds are kept beyond that, because segments are kept whole.
pub const SEGMENT_MARGIN_SECS: u64 = 4;

/// Names a window that the buffer records.
#[derive(Debug, PartialEq, Eq)]
pub struct ReplayWindowRule {
    pub owner_name: String,
    pub window_title: String,
    pub executable_path: Option<String>,
}

/// The texts of a rule.
pub ghost struct RuleView {
    pub owner_name: Seq<char>,
    pub window_title: Seq<char>,
    pub executable_path: Option<Seq<char>>,
}

impl View for ReplayWindowRule {
    type V = RuleView;

    open spec fn view(&self) -> RuleView {
        RuleView {
            owner_name: self.owner_name@,
            window_title: self.window_title@,
            executable_path: optional_text(self.executable_path),
        }
    }
}

impl Clone for ReplayWindowRule {
    fn clone(&self) -> (r: ReplayWindowRule)
        ensures
            r@ == self@,
    {
        ReplayWindowRule {
            owner_name: self.owner_name.clone(),
            window_title: self.window_title.clone(),
            executable_path: self.executable_path.clone(),
        }
    }
}

/// The settings of the replay buffer.
#[derive(Debug)]
pub struct ReplayBufferSettings {
    pub enabled: bool,
    pub clip_duration_secs: u32,
    pub targets: Vec<ReplayWindowRule>,
}

/// The contents of the settings.
#[verifier::ext_equal]
pub ghost struct SettingsView {
    pub enabled: bool,
    pub clip_duration_secs: u32,
    pub targets: Seq<RuleView>,
}

impl View for ReplayBufferSettings {
    type V = SettingsView;

    open spec fn view(&self) -> SettingsView {
        SettingsView {
            enabled: self.enabled,
            clip_duration_secs: self.clip_duration_secs,
            targets: self.targets@.map_values(|rule: ReplayWindowRule| rule@),
        }
    }
}

impl Clone for ReplayBufferSettings {
    fn clone(&self) -> (r: ReplayBufferSettings)
        ensures
            r@ == self@,
    {
        ReplayBufferSettings {
            enabled: self.enabled,
            clip_duration_secs: self.clip_duration_secs,
            targets: self.targets.clone(),
        }
    }
}

/// The settings that hold until the user changes them.
pub open spec fn default_settings() -> SettingsView {
    SettingsView { enabled: false, clip_duration_secs: 30, targets: seq![] }
}

impl Default for ReplayBufferSettings {
    fn default() -> (settings: ReplayBufferSettings)
        ensures
            settings@ == default_settings(),
    {
        ReplayBufferSettings { enabled: false, clip_duration_secs: 30, targets: Vec::new() }
    }
}

/// What the store of the application answers when it is asked for the settings.
#[derive(Debug)]
pub enum StoredSettings {
    /// The store could not be opened.
    Unavailable,
    /// The store holds nothing under the key.
    Missing,
    /// The store holds a value: the settings that it describes, or why it describes
    /// none.
    Found(Result<ReplayBufferSettings, String>),
}

impl ReplayBufferSettings {
    /// The settings to go by. Without a store or a value in it they are the default
    /// ones; a value that describes no settings is an error.
    pub fn get(stored: StoredSettings) -> (r: Result<ReplayBufferSettings, String>)
        ensures
            match stored {
                StoredSettings::Found(Ok(settings)) => r == Ok::<ReplayBufferSettings, String>(
                    settings,
                ),
                StoredSettings::Found(Err(why)) => r matches Err(message) && message@
                    == "Failed to deserialize replay buffer settings: "@ + why@,
                _ => r matches Ok(settings) && settings@ == default_settings(),
            },
            settings_view(r) == settings_from(stored),
    {
        match stored {
            StoredSettings::Found(Ok(settings)) => Ok(settings),
            StoredSettings::Found(Err(why)) => Err(
                joined_text("Failed to deserialize replay buffer settings: ", why.as_str()),
            ),
            _ => Ok(ReplayBufferSettings::default()),
        }
    }

    /// The length of a clip in nanoseconds.
    pub fn clip_length(&self) -> (nanos: u64)
        ensures
            nanos == clip_length_of(self@),
    {
        self.clip_duration_secs as u64 * NANOS_PER_SEC
    }

    /// How much of the past the buffer keeps, in nanoseconds.
    pub fn retention(&self) -> (nanos: u64)
        ensures
            nanos == retention_of(self@),
    {
        (self.clip_duration_secs as u64 + RETENTION_SAFETY_SECS + SEGMENT_MARGIN_SECS)
            * NANOS_PER_SEC
    }
}

/// Settings and the text of the error in their place.
pub open spec fn settings_view(r: Result<ReplayBufferSettings, String>) -> Result<
    SettingsView,
    Seq<char>,
> {
    match r {
        Ok(settings) => Ok(settings@),
        Err(message) => Err(message@),
    }
}

/// The settings to go by, given what the store answers.
pub open spec fn settings_from(stored: StoredSettings) -> Result<SettingsView, Seq<char>> {
    match stored {
        StoredSettings::Found(Ok(settings)) => Ok(settings@),
        StoredSettings::Found(Err(why)) => Err(
            "Failed to deserialize replay buffer settings: "@ + why@,
        ),
        _ => Ok(default_settings()),
    }
}

/// The length of a clip in nanoseconds.
pub open spec fn clip_length_of(settings: SettingsView) -> u64 {
    (settings.clip_duration_secs * NANOS_PER_SEC) as u64
}

/// How much of the past the buffer keeps, in nanoseconds.
pub open spec fn retention_of(settings: SettingsView) -> u64 {
    ((settings.clip_duration_secs + RETENTION_SAFETY_SECS + SEGMENT_MARGIN_SECS)
        * NANOS_PER_SEC) as u64
}

} // verus!
