//! Which window the buffer records.

use crate::settings::{ReplayBufferSettings, ReplayWindowRule, RuleView, SettingsView};
use crate::text::{ascii_lowered, optional_text, replace_char, replaced, trimmed};
use vstd::prelude::*;

verus! {

/// A window on the screen.
#[derive(Debug)]
pub struct CaptureWindow {
    /// How the operating system names the window.
    pub id: String,
    pub owner_name: String,
    pub name: String,
    pub executable_path: Option<String>,
}

/// The contents of a window description.
pub ghost struct WindowView {
    pub id: Seq<char>,
    pub owner_name: Seq<char>,
    pub name: Seq<char>,
    pub executable_path: Option<Seq<char>>,
}

impl View for CaptureWindow {
    type V = WindowView;

    open spec fn view(&self) -> WindowView {
        WindowView {
            id: self.id@,
            owner_name: self.owner_name@,
            name: self.name@,
            executable_path: optional_text(self.executable_path),
        }
    }
}

impl Clone for CaptureWindow {
    fn clone(&self) -> (r: CaptureWindow)
        ensures
            r@ == self@,
    {
        CaptureWindow {
            id: self.id.clone(),
            owner_name: self.owner_name.clone(),
            name: self.name.clone(),
            executable_path: self.executable_path.clone(),
        }
    }
}

/// Tells recorded windows apart: two windows with the same key are the same target.
#[derive(Debug, Eq)]
pub struct ReplayTargetKey {
    pub executable_path: Option<String>,
    pub owner_name: String,
    pub window_title: String,
}

/// The texts of a key.
pub ghost struct KeyView {
    pub executable_path: Option<Seq<char>>,
    pub owner_name: Seq<char>,
    pub window_title: Seq<char>,
}

impl View for ReplayTargetKey {
    type V = KeyView;

    open spec fn view(&self) -> KeyView {
        KeyView {
            executable_path: optional_text(self.executable_path),
            owner_name: self.owner_name@,
            window_title: self.window_title@,
        }
    }
}

impl Clone for ReplayTargetKey {
    fn clone(&self) -> (r: ReplayTargetKey)
        ensures
            r@ == self@,
    {
        ReplayTargetKey {
            executable_path: self.executable_path.clone(),
            owner_name: self.owner_name.clone(),
            window_title: self.window_title.clone(),
        }
    }
}

impl PartialEq for ReplayTargetKey {
    fn eq(&self, other: &ReplayTargetKey) -> (r: bool) {
        let same_path = match (&self.executable_path, &other.executable_path) {
            (Some(path), Some(other_path)) => *path == *other_path,
            (None, None) => true,
            _ => false,
        };
        same_path && self.owner_name == other.owner_name && self.window_title == other.window_title
    }
}

impl vstd::std_specs::cmp::PartialEqSpecImpl for ReplayTargetKey {
    open spec fn obeys_eq_spec() -> bool {
        true
    }

    open spec fn eq_spec(&self, other: &ReplayTargetKey) -> bool {
        self@ == other@
    }
}

/// An executable path in the form in which paths are compared.
pub open spec fn normalized_path(path: Seq<char>) -> Seq<char> {
    ascii_lowered(replaced(trimmed(path), '/', seq!['\\']))
}

/// Brings an executable path into the form in which paths are compared: no white space
/// around it, backslashes between its parts, ASCII letters in lower case.
pub fn normalize_executable_path(path: &str) -> (r: String)
    ensures
        r@ == normalized_path(path@),
{
    proof {
        reveal_strlit("\\");
        assert("\\"@ =~= seq!['\\']);
    }
    replace_char(path.trim(), '/', "\\").as_str().to_ascii_lowercase()
}

/// The normalized form of a path, where there is one.
pub open spec fn optional_normalized_path(path: Option<Seq<char>>) -> Option<Seq<char>> {
    match path {
        Some(path) => Some(normalized_path(path)),
        None => None,
    }
}

fn normalize_optional_path(path: &Option<String>) -> (r: Option<String>)
    ensures
        optional_text(r) == optional_normalized_path(optional_text(*path)),
{
    match path {
        Some(path) => Some(normalize_executable_path(path.as_str())),
        None => None,
    }
}

/// The key of a window.
pub open spec fn key_of(window: WindowView) -> KeyView {
    KeyView {
        executable_path: optional_normalized_path(window.executable_path),
        owner_name: ascii_lowered(trimmed(window.owner_name)),
        window_title: ascii_lowered(trimmed(window.name)),
    }
}

/// The key of a window.
pub fn target_key(window: &CaptureWindow) -> (key: ReplayTargetKey)
    ensures
        key@ == key_of(window@),
{
    ReplayTargetKey {
        executable_path: normalize_optional_path(&window.executable_path),
        owner_name: window.owner_name.as_str().trim().to_ascii_lowercase(),
        window_title: window.name.as_str().trim().to_ascii_lowercase(),
    }
}

/// Whether a rule names a window: by the executable where both tell theirs, else by
/// owner and title.
pub open spec fn rule_names(rule: RuleView, window: WindowView) -> bool {
    match (rule.executable_path, window.executable_path) {
        (Some(rule_path), Some(window_path)) => normalized_path(rule_path) == normalized_path(
            window_path,
        ),
        _ => {
            &&& ascii_lowered(trimmed(rule.owner_name)) == ascii_lowered(window.owner_name)
            &&& ascii_lowered(trimmed(rule.window_title)) == ascii_lowered(window.name)
        },
    }
}

/// Whether a rule names a window.
pub fn rule_matches(rule: &ReplayWindowRule, window: &CaptureWindow) -> (r: bool)
    ensures
        r == rule_names(rule@, window@),
{
    if let (Some(rule_path), Some(window_path)) = (
        &rule.executable_path,
        &window.executable_path,
    ) {
        return normalize_executable_path(rule_path.as_str()) == normalize_executable_path(
            window_path.as_str(),
        );
    }
    rule.owner_name.as_str().trim().eq_ignore_ascii_case(window.owner_name.as_str())
        && rule.window_title.as_str().trim().eq_ignore_ascii_case(window.name.as_str())
}

/// Whether some rule of the settings names the window.
pub open spec fn is_target(settings: SettingsView, window: WindowView) -> bool {
    exists|i: int| 0 <= i < settings.targets.len() && rule_names(#[trigger] settings.targets[i], window)
}

/// The first window that some rule of the settings names.
pub open spec fn first_target(settings: SettingsView, windows: Seq<WindowView>) -> Option<
    WindowView,
>
    decreases windows.len(),
{
    if windows.len() == 0 {
        None
    } else if is_target(settings, windows[0]) {
        Some(windows[0])
    } else {
        first_target(settings, windows.drop_first())
    }
}

/// What is known of a list of windows.
pub open spec fn window_views(windows: Seq<CaptureWindow>) -> Seq<WindowView> {
    windows.map_values(|window: CaptureWindow| window@)
}

fn matches_any_rule(settings: &ReplayBufferSettings, window: &CaptureWindow) -> (r: bool)
    ensures
        r == is_target(settings@, window@),
{
    let mut i: usize = 0;
    while i < settings.targets.len()
        invariant
            i <= settings.targets@.len(),
            forall|j: int| 0 <= j < i ==> !rule_names(#[trigger] settings@.targets[j], window@),
        decreases settings.targets@.len() - i,
    {
        assert(settings@.targets[i as int] == settings.targets@[i as int]@);
        if rule_matches(&settings.targets[i], window) {
            return true;
        }
        i += 1;
    }
    false
}

/// The first of the windows that some rule of the settings names.
pub fn find_target_window<'a>(
    settings: &ReplayBufferSettings,
    windows: &'a Vec<CaptureWindow>,
) -> (r: Option<&'a CaptureWindow>)
    ensures
        match r {
            Some(window) => windows@.contains(*window) && first_target(
                settings@,
                window_views(windows@),
            ) == Some(window@),
            None => first_target(settings@, window_views(windows@)) is None,
        },
{
    let mut i: usize = 0;
    assert(window_views(windows@).skip(0) =~= window_views(windows@));
    while i < windows.len()
        invariant
            i <= windows@.len(),
            first_target(settings@, window_views(windows@)) == first_target(
                settings@,
                window_views(windows@).skip(i as int),
            ),
        decreases windows@.len() - i,
    {
        let ghost rest = window_views(windows@).skip(i as int);
        assert(rest[0] == windows@[i as int]@);
        assert(rest.drop_first() =~= window_views(windows@).skip(i + 1));
        if matches_any_rule(settings, &windows[i]) {
            return Some(&windows[i]);
        }
        i += 1;
    }
    None
}

} // verus!
