//! What holds of keys, rules and the search for a window.

use crate::settings::{ReplayBufferSettings, ReplayWindowRule, RuleView, SettingsView};
use crate::targets::{
    first_target, is_target, key_of, normalized_path, optional_normalized_path, rule_names,
    window_views, CaptureWindow, ReplayTargetKey, WindowView,
};
use crate::text::{
    ascii_lower, ascii_lowered, is_white_space, lemma_replaced_by_char, replaced, trimmed,
    trimmed_end, trimmed_start,
};
use vstd::std_specs::cmp::PartialEqSpec;
use vstd::prelude::*;

verus! {

/// The separator in its normalized form.
pub open spec fn backslashed(c: char) -> char {
    if c == '/' {
        '\\'
    } else {
        c
    }
}

proof fn lemma_trimmed_start_of_map(s: Seq<char>, f: spec_fn(char) -> char)
    requires
        forall|c: char| is_white_space(#[trigger] f(c)) == is_white_space(c),
    ensures
        trimmed_start(s.map_values(f)) == trimmed_start(s).map_values(f),
    decreases s.len(),
{
    if s.len() > 0 && is_white_space(s[0]) {
        lemma_trimmed_start_of_map(s.drop_first(), f);
        assert(s.map_values(f).drop_first() =~= s.drop_first().map_values(f));
    }
    assert(s.len() > 0 ==> s.map_values(f)[0] == f(s[0]));
}

proof fn lemma_trimmed_end_of_map(s: Seq<char>, f: spec_fn(char) -> char)
    requires
        forall|c: char| is_white_space(#[trigger] f(c)) == is_white_space(c),
    ensures
        trimmed_end(s.map_values(f)) == trimmed_end(s).map_values(f),
    decreases s.len(),
{
    if s.len() > 0 && is_white_space(s.last()) {
        lemma_trimmed_end_of_map(s.drop_last(), f);
        assert(s.map_values(f).drop_last() =~= s.drop_last().map_values(f));
    }
    assert(s.len() > 0 ==> s.map_values(f).last() == f(s.last()));
}

/// Trimming and a map that keeps white space and the rest apart can change places.
pub proof fn lemma_trimmed_of_map(s: Seq<char>, f: spec_fn(char) -> char)
    requires
        forall|c: char| is_white_space(#[trigger] f(c)) == is_white_space(c),
    ensures
        trimmed(s.map_values(f)) == trimmed(s).map_values(f),
{
    lemma_trimmed_start_of_map(s, f);
    lemma_trimmed_end_of_map(trimmed_start(s), f);
}

proof fn lemma_trimmed_start_first(s: Seq<char>)
    ensures
        trimmed_start(s).len() > 0 ==> !is_white_space(trimmed_start(s)[0]),
    decreases s.len(),
{
    if s.len() > 0 && is_white_space(s[0]) {
        lemma_trimmed_start_first(s.drop_first());
    }
}

proof fn lemma_trimmed_end_ends(s: Seq<char>)
    ensures
        trimmed_end(s).len() <= s.len(),
        trimmed_end(s).len() > 0 ==> !is_white_space(trimmed_end(s).last()),
        trimmed_end(s).len() > 0 ==> trimmed_end(s)[0] == s[0],
    decreases s.len(),
{
    if s.len() > 0 && is_white_space(s.last()) {
        lemma_trimmed_end_ends(s.drop_last());
    }
}

/// Text that was trimmed is not changed by trimming it again.
pub proof fn lemma_trimmed_twice(s: Seq<char>)
    ensures
        trimmed(trimmed(s)) == trimmed(s),
{
    lemma_trimmed_start_first(s);
    lemma_trimmed_end_ends(trimmed_start(s));
}

proof fn lemma_maps_keep_white_space()
    ensures
        forall|c: char| is_white_space(#[trigger] ascii_lower(c)) == is_white_space(c),
        forall|c: char| is_white_space(#[trigger] backslashed(c)) == is_white_space(c),
        forall|c: char| ascii_lower(#[trigger] ascii_lower(c)) == ascii_lower(c),
        forall|c: char|
            ascii_lower(backslashed(#[trigger] ascii_lower(c))) == ascii_lower(backslashed(c)),
{
}

/// Normalizing is trimming, and then a map of the characters.
pub proof fn lemma_normalized_path_is_map(path: Seq<char>)
    ensures
        normalized_path(path) == trimmed(path).map_values(
            |c: char| ascii_lower(backslashed(c)),
        ),
{
    lemma_replaced_by_char(trimmed(path), '/', '\\');
    assert(normalized_path(path) =~= trimmed(path).map_values(
        |c: char| ascii_lower(backslashed(c)),
    ));
}

/// Paths are told apart neither by white space around them, nor by the kind of slash,
/// nor by the case of ASCII letters.
pub proof fn law_normalize_ignores_spelling(path: Seq<char>)
    ensures
        normalized_path(trimmed(path)) == normalized_path(path),
        normalized_path(replaced(path, '/', seq!['\\'])) == normalized_path(path),
        normalized_path(ascii_lowered(path)) == normalized_path(path),
{
    lemma_maps_keep_white_space();
    lemma_trimmed_twice(path);
    let slashes = |c: char| backslashed(c);
    let lower = |c: char| ascii_lower(c);
    let both = |c: char| ascii_lower(backslashed(c));
    lemma_normalized_path_is_map(path);

    lemma_replaced_by_char(path, '/', '\\');
    assert(replaced(path, '/', seq!['\\']) =~= path.map_values(slashes));
    lemma_trimmed_of_map(path, slashes);
    lemma_normalized_path_is_map(path.map_values(slashes));
    assert(trimmed(path).map_values(slashes).map_values(both) =~= trimmed(path).map_values(both));

    lemma_trimmed_of_map(path, lower);
    lemma_normalized_path_is_map(path.map_values(lower));
    assert(trimmed(path).map_values(lower).map_values(both) =~= trimmed(path).map_values(both));
    assert(ascii_lowered(path) =~= path.map_values(lower));
}

/// A normalized path is not changed by normalizing it again.
pub proof fn law_normalize_idempotent(path: Seq<char>)
    ensures
        normalized_path(normalized_path(path)) == normalized_path(path),
{
    law_normalize_ignores_spelling(path);
    law_normalize_ignores_spelling(replaced(trimmed(path), '/', seq!['\\']));
    law_normalize_ignores_spelling(trimmed(path));
}

/// Where a rule and a window both tell their executable, owner and title play no part.
pub proof fn law_executable_decides(
    rule: RuleView,
    other_rule: RuleView,
    window: WindowView,
    other_window: WindowView,
)
    requires
        rule.executable_path is Some,
        window.executable_path is Some,
        other_rule.executable_path == rule.executable_path,
        other_window.executable_path == window.executable_path,
    ensures
        rule_names(rule, window) == rule_names(other_rule, other_window),
{
}

/// Where one of them does not tell it, the executable plays no part.
pub proof fn law_names_decide_without_executable(
    rule: RuleView,
    window: WindowView,
    path: Option<Seq<char>>,
)
    ensures
        rule_names(RuleView { executable_path: None, ..rule }, window) == rule_names(
            RuleView { executable_path: None, ..rule },
            WindowView { executable_path: path, ..window },
        ),
        rule_names(rule, WindowView { executable_path: None, ..window }) == rule_names(
            RuleView { executable_path: path, ..rule },
            WindowView { executable_path: None, ..window },
        ),
{
}

/// Text with no white space around it.
pub open spec fn is_trimmed(s: Seq<char>) -> bool {
    trimmed(s) == s
}

/// Windows with the same key are named by the same rules, provided that there is no
/// white space around their owners and titles.
pub proof fn law_same_key_same_rules(rule: RuleView, window: WindowView, other: WindowView)
    requires
        key_of(window) == key_of(other),
        is_trimmed(window.owner_name),
        is_trimmed(window.name),
        is_trimmed(other.owner_name),
        is_trimmed(other.name),
    ensures
        rule_names(rule, window) == rule_names(rule, other),
{
    assert(key_of(window).executable_path == key_of(other).executable_path);
    assert(key_of(window).owner_name == key_of(other).owner_name);
    assert(key_of(window).window_title == key_of(other).window_title);
}

/// A rule that was written down from a window names that window, provided that the
/// window tells its executable or that there is no white space around its owner and
/// title.
pub proof fn law_rule_of_window_names_it(window: WindowView)
    requires
        window.executable_path is Some || is_trimmed(window.owner_name) && is_trimmed(window.name),
    ensures
        rule_names(
            RuleView {
                owner_name: window.owner_name,
                window_title: window.name,
                executable_path: window.executable_path,
            },
            window,
        ),
{
}

/// A key does not depend on the case of ASCII letters or on the white space around the
/// texts of a window.
pub proof fn law_key_ignores_spelling(window: WindowView)
    ensures
        key_of(
            WindowView {
                owner_name: ascii_lowered(trimmed(window.owner_name)),
                name: ascii_lowered(trimmed(window.name)),
                executable_path: optional_normalized_path(window.executable_path),
                ..window
            },
        ) == key_of(window),
{
    lemma_maps_keep_white_space();
    let lower = |c: char| ascii_lower(c);
    assert forall|s: Seq<char>| ascii_lowered(trimmed(#[trigger] ascii_lowered(trimmed(s))))
        == ascii_lowered(trimmed(s)) by {
        lemma_trimmed_of_map(trimmed(s), lower);
        lemma_trimmed_twice(s);
        assert(ascii_lowered(trimmed(s)) =~= trimmed(s).map_values(lower));
        assert(ascii_lowered(ascii_lowered(trimmed(s))) =~= ascii_lowered(trimmed(s)));
    }
    if let Some(path) = window.executable_path {
        law_normalize_idempotent(path);
    }
}

/// The window that is found is one of those listed, some rule names it, and no rule
/// names one listed before it. None is found only where no rule names any.
pub proof fn law_first_target(settings: SettingsView, windows: Seq<WindowView>)
    ensures
        match first_target(settings, windows) {
            Some(window) => exists|i: int|
                {
                    &&& 0 <= i < windows.len()
                    &&& #[trigger] windows[i] == window
                    &&& is_target(settings, window)
                    &&& forall|j: int| 0 <= j < i ==> !is_target(settings, #[trigger] windows[j])
                },
            None => forall|j: int|
                0 <= j < windows.len() ==> !is_target(settings, #[trigger] windows[j]),
        },
    decreases windows.len(),
{
    if windows.len() > 0 && !is_target(settings, windows[0]) {
        let rest = windows.drop_first();
        law_first_target(settings, rest);
        assert forall|j: int| 0 < j < windows.len() implies #[trigger] windows[j] == rest[j - 1] by {}
        if let Some(window) = first_target(settings, rest) {
            let i = choose|i: int|
                {
                    &&& 0 <= i < rest.len()
                    &&& #[trigger] rest[i] == window
                    &&& is_target(settings, window)
                    &&& forall|j: int| 0 <= j < i ==> !is_target(settings, #[trigger] rest[j])
                };
            assert(windows[i + 1] == window);
        }
    }
}

/// Without rules no window is found.
pub proof fn law_no_rules_no_window(settings: SettingsView, windows: Seq<WindowView>)
    requires
        settings.targets.len() == 0,
    ensures
        first_target(settings, windows) is None,
    decreases windows.len(),
{
    if windows.len() > 0 {
        law_no_rules_no_window(settings, windows.drop_first());
    }
}

/// Two characters that are the same, or the same ASCII letter in upper and lower case.
pub open spec fn same_letter(c: char, d: char) -> bool {
    ||| c == d
    ||| 'A' <= c <= 'Z' && d as u32 == c as u32 + 32
    ||| 'A' <= d <= 'Z' && c as u32 == d as u32 + 32
}

/// Two texts that differ in nothing but the case of ASCII letters.
pub open spec fn same_but_case(s: Seq<char>, t: Seq<char>) -> bool {
    &&& s.len() == t.len()
    &&& forall|i: int| 0 <= i < s.len() ==> same_letter(#[trigger] s[i], t[i])
}

/// A slash of either kind.
pub open spec fn is_slash(c: char) -> bool {
    c == '/' || c == '\\'
}

/// Two paths that differ in nothing but the white space around them, the kind of their
/// slashes and the case of ASCII letters.
pub open spec fn same_executable(path: Seq<char>, other: Seq<char>) -> bool {
    let s = trimmed(path);
    let t = trimmed(other);
    &&& s.len() == t.len()
    &&& forall|i: int|
        0 <= i < s.len() ==> same_letter(#[trigger] s[i], t[i]) || is_slash(s[i]) && is_slash(
            t[i],
        )
}

proof fn lemma_same_letter(c: char, d: char)
    ensures
        same_letter(c, d) <==> ascii_lower(c) == ascii_lower(d),
        same_letter(c, d) || is_slash(c) && is_slash(d) <==> ascii_lower(backslashed(c))
            == ascii_lower(backslashed(d)),
{
}

proof fn lemma_same_but_case(s: Seq<char>, t: Seq<char>)
    ensures
        same_but_case(s, t) <==> ascii_lowered(s) == ascii_lowered(t),
{
    if same_but_case(s, t) {
        assert forall|i: int| 0 <= i < s.len() implies ascii_lowered(s)[i] == ascii_lowered(t)[i] by {
            lemma_same_letter(s[i], t[i]);
        }
        assert(ascii_lowered(s) =~= ascii_lowered(t));
    }
    if ascii_lowered(s) == ascii_lowered(t) {
        assert(ascii_lowered(s).len() == s.len() && ascii_lowered(t).len() == t.len());
        assert forall|i: int| 0 <= i < s.len() implies same_letter(#[trigger] s[i], t[i]) by {
            assert(ascii_lowered(s)[i] == ascii_lowered(t)[i]);
            lemma_same_letter(s[i], t[i]);
        }
    }
}

proof fn lemma_same_executable(path: Seq<char>, other: Seq<char>)
    ensures
        same_executable(path, other) <==> normalized_path(path) == normalized_path(other),
{
    lemma_normalized_path_is_map(path);
    lemma_normalized_path_is_map(other);
    let s = trimmed(path);
    let t = trimmed(other);
    let f = |c: char| ascii_lower(backslashed(c));
    if same_executable(path, other) {
        assert forall|i: int| 0 <= i < s.len() implies s.map_values(f)[i] == t.map_values(f)[i] by {
            assert(same_letter(s[i], t[i]) || is_slash(s[i]) && is_slash(t[i]));
            lemma_same_letter(s[i], t[i]);
        }
        assert(s.map_values(f) =~= t.map_values(f));
    }
    if s.map_values(f) == t.map_values(f) {
        assert(s.map_values(f).len() == s.len() && t.map_values(f).len() == t.len());
        assert forall|i: int| 0 <= i < s.len() implies same_letter(#[trigger] s[i], t[i])
            || is_slash(s[i]) && is_slash(t[i]) by {
            assert(s.map_values(f)[i] == t.map_values(f)[i]);
            lemma_same_letter(s[i], t[i]);
        }
    }
}

proof fn lemma_trimmed_start_cuts(s: Seq<char>) -> (k: int)
    ensures
        0 <= k <= s.len(),
        trimmed_start(s) == s.skip(k),
        forall|i: int| 0 <= i < k ==> is_white_space(#[trigger] s[i]),
    decreases s.len(),
{
    if s.len() > 0 && is_white_space(s[0]) {
        let rest = s.drop_first();
        let k = lemma_trimmed_start_cuts(rest);
        assert(rest.skip(k) =~= s.skip(k + 1));
        assert forall|i: int| 0 <= i < k + 1 implies is_white_space(#[trigger] s[i]) by {
            if i > 0 {
                assert(s[i] == rest[i - 1]);
            }
        }
        k + 1
    } else {
        assert(s.skip(0) =~= s);
        0
    }
}

proof fn lemma_trimmed_end_cuts(s: Seq<char>) -> (k: int)
    ensures
        0 <= k <= s.len(),
        trimmed_end(s) == s.take(k),
        forall|i: int| k <= i < s.len() ==> is_white_space(#[trigger] s[i]),
    decreases s.len(),
{
    if s.len() > 0 && is_white_space(s.last()) {
        let rest = s.drop_last();
        let k = lemma_trimmed_end_cuts(rest);
        assert(rest.take(k) =~= s.take(k));
        assert forall|i: int| k <= i < s.len() implies is_white_space(#[trigger] s[i]) by {
            if i < rest.len() {
                assert(s[i] == rest[i]);
            }
        }
        k
    } else {
        assert(s.take(s.len() as int) =~= s);
        s.len() as int
    }
}

/// Trimming takes off white space at both ends and nothing else: what is left is one
/// piece of the text, with no white space at its ends, and only white space around it.
pub proof fn law_trimming_takes_white_space_off(s: Seq<char>)
    ensures
        trimmed(s).len() > 0 ==> !is_white_space(trimmed(s)[0]) && !is_white_space(
            trimmed(s).last(),
        ),
        exists|i: int, j: int|
            {
                &&& 0 <= i <= j <= s.len()
                &&& trimmed(s) == #[trigger] s.subrange(i, j)
                &&& forall|k: int| 0 <= k < i || j <= k < s.len() ==> is_white_space(#[trigger] s[k])
            },
{
    lemma_trimmed_start_first(s);
    lemma_trimmed_end_ends(trimmed_start(s));
    let i = lemma_trimmed_start_cuts(s);
    let n = lemma_trimmed_end_cuts(s.skip(i));
    let j = i + n;
    assert(s.skip(i).take(n) =~= s.subrange(i, j));
    assert forall|k: int| 0 <= k < i || j <= k < s.len() implies is_white_space(#[trigger] s[k]) by {
        if k >= j {
            assert(s[k] == s.skip(i)[k - i]);
        }
    }
}

/// A rule names a window exactly where they tell the same executable, or, where one of
/// them tells none, where owner and title are the same but for the case of letters and
/// the white space that the rule has around them.
pub proof fn law_rule_names_window(rule: ReplayWindowRule, window: CaptureWindow)
    ensures
        rule_names(rule@, window@) <==> match (rule.executable_path, window.executable_path) {
            (Some(path), Some(other)) => same_executable(path@, other@),
            _ => {
                &&& same_but_case(trimmed(rule.owner_name@), window.owner_name@)
                &&& same_but_case(trimmed(rule.window_title@), window.name@)
            },
        },
{
    if let (Some(path), Some(other)) = (rule.executable_path, window.executable_path) {
        lemma_same_executable(path@, other@);
    }
    lemma_same_but_case(trimmed(rule.owner_name@), window.owner_name@);
    lemma_same_but_case(trimmed(rule.window_title@), window.name@);
}

/// Two windows are the same target exactly where owners and titles are the same but for
/// the case of letters and the white space around them, and both tell the same
/// executable or both tell none.
pub proof fn law_same_target(
    window: CaptureWindow,
    other: CaptureWindow,
    key: ReplayTargetKey,
    other_key: ReplayTargetKey,
)
    requires
        key@ == key_of(window@),
        other_key@ == key_of(other@),
    ensures
        key.eq_spec(&other_key) <==> {
            &&& same_but_case(trimmed(window.owner_name@), trimmed(other.owner_name@))
            &&& same_but_case(trimmed(window.name@), trimmed(other.name@))
            &&& match (window.executable_path, other.executable_path) {
                (Some(path), Some(other_path)) => same_executable(path@, other_path@),
                (None, None) => true,
                _ => false,
            }
        },
{
    lemma_same_but_case(trimmed(window.owner_name@), trimmed(other.owner_name@));
    lemma_same_but_case(trimmed(window.name@), trimmed(other.name@));
    if let (Some(path), Some(other_path)) = (window.executable_path, other.executable_path) {
        lemma_same_executable(path@, other_path@);
    }
}

/// Text without upper case ASCII letters.
pub open spec fn has_no_upper_case(s: Seq<char>) -> bool {
    forall|i: int| 0 <= i < s.len() ==> !('A' <= #[trigger] s[i] <= 'Z')
}

proof fn lemma_lowered_text(s: Seq<char>)
    ensures
        has_no_upper_case(ascii_lowered(s)),
        same_but_case(ascii_lowered(s), s),
{
    let t = ascii_lowered(s);
    assert forall|i: int| 0 <= i < t.len() implies same_letter(#[trigger] t[i], s[i]) && !('A'
        <= t[i] <= 'Z') by {
        lemma_same_letter(t[i], s[i]);
        assert(t[i] == ascii_lower(s[i]));
    }
}

/// A normalized path is the same executable, written in lower case, with backslashes,
/// and with no white space around it.
pub proof fn law_normalized_path(path: Seq<char>)
    ensures
        normalized_path(path).len() == trimmed(path).len(),
        forall|i: int|
            0 <= i < trimmed(path).len() ==> (same_letter(
                #[trigger] normalized_path(path)[i],
                trimmed(path)[i],
            ) || normalized_path(path)[i] == '\\' && trimmed(path)[i] == '/'),
        forall|i: int|
            0 <= i < normalized_path(path).len() ==> #[trigger] normalized_path(path)[i] != '/',
        has_no_upper_case(normalized_path(path)),
{
    lemma_normalized_path_is_map(path);
    let s = trimmed(path);
    let t = normalized_path(path);
    assert forall|i: int| 0 <= i < s.len() implies {
        &&& same_letter(#[trigger] t[i], s[i]) || t[i] == '\\' && s[i] == '/'
        &&& t[i] != '/'
        &&& !('A' <= t[i] <= 'Z')
    } by {
        assert(t[i] == ascii_lower(backslashed(s[i])));
        lemma_same_letter(t[i], s[i]);
    }
}

/// A key holds the owner, the title and the executable of its window, each in its own
/// place: trimmed and in lower case, and the executable normalized.
pub proof fn law_key_holds_texts(window: CaptureWindow, key: ReplayTargetKey)
    requires
        key@ == key_of(window@),
    ensures
        has_no_upper_case(key.owner_name@),
        same_but_case(key.owner_name@, trimmed(window.owner_name@)),
        has_no_upper_case(key.window_title@),
        same_but_case(key.window_title@, trimmed(window.name@)),
        match (key.executable_path, window.executable_path) {
            (Some(held), Some(path)) => held@ == normalized_path(path@),
            (None, None) => true,
            _ => false,
        },
{
    lemma_lowered_text(trimmed(window.owner_name@));
    lemma_lowered_text(trimmed(window.name@));
}

/// Each rule counts: a window is a target exactly where one rule of the settings names
/// it, whichever that is.
pub proof fn law_each_rule_counts(settings: ReplayBufferSettings, window: CaptureWindow)
    ensures
        is_target(settings@, window@) <==> exists|i: int|
            0 <= i < settings.targets@.len() && rule_names(
                (#[trigger] settings.targets@[i])@,
                window@,
            ),
{
    assert(settings@.targets.len() == settings.targets@.len());
    if is_target(settings@, window@) {
        let i = choose|i: int|
            0 <= i < settings@.targets.len() && rule_names(
                #[trigger] settings@.targets[i],
                window@,
            );
        assert(settings.targets@[i]@ == settings@.targets[i]);
    }
    if exists|i: int|
        0 <= i < settings.targets@.len() && rule_names((#[trigger] settings.targets@[i])@, window@) {
        let i = choose|i: int|
            0 <= i < settings.targets@.len() && rule_names(
                (#[trigger] settings.targets@[i])@,
                window@,
            );
        assert(settings@.targets[i] == settings.targets@[i]@);
    }
}

/// More rules never lose a window: what was a target stays one when rules are added,
/// before or behind.
pub proof fn law_more_rules_name_more(
    settings: SettingsView,
    before: Seq<RuleView>,
    behind: Seq<RuleView>,
    window: WindowView,
)
    requires
        is_target(settings, window),
    ensures
        is_target(
            SettingsView { targets: before + settings.targets + behind, ..settings },
            window,
        ),
{
    let i = choose|i: int|
        0 <= i < settings.targets.len() && rule_names(#[trigger] settings.targets[i], window);
    let more = SettingsView { targets: before + settings.targets + behind, ..settings };
    assert(more.targets[before.len() + i] == settings.targets[i]);
}

/// Whether the rule at `r` names the window at `w`.
pub open spec fn names_at(
    settings: ReplayBufferSettings,
    windows: Seq<CaptureWindow>,
    r: int,
    w: int,
) -> bool {
    &&& 0 <= r < settings.targets@.len()
    &&& 0 <= w < windows.len()
    &&& rule_names(settings.targets@[r]@, windows[w]@)
}

/// A window is found exactly where some rule names some window. It is one that a rule
/// names, and no rule names a window listed before it.
pub proof fn law_found_window_is_named(settings: ReplayBufferSettings, windows: Seq<CaptureWindow>)
    ensures
        match first_target(settings@, window_views(windows)) {
            Some(found) => exists|r: int, w: int|
                {
                    &&& #[trigger] names_at(settings, windows, r, w)
                    &&& windows[w]@ == found
                    &&& forall|s: int, v: int| v < w ==> !#[trigger] names_at(settings, windows, s, v)
                },
            None => forall|r: int, w: int| !#[trigger] names_at(settings, windows, r, w),
        },
{
    let views = window_views(windows);
    law_first_target(settings@, views);
    assert forall|r: int, w: int| #[trigger] names_at(settings, windows, r, w) implies is_target(
        settings@,
        views[w],
    ) by {
        assert(settings@.targets[r] == settings.targets@[r]@);
        assert(views[w] == windows[w]@);
    }
    if let Some(found) = first_target(settings@, views) {
        let w = choose|i: int|
            {
                &&& 0 <= i < views.len()
                &&& #[trigger] views[i] == found
                &&& is_target(settings@, found)
                &&& forall|j: int| 0 <= j < i ==> !is_target(settings@, #[trigger] views[j])
            };
        law_each_rule_counts(settings, windows[w]);
        assert(views[w] == windows[w]@);
        let r = choose|r: int|
            0 <= r < settings.targets@.len() && rule_names(
                (#[trigger] settings.targets@[r])@,
                windows[w]@,
            );
        assert(names_at(settings, windows, r, w));
        assert forall|s: int, v: int| v < w implies !#[trigger] names_at(
            settings,
            windows,
            s,
            v,
        ) by {
            if names_at(settings, windows, s, v) {
                assert(is_target(settings@, views[v]));
            }
        }
    } else {
        assert forall|r: int, w: int| !#[trigger] names_at(settings, windows, r, w) by {
            if names_at(settings, windows, r, w) {
                assert(is_target(settings@, views[w]));
            }
        }
    }
}

} // verus!
