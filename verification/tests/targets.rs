use replay_buffer::settings::{ReplayBufferSettings, ReplayWindowRule};
use replay_buffer::targets::{
    find_target_window, normalize_executable_path, rule_matches, target_key, CaptureWindow,
};

fn rule(owner_name: &str, window_title: &str, executable_path: Option<&str>) -> ReplayWindowRule {
    ReplayWindowRule {
        owner_name: owner_name.to_string(),
        window_title: window_title.to_string(),
        executable_path: executable_path.map(str::to_string),
    }
}

fn window(id: u8, owner_name: &str, name: &str, executable_path: Option<&str>) -> CaptureWindow {
    CaptureWindow {
        id: id.to_string(),
        owner_name: owner_name.to_string(),
        name: name.to_string(),
        executable_path: executable_path.map(str::to_string),
    }
}

fn settings(targets: Vec<ReplayWindowRule>) -> ReplayBufferSettings {
    ReplayBufferSettings { enabled: true, clip_duration_secs: 30, targets }
}

#[test]
fn target_matching_prefers_executable_path() {
    let rule = ReplayWindowRule {
        owner_name: "Wrong".to_string(),
        window_title: "Wrong".to_string(),
        executable_path: Some("C:/Games/Game/game.exe".to_string()),
    };
    let window = CaptureWindow {
        id: "1".parse().unwrap(),
        owner_name: "Game".to_string(),
        name: "Game Window".to_string(),
        executable_path: Some("c:\\games\\game\\GAME.exe".to_string()),
    };

    assert!(rule_matches(&rule, &window));
}

#[test]
fn target_matching_falls_back_to_owner_and_title() {
    let rule = ReplayWindowRule {
        owner_name: "Game".to_string(),
        window_title: "Game Window".to_string(),
        executable_path: None,
    };
    let window = CaptureWindow {
        id: "1".parse().unwrap(),
        owner_name: "game".to_string(),
        name: "game window".to_string(),
        executable_path: None,
    };

    assert!(rule_matches(&rule, &window));
}

#[test]
fn different_executables_do_not_match_even_with_the_same_names() {
    let rule = rule("Game", "Game Window", Some("C:/a.exe"));
    assert!(!rule_matches(&rule, &window(1, "Game", "Game Window", Some("C:/b.exe"))));
    assert!(rule_matches(&rule, &window(1, "Game", "Game Window", None)));
}

#[test]
fn owner_and_title_both_have_to_match() {
    let by_names = rule(" Game\t", "\u{3000}Title ", None);
    assert!(rule_matches(&by_names, &window(1, "GAME", "title", Some("C:/game.exe"))));
    assert!(!rule_matches(&by_names, &window(1, "GAME", "other", None)));
    assert!(!rule_matches(&by_names, &window(1, "other", "title", None)));
    // Only the rule is trimmed.
    assert!(!rule_matches(&by_names, &window(1, " Game", "title", None)));
    // Only ASCII letters are compared without their case.
    assert!(!rule_matches(&rule("\u{e9}", "", None), &window(1, "\u{c9}", "", None)));
}

#[test]
fn paths_are_normalized() {
    assert_eq!(normalize_executable_path("  C:/Games/My Game.EXE\n"), "c:\\games\\my game.exe");
    assert_eq!(normalize_executable_path("a//b\\/c"), "a\\\\b\\\\c");
    assert_eq!(normalize_executable_path("\u{c9}/X"), "\u{c9}\\x");
    assert_eq!(normalize_executable_path(" \t "), "");
}

#[test]
fn normalizing_a_second_time_changes_nothing() {
    for path in ["  C:/Games/Game.EXE ", "\u{a0}/usr/Bin\u{2003}", "", "\\\\"] {
        let once = normalize_executable_path(path);
        assert_eq!(normalize_executable_path(&once), once);
    }
}

/// Every character that is white space is taken off, and no other.
#[test]
fn white_space_is_what_unicode_says() {
    let listed = |n: u32| {
        matches!(
            n,
            0x9..=0xd
                | 0x20
                | 0x85
                | 0xa0
                | 0x1680
                | 0x2000..=0x200a
                | 0x2028
                | 0x2029
                | 0x202f
                | 0x205f
                | 0x3000
        )
    };
    for n in 0..=0x10ffff_u32 {
        if let Some(c) = char::from_u32(n) {
            let text: String = [c, '-', c].iter().collect();
            let normalized = normalize_executable_path(&text);
            assert_eq!(normalized == "-", listed(n), "{n:x}");
        }
    }
}

#[test]
fn keys_ignore_case_slashes_and_white_space() {
    let key = target_key(&window(1, " Game ", "Main Menu", Some("C:/Game.exe ")));
    assert_eq!(key.executable_path.as_deref(), Some("c:\\game.exe"));
    assert_eq!(key.owner_name, "game");
    assert_eq!(key.window_title, "main menu");
    assert!(key == target_key(&window(2, "game", " MAIN MENU", Some("c:\\game.EXE"))));
    assert!(key.clone() == key);
}

#[test]
fn keys_differ_in_each_part() {
    let key = target_key(&window(1, "a", "b", Some("c")));
    assert!(key != target_key(&window(1, "x", "b", Some("c"))));
    assert!(key != target_key(&window(1, "a", "x", Some("c"))));
    assert!(key != target_key(&window(1, "a", "b", Some("x"))));
    assert!(key != target_key(&window(1, "a", "b", None)));
}

#[test]
fn a_rule_written_from_a_window_matches_it() {
    for path in [None, Some("D:/x.exe")] {
        let window = window(7, "Owner", "Title", path);
        assert!(rule_matches(&rule("Owner", "Title", path), &window));
    }
}

#[test]
fn the_first_named_window_is_found() {
    let windows = vec![
        window(1, "Shell", "Shell", None),
        window(2, "Game", "B", None),
        window(3, "Game", "A", None),
    ];
    let settings = settings(vec![rule("Game", "A", None), rule("Game", "B", None)]);
    assert_eq!(find_target_window(&settings, &windows).map(|w| w.id.as_str()), Some("2"));
}

#[test]
fn no_window_is_found_without_a_match() {
    let windows = vec![window(1, "Shell", "Shell", None)];
    assert!(find_target_window(&settings(vec![rule("Game", "A", None)]), &windows).is_none());
    assert!(find_target_window(&settings(Vec::new()), &windows).is_none());
    assert!(find_target_window(&settings(vec![rule("Game", "A", None)]), &Vec::new()).is_none());
}

#[test]
fn windows_with_the_same_key_are_named_by_the_same_rules() {
    let rules = [
        rule("Game", "Menu", None),
        rule("Game", "Menu", Some("C:/game.exe")),
        rule("Other", "Menu", Some("c:\\game.exe")),
        rule("Other", "Menu", None),
    ];
    let one = window(1, "GAME", "menu", Some("C:/Game.exe"));
    let two = window(2, "game", "MENU", Some(" c:\\game.EXE"));
    assert!(target_key(&one) == target_key(&two));
    for rule in &rules {
        assert_eq!(rule_matches(rule, &one), rule_matches(rule, &two));
    }
}

#[test]
fn white_space_around_a_title_keeps_the_key_and_loses_the_rule() {
    let rule = rule("Game", "Menu", None);
    let (plain, padded) = (window(1, "Game", "Menu", None), window(1, "Game", " Menu", None));
    assert!(target_key(&plain) == target_key(&padded));
    assert!(rule_matches(&rule, &plain));
    assert!(!rule_matches(&rule, &padded));
}
