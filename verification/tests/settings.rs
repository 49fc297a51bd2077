use replay_buffer::settings::{ReplayBufferSettings, StoredSettings, NANOS_PER_SEC, SETTINGS_KEY};

#[test]
fn defaults() {
    let settings = ReplayBufferSettings::default();
    assert!(!settings.enabled);
    assert_eq!(settings.clip_duration_secs, 30);
    assert!(settings.targets.is_empty());
    assert_eq!(SETTINGS_KEY, "replay_buffer_settings");
}

#[test]
fn without_stored_settings_the_defaults_hold() {
    for stored in [StoredSettings::Unavailable, StoredSettings::Missing] {
        let settings = ReplayBufferSettings::get(stored).unwrap();
        assert!(!settings.enabled);
        assert_eq!(settings.clip_duration_secs, 30);
        assert!(settings.targets.is_empty());
    }
}

#[test]
fn stored_settings_hold() {
    let stored = ReplayBufferSettings {
        enabled: true,
        clip_duration_secs: 45,
        targets: Vec::new(),
    };
    let settings = ReplayBufferSettings::get(StoredSettings::Found(Ok(stored.clone()))).unwrap();
    assert!(settings.enabled);
    assert_eq!(settings.clip_duration_secs, 45);
}

#[test]
fn a_value_that_is_no_settings_is_an_error() {
    let stored = StoredSettings::Found(Err("missing field".to_string()));
    assert_eq!(
        ReplayBufferSettings::get(stored).unwrap_err(),
        "Failed to deserialize replay buffer settings: missing field"
    );
}

#[test]
fn retention_exceeds_the_clip_by_safety_and_margin() {
    let mut settings = ReplayBufferSettings::default();
    assert_eq!(settings.clip_length(), 30 * NANOS_PER_SEC);
    assert_eq!(settings.retention(), 94 * NANOS_PER_SEC);
    settings.clip_duration_secs = u32::MAX;
    assert_eq!(settings.clip_length(), 4_294_967_295 * NANOS_PER_SEC);
    assert_eq!(settings.retention(), 4_294_967_359 * NANOS_PER_SEC);
}
