//! What holds of the settings.

use crate::settings::{
    clip_length_of, default_settings, retention_of, settings_from, settings_view,
    ReplayBufferSettings, ReplayWindowRule, StoredSettings,
};
use vstd::prelude::*;

verus! {

/// A clip lasts as many seconds as the settings say, counted in nanoseconds.
pub proof fn law_clip_length(settings: ReplayBufferSettings)
    ensures
        clip_length_of(settings@) == settings.clip_duration_secs * 1_000_000_000,
{
}

/// The buffer keeps a minute and four seconds more than a clip takes, whatever the clip
/// takes.
pub proof fn law_retention_exceeds_clip(settings: ReplayBufferSettings)
    ensures
        retention_of(settings@) == (settings.clip_duration_secs + 60 + 4) * 1_000_000_000,
        retention_of(settings@) - clip_length_of(settings@) == 64 * 1_000_000_000,
{
}

/// Each second more of a clip is a second more of the clip and of what is kept.
pub proof fn law_lengths_grow_with_seconds(
    settings: ReplayBufferSettings,
    longer: ReplayBufferSettings,
)
    requires
        longer.clip_duration_secs == settings.clip_duration_secs + 1,
    ensures
        clip_length_of(longer@) - clip_length_of(settings@) == 1_000_000_000,
        retention_of(longer@) - retention_of(settings@) == 1_000_000_000,
{
}

/// Settings that were stored hold as they are, all of them, and those that could not be
/// read are an error that says why. Where nothing is stored the buffer is off, names no
/// window, and has clips of half a minute.
pub proof fn law_stored_settings_hold(
    stored: StoredSettings,
    r: Result<ReplayBufferSettings, String>,
)
    requires
        settings_view(r) == settings_from(stored),
    ensures
        match stored {
            StoredSettings::Found(Ok(settings)) => r matches Ok(held) && {
                &&& held.enabled == settings.enabled
                &&& held.clip_duration_secs == settings.clip_duration_secs
                &&& held.targets@.len() == settings.targets@.len()
                &&& forall|i: int|
                    0 <= i < held.targets@.len() ==> same_rule(
                        #[trigger] held.targets@[i],
                        settings.targets@[i],
                    )
            },
            StoredSettings::Found(Err(why)) => r matches Err(message) && message@
                == "Failed to deserialize replay buffer settings: "@ + why@,
            StoredSettings::Unavailable | StoredSettings::Missing => r matches Ok(held) && {
                &&& !held.enabled
                &&& held.clip_duration_secs == 30
                &&& held.targets@.len() == 0
            },
        },
{
    match (stored, r) {
        (StoredSettings::Found(Ok(settings)), Ok(held)) => {
            assert(held@.targets.len() == held.targets@.len());
            assert forall|i: int| 0 <= i < held.targets@.len() implies same_rule(
                #[trigger] held.targets@[i],
                settings.targets@[i],
            ) by {
                assert(held@.targets[i] == held.targets@[i]@);
                assert(settings@.targets[i] == settings.targets@[i]@);
            }
        },
        (_, Ok(held)) => {
            assert(held@.targets.len() == held.targets@.len());
        },
        _ => {},
    }
}

/// Two rules with the same texts.
pub open spec fn same_rule(rule: ReplayWindowRule, other: ReplayWindowRule) -> bool {
    &&& rule.owner_name@ == other.owner_name@
    &&& rule.window_title@ == other.window_title@
    &&& match (rule.executable_path, other.executable_path) {
        (Some(path), Some(other_path)) => path@ == other_path@,
        (None, None) => true,
        _ => false,
    }
}

/// The settings that hold by default.
pub proof fn law_default_is_off(settings: ReplayBufferSettings)
    requires
        settings@ == default_settings(),
    ensures
        !settings.enabled,
        settings.clip_duration_secs == 30,
        settings.targets@.len() == 0,
{
    assert(settings@.targets.len() == settings.targets@.len());
}

} // verus!
