//! The entry points of the settings layer: read the settings, replace them,
//! and flip the global switch.

use vstd::prelude::*;
use crate::config::AppConfig;
use crate::hook::{current_config, set_enabled, update_config, HookState};

verus! {

/// A copy of the settings held, if any are.
pub fn get_config(state: &HookState) -> (snapshot: Option<AppConfig>)
    ensures
        snapshot is Some <==> state.config is Some,
        snapshot matches Some(c) ==> c@ == state.config.unwrap()@,
{
    current_config(state)
}

/// Replaces the settings. The global switch follows the new settings, and
/// the masks and toggles of the hook layer are derived anew in the same
/// step. Modifier bitmask and active mark stay, but that switching off
/// clears the mark.
pub fn set_config(state: &mut HookState, config: AppConfig)
    ensures
        final(state).config == Some(config),
        final(state).in_sync(),
        final(state).enabled == config.enabled,
        final(state).active_grab == (old(state).active_grab && config.enabled),
        final(state).modifier_state == old(state).modifier_state,
{
    set_enabled(state, config.enabled);
    update_config(state, config);
}

/// Flips the global switch, in the settings held and in the hook layer.
/// Nothing else in the settings changes.
pub fn set_hook_enabled(state: &mut HookState, enabled: bool)
    ensures
        final(state).enabled == enabled,
        final(state).active_grab == (old(state).active_grab && enabled),
        final(state).modifier_state == old(state).modifier_state,
        final(state).move_mask == old(state).move_mask,
        final(state).resize_mask == old(state).resize_mask,
        final(state).scroll_opacity_active == old(state).scroll_opacity_active,
        final(state).middleclick_topmost_active == old(state).middleclick_topmost_active,
        final(state).config is Some <==> old(state).config is Some,
        final(state).config matches Some(c) ==> c == (AppConfig {
            enabled,
            ..old(state).config.unwrap()
        }),
        old(state).in_sync() ==> final(state).in_sync(),
{
    let held = state.config.take();
    if let Some(mut config) = held {
        config.enabled = enabled;
        state.config = Some(config);
    }
    set_enabled(state, enabled);
}

} // verus!
