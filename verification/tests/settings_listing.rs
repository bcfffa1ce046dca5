use wkgrip::commands::{get_config, set_config, set_hook_enabled};
use wkgrip::config::{AppConfig, ModifierKey};
use wkgrip::hook::{set_active_grab, HookState, MOD_CTRL, MOD_SHIFT, MOD_WIN};
use wkgrip::overlay::wide_string;
use wkgrip::text::lowercase_key;
use wkgrip::window_manager::{
    get_process_name, get_running_process_names, get_window_opacity, process_name_from,
    set_window_opacity, toggle_topmost, WindowId, WS_EX_TOPMOST,
};
use wkgrip::worker::OpacityChange;

fn names(list: &[&str]) -> Vec<String> {
    list.iter().map(|name| name.to_string()).collect()
}

#[test]
fn set_config_replaces_settings_switch_and_masks() {
    let mut state = HookState::new();
    assert!(get_config(&state).is_none());
    state.modifier_state = MOD_CTRL;
    set_active_grab(&mut state, true);
    let mut config = AppConfig::default();
    config.enabled = false;
    config.move_modifier = ModifierKey::Win;
    config.resize_modifier_1 = ModifierKey::Win;
    config.resize_modifier_2 = ModifierKey::Shift;
    config.scroll_opacity = false;
    set_config(&mut state, config);
    assert!(!state.enabled);
    assert!(!state.active_grab);
    assert_eq!(state.modifier_state, MOD_CTRL);
    assert_eq!(state.move_mask, MOD_WIN);
    assert_eq!(state.resize_mask, MOD_WIN | MOD_SHIFT);
    assert!(!state.scroll_opacity_active);
    assert!(state.middleclick_topmost_active);
    let held = get_config(&state).expect("settings are held");
    assert!(!held.enabled);
    assert_eq!(held.move_modifier, ModifierKey::Win);
}

#[test]
fn set_hook_enabled_flips_switch_and_settings_only() {
    let mut state = HookState::new();
    let mut config = AppConfig::default();
    config.filter_list = names(&["a.exe"]);
    config.snap_threshold = 31;
    set_config(&mut state, config);
    set_active_grab(&mut state, true);
    set_hook_enabled(&mut state, false);
    assert!(!state.enabled);
    assert!(!state.active_grab);
    let held = get_config(&state).expect("settings are held");
    assert!(!held.enabled);
    assert_eq!(held.filter_list, names(&["a.exe"]));
    assert_eq!(held.snap_threshold, 31);
    set_hook_enabled(&mut state, true);
    assert!(state.enabled);
    assert!(get_config(&state).expect("settings are held").enabled);
    let mut bare = HookState::new();
    set_hook_enabled(&mut bare, false);
    assert!(!bare.enabled);
    assert!(bare.config.is_none());
}

#[test]
fn wide_string_is_utf16_with_a_zero_at_the_end() {
    assert_eq!(wide_string(""), vec![0]);
    assert_eq!(wide_string("ab"), vec![0x61, 0x62, 0]);
    assert_eq!(wide_string("é"), vec![0xE9, 0]);
    assert_eq!(wide_string("\u{FFFF}"), vec![0xFFFF, 0]);
    assert_eq!(wide_string("\u{10000}"), vec![0xD800, 0xDC00, 0]);
    assert_eq!(wide_string("a😀b"), vec![0x61, 0xD83D, 0xDE00, 0x62, 0]);
    assert_eq!(wide_string("\u{10FFFF}"), vec![0xDBFF, 0xDFFF, 0]);
}

#[test]
fn lowercase_key_folds_ascii_letters_only() {
    assert_eq!(lowercase_key(&"Notepad.EXE".to_string()), "notepad.exe");
    assert_eq!(lowercase_key(&"AZ[@`az{ÄÖ".to_string()), "az[@`az{ÄÖ");
    assert_eq!(lowercase_key(&String::new()), "");
}

#[test]
fn process_names_are_listed_once_and_sorted_without_case() {
    let found = names(&["notepad.exe", "Code.exe", "explorer.exe", "notepad.exe", "calc.exe", "Code.exe"]);
    assert_eq!(
        get_running_process_names(&found),
        names(&["calc.exe", "Code.exe", "explorer.exe", "notepad.exe"])
    );
    assert_eq!(get_running_process_names(&Vec::new()), Vec::<String>::new());
}

#[test]
fn names_that_differ_in_case_are_both_listed() {
    let found = names(&["b.exe", "A.exe", "a.exe", "B.exe", "a.exe"]);
    let listed = get_running_process_names(&found);
    assert_eq!(listed.len(), 4);
    let keys: Vec<String> = listed.iter().map(|name| name.to_ascii_lowercase()).collect();
    assert_eq!(keys, names(&["a.exe", "a.exe", "b.exe", "b.exe"]));
    for name in ["b.exe", "A.exe", "a.exe", "B.exe"] {
        assert!(listed.contains(&name.to_string()));
    }
}

#[test]
fn shorter_names_sort_before_their_extensions() {
    let found = names(&["ab", "a", "", "B", "abc", "Z", "é"]);
    assert_eq!(get_running_process_names(&found), names(&["", "a", "ab", "abc", "B", "Z", "é"]));
}

#[test]
fn opacity_has_a_floor_and_a_default() {
    let window = WindowId { raw: 9 };
    assert_eq!(get_window_opacity(Some(128)), 128);
    assert_eq!(get_window_opacity(Some(0)), 0);
    assert_eq!(get_window_opacity(None), 255);
    assert_eq!(set_window_opacity(window, 0), OpacityChange { window, alpha: 20 });
    assert_eq!(set_window_opacity(window, 19), OpacityChange { window, alpha: 20 });
    assert_eq!(set_window_opacity(window, 20), OpacityChange { window, alpha: 20 });
    assert_eq!(set_window_opacity(window, 255), OpacityChange { window, alpha: 255 });
}

#[test]
fn topmost_toggle_gives_the_opposite_state() {
    assert!(toggle_topmost(0));
    assert!(toggle_topmost(0x0000_0100));
    assert!(!toggle_topmost(WS_EX_TOPMOST));
    assert!(!toggle_topmost(0x0808_00A8));
}

#[test]
fn process_name_is_the_file_name_at_the_end_of_the_path() {
    assert_eq!(get_process_name(4, Some("apps/editor/Editor.exe")), Some("Editor.exe".to_string()));
    assert_eq!(get_process_name(4, Some("notepad.exe")), Some("notepad.exe".to_string()));
    assert_eq!(get_process_name(4, Some("apps/editor/")), Some("editor".to_string()));
}

#[test]
fn no_process_name_without_process_or_path() {
    assert_eq!(get_process_name(0, Some("apps/editor/Editor.exe")), None);
    assert_eq!(get_process_name(4, None), None);
    assert_eq!(get_process_name(4, Some("")), None);
    assert_eq!(get_process_name(4, Some("apps/..")), None);
}

#[test]
fn found_name_is_reported_only_with_process_and_path() {
    let found = Some("Editor.exe".to_string());
    assert_eq!(process_name_from(4, Some("apps/Editor.exe"), found.clone()), found);
    assert_eq!(process_name_from(4, Some("apps/.."), None), None);
    assert_eq!(process_name_from(0, Some("apps/Editor.exe"), found.clone()), None);
    assert_eq!(process_name_from(4, None, found.clone()), None);
    assert_eq!(process_name_from(4, Some(""), found), None);
}
