use wkgrip::geometry::{Point, Rect};
use wkgrip::grab::Placement;
use wkgrip::hook::WorkerEvent;
use wkgrip::overlay::{
    apply, create, destroy, hide_overlay, show, Overlay, OverlayCommand, OVERLAY_ALPHA,
    OVERLAY_CLASS_NAME, OVERLAY_COLOR, OVERLAY_EX_STYLE, WS_POPUP,
};
use wkgrip::queue::{coalesce_mouse_moves, drain_to_latest_mouse_move, is_mouse_move};
use wkgrip::window_manager::{
    get_border_offsets, get_dwm_frame_rect, is_snapped, is_system_class_name, is_system_window,
    is_valid_target, move_window, placement_flags, resize_window, set_window_rect,
    window_from_point, WindowFacts, WindowId, MOVE_FLAGS, RESIZE_FLAGS, WS_CHILD,
};
use wkgrip::worker::OverlayRequest;

const SURFACE: WindowId = WindowId { raw: 0x500 };
const WINDOW: WindowId = WindowId { raw: 0x77 };
const DESKTOP: WindowId = WindowId { raw: 0x10 };
const NULL: WindowId = WindowId { raw: 0 };

fn zone() -> Rect {
    Rect { left: 0, top: 0, right: 960, bottom: 1040 }
}

fn moved(x: i32) -> WorkerEvent {
    WorkerEvent::MouseMove { point: Point { x, y: 0 }, mods: 1 }
}

fn wheel(delta: i16) -> WorkerEvent {
    WorkerEvent::MouseWheel { point: Point { x: 0, y: 0 }, delta, mods: 1 }
}

fn click() -> WorkerEvent {
    WorkerEvent::MiddleClick { point: Point { x: 0, y: 0 }, mods: 1 }
}

fn facts() -> WindowFacts {
    WindowFacts {
        window: WINDOW,
        exists: true,
        visible: true,
        desktop: DESKTOP,
        class_name: Some("Notepad".to_string()),
        root: WINDOW,
        style: 0x14CF_0000,
    }
}

#[test]
fn hiding_twice_is_hiding_once() {
    let mut overlay = Overlay::new();
    create(&mut overlay, 7, Some(SURFACE));
    show(&mut overlay, zone());
    assert_eq!(hide_overlay(&mut overlay), Some(OverlayCommand::Hide { window: SURFACE }));
    let once = overlay;
    assert_eq!(hide_overlay(&mut overlay), None);
    assert_eq!(overlay, once);
    assert!(!overlay.visible);
}

#[test]
fn hiding_what_was_never_shown_does_nothing() {
    let mut overlay = Overlay::new();
    assert_eq!(hide_overlay(&mut overlay), None);
    create(&mut overlay, 7, Some(SURFACE));
    assert_eq!(hide_overlay(&mut overlay), None);
    assert_eq!(overlay, Overlay { handle: Some(SURFACE), visible: false });
}

#[test]
fn show_places_and_reveals_the_surface() {
    let mut overlay = Overlay::new();
    create(&mut overlay, 7, Some(SURFACE));
    let rect = Rect { left: 960, top: 520, right: 1920, bottom: 1040 };
    assert_eq!(
        show(&mut overlay, rect),
        Some(OverlayCommand::Show { window: SURFACE, x: 960, y: 520, width: 960, height: 520 })
    );
    assert!(overlay.visible);
    assert_eq!(
        show(&mut overlay, zone()),
        Some(OverlayCommand::Show { window: SURFACE, x: 0, y: 0, width: 960, height: 1040 })
    );
    assert!(overlay.visible);
}

#[test]
fn show_without_a_surface_does_nothing() {
    let mut overlay = Overlay::new();
    assert_eq!(show(&mut overlay, zone()), None);
    assert_eq!(overlay, Overlay { handle: None, visible: false });
    assert_eq!(destroy(&overlay), None);
}

#[test]
fn create_keeps_the_first_surface_and_refuses_failures() {
    let mut overlay = Overlay::new();
    assert!(!create(&mut overlay, 0, Some(SURFACE)));
    assert!(!create(&mut overlay, 7, None));
    assert!(!create(&mut overlay, 7, Some(NULL)));
    assert_eq!(overlay.handle, None);
    assert!(create(&mut overlay, 7, Some(SURFACE)));
    assert_eq!(overlay.handle, Some(SURFACE));
    assert!(create(&mut overlay, 0, None));
    assert!(create(&mut overlay, 7, Some(WINDOW)));
    assert_eq!(overlay.handle, Some(SURFACE));
    assert_eq!(destroy(&overlay), Some(OverlayCommand::Destroy { window: SURFACE }));
}

#[test]
fn requests_are_carried_out() {
    let mut overlay = Overlay::new();
    create(&mut overlay, 7, Some(SURFACE));
    assert_eq!(apply(&mut overlay, OverlayRequest::Keep), None);
    assert_eq!(apply(&mut overlay, OverlayRequest::Hide), None);
    assert_eq!(
        apply(&mut overlay, OverlayRequest::Show(zone())),
        Some(OverlayCommand::Show { window: SURFACE, x: 0, y: 0, width: 960, height: 1040 })
    );
    assert_eq!(apply(&mut overlay, OverlayRequest::Keep), None);
    assert!(overlay.visible);
    assert_eq!(
        apply(&mut overlay, OverlayRequest::Hide),
        Some(OverlayCommand::Hide { window: SURFACE })
    );
}

#[test]
fn surface_parameters_have_the_documented_values() {
    assert_eq!(OVERLAY_EX_STYLE, 0x0808_00A8);
    assert_eq!(WS_POPUP, 0x8000_0000);
    assert_eq!(OVERLAY_ALPHA, 64);
    assert_eq!(OVERLAY_COLOR, 0x00FA_A560);
    assert_eq!(OVERLAY_CLASS_NAME, "glide_snap_overlay");
}

#[test]
fn shell_classes_are_recognised_in_any_case() {
    for name in ["Shell_TrayWnd", "Progman", "WorkerW", "Shell_SecondaryTrayWnd", "PROGMAN"] {
        assert!(is_system_class_name(name));
    }
    for name in ["Notepad", "", "Progman ", "shell_traywnd2", "WorkerWindow"] {
        assert!(!is_system_class_name(name));
    }
    assert!(is_system_window(Some("workerw")));
    assert!(!is_system_window(Some("Chrome_WidgetWin_1")));
    assert!(!is_system_window(None));
}

#[test]
fn hit_test_gives_the_root_unless_it_is_the_shell() {
    let child = WindowId { raw: 0x78 };
    assert_eq!(window_from_point(child, WINDOW, DESKTOP, Some("Notepad")), Some(WINDOW));
    assert_eq!(window_from_point(WINDOW, WINDOW, DESKTOP, None), Some(WINDOW));
    assert_eq!(window_from_point(NULL, WINDOW, DESKTOP, Some("Notepad")), None);
    assert_eq!(window_from_point(child, NULL, DESKTOP, Some("Notepad")), None);
    assert_eq!(window_from_point(child, DESKTOP, DESKTOP, Some("#32769")), None);
    assert_eq!(window_from_point(child, WINDOW, DESKTOP, Some("Shell_TrayWnd")), None);
}

#[test]
fn valid_targets_are_visible_top_level_windows() {
    assert!(is_valid_target(&facts()));
    let broken = [
        WindowFacts { window: NULL, root: NULL, ..facts() },
        WindowFacts { exists: false, ..facts() },
        WindowFacts { visible: false, ..facts() },
        WindowFacts { desktop: WINDOW, ..facts() },
        WindowFacts { class_name: Some("PROGMAN".to_string()), ..facts() },
        WindowFacts { root: DESKTOP, ..facts() },
        WindowFacts { style: 0x14CF_0000 | WS_CHILD, ..facts() },
    ];
    for facts in broken {
        assert!(!is_valid_target(&facts));
    }
    assert!(is_valid_target(&WindowFacts { class_name: None, ..facts() }));
}

#[test]
fn frame_rectangle_falls_back_to_the_window_rectangle() {
    let frame = Rect { left: 7, top: 0, right: 93, bottom: 93 };
    let outer = Rect { left: 0, top: 0, right: 100, bottom: 100 };
    assert_eq!(get_dwm_frame_rect(Some(frame), Some(outer)), Some(frame));
    assert_eq!(get_dwm_frame_rect(None, Some(outer)), Some(outer));
    assert_eq!(get_dwm_frame_rect(Some(frame), None), Some(frame));
    assert_eq!(get_dwm_frame_rect(None, None), None);
}

#[test]
fn border_offsets_are_the_distances_between_the_rectangles() {
    let frame = Rect { left: 7, top: 1, right: 93, bottom: 92 };
    let outer = Rect { left: 0, top: 0, right: 100, bottom: 100 };
    assert_eq!(get_border_offsets(Some(outer), Some(frame)), (7, 1, 7, -8));
    assert_eq!(get_border_offsets(None, Some(frame)), (0, 0, 0, 0));
    assert_eq!(get_border_offsets(Some(outer), None), (0, 0, 0, 0));
}

#[test]
fn snapped_means_not_maximized_and_away_from_the_restored_place() {
    let restored = Rect { left: 100, top: 100, right: 500, bottom: 400 };
    let actual = Rect { left: 0, top: 0, right: 960, bottom: 1040 };
    assert!(is_snapped(false, Some(restored), Some(actual)));
    assert!(!is_snapped(true, Some(restored), Some(actual)));
    assert!(!is_snapped(false, Some(restored), Some(restored)));
    assert!(!is_snapped(false, None, Some(actual)));
    assert!(!is_snapped(false, Some(restored), None));
    let nudged = Rect { bottom: 401, ..restored };
    assert!(is_snapped(false, Some(restored), Some(nudged)));
}

#[test]
fn placements_are_built_and_empty_sizes_refused() {
    assert_eq!(move_window(WINDOW, 3, 4), Placement::Move { window: WINDOW, x: 3, y: 4 });
    assert_eq!(
        resize_window(WINDOW, 3, 4, 50, 60),
        Some(Placement::Resize { window: WINDOW, x: 3, y: 4, width: 50, height: 60 })
    );
    assert_eq!(resize_window(WINDOW, 3, 4, 0, 60), None);
    assert_eq!(resize_window(WINDOW, 3, 4, 50, -1), None);
}

#[test]
fn set_window_rect_moves_where_the_size_stays() {
    let current = Rect { left: 0, top: 0, right: 50, bottom: 60 };
    assert_eq!(
        set_window_rect(WINDOW, Some(current), 3, 4, 50, 60),
        Some(Placement::Move { window: WINDOW, x: 3, y: 4 })
    );
    assert_eq!(
        set_window_rect(WINDOW, Some(current), 3, 4, 51, 60),
        Some(Placement::Resize { window: WINDOW, x: 3, y: 4, width: 51, height: 60 })
    );
    assert_eq!(
        set_window_rect(WINDOW, None, 3, 4, 50, 60),
        Some(Placement::Resize { window: WINDOW, x: 3, y: 4, width: 50, height: 60 })
    );
    assert_eq!(set_window_rect(WINDOW, Some(current), 3, 4, 0, 60), None);
}

#[test]
fn placement_flags_have_the_platform_values() {
    assert_eq!(MOVE_FLAGS, 0x0215);
    assert_eq!(RESIZE_FLAGS, 0x0214);
    assert_eq!(placement_flags(&move_window(WINDOW, 0, 0)), 0x0215);
    assert_eq!(placement_flags(&resize_window(WINDOW, 0, 0, 1, 1).unwrap()), 0x0214);
    assert_eq!(WS_CHILD, 0x4000_0000);
}

#[test]
fn runs_of_moves_collapse_to_the_newest() {
    let events = vec![moved(1), moved(2), moved(3)];
    assert_eq!(coalesce_mouse_moves(&events), vec![moved(3)]);
    assert_eq!(coalesce_mouse_moves(&vec![moved(1)]), vec![moved(1)]);
    assert_eq!(coalesce_mouse_moves(&vec![]), vec![]);
}

#[test]
fn other_events_are_never_dropped_or_reordered() {
    let events = vec![
        moved(1),
        moved(2),
        wheel(120),
        moved(3),
        click(),
        wheel(-120),
        moved(4),
        moved(5),
        moved(6),
    ];
    assert_eq!(
        coalesce_mouse_moves(&events),
        vec![moved(2), wheel(120), moved(3), click(), wheel(-120), moved(6)]
    );
    let only_others = vec![wheel(1), click(), wheel(2)];
    assert_eq!(coalesce_mouse_moves(&only_others), only_others);
}

#[test]
fn drain_stops_at_the_first_event_of_another_kind() {
    let queued = vec![moved(2), moved(3), wheel(120), moved(4)];
    assert_eq!(drain_to_latest_mouse_move(moved(1), &queued, 0), (moved(3), 2));
    assert_eq!(drain_to_latest_mouse_move(moved(1), &queued, 2), (moved(1), 2));
    assert_eq!(drain_to_latest_mouse_move(moved(1), &queued, 3), (moved(4), 4));
    assert_eq!(drain_to_latest_mouse_move(moved(1), &queued, 4), (moved(1), 4));
    assert!(is_mouse_move(&moved(1)));
    assert!(!is_mouse_move(&wheel(1)));
    assert!(!is_mouse_move(&click()));
}
