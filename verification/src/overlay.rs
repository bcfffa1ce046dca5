//! The snap preview: one translucent surface that shows where a window will
//! snap to. This module keeps what is known of the surface and turns requests
//! into the commands for the platform; it never draws anything itself.

use vstd::prelude::*;
use crate::geometry::Rect;
use crate::text::{encode_utf16, utf16};
use crate::window_manager::WindowId;
use crate::worker::OverlayRequest;

verus! {

/// The name of the surface's window class.
pub const OVERLAY_CLASS_NAME: &'static str = "glide_snap_overlay";

/// The fill colour: a light blue, as blue, green, red from the high byte
/// down.
pub const OVERLAY_COLOR: u32 = 0x00FA_A560;

/// The opacity of the surface, out of 255: about a quarter.
pub const OVERLAY_ALPHA: u8 = 64;

/// The compositor's attribute for the shape of a window's corners, and its
/// value for round corners. The surface asks for round corners where the
/// platform has them.
pub const DWMWA_WINDOW_CORNER_PREFERENCE: i32 = 33;

pub const DWMWCP_ROUND: i32 = 2;

/// A window without border or title.
pub const WS_POPUP: u32 = 0x8000_0000;

/// A window that is blended with what lies under it.
pub const WS_EX_LAYERED: u32 = 0x0008_0000;

/// A window that mouse input passes through.
pub const WS_EX_TRANSPARENT: u32 = 0x0000_0020;

/// A window above all windows that are not topmost.
pub const WS_EX_TOPMOST: u32 = 0x0000_0008;

/// A window that is left out of the task bar and the window switcher.
pub const WS_EX_TOOLWINDOW: u32 = 0x0000_0080;

/// A window that does not take the focus when it is shown or clicked.
pub const WS_EX_NOACTIVATE: u32 = 0x0800_0000;

/// The extended style of the surface: blended, click-through, topmost, out
/// of the task bar and never active.
pub const OVERLAY_EX_STYLE: u32 = WS_EX_LAYERED | WS_EX_TRANSPARENT | WS_EX_TOPMOST
    | WS_EX_TOOLWINDOW | WS_EX_NOACTIVATE;

/// What is known of the surface: its window, once it was created, and
/// whether it is shown.
#[derive(Debug, Clone, Copy, PartialEq, Eq)]
pub struct Overlay {
    pub handle: Option<WindowId>,
    pub visible: bool,
}

/// A command for the platform about the surface.
#[derive(Debug, Clone, Copy, PartialEq, Eq)]
pub enum OverlayCommand {
    /// Put the surface there, above all other windows, and reveal it without
    /// activating it.
    Show { window: WindowId, x: i32, y: i32, width: i32, height: i32 },
    /// Hide the surface.
    Hide { window: WindowId },
    /// Destroy the surface.
    Destroy { window: WindowId },
}

/// The surface after an attempt to create it. A surface that exists is kept.
/// Else the new window is taken, unless the class could not be registered
/// (`class_atom` is zero), no window was made, or the window is null.
pub open spec fn created(overlay: Overlay, class_atom: u16, window: Option<WindowId>) -> Overlay {
    if overlay.handle is None && class_atom != 0 && window is Some && !window.unwrap().is_null() {
        Overlay { handle: window, ..overlay }
    } else {
        overlay
    }
}

/// The surface after a request to show it: shown if it exists.
pub open spec fn shown(overlay: Overlay) -> Overlay {
    Overlay { visible: overlay.visible || overlay.handle is Some, ..overlay }
}

/// The command that shows the surface over `rect`, if the surface exists.
pub open spec fn show_command(overlay: Overlay, rect: Rect) -> Option<OverlayCommand> {
    match overlay.handle {
        Some(window) => Some(
            OverlayCommand::Show {
                window,
                x: rect.left,
                y: rect.top,
                width: rect.width() as i32,
                height: rect.height() as i32,
            },
        ),
        None => None,
    }
}

/// The surface after a request to hide it: not shown.
pub open spec fn hidden(overlay: Overlay) -> Overlay {
    Overlay { visible: false, ..overlay }
}

/// The command that hides the surface, if it is shown and exists.
pub open spec fn hide_command(overlay: Overlay) -> Option<OverlayCommand> {
    match overlay.handle {
        Some(window) => if overlay.visible {
            Some(OverlayCommand::Hide { window })
        } else {
            None
        },
        None => None,
    }
}

/// A string as the platform takes it: UTF-16 code units with a zero at the
/// end.
pub fn wide_string(s: &str) -> (wide: Vec<u16>)
    ensures
        wide@ == utf16(s@).push(0),
{
    let mut wide = encode_utf16(s);
    wide.push(0);
    wide
}

impl Overlay {
    /// No surface yet.
    pub fn new() -> (overlay: Overlay)
        ensures
            overlay.handle is None,
            !overlay.visible,
    {
        Overlay { handle: None, visible: false }
    }
}

/// Records the outcome of creating the surface: the atom of its window class
/// and the window that was made, if one was. Tells whether the surface
/// exists now.
pub fn create(overlay: &mut Overlay, class_atom: u16, window: Option<WindowId>) -> (exists: bool)
    ensures
        *final(overlay) == created(*old(overlay), class_atom, window),
        exists == final(overlay).handle is Some,
{
    if overlay.handle.is_some() {
        return true;
    }
    if class_atom == 0 {
        return false;
    }
    match window {
        Some(made) => {
            if made.is_invalid() {
                return false;
            }
            overlay.handle = Some(made);
            true
        },
        None => false,
    }
}

/// Shows the surface over `rect`. Without a surface nothing happens.
pub fn show(overlay: &mut Overlay, rect: Rect) -> (command: Option<OverlayCommand>)
    requires
        rect.spans_fit(),
    ensures
        *final(overlay) == shown(*old(overlay)),
        command == show_command(*old(overlay), rect),
{
    match overlay.handle {
        Some(window) => {
            overlay.visible = true;
            Some(
                OverlayCommand::Show {
                    window,
                    x: rect.left,
                    y: rect.top,
                    width: rect.right - rect.left,
                    height: rect.bottom - rect.top,
                },
            )
        },
        None => None,
    }
}

/// Hides the surface. Where it is hidden already nothing happens.
pub fn hide_overlay(overlay: &mut Overlay) -> (command: Option<OverlayCommand>)
    ensures
        *final(overlay) == hidden(*old(overlay)),
        command == hide_command(*old(overlay)),
{
    if !overlay.visible {
        return None;
    }
    overlay.visible = false;
    match overlay.handle {
        Some(window) => Some(OverlayCommand::Hide { window }),
        None => None,
    }
}

/// Gives the command that destroys the surface, if it exists.
pub fn destroy(overlay: &Overlay) -> (command: Option<OverlayCommand>)
    ensures
        command == match overlay.handle {
            Some(window) => Some(OverlayCommand::Destroy { window }),
            None => None,
        },
{
    match overlay.handle {
        Some(window) => Some(OverlayCommand::Destroy { window }),
        None => None,
    }
}

/// The surface after a request of the worker was carried out.
pub open spec fn applied(overlay: Overlay, request: OverlayRequest) -> Overlay {
    match request {
        OverlayRequest::Keep => overlay,
        OverlayRequest::Hide => hidden(overlay),
        OverlayRequest::Show(_) => shown(overlay),
    }
}

/// Carries out what the worker asks of the preview.
pub fn apply(overlay: &mut Overlay, request: OverlayRequest) -> (command: Option<OverlayCommand>)
    requires
        request matches OverlayRequest::Show(rect) ==> rect.spans_fit(),
    ensures
        *final(overlay) == applied(*old(overlay), request),
        command == match request {
            OverlayRequest::Keep => None,
            OverlayRequest::Hide => hide_command(*old(overlay)),
            OverlayRequest::Show(rect) => show_command(*old(overlay), rect),
        },
{
    match request {
        OverlayRequest::Keep => None,
        OverlayRequest::Hide => hide_overlay(overlay),
        OverlayRequest::Show(rect) => show(overlay, rect),
    }
}

/// Hiding twice is hiding once: the second request leaves the surface as the
/// first left it and gives no command.
pub proof fn lemma_hide_is_idempotent(overlay: Overlay)
    ensures
        hidden(hidden(overlay)) == hidden(overlay),
        hide_command(hidden(overlay)) is None,
        !hidden(overlay).visible,
{
}

/// Showing reveals a surface that exists, wherever it was shown before, and a
/// later hide conceals it again.
pub proof fn lemma_show_then_hide(overlay: Overlay)
    requires
        overlay.handle is Some,
    ensures
        shown(overlay).visible,
        hide_command(shown(overlay)) == Some(
            OverlayCommand::Hide { window: overlay.handle.unwrap() },
        ),
        hidden(shown(overlay)) == hidden(overlay),
{
}

/// The surface is created with every style that keeps it out of the user's
/// way: it is blended, lets the mouse through, stays on top, is left out of
/// the task bar and never takes the focus.
pub proof fn lemma_overlay_style()
    ensures
        OVERLAY_EX_STYLE & WS_EX_LAYERED == WS_EX_LAYERED,
        OVERLAY_EX_STYLE & WS_EX_TRANSPARENT == WS_EX_TRANSPARENT,
        OVERLAY_EX_STYLE & WS_EX_TOPMOST == WS_EX_TOPMOST,
        OVERLAY_EX_STYLE & WS_EX_TOOLWINDOW == WS_EX_TOOLWINDOW,
        OVERLAY_EX_STYLE & WS_EX_NOACTIVATE == WS_EX_NOACTIVATE,
        OVERLAY_EX_STYLE == 0x0808_00A8,
{
    assert(0x0008_0000u32 | 0x20u32 | 0x8u32 | 0x80u32 | 0x0800_0000u32 == 0x0808_00A8u32)
        by (bit_vector);
    assert(0x0808_00A8u32 & 0x0008_0000u32 == 0x0008_0000u32) by (bit_vector);
    assert(0x0808_00A8u32 & 0x20u32 == 0x20u32) by (bit_vector);
    assert(0x0808_00A8u32 & 0x8u32 == 0x8u32) by (bit_vector);
    assert(0x0808_00A8u32 & 0x80u32 == 0x80u32) by (bit_vector);
    assert(0x0808_00A8u32 & 0x0800_0000u32 == 0x0800_0000u32) by (bit_vector);
}

} // verus!
