//! Decisions about windows, made from what the platform reports of them.

use vstd::prelude::*;
use crate::geometry::{fits_i32, Rect};
use crate::grab::Placement;
use crate::text::{
    ascii_lowercase,
    file_name,
    lex_le,
    names_of,
    sort_by_lowercase,
    to_ascii_lowercase,
};
use crate::worker::{OpacityChange, OPACITY_MIN};

verus! {

/// The identity of a window: the number that the platform knows it by. Zero
/// is no window.
#[derive(Clone, Copy, Debug, PartialEq, Eq, Structural)]
pub struct WindowId {
    pub raw: isize,
}

impl WindowId {
    /// Whether this is the null handle, which names no window.
    pub open spec fn is_null(self) -> bool {
        self.raw == 0
    }

    /// Tells whether this is the null handle.
    pub fn is_invalid(&self) -> (invalid: bool)
        ensures
            invalid == self.is_null(),
    {
        self.raw == 0
    }
}

/// Whether a window class name, already in lower case, is one of the shell's
/// own surfaces: the task bars, the desktop and its worker windows.
pub open spec fn is_shell_class(lower: Seq<char>) -> bool {
    ||| lower == "shell_traywnd"@
    ||| lower == "progman"@
    ||| lower == "workerw"@
    ||| lower == "shell_secondarytraywnd"@
}

/// Whether `class_name` names a shell surface, whatever its case.
pub fn is_system_class_name(class_name: &str) -> (system: bool)
    ensures
        system == is_shell_class(ascii_lowercase(class_name@)),
{
    let lower = to_ascii_lowercase(class_name);
    lower == "shell_traywnd".to_owned() || lower == "progman".to_owned() || lower
        == "workerw".to_owned() || lower == "shell_secondarytraywnd".to_owned()
}

/// The style bit of a child window.
pub const WS_CHILD: u32 = 0x4000_0000;

/// Placement flag: keep the present size.
pub const SWP_NOSIZE: u32 = 0x0001;

/// Placement flag: keep the place in the stacking order.
pub const SWP_NOZORDER: u32 = 0x0004;

/// Placement flag: do not activate the window.
pub const SWP_NOACTIVATE: u32 = 0x0010;

/// Placement flag: leave the owner's place in the stacking order alone.
pub const SWP_NOOWNERZORDER: u32 = 0x0200;

/// Placement flag: hand the request to the window's thread and do not wait.
pub const SWP_ASYNCWINDOWPOS: u32 = 0x4000;

/// The flags of a move: the size stays.
pub const MOVE_FLAGS: u32 = SWP_NOZORDER | SWP_NOOWNERZORDER | SWP_NOACTIVATE | SWP_NOSIZE;

/// The flags of a resize.
pub const RESIZE_FLAGS: u32 = SWP_NOZORDER | SWP_NOOWNERZORDER | SWP_NOACTIVATE;

/// Whether a window with this class name, if it has one, is a shell surface.
pub open spec fn is_shell_window(class_name: Option<Seq<char>>) -> bool {
    match class_name {
        Some(name) => is_shell_class(ascii_lowercase(name)),
        None => false,
    }
}

/// Tells whether a window is a shell surface, from its class name. A window
/// whose class name cannot be read is none.
pub fn is_system_window(class_name: Option<&str>) -> (system: bool)
    ensures
        system == is_shell_window(
            match class_name {
                Some(name) => Some(name@),
                None => None,
            },
        ),
{
    match class_name {
        Some(name) => is_system_class_name(name),
        None => false,
    }
}

/// The top-level window to act on for a hit at some point: the root of the
/// window that was hit, unless nothing was hit, there is no root, or the root
/// is the desktop or a shell surface.
pub open spec fn target_of_hit(
    hit: WindowId,
    root: WindowId,
    desktop: WindowId,
    root_class: Option<Seq<char>>,
) -> Option<WindowId> {
    if hit.is_null() || root.is_null() || root == desktop || is_shell_window(root_class) {
        None
    } else {
        Some(root)
    }
}

/// Chooses the window to act on from a hit test: `hit` is the window at the
/// point, `root` its top-level ancestor, `desktop` the desktop window and
/// `root_class` the class name of `root`.
pub fn window_from_point(
    hit: WindowId,
    root: WindowId,
    desktop: WindowId,
    root_class: Option<&str>,
) -> (target: Option<WindowId>)
    ensures
        target == target_of_hit(
            hit,
            root,
            desktop,
            match root_class {
                Some(name) => Some(name@),
                None => None,
            },
        ),
{
    if hit.is_invalid() {
        return None;
    }
    if root.is_invalid() {
        return None;
    }
    if root.raw == desktop.raw || is_system_window(root_class) {
        return None;
    }
    Some(root)
}

/// What the platform reports of one window.
#[derive(Debug, Clone, PartialEq, Eq)]
pub struct WindowFacts {
    pub window: WindowId,
    /// Whether the handle names a window at all.
    pub exists: bool,
    pub visible: bool,
    /// The desktop window.
    pub desktop: WindowId,
    /// The window's class name, if it can be read.
    pub class_name: Option<String>,
    /// The window's top-level ancestor.
    pub root: WindowId,
    /// The window's style bits.
    pub style: u32,
}

/// Whether a window can be grabbed at all: it exists and is visible, it is
/// neither the desktop nor a shell surface, it is its own top-level ancestor,
/// and it has not the style of a child window.
pub open spec fn valid_target(facts: WindowFacts) -> bool {
    &&& !facts.window.is_null()
    &&& facts.exists
    &&& facts.visible
    &&& facts.window != facts.desktop
    &&& !is_shell_window(
        match facts.class_name {
            Some(name) => Some(name@),
            None => None,
        },
    )
    &&& facts.root == facts.window
    &&& facts.style & WS_CHILD == 0
}

/// Tells whether a window can be grabbed at all.
pub fn is_valid_target(facts: &WindowFacts) -> (valid: bool)
    ensures
        valid == valid_target(*facts),
{
    if facts.window.is_invalid() {
        return false;
    }
    if !facts.exists {
        return false;
    }
    if !facts.visible {
        return false;
    }
    let system = match &facts.class_name {
        Some(name) => is_system_window(Some(name.as_str())),
        None => is_system_window(None),
    };
    if facts.window.raw == facts.desktop.raw || system {
        return false;
    }
    if facts.root.raw != facts.window.raw {
        return false;
    }
    if facts.style & WS_CHILD != 0 {
        return false;
    }
    true
}

/// The rectangle of a window's visible frame: what the compositor reports,
/// or the window's rectangle where the compositor reports nothing.
pub fn get_dwm_frame_rect(frame: Option<Rect>, window_rect: Option<Rect>) -> (rect: Option<Rect>)
    ensures
        rect == if frame is Some {
            frame
        } else {
            window_rect
        },
{
    match frame {
        Some(rect) => Some(rect),
        None => window_rect,
    }
}

/// Whether the four border widths between an outer and an inner rectangle
/// can be written down.
pub open spec fn borders_fit(outer: Rect, inner: Rect) -> bool {
    &&& fits_i32(inner.left - outer.left)
    &&& fits_i32(inner.top - outer.top)
    &&& fits_i32(outer.right - inner.right)
    &&& fits_i32(inner.bottom - outer.bottom)
}

/// The widths of the invisible border on the left, top, right and bottom:
/// how far the visible frame `inner` lies inside the window rectangle
/// `outer`, the bottom one taken from the frame to the window. All are zero
/// where a rectangle is missing.
pub fn get_border_offsets(
    outer: Option<Rect>,
    inner: Option<Rect>,
) -> (offsets: (i32, i32, i32, i32))
    requires
        outer is Some && inner is Some ==> borders_fit(outer.unwrap(), inner.unwrap()),
    ensures
        offsets == match (outer, inner) {
            (Some(o), Some(i)) => (
                (i.left - o.left) as i32,
                (i.top - o.top) as i32,
                (o.right - i.right) as i32,
                (i.bottom - o.bottom) as i32,
            ),
            _ => (0i32, 0i32, 0i32, 0i32),
        },
{
    let o = match outer {
        Some(o) => o,
        None => {
            return (0, 0, 0, 0);
        },
    };
    let i = match inner {
        Some(i) => i,
        None => {
            return (0, 0, 0, 0);
        },
    };
    (i.left - o.left, i.top - o.top, o.right - i.right, i.bottom - o.bottom)
}

/// Tells whether a window is held in a snapped state by the platform: it is
/// not maximized, and the rectangle it has differs from the rectangle it
/// would be restored to. Where either rectangle is missing it is not.
pub fn is_snapped(maximized: bool, restored: Option<Rect>, actual: Option<Rect>) -> (snapped: bool)
    ensures
        snapped == (!maximized && restored is Some && actual is Some && restored != actual),
{
    if maximized {
        return false;
    }
    let restored = match restored {
        Some(rect) => rect,
        None => {
            return false;
        },
    };
    let actual = match actual {
        Some(rect) => rect,
        None => {
            return false;
        },
    };
    restored.left != actual.left || restored.top != actual.top || restored.right != actual.right
        || restored.bottom != actual.bottom
}

/// The command that moves a window's corner to `(x, y)` and keeps its size.
pub fn move_window(window: WindowId, x: i32, y: i32) -> (placement: Placement)
    ensures
        placement == (Placement::Move { window, x, y }),
{
    Placement::Move { window, x, y }
}

/// The command that gives a window a place and a size, if the size has an
/// extent: a width or height of zero or less is not asked for.
pub fn resize_window(window: WindowId, x: i32, y: i32, w: i32, h: i32) -> (placement: Option<
    Placement,
>)
    ensures
        placement == if w <= 0 || h <= 0 {
            None
        } else {
            Some(Placement::Resize { window, x, y, width: w, height: h })
        },
{
    if w <= 0 || h <= 0 {
        return None;
    }
    Some(Placement::Resize { window, x, y, width: w, height: h })
}

/// The command that brings a window to a place and size, given its present
/// rectangle: a move where the size is the one it has, a resize else, and
/// nothing for a size without extent.
pub fn set_window_rect(
    window: WindowId,
    current: Option<Rect>,
    x: i32,
    y: i32,
    w: i32,
    h: i32,
) -> (placement: Option<Placement>)
    ensures
        placement == if w <= 0 || h <= 0 {
            None
        } else if current matches Some(cur) && cur.width() == w && cur.height() == h {
            Some(Placement::Move { window, x, y })
        } else {
            Some(Placement::Resize { window, x, y, width: w, height: h })
        },
{
    if w <= 0 || h <= 0 {
        return None;
    }
    if let Some(cur) = current {
        let cur_w: i64 = cur.right as i64 - cur.left as i64;
        let cur_h: i64 = cur.bottom as i64 - cur.top as i64;
        if cur_w == w as i64 && cur_h == h as i64 {
            return Some(move_window(window, x, y));
        }
    }
    resize_window(window, x, y, w, h)
}

/// The flags that a placement is issued with.
pub fn placement_flags(placement: &Placement) -> (flags: u32)
    ensures
        flags == match placement {
            Placement::Move { .. } => MOVE_FLAGS,
            Placement::Resize { .. } => RESIZE_FLAGS,
        },
        flags & SWP_NOZORDER == SWP_NOZORDER,
        flags & SWP_NOACTIVATE == SWP_NOACTIVATE,
        flags & SWP_ASYNCWINDOWPOS == 0,
{
    proof {
        lemma_placement_flags();
    }
    match placement {
        Placement::Move { .. } => MOVE_FLAGS,
        Placement::Resize { .. } => RESIZE_FLAGS,
    }
}

/// No placement changes the stacking order or activates the window, and
/// every placement is carried out before the call returns. A move, and only
/// a move, keeps the size.
pub proof fn lemma_placement_flags()
    ensures
        MOVE_FLAGS & SWP_NOZORDER == SWP_NOZORDER,
        MOVE_FLAGS & SWP_NOACTIVATE == SWP_NOACTIVATE,
        MOVE_FLAGS & SWP_ASYNCWINDOWPOS == 0,
        MOVE_FLAGS & SWP_NOSIZE == SWP_NOSIZE,
        RESIZE_FLAGS & SWP_NOZORDER == SWP_NOZORDER,
        RESIZE_FLAGS & SWP_NOACTIVATE == SWP_NOACTIVATE,
        RESIZE_FLAGS & SWP_ASYNCWINDOWPOS == 0,
        RESIZE_FLAGS & SWP_NOSIZE == 0,
{
    assert(0x0004u32 | 0x0200u32 | 0x0010u32 | 0x0001u32 == 0x0215u32) by (bit_vector);
    assert(0x0004u32 | 0x0200u32 | 0x0010u32 == 0x0214u32) by (bit_vector);
    assert(0x0215u32 & 0x0004u32 == 0x0004u32) by (bit_vector);
    assert(0x0215u32 & 0x0010u32 == 0x0010u32) by (bit_vector);
    assert(0x0215u32 & 0x4000u32 == 0u32) by (bit_vector);
    assert(0x0215u32 & 0x0001u32 == 0x0001u32) by (bit_vector);
    assert(0x0214u32 & 0x0004u32 == 0x0004u32) by (bit_vector);
    assert(0x0214u32 & 0x0010u32 == 0x0010u32) by (bit_vector);
    assert(0x0214u32 & 0x4000u32 == 0u32) by (bit_vector);
    assert(0x0214u32 & 0x0001u32 == 0u32) by (bit_vector);
}

/// The extended style bit of a window that stays above the others.
pub const WS_EX_TOPMOST: u32 = 0x0000_0008;

/// A window's opacity on the scale of 0 to 255, from what the platform
/// reports: a window for which it reports none is fully opaque.
pub fn get_window_opacity(reported: Option<u8>) -> (alpha: u8)
    ensures
        alpha == match reported {
            Some(value) => value,
            None => 255u8,
        },
{
    match reported {
        Some(value) => value,
        None => 255,
    }
}

/// The opacity to give a window that is asked to have opacity `alpha`: no
/// less than the least opacity, so that no window is made invisible.
pub fn set_window_opacity(window: WindowId, alpha: u8) -> (change: OpacityChange)
    ensures
        change.window == window,
        change.alpha == if alpha < OPACITY_MIN {
            OPACITY_MIN
        } else {
            alpha
        },
        change.alpha >= OPACITY_MIN,
{
    if alpha < OPACITY_MIN {
        OpacityChange { window, alpha: OPACITY_MIN }
    } else {
        OpacityChange { window, alpha }
    }
}

/// Whether a window with this extended style stays above the others.
pub open spec fn is_topmost(ex_style: u32) -> bool {
    ex_style & WS_EX_TOPMOST != 0
}

/// Flips the always-on-top state of a window with extended style
/// `ex_style`: gives the state that the window is to have, the opposite of
/// the one it has.
pub fn toggle_topmost(ex_style: u32) -> (topmost: bool)
    ensures
        topmost == !is_topmost(ex_style),
{
    ex_style & WS_EX_TOPMOST == 0
}

/// Tells whether `name` is in `list`.
fn has_name(list: &Vec<String>, name: &String) -> (found: bool)
    ensures
        found == names_of(list@).contains(name@),
{
    let mut i: usize = 0;
    while i < list.len()
        invariant
            i <= list.len(),
            forall|k: int| 0 <= k < i ==> names_of(list@)[k] != name@,
        decreases list.len() - i,
    {
        if list[i] == *name {
            assert(names_of(list@)[i as int] == name@);
            return true;
        }
        i += 1;
    }
    false
}

/// The names of `found` without repetitions, in the order of their first
/// occurrence.
fn distinct_names(found: &Vec<String>) -> (unique: Vec<String>)
    ensures
        names_of(unique@).no_duplicates(),
        forall|name: Seq<char>|
            names_of(unique@).contains(name) <==> names_of(found@).contains(name),
{
    let mut unique: Vec<String> = Vec::new();
    let mut i: usize = 0;
    while i < found.len()
        invariant
            i <= found.len(),
            names_of(unique@).no_duplicates(),
            forall|name: Seq<char>|
                names_of(unique@).contains(name) <==> exists|k: int|
                    0 <= k < i && names_of(found@)[k] == name,
        decreases found.len() - i,
    {
        let ghost before = names_of(unique@);
        if !has_name(&unique, &found[i]) {
            unique.push(found[i].clone());
            assert(names_of(unique@) =~= before.push(found@[i as int]@));
        }
        assert forall|name: Seq<char>|
            names_of(unique@).contains(name) <==> exists|k: int|
                0 <= k < i + 1 && names_of(found@)[k] == name by {
            if names_of(unique@).contains(name) && !before.contains(name) {
                let at = choose|at: int|
                    0 <= at < names_of(unique@).len() && names_of(unique@)[at] == name;
                assert(at == before.len());
                assert(names_of(found@)[i as int] == name);
            }
            if before.contains(name) {
                let at = choose|at: int| 0 <= at < before.len() && before[at] == name;
                assert(names_of(unique@)[at] == name);
            }
            if names_of(found@)[i as int] == name && !before.contains(name) {
                assert(names_of(unique@)[before.len() as int] == name);
            }
        }
        i += 1;
    }
    unique
}

/// The list of process names to choose from: every name that was found for
/// some window, each once, sorted without regard to the case of ASCII
/// letters.
pub fn get_running_process_names(found: &Vec<String>) -> (names: Vec<String>)
    ensures
        names_of(names@).no_duplicates(),
        forall|name: Seq<char>|
            names_of(names@).contains(name) <==> names_of(found@).contains(name),
        forall|i: int, j: int|
            0 <= i <= j < names.len() ==> lex_le(
                ascii_lowercase(#[trigger] names[i]@),
                ascii_lowercase(#[trigger] names[j]@),
            ),
{
    let mut names = distinct_names(found);
    let ghost unsorted = names_of(names@);
    sort_by_lowercase(&mut names);
    proof {
        let sorted = names_of(names@);
        unsorted.lemma_multiset_has_no_duplicates();
        sorted.lemma_multiset_has_no_duplicates_conv();
        assert forall|name: Seq<char>| sorted.contains(name) <==> unsorted.contains(name) by {
            vstd::seq_lib::to_multiset_contains(sorted, name);
            vstd::seq_lib::to_multiset_contains(unsorted, name);
        }
    }
    names
}


/// The name of the program that owns a window: the file name at the end of
/// the path of the owning process's image, without the directories. There is
/// none where the window has no owning process (`process_id` is zero) or the
/// path could not be read or is empty.
pub fn get_process_name(process_id: u32, image_path: Option<&str>) -> (name: Option<String>)
    ensures
        process_id == 0 || image_path is None || image_path.unwrap()@.len() == 0 ==> name is None,
{
    let found = match image_path {
        Some(path) => file_name(path),
        None => None,
    };
    process_name_from(process_id, image_path, found)
}

/// What is reported as the name of the owning program, given `found`, the
/// file name that stands at the end of the image path: `found` itself, but
/// nothing where the window has no owning process or the path could not be
/// read or is empty.
pub open spec fn reported_name(
    process_id: u32,
    image_path: Option<Seq<char>>,
    found: Option<String>,
) -> Option<String> {
    if process_id == 0 || image_path is None || image_path.unwrap().len() == 0 {
        None
    } else {
        found
    }
}

/// Decides what is reported as the name of the owning program, once the file
/// name at the end of the image path was looked for.
pub fn process_name_from(
    process_id: u32,
    image_path: Option<&str>,
    found: Option<String>,
) -> (name: Option<String>)
    ensures
        name == reported_name(
            process_id,
            match image_path {
                Some(path) => Some(path@),
                None => None,
            },
            found,
        ),
{
    if process_id == 0 {
        return None;
    }
    match image_path {
        Some(path) => {
            if path.is_empty() {
                None
            } else {
                found
            }
        },
        None => None,
    }
}

} // verus!
