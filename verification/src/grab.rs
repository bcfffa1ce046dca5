//! The state of a grab and its geometry: where a dragged window goes, how a
//! resized window is cut to the minimum size, and which commands follow.

use vstd::prelude::*;
use crate::geometry::{fits_i32, midpoint, Point, Rect};
use crate::hook::DragMode;
use crate::window_manager::WindowId;

verus! {

/// Neither side of a resized window gets shorter than this.
pub const MIN_WINDOW_SIZE: i32 = 100;

/// The corner that a resize drags. The opposite corner stays where it is.
#[derive(Debug, Clone, Copy, PartialEq, Eq, Structural)]
pub enum ResizeDirection {
    TopLeft,
    TopRight,
    BottomLeft,
    BottomRight,
}

impl ResizeDirection {
    /// Whether the dragged corner is on the left, so that the left edge moves
    /// and the right edge is fixed.
    pub open spec fn moves_left(self) -> bool {
        self == ResizeDirection::TopLeft || self == ResizeDirection::BottomLeft
    }

    /// Whether the dragged corner is at the top, so that the top edge moves
    /// and the bottom edge is fixed.
    pub open spec fn moves_top(self) -> bool {
        self == ResizeDirection::TopLeft || self == ResizeDirection::TopRight
    }
}

/// The quadrant of `rect`, seen from its center, that holds the cursor. A
/// cursor on a center line counts as right of it, or below it.
pub open spec fn quadrant(cursor: Point, rect: Rect) -> ResizeDirection {
    if cursor.x >= rect.center_x() {
        if cursor.y >= rect.center_y() {
            ResizeDirection::BottomRight
        } else {
            ResizeDirection::TopRight
        }
    } else {
        if cursor.y >= rect.center_y() {
            ResizeDirection::BottomLeft
        } else {
            ResizeDirection::TopLeft
        }
    }
}

/// Chooses the corner that a resize drags: that of the quadrant of `rect`
/// which holds the cursor.
pub fn determine_resize_direction(cursor: Point, rect: Rect) -> (dir: ResizeDirection)
    ensures
        dir == quadrant(cursor, rect),
{
    let center_x = midpoint(rect.left, rect.right);
    let center_y = midpoint(rect.top, rect.bottom);
    if cursor.x >= center_x {
        if cursor.y >= center_y {
            ResizeDirection::BottomRight
        } else {
            ResizeDirection::TopRight
        }
    } else {
        if cursor.y >= center_y {
            ResizeDirection::BottomLeft
        } else {
            ResizeDirection::TopLeft
        }
    }
}

/// Where a moving low edge ends up: where it was put, but no closer than the
/// minimum size to the fixed high edge.
pub open spec fn pinned_low(low: int, high: int) -> int {
    if high - low < MIN_WINDOW_SIZE {
        high - MIN_WINDOW_SIZE
    } else {
        low
    }
}

/// Where a moving high edge ends up: where it was put, but no closer than the
/// minimum size to the fixed low edge.
pub open spec fn pinned_high(low: int, high: int) -> int {
    if high - low < MIN_WINDOW_SIZE {
        low + MIN_WINDOW_SIZE
    } else {
        high
    }
}

/// The left edge after clamping.
pub open spec fn clamped_left(rect: Rect, dir: ResizeDirection) -> int {
    if dir.moves_left() {
        pinned_low(rect.left as int, rect.right as int)
    } else {
        rect.left as int
    }
}

/// The right edge after clamping.
pub open spec fn clamped_right(rect: Rect, dir: ResizeDirection) -> int {
    if dir.moves_left() {
        rect.right as int
    } else {
        pinned_high(rect.left as int, rect.right as int)
    }
}

/// The top edge after clamping.
pub open spec fn clamped_top(rect: Rect, dir: ResizeDirection) -> int {
    if dir.moves_top() {
        pinned_low(rect.top as int, rect.bottom as int)
    } else {
        rect.top as int
    }
}

/// The bottom edge after clamping.
pub open spec fn clamped_bottom(rect: Rect, dir: ResizeDirection) -> int {
    if dir.moves_top() {
        rect.bottom as int
    } else {
        pinned_high(rect.top as int, rect.bottom as int)
    }
}

/// Whether the clamped edges are coordinates, so that the clamped rectangle
/// exists. It does unless a fixed edge lies within the minimum size of the
/// end of the coordinate range on the side of its moving edge.
pub open spec fn clamp_fits(rect: Rect, dir: ResizeDirection) -> bool {
    &&& fits_i32(clamped_left(rect, dir))
    &&& fits_i32(clamped_right(rect, dir))
    &&& fits_i32(clamped_top(rect, dir))
    &&& fits_i32(clamped_bottom(rect, dir))
}

/// The rectangle after clamping: a side shorter than the minimum size is
/// brought to it by putting the moving edge at that distance from the fixed
/// edge.
pub open spec fn clamped(rect: Rect, dir: ResizeDirection) -> Rect {
    Rect {
        left: clamped_left(rect, dir) as i32,
        top: clamped_top(rect, dir) as i32,
        right: clamped_right(rect, dir) as i32,
        bottom: clamped_bottom(rect, dir) as i32,
    }
}

/// Tells whether [`clamp_rect_for_min_size`] can hold its result.
pub fn clamp_has_room(rect: &Rect, dir: ResizeDirection) -> (room: bool)
    ensures
        room == clamp_fits(*rect, dir),
{
    let left: i64 = rect.left as i64;
    let right: i64 = rect.right as i64;
    let top: i64 = rect.top as i64;
    let bottom: i64 = rect.bottom as i64;
    let moves_left = match dir {
        ResizeDirection::TopLeft | ResizeDirection::BottomLeft => true,
        ResizeDirection::TopRight | ResizeDirection::BottomRight => false,
    };
    let moves_top = match dir {
        ResizeDirection::TopLeft | ResizeDirection::TopRight => true,
        ResizeDirection::BottomLeft | ResizeDirection::BottomRight => false,
    };
    let across = right - left >= 100 || (if moves_left {
        right - 100 >= -2147483648
    } else {
        left + 100 <= 2147483647
    });
    let down = bottom - top >= 100 || (if moves_top {
        bottom - 100 >= -2147483648
    } else {
        top + 100 <= 2147483647
    });
    across && down
}

/// Brings a rectangle to the minimum size by moving the edges next to the
/// dragged corner. The edges of the opposite corner are not touched.
pub fn clamp_rect_for_min_size(rect: &mut Rect, dir: ResizeDirection)
    requires
        clamp_fits(*old(rect), dir),
    ensures
        *final(rect) == clamped(*old(rect), dir),
        final(rect).width() >= MIN_WINDOW_SIZE,
        final(rect).height() >= MIN_WINDOW_SIZE,
        dir.moves_left() ==> final(rect).right == old(rect).right,
        !dir.moves_left() ==> final(rect).left == old(rect).left,
        dir.moves_top() ==> final(rect).bottom == old(rect).bottom,
        !dir.moves_top() ==> final(rect).top == old(rect).top,
{
    if (rect.right as i64) - (rect.left as i64) < MIN_WINDOW_SIZE as i64 {
        match dir {
            ResizeDirection::TopLeft | ResizeDirection::BottomLeft => {
                rect.left = rect.right - MIN_WINDOW_SIZE;
            },
            ResizeDirection::TopRight | ResizeDirection::BottomRight => {
                rect.right = rect.left + MIN_WINDOW_SIZE;
            },
        }
    }
    if (rect.bottom as i64) - (rect.top as i64) < MIN_WINDOW_SIZE as i64 {
        match dir {
            ResizeDirection::TopLeft | ResizeDirection::TopRight => {
                rect.top = rect.bottom - MIN_WINDOW_SIZE;
            },
            ResizeDirection::BottomLeft | ResizeDirection::BottomRight => {
                rect.bottom = rect.top + MIN_WINDOW_SIZE;
            },
        }
    }
}

/// A grab in progress. The window's place is always worked out from the
/// origin rectangle and the cumulative displacement, never from where the
/// window is found to be.
#[derive(Debug, Clone, Copy, PartialEq, Eq)]
pub struct GrabState {
    pub mode: DragMode,
    pub window: WindowId,
    /// Where the cursor was when the grab last looked.
    pub last_cursor: Point,
    /// The window's rectangle when the grab began or last changed its mode.
    pub origin_rect: Rect,
    /// How far the cursor went since the origin rectangle was taken.
    pub cumulative_dx: i32,
    pub cumulative_dy: i32,
    pub resize_dir: ResizeDirection,
    /// Where the window goes when the grab ends: set while a move holds the
    /// cursor in a snap zone.
    pub snap_target: Option<Rect>,
}

/// A command to place a window. Neither kind activates the window or
/// changes its place in the stacking order.
#[derive(Debug, Clone, Copy, PartialEq, Eq)]
pub enum Placement {
    /// Put the top-left corner at `(x, y)` and keep the size.
    Move { window: WindowId, x: i32, y: i32 },
    /// Put the top-left corner at `(x, y)` and set the size.
    Resize { window: WindowId, x: i32, y: i32, width: i32, height: i32 },
}

/// The origin rectangle with the displacement applied to the two edges next
/// to the dragged corner, before clamping.
pub open spec fn stretched(origin: Rect, dir: ResizeDirection, dx: int, dy: int) -> Rect {
    Rect {
        left: (if dir.moves_left() {
            origin.left + dx
        } else {
            origin.left as int
        }) as i32,
        top: (if dir.moves_top() {
            origin.top + dy
        } else {
            origin.top as int
        }) as i32,
        right: (if dir.moves_left() {
            origin.right as int
        } else {
            origin.right + dx
        }) as i32,
        bottom: (if dir.moves_top() {
            origin.bottom as int
        } else {
            origin.bottom + dy
        }) as i32,
    }
}

/// Whether the stretched rectangle exists: the two moved edges are
/// coordinates.
pub open spec fn stretch_fits(origin: Rect, dir: ResizeDirection, dx: int, dy: int) -> bool {
    &&& fits_i32(
        if dir.moves_left() {
            origin.left + dx
        } else {
            origin.right + dx
        },
    )
    &&& fits_i32(
        if dir.moves_top() {
            origin.top + dy
        } else {
            origin.bottom + dy
        },
    )
}

/// The rectangle that a resize gives: the origin stretched by the
/// displacement and clamped to the minimum size.
pub open spec fn resized(origin: Rect, dir: ResizeDirection, dx: int, dy: int) -> Rect {
    clamped(stretched(origin, dir, dx, dy), dir)
}

/// Whether the placement for a displacement can be written down: every
/// coordinate and size in it is an `i32`.
pub open spec fn placement_fits(
    mode: DragMode,
    dir: ResizeDirection,
    origin: Rect,
    dx: int,
    dy: int,
) -> bool {
    match mode {
        DragMode::Move => fits_i32(origin.left + dx) && fits_i32(origin.top + dy),
        DragMode::Resize => {
            &&& stretch_fits(origin, dir, dx, dy)
            &&& clamp_fits(stretched(origin, dir, dx, dy), dir)
            &&& resized(origin, dir, dx, dy).spans_fit()
        },
    }
}

/// The placement for a displacement. It is a function of the origin
/// rectangle and the displacement alone: a move puts the window's corner at
/// the origin's corner plus the displacement, a resize gives the window the
/// resized rectangle.
pub open spec fn placement_at(
    window: WindowId,
    mode: DragMode,
    dir: ResizeDirection,
    origin: Rect,
    dx: int,
    dy: int,
) -> Placement {
    match mode {
        DragMode::Move => Placement::Move {
            window,
            x: (origin.left + dx) as i32,
            y: (origin.top + dy) as i32,
        },
        DragMode::Resize => {
            let r = resized(origin, dir, dx, dy);
            Placement::Resize {
                window,
                x: r.left,
                y: r.top,
                width: r.width() as i32,
                height: r.height() as i32,
            }
        },
    }
}

/// The command that puts a window into `rect`, if `rect` has an extent:
/// nothing is placed into a rectangle without width or height.
pub open spec fn placement_into(window: WindowId, rect: Rect) -> Option<Placement> {
    if rect.width() > 0 && rect.height() > 0 {
        Some(
            Placement::Resize {
                window,
                x: rect.left,
                y: rect.top,
                width: rect.width() as i32,
                height: rect.height() as i32,
            },
        )
    } else {
        None
    }
}

/// Gives the command that puts a window into `rect`, if `rect` has an extent.
pub fn place_into(window: WindowId, rect: Rect) -> (placement: Option<Placement>)
    requires
        rect.spans_fit(),
    ensures
        placement == placement_into(window, rect),
{
    let width = rect.right - rect.left;
    let height = rect.bottom - rect.top;
    if width <= 0 || height <= 0 {
        None
    } else {
        Some(Placement::Resize { window, x: rect.left, y: rect.top, width, height })
    }
}

impl GrabState {
    /// What holds of every grab: a pending snap rectangle has a width and a
    /// height that can be written down, and only a move has one.
    pub open spec fn wf(self) -> bool {
        &&& self.snap_target matches Some(r) ==> r.spans_fit()
        &&& self.mode == DragMode::Resize ==> self.snap_target is None
    }

    /// The grab that begins on `window` with the cursor at `cursor`.
    pub open spec fn begun(
        mode: DragMode,
        window: WindowId,
        cursor: Point,
        origin: Rect,
    ) -> GrabState {
        GrabState {
            mode,
            window,
            last_cursor: cursor,
            origin_rect: origin,
            cumulative_dx: 0,
            cumulative_dy: 0,
            resize_dir: if mode == DragMode::Resize {
                quadrant(cursor, origin)
            } else {
                ResizeDirection::BottomRight
            },
            snap_target: None,
        }
    }

    /// The horizontal displacement once the cursor is at `point`.
    pub open spec fn next_dx(self, point: Point) -> int {
        self.cumulative_dx + (point.x - self.last_cursor.x)
    }

    /// The vertical displacement once the cursor is at `point`.
    pub open spec fn next_dy(self, point: Point) -> int {
        self.cumulative_dy + (point.y - self.last_cursor.y)
    }

    /// Whether the grab can follow the cursor to `point`: the displacement
    /// and the placement it leads to can be written down.
    pub open spec fn can_advance(self, point: Point) -> bool {
        &&& fits_i32(self.next_dx(point))
        &&& fits_i32(self.next_dy(point))
        &&& placement_fits(
            self.mode,
            self.resize_dir,
            self.origin_rect,
            self.next_dx(point),
            self.next_dy(point),
        )
    }

    /// The grab after it followed the cursor to `point`: the displacement has
    /// grown by the cursor's step, and nothing else has changed.
    pub open spec fn advanced(self, point: Point) -> GrabState {
        GrabState {
            last_cursor: point,
            cumulative_dx: self.next_dx(point) as i32,
            cumulative_dy: self.next_dy(point) as i32,
            ..self
        }
    }

    /// The placement that the grab asks for in its present state.
    pub open spec fn placement(self) -> Placement {
        placement_at(
            self.window,
            self.mode,
            self.resize_dir,
            self.origin_rect,
            self.cumulative_dx as int,
            self.cumulative_dy as int,
        )
    }

    /// The grab after a change of mode with the cursor at `point`. Where the
    /// window's rectangle could be read, it is the new origin and the
    /// displacement starts again at zero; where it could not, origin and
    /// displacement stay. A pending snap is dropped, and a resize drags the
    /// corner of the quadrant that the cursor is in.
    pub open spec fn switched(self, mode: DragMode, point: Point, live: Option<Rect>) -> GrabState {
        let origin = match live {
            Some(rect) => rect,
            None => self.origin_rect,
        };
        GrabState {
            mode,
            window: self.window,
            last_cursor: point,
            origin_rect: origin,
            cumulative_dx: if live is Some {
                0
            } else {
                self.cumulative_dx
            },
            cumulative_dy: if live is Some {
                0
            } else {
                self.cumulative_dy
            },
            resize_dir: if mode == DragMode::Resize {
                quadrant(point, origin)
            } else {
                self.resize_dir
            },
            snap_target: None,
        }
    }

    /// Begins a grab: the origin is fixed, the displacement is zero, and a
    /// resize drags the corner of the quadrant that the cursor is in.
    pub fn begin(mode: DragMode, window: WindowId, cursor: Point, origin: Rect) -> (grab: GrabState)
        ensures
            grab == GrabState::begun(mode, window, cursor, origin),
            grab.wf(),
    {
        let resize_dir = match mode {
            DragMode::Resize => determine_resize_direction(cursor, origin),
            DragMode::Move => ResizeDirection::BottomRight,
        };
        GrabState {
            mode,
            window,
            last_cursor: cursor,
            origin_rect: origin,
            cumulative_dx: 0,
            cumulative_dy: 0,
            resize_dir,
            snap_target: None,
        }
    }

    /// Changes the mode of a grab.
    pub fn switch_mode(&mut self, mode: DragMode, point: Point, live: Option<Rect>)
        ensures
            *final(self) == old(self).switched(mode, point, live),
            final(self).wf(),
    {
        if let Some(rect) = live {
            self.origin_rect = rect;
            self.cumulative_dx = 0;
            self.cumulative_dy = 0;
        }
        self.mode = mode;
        self.last_cursor = point;
        self.snap_target = None;
        match mode {
            DragMode::Resize => {
                self.resize_dir = determine_resize_direction(point, self.origin_rect);
            },
            DragMode::Move => {},
        }
    }

    /// Tells whether the grab can follow the cursor to `point`.
    pub fn has_room(&self, point: Point) -> (room: bool)
        ensures
            room == self.can_advance(point),
    {
        let dx: i64 = self.cumulative_dx as i64 + (point.x as i64 - self.last_cursor.x as i64);
        let dy: i64 = self.cumulative_dy as i64 + (point.y as i64 - self.last_cursor.y as i64);
        if !(in_range(dx) && in_range(dy)) {
            return false;
        }
        let origin = self.origin_rect;
        match self.mode {
            DragMode::Move => in_range(origin.left as i64 + dx) && in_range(origin.top as i64 + dy),
            DragMode::Resize => {
                let moves_left = match self.resize_dir {
                    ResizeDirection::TopLeft | ResizeDirection::BottomLeft => true,
                    ResizeDirection::TopRight | ResizeDirection::BottomRight => false,
                };
                let moves_top = match self.resize_dir {
                    ResizeDirection::TopLeft | ResizeDirection::TopRight => true,
                    ResizeDirection::BottomLeft | ResizeDirection::BottomRight => false,
                };
                let x: i64 = if moves_left {
                    origin.left as i64 + dx
                } else {
                    origin.right as i64 + dx
                };
                let y: i64 = if moves_top {
                    origin.top as i64 + dy
                } else {
                    origin.bottom as i64 + dy
                };
                if !(in_range(x) && in_range(y)) {
                    return false;
                }
                let mut r = origin;
                if moves_left {
                    r.left = x as i32;
                } else {
                    r.right = x as i32;
                }
                if moves_top {
                    r.top = y as i32;
                } else {
                    r.bottom = y as i32;
                }
                if !clamp_has_room(&r, self.resize_dir) {
                    return false;
                }
                clamp_rect_for_min_size(&mut r, self.resize_dir);
                r.has_fitting_spans()
            },
        }
    }

    /// Follows the cursor to `point`: adds the cursor's step to the
    /// displacement and gives the placement that the new displacement asks
    /// for. The origin rectangle is not touched and no rectangle is read.
    pub fn advance(&mut self, point: Point) -> (placement: Placement)
        requires
            old(self).can_advance(point),
        ensures
            *final(self) == old(self).advanced(point),
            placement == final(self).placement(),
    {
        let dx: i64 = self.cumulative_dx as i64 + (point.x as i64 - self.last_cursor.x as i64);
        let dy: i64 = self.cumulative_dy as i64 + (point.y as i64 - self.last_cursor.y as i64);
        self.cumulative_dx = dx as i32;
        self.cumulative_dy = dy as i32;
        self.last_cursor = point;
        let origin = self.origin_rect;
        match self.mode {
            DragMode::Move => Placement::Move {
                window: self.window,
                x: origin.left + self.cumulative_dx,
                y: origin.top + self.cumulative_dy,
            },
            DragMode::Resize => {
                let mut r = origin;
                match self.resize_dir {
                    ResizeDirection::TopLeft => {
                        r.left = r.left + self.cumulative_dx;
                        r.top = r.top + self.cumulative_dy;
                    },
                    ResizeDirection::TopRight => {
                        r.right = r.right + self.cumulative_dx;
                        r.top = r.top + self.cumulative_dy;
                    },
                    ResizeDirection::BottomLeft => {
                        r.left = r.left + self.cumulative_dx;
                        r.bottom = r.bottom + self.cumulative_dy;
                    },
                    ResizeDirection::BottomRight => {
                        r.right = r.right + self.cumulative_dx;
                        r.bottom = r.bottom + self.cumulative_dy;
                    },
                }
                clamp_rect_for_min_size(&mut r, self.resize_dir);
                Placement::Resize {
                    window: self.window,
                    x: r.left,
                    y: r.top,
                    width: r.right - r.left,
                    height: r.bottom - r.top,
                }
            },
        }
    }
}

/// Tells whether `n` can be held in an `i32`.
fn in_range(n: i64) -> (fits: bool)
    ensures
        fits == fits_i32(n as int),
{
    -2147483648 <= n && n <= 2147483647
}

/// Clamping leaves a rectangle of at least the minimum size in both
/// directions and does not touch the corner opposite the dragged one.
pub proof fn lemma_clamp_keeps_minimum_and_fixed_corner(rect: Rect, dir: ResizeDirection)
    requires
        clamp_fits(rect, dir),
    ensures
        clamped(rect, dir).width() >= MIN_WINDOW_SIZE,
        clamped(rect, dir).height() >= MIN_WINDOW_SIZE,
        dir.moves_left() ==> clamped(rect, dir).right == rect.right,
        !dir.moves_left() ==> clamped(rect, dir).left == rect.left,
        dir.moves_top() ==> clamped(rect, dir).bottom == rect.bottom,
        !dir.moves_top() ==> clamped(rect, dir).top == rect.top,
        rect.width() >= MIN_WINDOW_SIZE && rect.height() >= MIN_WINDOW_SIZE ==> clamped(rect, dir)
            == rect,
{
}

/// A resize never moves the corner opposite the dragged one away from where
/// the origin rectangle has it, and never gives less than the minimum size.
pub proof fn lemma_resize_keeps_fixed_corner(origin: Rect, dir: ResizeDirection, dx: int, dy: int)
    requires
        placement_fits(DragMode::Resize, dir, origin, dx, dy),
    ensures
        resized(origin, dir, dx, dy).width() >= MIN_WINDOW_SIZE,
        resized(origin, dir, dx, dy).height() >= MIN_WINDOW_SIZE,
        dir.moves_left() ==> resized(origin, dir, dx, dy).right == origin.right,
        !dir.moves_left() ==> resized(origin, dir, dx, dy).left == origin.left,
        dir.moves_top() ==> resized(origin, dir, dx, dy).bottom == origin.bottom,
        !dir.moves_top() ==> resized(origin, dir, dx, dy).top == origin.top,
{
}

/// A move keeps the size of the window: its placement names the origin's
/// corner shifted by the displacement and no size.
pub proof fn lemma_move_shifts_origin(
    window: WindowId,
    dir: ResizeDirection,
    origin: Rect,
    dx: int,
    dy: int,
)
    requires
        placement_fits(DragMode::Move, dir, origin, dx, dy),
    ensures
        placement_at(window, DragMode::Move, dir, origin, dx, dy) == (Placement::Move {
            window,
            x: (origin.left + dx) as i32,
            y: (origin.top + dy) as i32,
        }),
        (origin.left + dx) as i32 == origin.left + dx,
        (origin.top + dy) as i32 == origin.top + dy,
{
}

impl GrabState {
    /// The grab after it followed the cursor through `points`, one after
    /// the other.
    pub open spec fn followed_through(self, points: Seq<Point>) -> GrabState
        decreases points.len(),
    {
        if points.len() == 0 {
            self
        } else {
            self.followed_through(points.drop_last()).advanced(points.last())
        }
    }

    /// Whether the grab has room to follow the cursor through `points`.
    pub open spec fn can_follow_through(self, points: Seq<Point>) -> bool
        decreases points.len(),
    {
        points.len() == 0 || (self.can_follow_through(points.drop_last())
            && self.followed_through(points.drop_last()).can_advance(points.last()))
    }
}

/// No drift: however many steps the cursor takes, the displacement is what
/// it was plus the way from where the cursor was to where it is now, the
/// origin rectangle is the one the grab began with, and the placement is the
/// one that this origin and this displacement give. The steps in between
/// leave no trace.
pub proof fn lemma_no_drift(grab: GrabState, points: Seq<Point>)
    requires
        points.len() > 0,
        grab.can_follow_through(points),
    ensures
        grab.followed_through(points).origin_rect == grab.origin_rect,
        grab.followed_through(points).mode == grab.mode,
        grab.followed_through(points).window == grab.window,
        grab.followed_through(points).resize_dir == grab.resize_dir,
        grab.followed_through(points).snap_target == grab.snap_target,
        grab.followed_through(points).last_cursor == points.last(),
        grab.followed_through(points).cumulative_dx == grab.cumulative_dx + (points.last().x
            - grab.last_cursor.x),
        grab.followed_through(points).cumulative_dy == grab.cumulative_dy + (points.last().y
            - grab.last_cursor.y),
        grab.followed_through(points).placement() == placement_at(
            grab.window,
            grab.mode,
            grab.resize_dir,
            grab.origin_rect,
            grab.cumulative_dx + (points.last().x - grab.last_cursor.x),
            grab.cumulative_dy + (points.last().y - grab.last_cursor.y),
        ),
    decreases points.len(),
{
    if points.len() > 1 {
        lemma_no_drift(grab, points.drop_last());
    } else {
        assert(points.drop_last().len() == 0);
    }
}

} // verus!
