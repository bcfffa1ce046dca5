//! Snap zones: which screen region a cursor near the edge of the work area
//! selects, and the rectangle a window takes there.

use vstd::prelude::*;
use crate::geometry::{lemma_mid_between, midpoint, Point, Rect};

verus! {

/// A region of the work area that a window can snap to.
#[derive(Debug, Clone, Copy, PartialEq, Eq, Structural)]
pub enum SnapZone {
    /// Left half of the work area.
    Left,
    /// Right half of the work area.
    Right,
    /// The full work area.
    Maximize,
    /// Top-left quarter.
    TopLeft,
    /// Top-right quarter.
    TopRight,
    /// Bottom-left quarter.
    BottomLeft,
    /// Bottom-right quarter.
    BottomRight,
}

/// The cursor is less than `threshold` pixels right of the left edge.
pub open spec fn near_left(cursor: Point, work: Rect, threshold: int) -> bool {
    cursor.x - work.left < threshold
}

/// The cursor is less than `threshold` pixels left of the right edge.
pub open spec fn near_right(cursor: Point, work: Rect, threshold: int) -> bool {
    work.right - cursor.x < threshold
}

/// The cursor is less than `threshold` pixels below the top edge.
pub open spec fn near_top(cursor: Point, work: Rect, threshold: int) -> bool {
    cursor.y - work.top < threshold
}

/// The cursor is less than `threshold` pixels above the bottom edge.
pub open spec fn near_bottom(cursor: Point, work: Rect, threshold: int) -> bool {
    work.bottom - cursor.y < threshold
}

/// The zone that a cursor selects: a corner where two adjacent edges are
/// near, else the full area at the top edge, else a half at the left or right
/// edge, else none. The bottom edge alone selects nothing.
pub open spec fn zone_at(cursor: Point, work: Rect, threshold: int) -> Option<SnapZone> {
    let l = near_left(cursor, work, threshold);
    let r = near_right(cursor, work, threshold);
    let t = near_top(cursor, work, threshold);
    let b = near_bottom(cursor, work, threshold);
    if t && l {
        Some(SnapZone::TopLeft)
    } else if t && r {
        Some(SnapZone::TopRight)
    } else if b && l {
        Some(SnapZone::BottomLeft)
    } else if b && r {
        Some(SnapZone::BottomRight)
    } else if t {
        Some(SnapZone::Maximize)
    } else if l {
        Some(SnapZone::Left)
    } else if r {
        Some(SnapZone::Right)
    } else {
        None
    }
}

/// The rectangle of a zone: the work area cut at its horizontal and vertical
/// midpoints, as the zone asks.
pub open spec fn zone_rect(zone: SnapZone, work: Rect) -> Rect {
    let cx = work.center_x() as i32;
    let cy = work.center_y() as i32;
    match zone {
        SnapZone::Left => Rect { left: work.left, top: work.top, right: cx, bottom: work.bottom },
        SnapZone::Right => Rect { left: cx, top: work.top, right: work.right, bottom: work.bottom },
        SnapZone::Maximize => work,
        SnapZone::TopLeft => Rect { left: work.left, top: work.top, right: cx, bottom: cy },
        SnapZone::TopRight => Rect { left: cx, top: work.top, right: work.right, bottom: cy },
        SnapZone::BottomLeft => Rect { left: work.left, top: cy, right: cx, bottom: work.bottom },
        SnapZone::BottomRight => Rect { left: cx, top: cy, right: work.right, bottom: work.bottom },
    }
}

/// What the detection reports: the zone at the cursor together with its
/// rectangle, or nothing.
pub open spec fn detected(cursor: Point, work: Rect, threshold: int) -> Option<(SnapZone, Rect)> {
    match zone_at(cursor, work, threshold) {
        Some(zone) => Some((zone, zone_rect(zone, work))),
        None => None,
    }
}

/// Finds the snap zone at the cursor, if any, within the work area of the
/// monitor that the cursor is on, and the rectangle to snap to.
pub fn detect_snap_zone(cursor: Point, work: Rect, threshold: i32) -> (found: Option<
    (SnapZone, Rect),
>)
    ensures
        found == detected(cursor, work, threshold as int),
{
    let limit: i64 = threshold as i64;
    let l = cursor.x as i64 - (work.left as i64) < limit;
    let r = work.right as i64 - (cursor.x as i64) < limit;
    let t = cursor.y as i64 - (work.top as i64) < limit;
    let b = work.bottom as i64 - (cursor.y as i64) < limit;
    let zone = if t && l {
        Some(SnapZone::TopLeft)
    } else if t && r {
        Some(SnapZone::TopRight)
    } else if b && l {
        Some(SnapZone::BottomLeft)
    } else if b && r {
        Some(SnapZone::BottomRight)
    } else if t {
        Some(SnapZone::Maximize)
    } else if l {
        Some(SnapZone::Left)
    } else if r {
        Some(SnapZone::Right)
    } else {
        None
    };
    match zone {
        Some(z) => Some((z, snap_zone_rect(z, work))),
        None => None,
    }
}

/// Computes the rectangle of a zone within the work area.
pub fn snap_zone_rect(zone: SnapZone, work: Rect) -> (rect: Rect)
    ensures
        rect == zone_rect(zone, work),
{
    let cx = midpoint(work.left, work.right);
    let cy = midpoint(work.top, work.bottom);
    match zone {
        SnapZone::Left => Rect { left: work.left, top: work.top, right: cx, bottom: work.bottom },
        SnapZone::Right => Rect { left: cx, top: work.top, right: work.right, bottom: work.bottom },
        SnapZone::Maximize => work,
        SnapZone::TopLeft => Rect { left: work.left, top: work.top, right: cx, bottom: cy },
        SnapZone::TopRight => Rect { left: cx, top: work.top, right: work.right, bottom: cy },
        SnapZone::BottomLeft => Rect { left: work.left, top: cy, right: cx, bottom: work.bottom },
        SnapZone::BottomRight => Rect { left: cx, top: cy, right: work.right, bottom: work.bottom },
    }
}

/// Corners come first: a cursor near two adjacent edges selects their corner,
/// never the full area or a half.
pub proof fn lemma_corner_priority(cursor: Point, work: Rect, threshold: int)
    ensures
        near_top(cursor, work, threshold) && near_left(cursor, work, threshold) ==> zone_at(
            cursor,
            work,
            threshold,
        ) == Some(SnapZone::TopLeft),
        near_top(cursor, work, threshold) && !near_left(cursor, work, threshold) && near_right(
            cursor,
            work,
            threshold,
        ) ==> zone_at(cursor, work, threshold) == Some(SnapZone::TopRight),
        !near_top(cursor, work, threshold) && near_bottom(cursor, work, threshold) && near_left(
            cursor,
            work,
            threshold,
        ) ==> zone_at(cursor, work, threshold) == Some(SnapZone::BottomLeft),
        !near_top(cursor, work, threshold) && near_bottom(cursor, work, threshold) && !near_left(
            cursor,
            work,
            threshold,
        ) && near_right(cursor, work, threshold) ==> zone_at(cursor, work, threshold) == Some(
            SnapZone::BottomRight,
        ),
{
}

/// No zone is selected unless the cursor is near the top, left or right edge.
pub proof fn lemma_no_zone_away_from_edges(cursor: Point, work: Rect, threshold: int)
    ensures
        zone_at(cursor, work, threshold) is None <==> !near_top(cursor, work, threshold)
            && !near_left(cursor, work, threshold) && !near_right(cursor, work, threshold),
{
}

/// The two halves share the vertical cut and together span the work area; the
/// four quarters share both cuts and together span it; the full zone is the
/// work area itself.
pub proof fn lemma_zones_tile_work_area(work: Rect)
    ensures
        zone_rect(SnapZone::Maximize, work) == work,
        zone_rect(SnapZone::Left, work).left == work.left,
        zone_rect(SnapZone::Left, work).right == work.center_x(),
        zone_rect(SnapZone::Right, work).left == work.center_x(),
        zone_rect(SnapZone::Right, work).right == work.right,
        zone_rect(SnapZone::Left, work).width() + zone_rect(SnapZone::Right, work).width()
            == work.width(),
        zone_rect(SnapZone::Left, work).height() == work.height(),
        zone_rect(SnapZone::Right, work).height() == work.height(),
        zone_rect(SnapZone::TopLeft, work).width() == zone_rect(SnapZone::Left, work).width(),
        zone_rect(SnapZone::BottomLeft, work).width() == zone_rect(SnapZone::Left, work).width(),
        zone_rect(SnapZone::TopRight, work).width() == zone_rect(SnapZone::Right, work).width(),
        zone_rect(SnapZone::BottomRight, work).width() == zone_rect(SnapZone::Right, work).width(),
        zone_rect(SnapZone::TopLeft, work).bottom == work.center_y(),
        zone_rect(SnapZone::TopRight, work).bottom == work.center_y(),
        zone_rect(SnapZone::BottomLeft, work).top == work.center_y(),
        zone_rect(SnapZone::BottomRight, work).top == work.center_y(),
        zone_rect(SnapZone::TopLeft, work).height() + zone_rect(SnapZone::BottomLeft, work).height()
            == work.height(),
        zone_rect(SnapZone::TopRight, work).height() + zone_rect(
            SnapZone::BottomRight,
            work,
        ).height() == work.height(),
{
    lemma_mid_between(work.left as int, work.right as int);
    lemma_mid_between(work.top as int, work.bottom as int);
}

/// A zone's rectangle is no wider and no taller than the work area, so its
/// width and height can be held wherever those of the work area can.
pub proof fn lemma_zone_spans_fit(zone: SnapZone, work: Rect)
    requires
        work.spans_fit(),
    ensures
        zone_rect(zone, work).spans_fit(),
{
    lemma_mid_between(work.left as int, work.right as int);
    lemma_mid_between(work.top as int, work.bottom as int);
}

} // verus!
