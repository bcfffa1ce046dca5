//! Screen geometry: points and rectangles in pixel coordinates.

use vstd::prelude::*;

verus! {

/// A screen position in pixels.
#[derive(Clone, Copy, Debug, PartialEq, Eq, Structural)]
pub struct Point {
    pub x: i32,
    pub y: i32,
}

/// A screen rectangle given by its four edges.
#[derive(Clone, Copy, Debug, PartialEq, Eq, Structural)]
pub struct Rect {
    pub left: i32,
    pub top: i32,
    pub right: i32,
    pub bottom: i32,
}

/// Half of `n`, rounded towards zero.
pub open spec fn half(n: int) -> int {
    if n >= 0 {
        n / 2
    } else {
        -((-n) / 2)
    }
}

/// The coordinate half way from `lo` to `hi`, rounded towards `lo`.
pub open spec fn mid(lo: int, hi: int) -> int {
    lo + half(hi - lo)
}

/// Whether `n` can be held in an `i32`.
pub open spec fn fits_i32(n: int) -> bool {
    i32::MIN <= n <= i32::MAX
}

impl Rect {
    pub open spec fn width(self) -> int {
        self.right - self.left
    }

    pub open spec fn height(self) -> int {
        self.bottom - self.top
    }

    /// The horizontal midpoint: the left edge plus half the width.
    pub open spec fn center_x(self) -> int {
        mid(self.left as int, self.right as int)
    }

    /// The vertical midpoint: the top edge plus half the height.
    pub open spec fn center_y(self) -> int {
        mid(self.top as int, self.bottom as int)
    }

    /// Whether width and height can each be held in an `i32`.
    pub open spec fn spans_fit(self) -> bool {
        fits_i32(self.width()) && fits_i32(self.height())
    }

    /// Tells whether width and height can each be held in an `i32`.
    pub fn has_fitting_spans(&self) -> (fit: bool)
        ensures
            fit == self.spans_fit(),
    {
        let w: i64 = self.right as i64 - self.left as i64;
        let h: i64 = self.bottom as i64 - self.top as i64;
        -2147483648 <= w && w <= 2147483647 && -2147483648 <= h && h <= 2147483647
    }
}

/// The midpoint lies between the two coordinates, so it is a coordinate too.
pub proof fn lemma_mid_between(lo: int, hi: int)
    ensures
        lo <= hi ==> lo <= mid(lo, hi) <= hi,
        hi <= lo ==> hi <= mid(lo, hi) <= lo,
{
}

/// The midpoint `lo + (hi - lo) / 2` of two coordinates.
pub fn midpoint(lo: i32, hi: i32) -> (m: i32)
    ensures
        m == mid(lo as int, hi as int),
{
    let span: i64 = hi as i64 - lo as i64;
    let r: i64 = lo as i64 + span / 2;
    r as i32
}

} // verus!
