//! Plain integer geometry: two-dimensional vectors, clamping, axis-aligned
//! rectangles, and the circle-versus-rectangle overlap test that the
//! collision system is built on.

use vstd::prelude::*;

use crate::units::COORD_LIMIT;
use crate::units::POS_LIMIT;
use crate::units::DISP_LIMIT;
use crate::units::lemma_square_bounded;

verus! {

/// A two-dimensional vector in subunits (position) or subunits per
/// millisecond (velocity).
#[derive(Clone, Copy, Debug, PartialEq, Eq, Structural)]
pub struct Vec2 {
    pub x: i64,
    pub y: i64,
}

/// `v` clamped to the closed interval `[lo, hi]`.
pub open spec fn clamp_spec(v: int, lo: int, hi: int) -> int {
    if v < lo {
        lo
    } else if v > hi {
        hi
    } else {
        v
    }
}

/// Clamp `v` to the closed interval `[lo, hi]`.
pub fn clamp_i64(v: i64, lo: i64, hi: i64) -> (r: i64)
    requires
        lo <= hi,
    ensures
        r == clamp_spec(v as int, lo as int, hi as int),
        lo <= r <= hi,
{
    if v < lo {
        lo
    } else if v > hi {
        hi
    } else {
        v
    }
}

/// An axis-aligned rectangle given by its inclusive coordinate bounds.
#[derive(Clone, Copy, Debug, PartialEq, Eq, Structural)]
pub struct Rect {
    pub min_x: i64,
    pub max_x: i64,
    pub min_y: i64,
    pub max_y: i64,
}

impl Rect {
    /// A well-formed rectangle has ordered bounds of bounded magnitude.
    pub open spec fn wf(self) -> bool {
        &&& self.min_x <= self.max_x
        &&& self.min_y <= self.max_y
        &&& -5 * COORD_LIMIT <= self.min_x
        &&& self.max_x <= 5 * COORD_LIMIT
        &&& -5 * COORD_LIMIT <= self.min_y
        &&& self.max_y <= 5 * COORD_LIMIT
    }
}

/// The square of `x`.
pub open spec fn sq(x: int) -> int {
    x * x
}

/// Whether a circle of radius `r` centred at `(cx, cy)` strictly overlaps the
/// rectangle: the nearest point of the rectangle to the centre (the centre
/// clamped to the rectangle's bounds) lies at distance strictly less than `r`.
pub open spec fn circle_rect_overlap(cx: int, cy: int, r: int, rect: Rect) -> bool {
    sq(cx - clamp_spec(cx, rect.min_x as int, rect.max_x as int))
        + sq(cy - clamp_spec(cy, rect.min_y as int, rect.max_y as int)) < sq(r)
}

/// Decide the circle-versus-rectangle overlap test.
pub fn circle_rect_overlaps(cx: i64, cy: i64, r: i64, rect: &Rect) -> (b: bool)
    requires
        rect.wf(),
        -POS_LIMIT - DISP_LIMIT <= cx <= POS_LIMIT + DISP_LIMIT,
        -POS_LIMIT - DISP_LIMIT <= cy <= POS_LIMIT + DISP_LIMIT,
        0 <= r <= COORD_LIMIT,
    ensures
        b == circle_rect_overlap(cx as int, cy as int, r as int, *rect),
{
    let nx = clamp_i64(cx, rect.min_x, rect.max_x);
    let ny = clamp_i64(cy, rect.min_y, rect.max_y);
    let dx = cx - nx;
    let dy = cy - ny;
    proof {
        lemma_square_bounded(dx as int, 3 * POS_LIMIT as int);
        lemma_square_bounded(dy as int, 3 * POS_LIMIT as int);
        lemma_square_bounded(r as int, COORD_LIMIT as int);
    }
    let dx2 = (dx as i128) * (dx as i128);
    let dy2 = (dy as i128) * (dy as i128);
    let r2 = (r as i128) * (r as i128);
    dx2 + dy2 < r2
}

} // verus!
