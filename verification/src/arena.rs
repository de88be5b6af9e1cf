//! Arena geometry: the four wall coordinates, the wall thickness, the paddle
//! padding, and the usable bounds they imply for an entity of a given
//! half-extent.
//!
//! Each wall is an axis-aligned half-plane centred on its coordinate; its
//! inner face is offset inward by half the wall thickness. The reference
//! constants reproduce the arena of the original game, scaled to subunits.

use vstd::prelude::*;

use crate::units::BAND_LIMIT;
use crate::units::COORD_LIMIT;
use crate::units::SUBUNITS_PER_UNIT;

verus! {

/// x-coordinate of the left wall's centre line, in subunits.
pub const LEFT_WALL: i64 = -450 * SUBUNITS_PER_UNIT;

/// x-coordinate of the right wall's centre line, in subunits.
pub const RIGHT_WALL: i64 = 450 * SUBUNITS_PER_UNIT;

/// y-coordinate of the bottom wall's centre line, in subunits.
pub const BOTTOM_WALL: i64 = -300 * SUBUNITS_PER_UNIT;

/// y-coordinate of the top wall's centre line, in subunits.
pub const TOP_WALL: i64 = 300 * SUBUNITS_PER_UNIT;

/// Thickness of every wall, in subunits.
pub const WALL_THICKNESS: i64 = 10 * SUBUNITS_PER_UNIT;

/// Margin kept between the paddle and the walls it slides along, in subunits.
pub const PADDLE_PADDING: i64 = 10 * SUBUNITS_PER_UNIT;

/// The static geometry of the arena. Immutable for the lifetime of a
/// simulation.
#[derive(Clone, Copy, Debug, PartialEq, Eq, Structural)]
pub struct ArenaBounds {
    /// x-coordinate of the left wall's centre line.
    pub left: i64,
    /// x-coordinate of the right wall's centre line.
    pub right: i64,
    /// y-coordinate of the bottom wall's centre line.
    pub bottom: i64,
    /// y-coordinate of the top wall's centre line.
    pub top: i64,
    /// Thickness of every wall.
    pub wall_thickness: i64,
    /// Margin kept between the paddle and the walls.
    pub padding: i64,
}

impl ArenaBounds {
    /// Invariant of the arena geometry: the walls are ordered, thickness and
    /// padding are non-negative, and every coordinate is bounded so derived
    /// quantities cannot overflow.
    pub open spec fn wf(self) -> bool {
        &&& self.left < self.right
        &&& self.bottom < self.top
        &&& 0 <= self.wall_thickness <= COORD_LIMIT
        &&& 0 <= self.padding <= COORD_LIMIT
        &&& -COORD_LIMIT <= self.left
        &&& self.right <= COORD_LIMIT
        &&& -COORD_LIMIT <= self.bottom
        &&& self.top <= COORD_LIMIT
    }

    /// y-coordinate of the top wall's inner face.
    pub open spec fn inner_top(self) -> int {
        self.top - self.wall_thickness / 2
    }

    /// y-coordinate of the bottom wall's inner face.
    pub open spec fn inner_bottom(self) -> int {
        self.bottom + self.wall_thickness / 2
    }

    /// x-coordinate of the left wall's inner face.
    pub open spec fn inner_left(self) -> int {
        self.left + self.wall_thickness / 2
    }

    /// x-coordinate of the right wall's inner face.
    pub open spec fn inner_right(self) -> int {
        self.right - self.wall_thickness / 2
    }

    /// Highest legal centre position for an entity of the given half-extent:
    /// the top inner face, less the padding margin, less the half-extent.
    pub open spec fn top_bound_spec(self, half_extent: int) -> int {
        self.inner_top() - self.padding - half_extent
    }

    /// Lowest legal centre position for an entity of the given half-extent.
    pub open spec fn bottom_bound_spec(self, half_extent: int) -> int {
        self.inner_bottom() + self.padding + half_extent
    }

    /// Decide the arena invariant, for hosts that must check it at runtime
    /// before calling into the core.
    pub fn is_well_formed(&self) -> (b: bool)
        ensures
            b == self.wf(),
    {
        self.left < self.right && self.bottom < self.top && 0 <= self.wall_thickness
            && self.wall_thickness <= COORD_LIMIT && 0 <= self.padding && self.padding
            <= COORD_LIMIT && -COORD_LIMIT <= self.left && self.right <= COORD_LIMIT
            && -COORD_LIMIT <= self.bottom && self.top <= COORD_LIMIT
    }

    /// The arena of the reference game.
    pub fn reference() -> (a: ArenaBounds)
        ensures
            a == (ArenaBounds {
                left: LEFT_WALL,
                right: RIGHT_WALL,
                bottom: BOTTOM_WALL,
                top: TOP_WALL,
                wall_thickness: WALL_THICKNESS,
                padding: PADDLE_PADDING,
            }),
            a.wf(),
    {
        ArenaBounds {
            left: LEFT_WALL,
            right: RIGHT_WALL,
            bottom: BOTTOM_WALL,
            top: TOP_WALL,
            wall_thickness: WALL_THICKNESS,
            padding: PADDLE_PADDING,
        }
    }

    /// Compute the highest legal centre position for an entity of the given
    /// half-extent.
    pub fn top_bound(&self, half_extent: i64) -> (r: i64)
        requires
            self.wf(),
            0 <= half_extent <= COORD_LIMIT,
        ensures
            r == self.top_bound_spec(half_extent as int),
            -BAND_LIMIT <= r <= BAND_LIMIT,
    {
        self.top - half_of(self.wall_thickness) - self.padding - half_extent
    }

    /// Compute the lowest legal centre position for an entity of the given
    /// half-extent.
    pub fn bottom_bound(&self, half_extent: i64) -> (r: i64)
        requires
            self.wf(),
            0 <= half_extent <= COORD_LIMIT,
        ensures
            r == self.bottom_bound_spec(half_extent as int),
            -BAND_LIMIT <= r <= BAND_LIMIT,
    {
        self.bottom + half_of(self.wall_thickness) + self.padding + half_extent
    }
}

/// Half of a non-negative quantity, rounded down.
pub fn half_of(x: i64) -> (r: i64)
    requires
        0 <= x,
    ensures
        r == x as int / 2,
{
    x / 2
}

} // verus!
