//! The coordinate convention and the numeric limits of the simulation.
//!
//! Positions, extents and wall coordinates are measured in subunits, with
//! [`SUBUNITS_PER_UNIT`] subunits to one world unit. A velocity is measured in
//! subunits per millisecond, which makes it numerically equal to world units
//! per second. A tick duration is measured in milliseconds, so a displacement
//! over a tick is the plain product `velocity * dt` with no rounding.
//!
//! The limits below bound every quantity the core computes with, so that all
//! intermediate arithmetic provably fits in the machine integer types.

use vstd::prelude::*;

verus! {

/// Subunits in one world unit.
pub const SUBUNITS_PER_UNIT: i64 = 1000;

/// Largest magnitude of an arena coordinate, an entity extent or a radius,
/// in subunits.
pub const COORD_LIMIT: i64 = 1_000_000_000_000;

/// Largest magnitude of a legal-band bound for the paddle, and of the
/// paddle's y-position, in subunits.
pub const BAND_LIMIT: i64 = 4_000_000_000_000;

/// Largest magnitude of a velocity component, in subunits per millisecond.
pub const VEL_LIMIT: i64 = 1_000_000;

/// Longest tick duration, in milliseconds.
pub const DT_LIMIT: u64 = 1_000_000;

/// Largest magnitude of a displacement over one tick:
/// `VEL_LIMIT * DT_LIMIT` subunits.
pub const DISP_LIMIT: i64 = 1_000_000_000_000;

/// Largest magnitude of a ball position component the core accepts,
/// in subunits.
pub const POS_LIMIT: i64 = 1_000_000_000_000_000;

/// A displacement over one tick is bounded by [`DISP_LIMIT`].
pub proof fn lemma_displacement_bounded(v: int, dt: int)
    by (nonlinear_arith)
    requires
        -VEL_LIMIT <= v <= VEL_LIMIT,
        0 <= dt <= DT_LIMIT,
    ensures
        -DISP_LIMIT <= v * dt <= DISP_LIMIT,
{
}

/// The square of a bounded value is bounded by the square of the bound.
pub proof fn lemma_square_bounded(x: int, b: int)
    by (nonlinear_arith)
    requires
        -b <= x <= b,
    ensures
        0 <= x * x <= b * b,
{
}

} // verus!
