//! The entity store: the mutable state of the paddle and the ball, the
//! collider capability tag, and the reference starting configuration.

use vstd::prelude::*;

use crate::arena::LEFT_WALL;
use crate::geometry::Rect;
use crate::geometry::Vec2;
use crate::units::BAND_LIMIT;
use crate::units::COORD_LIMIT;
use crate::units::SUBUNITS_PER_UNIT;
use crate::units::VEL_LIMIT;

verus! {

/// Paddle width, in subunits.
pub const PADDLE_WIDTH: i64 = 120 * SUBUNITS_PER_UNIT;

/// Paddle height, in subunits.
pub const PADDLE_HEIGHT: i64 = 20 * SUBUNITS_PER_UNIT;

/// Gap between the left wall's centre line and the paddle's centre,
/// in subunits.
pub const GAP_BETWEEN_PADDLE_AND_WALL: i64 = 20 * SUBUNITS_PER_UNIT;

/// Fixed x-coordinate of the paddle's centre, in subunits.
pub const PADDLE_X: i64 = LEFT_WALL + GAP_BETWEEN_PADDLE_AND_WALL;

/// Paddle speed, in subunits per millisecond.
pub const PADDLE_SPEED: i64 = 500;

/// Ball radius, in subunits.
pub const BALL_RADIUS: i64 = 5 * SUBUNITS_PER_UNIT;

/// x-coordinate of the ball's starting position, in subunits.
pub const BALL_START_X: i64 = 0;

/// y-coordinate of the ball's starting position, in subunits.
pub const BALL_START_Y: i64 = -50 * SUBUNITS_PER_UNIT;

/// The player-controlled paddle. Only the y-coordinate of its position ever
/// changes; its x-coordinate stays at a fixed offset from the left wall.
#[derive(Clone, Copy, Debug, PartialEq, Eq, Structural)]
pub struct Paddle {
    /// Centre of the paddle.
    pub position: Vec2,
    /// Width and height of the paddle.
    pub size: Vec2,
    /// Speed at which the paddle moves while a direction is held,
    /// in subunits per millisecond.
    pub speed: i64,
    /// Whether the paddle participates in collision queries.
    pub collider: bool,
}

impl Paddle {
    /// Invariant of the paddle: non-negative bounded extents and speed, and a
    /// bounded position.
    pub open spec fn wf(self) -> bool {
        &&& 0 <= self.size.x <= COORD_LIMIT
        &&& 0 <= self.size.y <= COORD_LIMIT
        &&& 0 <= self.speed <= VEL_LIMIT
        &&& -COORD_LIMIT <= self.position.x <= COORD_LIMIT
        &&& -BAND_LIMIT <= self.position.y <= BAND_LIMIT
    }

    /// The paddle's footprint as an axis-aligned rectangle (half-extents
    /// rounded down for odd sizes).
    pub open spec fn rect_spec(self) -> Rect {
        Rect {
            min_x: (self.position.x - self.size.x / 2) as i64,
            max_x: (self.position.x + self.size.x / 2) as i64,
            min_y: (self.position.y - self.size.y / 2) as i64,
            max_y: (self.position.y + self.size.y / 2) as i64,
        }
    }

    /// Compute the paddle's footprint rectangle.
    pub fn rect(&self) -> (r: Rect)
        requires
            self.wf(),
        ensures
            r == self.rect_spec(),
            r.wf(),
    {
        let half_w = crate::arena::half_of(self.size.x);
        let half_h = crate::arena::half_of(self.size.y);
        Rect {
            min_x: self.position.x - half_w,
            max_x: self.position.x + half_w,
            min_y: self.position.y - half_h,
            max_y: self.position.y + half_h,
        }
    }

    /// Decide the paddle invariant, for hosts that must check it at runtime.
    pub fn is_well_formed(&self) -> (b: bool)
        ensures
            b == self.wf(),
    {
        0 <= self.size.x && self.size.x <= COORD_LIMIT && 0 <= self.size.y && self.size.y
            <= COORD_LIMIT && 0 <= self.speed && self.speed <= VEL_LIMIT && -COORD_LIMIT
            <= self.position.x && self.position.x <= COORD_LIMIT && -BAND_LIMIT <= self.position.y
            && self.position.y <= BAND_LIMIT
    }

    /// The reference paddle as a spec-level value.
    pub open spec fn reference_spec() -> Paddle {
        Paddle {
            position: Vec2 { x: PADDLE_X, y: 0 },
            size: Vec2 { x: PADDLE_WIDTH, y: PADDLE_HEIGHT },
            speed: PADDLE_SPEED,
            collider: true,
        }
    }

    /// The paddle of the reference game, centred vertically.
    pub fn reference() -> (p: Paddle)
        ensures
            p == (Paddle {
                position: Vec2 { x: PADDLE_X, y: 0 },
                size: Vec2 { x: PADDLE_WIDTH, y: PADDLE_HEIGHT },
                speed: PADDLE_SPEED,
                collider: true,
            }),
            p.wf(),
    {
        Paddle {
            position: Vec2 { x: PADDLE_X, y: 0 },
            size: Vec2 { x: PADDLE_WIDTH, y: PADDLE_HEIGHT },
            speed: PADDLE_SPEED,
            collider: true,
        }
    }
}

/// The ball: a circle with a position and a velocity.
#[derive(Clone, Copy, Debug, PartialEq, Eq, Structural)]
pub struct Ball {
    /// Centre of the ball.
    pub position: Vec2,
    /// Velocity of the ball, in subunits per millisecond.
    pub velocity: Vec2,
    /// Radius of the ball.
    pub radius: i64,
    /// Whether the ball participates in collision queries.
    pub collider: bool,
}

impl Ball {
    /// Invariant of the ball: a non-negative bounded radius and a bounded
    /// velocity. The position is bounded per call, not by the invariant,
    /// since a ball that has left the arena keeps moving until the host
    /// respawns it.
    pub open spec fn wf(self) -> bool {
        &&& 0 <= self.radius <= COORD_LIMIT
        &&& -VEL_LIMIT <= self.velocity.x <= VEL_LIMIT
        &&& -VEL_LIMIT <= self.velocity.y <= VEL_LIMIT
    }

    /// Decide the ball invariant, for hosts that must check it at runtime.
    pub fn is_well_formed(&self) -> (b: bool)
        ensures
            b == self.wf(),
    {
        0 <= self.radius && self.radius <= COORD_LIMIT && -VEL_LIMIT <= self.velocity.x
            && self.velocity.x <= VEL_LIMIT && -VEL_LIMIT <= self.velocity.y && self.velocity.y
            <= VEL_LIMIT
    }

    /// The ball of the reference game, with a caller-chosen initial velocity.
    pub fn reference(velocity: Vec2) -> (b: Ball)
        requires
            -VEL_LIMIT <= velocity.x <= VEL_LIMIT,
            -VEL_LIMIT <= velocity.y <= VEL_LIMIT,
        ensures
            b == (Ball {
                position: Vec2 { x: BALL_START_X, y: BALL_START_Y },
                velocity: velocity,
                radius: BALL_RADIUS,
                collider: true,
            }),
            b.wf(),
    {
        Ball {
            position: Vec2 { x: BALL_START_X, y: BALL_START_Y },
            velocity: velocity,
            radius: BALL_RADIUS,
            collider: true,
        }
    }
}

/// The entity store owns the whole mutable state of the simulation.
#[derive(Clone, Copy, Debug, PartialEq, Eq, Structural)]
pub struct EntityStore {
    pub paddle: Paddle,
    pub ball: Ball,
}

impl EntityStore {
    /// Invariant of the store: both entities are well-formed.
    pub open spec fn wf(self) -> bool {
        &&& self.paddle.wf()
        &&& self.ball.wf()
    }

    /// Decide the store invariant, for hosts that must check it at runtime.
    pub fn is_well_formed(&self) -> (b: bool)
        ensures
            b == self.wf(),
    {
        self.paddle.is_well_formed() && self.ball.is_well_formed()
    }

    /// The starting state of the reference game, with a caller-chosen initial
    /// ball velocity.
    pub fn reference(ball_velocity: Vec2) -> (s: EntityStore)
        requires
            -VEL_LIMIT <= ball_velocity.x <= VEL_LIMIT,
            -VEL_LIMIT <= ball_velocity.y <= VEL_LIMIT,
        ensures
            s.paddle == Paddle::reference_spec(),
            s.ball == (Ball {
                position: Vec2 { x: BALL_START_X, y: BALL_START_Y },
                velocity: ball_velocity,
                radius: BALL_RADIUS,
                collider: true,
            }),
            s.wf(),
    {
        EntityStore { paddle: Paddle::reference(), ball: Ball::reference(ball_velocity) }
    }
}

} // verus!
