//! Movement: deriving the direction signal from the input state, advancing
//! the paddle within the arena's legal band, and integrating the ball.

use vstd::prelude::*;

use crate::entities::Ball;
use crate::entities::Paddle;
use crate::geometry::Vec2;
use crate::geometry::clamp_spec;
use crate::geometry::clamp_i64;
use crate::units::DT_LIMIT;
use crate::units::BAND_LIMIT;
use crate::units::POS_LIMIT;
use crate::units::lemma_displacement_bounded;

verus! {

/// The direction signal derived from the two pressed states: up counts +1,
/// down counts -1, both pressed cancel to 0.
pub open spec fn direction_spec(up: bool, down: bool) -> int {
    (if up { 1int } else { 0int }) - (if down { 1int } else { 0int })
}

/// Derive the direction signal from the pressed state of the two controls.
pub fn direction_signal(up: bool, down: bool) -> (d: i64)
    ensures
        d == direction_spec(up, down),
        -1 <= d <= 1,
{
    (if up { 1i64 } else { 0i64 }) - (if down { 1i64 } else { 0i64 })
}

/// A direction signal clamped defensively to `{-1, 0, 1}`; a well-behaved
/// input sampler never produces anything outside that set.
pub open spec fn clamped_direction(d: int) -> int {
    clamp_spec(d, -1, 1)
}

/// The paddle's new y-position: the old position advanced by
/// `direction * speed * dt` and clamped to the legal band `[bottom, top]`.
pub open spec fn moved_paddle_y(y: int, d: int, speed: int, dt: int, bottom: int, top: int) -> int {
    clamp_spec(y + clamped_direction(d) * speed * dt, bottom, top)
}

/// Law: for every direction, speed and duration, the paddle's new y-position
/// lies within the legal band `[bottom, top]`.
pub proof fn lemma_paddle_stays_in_band(y: int, d: int, speed: int, dt: int, bottom: int, top: int)
    requires
        bottom <= top,
    ensures
        bottom <= moved_paddle_y(y, d, speed, dt, bottom, top) <= top,
{
}

/// Law: with no direction held, a paddle already inside the legal band does
/// not move, whatever the duration of the tick.
pub proof fn lemma_idle_paddle_unchanged(y: int, speed: int, dt: int, bottom: int, top: int)
    requires
        bottom <= y <= top,
    ensures
        moved_paddle_y(y, 0, speed, dt, bottom, top) == y,
{
    assert(clamped_direction(0) * speed * dt == 0) by (nonlinear_arith);
}

/// Advance the paddle by the direction signal for one tick and clamp it to
/// the legal band. Only the y-coordinate of the position changes. A direction
/// outside `{-1, 0, 1}` is clamped defensively rather than rejected.
pub fn move_paddle(paddle: &mut Paddle, d: i64, dt_ms: u64, bottom: i64, top: i64)
    requires
        old(paddle).wf(),
        dt_ms <= DT_LIMIT,
        -BAND_LIMIT <= bottom <= top <= BAND_LIMIT,
    ensures
        final(paddle).position.y == moved_paddle_y(
            old(paddle).position.y as int,
            d as int,
            old(paddle).speed as int,
            dt_ms as int,
            bottom as int,
            top as int,
        ),
        bottom <= final(paddle).position.y <= top,
        d == 0 && bottom <= old(paddle).position.y <= top ==> final(paddle).position.y == old(
            paddle,
        ).position.y,
        final(paddle).position.x == old(paddle).position.x,
        final(paddle).size == old(paddle).size,
        final(paddle).speed == old(paddle).speed,
        final(paddle).collider == old(paddle).collider,
        final(paddle).wf(),
{
    let dir = clamp_i64(d, -1, 1);
    proof {
        lemma_displacement_bounded(paddle.speed as int, dt_ms as int);
    }
    let step = paddle.speed * (dt_ms as i64);
    let delta = if dir == 1 {
        step
    } else if dir == -1 {
        -step
    } else {
        0
    };
    proof {
        let c = clamped_direction(d as int);
        let s = paddle.speed as int;
        let t = dt_ms as int;
        assert(c * s * t == (if c == 1 {
            s * t
        } else if c == -1 {
            -(s * t)
        } else {
            0int
        })) by (nonlinear_arith)
            requires
                -1 <= c <= 1,
        ;
    }
    let target = paddle.position.y + delta;
    paddle.position.y = clamp_i64(target, bottom, top);
}

/// The ball after integrating its position by `velocity * dt`; nothing else
/// changes.
pub open spec fn integrated_ball(b: Ball, dt: int) -> Ball {
    Ball {
        position: Vec2 {
            x: (b.position.x + b.velocity.x * dt) as i64,
            y: (b.position.y + b.velocity.y * dt) as i64,
        },
        velocity: b.velocity,
        radius: b.radius,
        collider: b.collider,
    }
}

/// Integrate the ball's position by one tick: `position += velocity * dt`.
pub fn integrate_ball(ball: &mut Ball, dt_ms: u64)
    requires
        old(ball).wf(),
        dt_ms <= DT_LIMIT,
        -POS_LIMIT <= old(ball).position.x <= POS_LIMIT,
        -POS_LIMIT <= old(ball).position.y <= POS_LIMIT,
    ensures
        *final(ball) == integrated_ball(*old(ball), dt_ms as int),
        final(ball).position.x == old(ball).position.x + old(ball).velocity.x * dt_ms,
        final(ball).position.y == old(ball).position.y + old(ball).velocity.y * dt_ms,
        final(ball).velocity == old(ball).velocity,
        final(ball).radius == old(ball).radius,
        final(ball).collider == old(ball).collider,
        final(ball).wf(),
{
    proof {
        lemma_displacement_bounded(ball.velocity.x as int, dt_ms as int);
        lemma_displacement_bounded(ball.velocity.y as int, dt_ms as int);
    }
    let dx = ball.velocity.x * (dt_ms as i64);
    let dy = ball.velocity.y * (dt_ms as i64);
    ball.position.x = ball.position.x + dx;
    ball.position.y = ball.position.y + dy;
}

} // verus!
