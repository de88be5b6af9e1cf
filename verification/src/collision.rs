//! Collision detection and resolution between the ball, the walls and the
//! paddle.
//!
//! Detection is discrete (not swept): after integration, the ball overlaps a
//! top or bottom wall when its leading edge crosses the wall's inner face,
//! and overlaps the paddle when the nearest point of the paddle's rectangle
//! lies strictly closer to the ball's centre than the radius.
//!
//! Resolution on a top or bottom wall reflects the y-component of the
//! velocity and repositions the ball tangent to the inner face, so no
//! penetration remains. Crossing the left or right wall's inner face is not a
//! bounce: it is reported as a miss event for the host's scoring layer, and
//! the ball's motion is left untouched. Resolution on the paddle reflects the
//! x-component of the velocity and repositions the ball tangent to the
//! paddle's right face.

use vstd::prelude::*;

use crate::arena::ArenaBounds;
use crate::arena::half_of;
use crate::entities::Ball;
use crate::geometry::Rect;
use crate::geometry::Vec2;
use crate::geometry::circle_rect_overlap;
use crate::geometry::circle_rect_overlaps;
use crate::geometry::clamp_spec;
use crate::geometry::sq;
use crate::units::DISP_LIMIT;
use crate::units::POS_LIMIT;

verus! {

/// Which side wall the ball has exited past: a score/miss signal for the
/// host, not a bounce.
#[derive(Clone, Copy, Debug, PartialEq, Eq, Structural)]
pub enum Miss {
    Left,
    Right,
}

/// The ball's leading edge has crossed the top wall's inner face.
pub open spec fn overlaps_top(b: Ball, a: ArenaBounds) -> bool {
    b.position.y + b.radius > a.inner_top()
}

/// The ball's leading edge has crossed the bottom wall's inner face.
pub open spec fn overlaps_bottom(b: Ball, a: ArenaBounds) -> bool {
    b.position.y - b.radius < a.inner_bottom()
}

/// The ball's leading edge has crossed the left wall's inner face.
pub open spec fn misses_left(b: Ball, a: ArenaBounds) -> bool {
    b.position.x - b.radius < a.inner_left()
}

/// The ball's leading edge has crossed the right wall's inner face.
pub open spec fn misses_right(b: Ball, a: ArenaBounds) -> bool {
    b.position.x + b.radius > a.inner_right()
}

/// The ball after wall resolution: a ball overlapping the top (else the
/// bottom) wall is made tangent to that wall's inner face with its y-velocity
/// reflected; otherwise it is unchanged. The x-axis is never touched.
pub open spec fn wall_resolved_ball(b: Ball, a: ArenaBounds) -> Ball {
    if overlaps_top(b, a) {
        Ball {
            position: Vec2 { x: b.position.x, y: (a.inner_top() - b.radius) as i64 },
            velocity: Vec2 { x: b.velocity.x, y: (-b.velocity.y) as i64 },
            radius: b.radius,
            collider: b.collider,
        }
    } else if overlaps_bottom(b, a) {
        Ball {
            position: Vec2 { x: b.position.x, y: (a.inner_bottom() + b.radius) as i64 },
            velocity: Vec2 { x: b.velocity.x, y: (-b.velocity.y) as i64 },
            radius: b.radius,
            collider: b.collider,
        }
    } else {
        b
    }
}

/// The miss event wall resolution reports: the left wall takes precedence
/// over the right one (both can only be crossed at once in a degenerately
/// narrow arena).
pub open spec fn wall_miss(b: Ball, a: ArenaBounds) -> Option<Miss> {
    if misses_left(b, a) {
        Some(Miss::Left)
    } else if misses_right(b, a) {
        Some(Miss::Right)
    } else {
        None
    }
}

/// Whether wall resolution found any wall contact; the tick driver prefers
/// wall resolution over paddle resolution when both could apply.
pub open spec fn wall_contact(b: Ball, a: ArenaBounds) -> bool {
    ||| overlaps_top(b, a)
    ||| overlaps_bottom(b, a)
    ||| misses_left(b, a)
    ||| misses_right(b, a)
}

/// What wall resolution observed in one tick: which horizontal wall the ball
/// bounced off, and whether it exited past a side wall.
#[derive(Clone, Copy, Debug, PartialEq, Eq)]
pub struct WallEvents {
    /// The ball overlapped the top wall and was reflected off it.
    pub bounced_top: bool,
    /// The ball overlapped the bottom wall (and not the top one) and was
    /// reflected off it.
    pub bounced_bottom: bool,
    /// The side wall the ball exited past, if any.
    pub miss: Option<Miss>,
}

/// The events wall resolution reports for a given ball.
pub open spec fn wall_events(b: Ball, a: ArenaBounds) -> WallEvents {
    WallEvents {
        bounced_top: overlaps_top(b, a),
        bounced_bottom: !overlaps_top(b, a) && overlaps_bottom(b, a),
        miss: wall_miss(b, a),
    }
}

/// Detect and resolve contact between the ball and the four walls. A top or
/// bottom overlap reflects the y-velocity and repositions the ball tangent to
/// the inner face; crossing a side wall's inner face only reports a miss.
pub fn resolve_wall_collisions(ball: &mut Ball, arena: &ArenaBounds) -> (ev: WallEvents)
    requires
        arena.wf(),
        old(ball).wf(),
        -POS_LIMIT - DISP_LIMIT <= old(ball).position.x <= POS_LIMIT + DISP_LIMIT,
        -POS_LIMIT - DISP_LIMIT <= old(ball).position.y <= POS_LIMIT + DISP_LIMIT,
    ensures
        *final(ball) == wall_resolved_ball(*old(ball), *arena),
        ev == wall_events(*old(ball), *arena),
        ev.miss == wall_miss(*old(ball), *arena),
        (ev.bounced_top || ev.bounced_bottom || ev.miss matches Some(_)) == wall_contact(
            *old(ball),
            *arena,
        ),
        overlaps_top(*old(ball), *arena) ==> final(ball).position.y + final(ball).radius
            == arena.inner_top() && final(ball).velocity.y == -old(ball).velocity.y,
        !overlaps_top(*old(ball), *arena) && overlaps_bottom(*old(ball), *arena)
            ==> final(ball).position.y - final(ball).radius == arena.inner_bottom()
                && final(ball).velocity.y == -old(ball).velocity.y,
        !wall_contact(*old(ball), *arena) ==> *final(ball) == *old(ball),
        final(ball).position.x == old(ball).position.x,
        final(ball).velocity.x == old(ball).velocity.x,
        final(ball).radius == old(ball).radius,
        final(ball).collider == old(ball).collider,
        final(ball).wf(),
{
    let half = half_of(arena.wall_thickness);
    let top_face = arena.top - half;
    let bottom_face = arena.bottom + half;
    let left_face = arena.left + half;
    let right_face = arena.right - half;
    let hit_top = ball.position.y + ball.radius > top_face;
    let hit_bottom = !hit_top && ball.position.y - ball.radius < bottom_face;
    if hit_top {
        ball.position.y = top_face - ball.radius;
        ball.velocity.y = -ball.velocity.y;
    } else if hit_bottom {
        ball.position.y = bottom_face + ball.radius;
        ball.velocity.y = -ball.velocity.y;
    }
    let miss = if ball.position.x - ball.radius < left_face {
        Some(Miss::Left)
    } else if ball.position.x + ball.radius > right_face {
        Some(Miss::Right)
    } else {
        None
    };
    WallEvents { bounced_top: hit_top, bounced_bottom: hit_bottom, miss: miss }
}

/// Whether the ball overlaps the paddle's rectangle.
pub open spec fn paddle_hit(b: Ball, rect: Rect) -> bool {
    circle_rect_overlap(b.position.x as int, b.position.y as int, b.radius as int, rect)
}

/// The ball after paddle resolution: a ball overlapping the rectangle has its
/// x-velocity reflected and is repositioned tangent to the rectangle's right
/// face; otherwise it is unchanged. The y-axis is never touched, so returns
/// keep their vertical angle.
pub open spec fn paddle_resolved_ball(b: Ball, rect: Rect) -> Ball {
    if paddle_hit(b, rect) {
        Ball {
            position: Vec2 { x: (rect.max_x + b.radius) as i64, y: b.position.y },
            velocity: Vec2 { x: (-b.velocity.x) as i64, y: b.velocity.y },
            radius: b.radius,
            collider: b.collider,
        }
    } else {
        b
    }
}

/// Detect and resolve contact between the ball and the paddle's rectangle.
pub fn resolve_paddle_collision(ball: &mut Ball, rect: &Rect) -> (hit: bool)
    requires
        rect.wf(),
        old(ball).wf(),
        -POS_LIMIT - DISP_LIMIT <= old(ball).position.x <= POS_LIMIT + DISP_LIMIT,
        -POS_LIMIT - DISP_LIMIT <= old(ball).position.y <= POS_LIMIT + DISP_LIMIT,
    ensures
        *final(ball) == paddle_resolved_ball(*old(ball), *rect),
        hit == paddle_hit(*old(ball), *rect),
        hit ==> final(ball).position.x == rect.max_x + old(ball).radius && final(ball).velocity.x
            == -old(ball).velocity.x,
        !hit ==> *final(ball) == *old(ball),
        final(ball).position.y == old(ball).position.y,
        final(ball).velocity.y == old(ball).velocity.y,
        final(ball).radius == old(ball).radius,
        final(ball).collider == old(ball).collider,
        final(ball).wf(),
{
    let hit = circle_rect_overlaps(ball.position.x, ball.position.y, ball.radius, rect);
    if hit {
        ball.position.x = rect.max_x + ball.radius;
        ball.velocity.x = -ball.velocity.x;
    }
    hit
}

/// Law: when the ball moves toward the top wall and has come to overlap it,
/// wall resolution flips the sign of its y-velocity and leaves it tangent to
/// the wall's inner face, with no remaining penetration.
pub proof fn lemma_top_wall_bounce(b: Ball, a: ArenaBounds)
    requires
        a.wf(),
        b.wf(),
        b.velocity.y > 0,
        overlaps_top(b, a),
    ensures
        wall_resolved_ball(b, a).velocity.y == -b.velocity.y,
        wall_resolved_ball(b, a).position.y + wall_resolved_ball(b, a).radius == a.inner_top(),
        !overlaps_top(wall_resolved_ball(b, a), a),
{
}

/// Law: when the ball moves toward the bottom wall and has come to overlap
/// it (without also overlapping the top wall), wall resolution flips the
/// sign of its y-velocity and leaves it tangent to the wall's inner face.
pub proof fn lemma_bottom_wall_bounce(b: Ball, a: ArenaBounds)
    requires
        a.wf(),
        b.wf(),
        b.velocity.y < 0,
        overlaps_bottom(b, a),
        !overlaps_top(b, a),
    ensures
        wall_resolved_ball(b, a).velocity.y == -b.velocity.y,
        wall_resolved_ball(b, a).position.y - wall_resolved_ball(b, a).radius == a.inner_bottom(),
        !overlaps_bottom(wall_resolved_ball(b, a), a),
{
}

/// Law: wall resolution is idempotent on corrected states. A ball that
/// overlaps neither horizontal wall is left unchanged, so applying the
/// resolution twice in succession is the same as applying it once.
pub proof fn lemma_wall_resolution_idempotent(b: Ball, a: ArenaBounds)
    requires
        !overlaps_top(b, a),
        !overlaps_bottom(b, a),
    ensures
        wall_resolved_ball(b, a) == b,
        wall_resolved_ball(wall_resolved_ball(b, a), a) == wall_resolved_ball(b, a),
{
}

/// Law: whenever the ball fits between the two horizontal walls, wall
/// resolution leaves a state that overlaps neither of them.
pub proof fn lemma_wall_resolution_separates(b: Ball, a: ArenaBounds)
    requires
        a.wf(),
        b.wf(),
        2 * b.radius <= a.inner_top() - a.inner_bottom(),
    ensures
        !overlaps_top(wall_resolved_ball(b, a), a),
        !overlaps_bottom(wall_resolved_ball(b, a), a),
{
}

/// Law: when the ball has come to overlap the paddle, paddle resolution
/// flips the sign of its x-velocity and leaves it tangent to the paddle's
/// right face, with no remaining overlap.
pub proof fn lemma_paddle_bounce(b: Ball, rect: Rect)
    requires
        rect.wf(),
        b.wf(),
        paddle_hit(b, rect),
    ensures
        paddle_resolved_ball(b, rect).velocity.x == -b.velocity.x,
        paddle_resolved_ball(b, rect).position.x == rect.max_x + b.radius,
        !paddle_hit(paddle_resolved_ball(b, rect), rect),
{
    let r = paddle_resolved_ball(b, rect);
    assert(r.position.x == rect.max_x + b.radius);
    assert(clamp_spec(r.position.x as int, rect.min_x as int, rect.max_x as int)
        == rect.max_x as int);
    let dy = r.position.y - clamp_spec(r.position.y as int, rect.min_y as int, rect.max_y as int);
    assert(sq(dy) >= 0) by (nonlinear_arith);
    assert(sq(r.position.x - rect.max_x as int) == sq(r.radius as int));
}

} // verus!
