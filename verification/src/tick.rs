//! The tick driver: one fixed-duration simulation step.
//!
//! Within a tick the order is fixed: paddle motion first, then ball
//! integration, then collision resolution, so the collision system always
//! sees the paddle's new position and the presentation layer never reads a
//! half-updated state. Wall resolution is preferred over paddle resolution
//! when both could apply in the same tick, as the safer default under
//! discrete detection; contacts are resolved at most once per tick.

use vstd::prelude::*;

use crate::arena::ArenaBounds;
use crate::arena::half_of;
use crate::collision::Miss;
use crate::collision::paddle_hit;
use crate::collision::paddle_resolved_ball;
use crate::collision::resolve_paddle_collision;
use crate::collision::resolve_wall_collisions;
use crate::collision::wall_contact;
use crate::collision::wall_miss;
use crate::collision::wall_resolved_ball;
use crate::entities::Ball;
use crate::entities::EntityStore;
use crate::entities::Paddle;
use crate::geometry::Vec2;
use crate::motion::direction_spec;
use crate::motion::direction_signal;
use crate::motion::integrate_ball;
use crate::motion::integrated_ball;
use crate::motion::move_paddle;
use crate::motion::moved_paddle_y;
use crate::units::DT_LIMIT;
use crate::units::DISP_LIMIT;
use crate::units::POS_LIMIT;

verus! {

/// Everything one tick reports to the host: which horizontal wall the ball
/// bounced off, whether it bounced off the paddle, and whether it exited
/// past a side wall.
#[derive(Clone, Copy, Debug, PartialEq, Eq)]
pub struct TickOutcome {
    /// The ball bounced off the top wall this tick.
    pub bounced_top: bool,
    /// The ball bounced off the bottom wall this tick.
    pub bounced_bottom: bool,
    /// The ball bounced off the paddle this tick.
    pub paddle_bounce: bool,
    /// The side wall the ball exited past this tick, if any: a miss/score
    /// event for the host, not a bounce.
    pub miss: Option<Miss>,
}

/// The paddle after one tick: advanced by the direction signal derived from
/// the input state and clamped to the arena's legal band for its half-height.
pub open spec fn moved_paddle(p: Paddle, a: ArenaBounds, up: bool, down: bool, dt: int) -> Paddle {
    Paddle {
        position: Vec2 {
            x: p.position.x,
            y: moved_paddle_y(
                p.position.y as int,
                direction_spec(up, down),
                p.speed as int,
                dt,
                a.bottom_bound_spec(p.size.y as int / 2),
                a.top_bound_spec(p.size.y as int / 2),
            ) as i64,
        },
        size: p.size,
        speed: p.speed,
        collider: p.collider,
    }
}

/// The ball after one tick: integrated by `velocity * dt`, then resolved
/// against the walls, or, when it touched no wall, against the moved paddle.
/// A ball without the collider capability only integrates.
pub open spec fn tick_ball(ball: Ball, paddle: Paddle, a: ArenaBounds, dt: int) -> Ball {
    let flying = integrated_ball(ball, dt);
    if !flying.collider {
        flying
    } else if wall_contact(flying, a) {
        wall_resolved_ball(flying, a)
    } else if paddle.collider && paddle_hit(flying, paddle.rect_spec()) {
        paddle_resolved_ball(flying, paddle.rect_spec())
    } else {
        flying
    }
}

/// The outcome one tick reports, for the moved paddle and the original ball.
pub open spec fn tick_outcome(ball: Ball, paddle: Paddle, a: ArenaBounds, dt: int) -> TickOutcome {
    let flying = integrated_ball(ball, dt);
    if !flying.collider {
        TickOutcome { bounced_top: false, bounced_bottom: false, paddle_bounce: false, miss: None }
    } else {
        TickOutcome {
            bounced_top: crate::collision::overlaps_top(flying, a),
            bounced_bottom: !crate::collision::overlaps_top(flying, a)
                && crate::collision::overlaps_bottom(flying, a),
            paddle_bounce: !wall_contact(flying, a) && paddle.collider && paddle_hit(
                flying,
                paddle.rect_spec(),
            ),
            miss: wall_miss(flying, a),
        }
    }
}

/// The whole store after one tick.
pub open spec fn tick_store(
    s: EntityStore,
    a: ArenaBounds,
    up: bool,
    down: bool,
    dt: int,
) -> EntityStore {
    EntityStore {
        paddle: moved_paddle(s.paddle, a, up, down, dt),
        ball: tick_ball(s.ball, moved_paddle(s.paddle, a, up, down, dt), a, dt),
    }
}

/// Run one fixed simulation step: paddle motion, then ball integration, then
/// collision resolution, in that order. Reports what the ball hit; the host
/// reads the resulting positions back after the call.
pub fn tick(store: &mut EntityStore, arena: &ArenaBounds, up: bool, down: bool, dt_ms: u64) -> (out:
    TickOutcome)
    requires
        arena.wf(),
        old(store).wf(),
        dt_ms <= DT_LIMIT,
        -POS_LIMIT <= old(store).ball.position.x <= POS_LIMIT,
        -POS_LIMIT <= old(store).ball.position.y <= POS_LIMIT,
        arena.bottom_bound_spec(old(store).paddle.size.y as int / 2) <= arena.top_bound_spec(
            old(store).paddle.size.y as int / 2,
        ),
    ensures
        *final(store) == tick_store(*old(store), *arena, up, down, dt_ms as int),
        out == tick_outcome(
            old(store).ball,
            moved_paddle(old(store).paddle, *arena, up, down, dt_ms as int),
            *arena,
            dt_ms as int,
        ),
        final(store).wf(),
        -POS_LIMIT - DISP_LIMIT <= final(store).ball.position.x <= POS_LIMIT + DISP_LIMIT,
        -POS_LIMIT - DISP_LIMIT <= final(store).ball.position.y <= POS_LIMIT + DISP_LIMIT,
{
    let half_h = half_of(store.paddle.size.y);
    let bottom = arena.bottom_bound(half_h);
    let top = arena.top_bound(half_h);
    let d = direction_signal(up, down);
    move_paddle(&mut store.paddle, d, dt_ms, bottom, top);
    integrate_ball(&mut store.ball, dt_ms);
    proof {
        crate::units::lemma_displacement_bounded(
            old(store).ball.velocity.x as int,
            dt_ms as int,
        );
        crate::units::lemma_displacement_bounded(
            old(store).ball.velocity.y as int,
            dt_ms as int,
        );
    }
    if store.ball.collider {
        let ev = resolve_wall_collisions(&mut store.ball, arena);
        let hit_wall = ev.bounced_top || ev.bounced_bottom || ev.miss.is_some();
        let mut bounce = false;
        if !hit_wall && store.paddle.collider {
            let rect = store.paddle.rect();
            bounce = resolve_paddle_collision(&mut store.ball, &rect);
        }
        TickOutcome {
            bounced_top: ev.bounced_top,
            bounced_bottom: ev.bounced_bottom,
            paddle_bounce: bounce,
            miss: ev.miss,
        }
    } else {
        TickOutcome { bounced_top: false, bounced_bottom: false, paddle_bounce: false, miss: None }
    }
}

} // verus!
