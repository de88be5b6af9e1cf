//! End-to-end tests of the simulation core: the direction signal, paddle
//! motion and clamping, ball integration, wall and paddle collision
//! resolution, and the per-tick driver.

use paddle_core::arena::ArenaBounds;
use paddle_core::collision::Miss;
use paddle_core::collision::resolve_paddle_collision;
use paddle_core::collision::resolve_wall_collisions;
use paddle_core::entities::Ball;
use paddle_core::entities::EntityStore;
use paddle_core::entities::Paddle;
use paddle_core::geometry::Vec2;
use paddle_core::motion::direction_signal;
use paddle_core::motion::integrate_ball;
use paddle_core::motion::move_paddle;
use paddle_core::tick::tick;

fn test_arena() -> ArenaBounds {
    // walls at +-450 x 10^3 and +-300 x 10^3 subunits, thickness 10 x 10^3
    ArenaBounds::reference()
}

fn test_paddle(y: i64) -> Paddle {
    Paddle {
        position: Vec2 { x: -430_000, y },
        size: Vec2 { x: 120_000, y: 20_000 },
        speed: 500,
        collider: true,
    }
}

fn ball_at(x: i64, y: i64, vx: i64, vy: i64) -> Ball {
    Ball { position: Vec2 { x, y }, velocity: Vec2 { x: vx, y: vy }, radius: 5_000, collider: true }
}

#[test]
fn direction_signal_covers_all_combinations() {
    assert_eq!(direction_signal(false, false), 0);
    assert_eq!(direction_signal(true, false), 1);
    assert_eq!(direction_signal(false, true), -1);
    assert_eq!(direction_signal(true, true), 0);
}

#[test]
fn paddle_clamps_at_top_bound() {
    // paddle at y = 0, half-height 10 units, top bound 290 units, "up" held
    // for one second at speed 500: the overshoot to 500 units clamps to 290.
    let mut paddle = test_paddle(0);
    move_paddle(&mut paddle, 1, 1000, -290_000, 290_000);
    assert_eq!(paddle.position.y, 290_000);
    assert_eq!(paddle.position.x, -430_000);
}

#[test]
fn paddle_clamps_at_bottom_bound() {
    let mut paddle = test_paddle(-250_000);
    move_paddle(&mut paddle, -1, 1000, -275_000, 275_000);
    assert_eq!(paddle.position.y, -275_000);
}

#[test]
fn paddle_moves_without_clamping_inside_band() {
    // 100 ms at speed 500 moves the paddle by 50 units
    let mut paddle = test_paddle(0);
    move_paddle(&mut paddle, 1, 100, -275_000, 275_000);
    assert_eq!(paddle.position.y, 50_000);
}

#[test]
fn idle_paddle_does_not_move() {
    let mut paddle = test_paddle(123_456);
    move_paddle(&mut paddle, 0, 1_000_000, -275_000, 275_000);
    assert_eq!(paddle.position.y, 123_456);
}

#[test]
fn out_of_range_direction_is_clamped() {
    let mut fast = test_paddle(0);
    let mut normal = test_paddle(0);
    move_paddle(&mut fast, 7, 100, -275_000, 275_000);
    move_paddle(&mut normal, 1, 100, -275_000, 275_000);
    assert_eq!(fast.position.y, normal.position.y);
}

#[test]
fn integration_is_exact() {
    let mut ball = ball_at(1_000, -2_000, 30, -40);
    integrate_ball(&mut ball, 250);
    assert_eq!(ball.position.x, 1_000 + 30 * 250);
    assert_eq!(ball.position.y, -2_000 - 40 * 250);
    assert_eq!(ball.velocity.x, 30);
    assert_eq!(ball.velocity.y, -40);
}

#[test]
fn top_wall_bounce_is_tangent_and_reflected() {
    // ball at (0, 289) with radius 5 and velocity (0, 50); after 200 ms it
    // would sit at (0, 299), over the inner face at 295; resolution makes it
    // tangent at 290 and reflects the y-velocity.
    let arena = test_arena();
    let mut ball = ball_at(0, 289_000, 0, 50);
    integrate_ball(&mut ball, 200);
    assert_eq!(ball.position.y, 299_000);
    let ev = resolve_wall_collisions(&mut ball, &arena);
    assert!(ev.bounced_top);
    assert!(!ev.bounced_bottom);
    assert_eq!(ev.miss, None);
    assert_eq!(ball.position.y, 290_000);
    assert_eq!(ball.velocity.y, -50);
    assert_eq!(ball.position.x, 0);
}

#[test]
fn bottom_wall_bounce_is_tangent_and_reflected() {
    let arena = test_arena();
    let mut ball = ball_at(10_000, -293_000, 0, -50);
    let ev = resolve_wall_collisions(&mut ball, &arena);
    assert!(ev.bounced_bottom);
    assert_eq!(ball.position.y, -290_000);
    assert_eq!(ball.velocity.y, 50);
}

#[test]
fn wall_resolution_is_idempotent_on_corrected_states() {
    let arena = test_arena();
    let mut ball = ball_at(0, 290_000, 20, -50);
    let before = ball;
    let ev1 = resolve_wall_collisions(&mut ball, &arena);
    assert!(!ev1.bounced_top && !ev1.bounced_bottom);
    assert_eq!(ball, before);
    let ev2 = resolve_wall_collisions(&mut ball, &arena);
    assert!(!ev2.bounced_top && !ev2.bounced_bottom);
    assert_eq!(ball, before);
}

#[test]
fn exit_past_left_wall_reports_miss_without_reflection() {
    let arena = test_arena();
    let mut ball = ball_at(-441_000, 0, -50, 0);
    let ev = resolve_wall_collisions(&mut ball, &arena);
    assert_eq!(ev.miss, Some(Miss::Left));
    // a miss is an event, not a bounce: motion is untouched
    assert_eq!(ball.position.x, -441_000);
    assert_eq!(ball.velocity.x, -50);
}

#[test]
fn exit_past_right_wall_reports_miss_without_reflection() {
    let arena = test_arena();
    let mut ball = ball_at(441_000, 0, 50, 0);
    let ev = resolve_wall_collisions(&mut ball, &arena);
    assert_eq!(ev.miss, Some(Miss::Right));
    assert_eq!(ball.position.x, 441_000);
    assert_eq!(ball.velocity.x, 50);
}

#[test]
fn paddle_bounce_reflects_x_velocity_and_separates() {
    // ball moving straight toward the paddle's centre
    let paddle = test_paddle(0);
    let rect = paddle.rect();
    assert_eq!(rect.min_x, -490_000);
    assert_eq!(rect.max_x, -370_000);
    let mut ball = ball_at(-360_000, 0, -50, 0);
    integrate_ball(&mut ball, 200);
    assert_eq!(ball.position.x, -370_000);
    let hit = resolve_paddle_collision(&mut ball, &rect);
    assert!(hit);
    assert_eq!(ball.velocity.x, 50);
    // tangent to the paddle's right face: overlap is gone
    assert_eq!(ball.position.x, -365_000);
    let mut again = ball;
    let hit_again = resolve_paddle_collision(&mut again, &rect);
    assert!(!hit_again);
    assert_eq!(again, ball);
}

#[test]
fn ball_tangent_to_paddle_is_no_contact() {
    let paddle = test_paddle(0);
    let rect = paddle.rect();
    let mut ball = ball_at(-365_000, 0, -50, 0);
    let hit = resolve_paddle_collision(&mut ball, &rect);
    assert!(!hit);
    assert_eq!(ball.velocity.x, -50);
}

#[test]
fn arena_bounds_account_for_thickness_and_padding() {
    let arena = test_arena();
    // 300 - 5 (half thickness) - 10 (padding) - 10 (half height), in units
    assert_eq!(arena.top_bound(10_000), 275_000);
    assert_eq!(arena.bottom_bound(10_000), -275_000);
    assert_eq!(arena.top_bound(0), 285_000);
}

#[test]
fn reference_store_matches_starting_configuration() {
    let store = EntityStore::reference(Vec2 { x: 40, y: -30 });
    assert_eq!(store.paddle.position, Vec2 { x: -430_000, y: 0 });
    assert_eq!(store.paddle.size, Vec2 { x: 120_000, y: 20_000 });
    assert_eq!(store.paddle.speed, 500);
    assert!(store.paddle.collider);
    assert_eq!(store.ball.position, Vec2 { x: 0, y: -50_000 });
    assert_eq!(store.ball.velocity, Vec2 { x: 40, y: -30 });
    assert_eq!(store.ball.radius, 5_000);
    assert!(store.ball.collider);
}

#[test]
fn tick_runs_motion_then_integration_then_collision() {
    // scenario: ball at (0, 289) moving up at 50 units per second; one tick
    // of 200 ms bounces it off the top wall while the paddle stays put
    let arena = test_arena();
    let mut store = EntityStore {
        paddle: test_paddle(0),
        ball: ball_at(0, 289_000, 0, 50),
    };
    let out = tick(&mut store, &arena, false, false, 200);
    assert!(out.bounced_top);
    assert!(!out.paddle_bounce);
    assert_eq!(out.miss, None);
    assert_eq!(store.ball.position, Vec2 { x: 0, y: 290_000 });
    assert_eq!(store.ball.velocity, Vec2 { x: 0, y: -50 });
    assert_eq!(store.paddle.position.y, 0);
}

#[test]
fn tick_emits_miss_event_for_left_exit() {
    let arena = test_arena();
    let mut store = EntityStore {
        paddle: test_paddle(200_000),
        ball: ball_at(-431_000, 100_000, -50, 0),
    };
    let out = tick(&mut store, &arena, false, false, 200);
    assert_eq!(out.miss, Some(Miss::Left));
    assert!(!out.bounced_top && !out.bounced_bottom && !out.paddle_bounce);
    // the exit is not resolved as a bounce
    assert_eq!(store.ball.position.x, -441_000);
    assert_eq!(store.ball.velocity.x, -50);
}

#[test]
fn tick_resolves_paddle_contact_against_moved_paddle() {
    // the paddle moves 50 units up this tick; only its new position reaches
    // the stationary ball, so a hit proves motion runs before collision
    let arena = test_arena();
    let mut store = EntityStore {
        paddle: test_paddle(0),
        ball: ball_at(-368_000, 55_000, 0, 0),
    };
    let out = tick(&mut store, &arena, true, false, 100);
    assert_eq!(store.paddle.position.y, 50_000);
    assert!(out.paddle_bounce);
    assert_eq!(store.ball.position.x, -365_000);
}

#[test]
fn tick_prefers_wall_resolution_over_paddle_resolution() {
    // with no padding the paddle can sit flush against the top wall band, so
    // a ball in the corner overlaps both; the wall must win
    let arena = ArenaBounds {
        left: -450_000,
        right: 450_000,
        bottom: -300_000,
        top: 300_000,
        wall_thickness: 10_000,
        padding: 0,
    };
    let paddle = Paddle {
        position: Vec2 { x: -430_000, y: 285_000 },
        size: Vec2 { x: 120_000, y: 20_000 },
        speed: 500,
        collider: true,
    };
    let mut store = EntityStore { paddle, ball: ball_at(-368_000, 291_000, 0, 10) };
    let out = tick(&mut store, &arena, false, false, 0);
    assert!(out.bounced_top);
    assert!(!out.paddle_bounce);
    assert_eq!(store.ball.position.y, 290_000);
    assert_eq!(store.ball.velocity.y, -10);
    assert_eq!(store.ball.velocity.x, 0);
}

#[test]
fn tick_without_collider_only_integrates() {
    let arena = test_arena();
    let mut ball = ball_at(0, 294_000, 0, 50);
    ball.collider = false;
    let mut store = EntityStore { paddle: test_paddle(0), ball };
    let out = tick(&mut store, &arena, false, false, 200);
    assert!(!out.bounced_top && !out.bounced_bottom && !out.paddle_bounce);
    assert_eq!(out.miss, None);
    // the ball passes through the wall band untouched
    assert_eq!(store.ball.position.y, 304_000);
    assert_eq!(store.ball.velocity.y, 50);
}
