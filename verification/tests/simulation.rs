use pong::ball::{ball_move, ball_step, Ball, BallDirection};
use pong::frame::{frame_tick, FrameInput};
use pong::geometry::{BALL_HALF, PADDLE_BOUND, PADDLE_STEP, SCALE, WALL_LIMIT};
use pong::paddle::{
    left_paddle_move, right_paddle_move, LeftPaddle, PaddlePosition, RightPaddle, Velocity,
};
use pong::serve::{serve_from_draws, SERVE_MAX};

fn centred_snapshot() -> PaddlePosition {
    PaddlePosition { pl: 0, pr: 0 }
}

fn ball_at(x: i64, y: i64, vx: i64, vy: i64) -> Ball {
    Ball {
        x,
        y,
        direction: BallDirection { x: vx, y: vy },
    }
}

#[test]
fn paddle_single_step_is_exact() {
    let mut paddle = LeftPaddle::new();
    let mut position = centred_snapshot();
    left_paddle_move(&mut paddle, true, false, &mut position);
    // 500 world units per second at 60 ticks per second: 9250 fine units.
    assert_eq!(paddle.y, PADDLE_STEP);
    assert_eq!(position.pl, PADDLE_STEP);
    assert_eq!(position.pr, 0);
}

#[test]
fn paddle_clamp_saturates_upward() {
    let mut paddle = LeftPaddle::new();
    let mut position = centred_snapshot();
    for _ in 0..30 {
        left_paddle_move(&mut paddle, true, false, &mut position);
        assert!(-PADDLE_BOUND <= paddle.y && paddle.y <= PADDLE_BOUND);
    }
    assert_eq!(paddle.y, PADDLE_BOUND);
    // Further input does not push past the bound.
    left_paddle_move(&mut paddle, true, false, &mut position);
    assert_eq!(paddle.y, PADDLE_BOUND);
}

#[test]
fn paddle_clamp_saturates_downward() {
    let mut paddle = RightPaddle::new();
    let mut position = centred_snapshot();
    for _ in 0..30 {
        right_paddle_move(&mut paddle, false, true, &mut position);
        assert!(-PADDLE_BOUND <= paddle.y && paddle.y <= PADDLE_BOUND);
    }
    assert_eq!(paddle.y, -PADDLE_BOUND);
    assert_eq!(position.pr, -PADDLE_BOUND);
    assert_eq!(position.pl, 0);
}

#[test]
fn paddle_both_keys_cancel() {
    let mut paddle = LeftPaddle {
        y: 12345,
        velocity: Velocity { y: 1 },
    };
    let mut position = centred_snapshot();
    left_paddle_move(&mut paddle, true, true, &mut position);
    assert_eq!(paddle.y, 12345);
}

#[test]
fn one_tick_free_flight() {
    // Ball at the centre, velocity (5, 5) world units per tick.
    let mut ball = ball_at(0, 0, 5 * SCALE, 5 * SCALE);
    let position = centred_snapshot();
    let eff = ball_step(&mut ball, &position, BallDirection { x: 1, y: 1 });
    assert_eq!((ball.x, ball.y), (5 * SCALE, 5 * SCALE));
    assert_eq!((ball.direction.x, ball.direction.y), (5 * SCALE, 5 * SCALE));
    assert!(!eff.wall_hit && !eff.paddle_hit && !eff.miss);
}

#[test]
fn free_flight_is_linear() {
    let mut ball = ball_at(0, 0, 5 * SCALE, 5 * SCALE);
    let position = centred_snapshot();
    for _ in 0..10 {
        let eff = ball_step(&mut ball, &position, BallDirection { x: 1, y: 1 });
        assert!(!eff.wall_hit && !eff.paddle_hit && !eff.miss);
    }
    assert_eq!((ball.x, ball.y), (50 * SCALE, 50 * SCALE));
    assert_eq!((ball.direction.x, ball.direction.y), (5 * SCALE, 5 * SCALE));
}

#[test]
fn wall_bounce_uses_pre_flip_velocity() {
    // Ball at (0, 221) world units, velocity (0, 5): the position update
    // runs first, so the ball ends at (0, 226) and only then reflects.
    let mut ball = ball_at(0, 221 * SCALE, 0, 5 * SCALE);
    let position = centred_snapshot();
    let eff = ball_step(&mut ball, &position, BallDirection { x: 1, y: 1 });
    assert!(eff.wall_hit);
    assert!(!eff.paddle_hit && !eff.miss);
    assert_eq!((ball.x, ball.y), (0, 226 * SCALE));
    assert_eq!((ball.direction.x, ball.direction.y), (0, -5 * SCALE));
}

#[test]
fn wall_boundary_is_strict() {
    // The integrated position lands exactly on the threshold: no reflection.
    let mut ball = ball_at(0, WALL_LIMIT - 5 * SCALE, 0, 5 * SCALE);
    let position = centred_snapshot();
    let eff = ball_step(&mut ball, &position, BallDirection { x: 1, y: 1 });
    assert!(!eff.wall_hit);
    assert_eq!(ball.y, WALL_LIMIT);
    assert_eq!(ball.direction.y, 5 * SCALE);
}

#[test]
fn miss_threshold_is_strict_on_the_left() {
    // x = -449.9 world units: not past -450, so no reset.
    let mut near = ball_at(-4499 * SCALE / 10, 0, 0, 0);
    let position = centred_snapshot();
    let eff = ball_step(&mut near, &position, BallDirection { x: 7, y: 7 });
    assert!(!eff.miss);
    assert_eq!(near.x, -4499 * SCALE / 10);

    // x = -450.1 world units: past -450, so the ball is re-served.
    let mut out = ball_at(-4501 * SCALE / 10, 0, 0, 0);
    let eff = ball_step(&mut out, &position, BallDirection { x: 7, y: 7 });
    assert!(eff.miss);
    assert_eq!((out.x, out.y), (0, 0));
    assert_eq!((out.direction.x, out.direction.y), (7, 7));
}

#[test]
fn right_margin_is_larger_by_a_paddle_height() {
    // 450 + 80 = 530 world units: just inside stays, just outside resets.
    let position = centred_snapshot();
    let mut inside = ball_at(530 * SCALE, 0, 0, 0);
    let eff = ball_step(&mut inside, &position, BallDirection { x: 7, y: 7 });
    assert!(!eff.miss);
    let mut outside = ball_at(530 * SCALE + 1, 0, 0, 0);
    let eff = ball_step(&mut outside, &position, BallDirection { x: 7, y: 7 });
    assert!(eff.miss);
}

#[test]
fn far_outside_resets_exactly_once() {
    // However far past the threshold, one tick gives one reset, and the
    // outcome does not depend on the distance.
    let position = centred_snapshot();
    let serve = BallDirection { x: 9, y: -9 };
    let mut slightly = ball_at(-4501 * SCALE / 10, 123, 0, 0);
    let mut far = ball_at(-5_000_000, -4321, 0, 0);
    let eff_a = ball_step(&mut slightly, &position, serve);
    let eff_b = ball_step(&mut far, &position, serve);
    assert!(eff_a.miss && eff_b.miss);
    assert_eq!(slightly, far);
    assert_eq!((slightly.x, slightly.y), (0, 0));
}

#[test]
fn wall_and_paddle_can_fire_together() {
    // Integrated position: x in the right band, y beyond the wall
    // threshold, the right paddle high enough to overlap. Both checks fire
    // and both velocity components flip.
    let target_x = 371 * SCALE; // inside (370, 375) world units
    let target_y = WALL_LIMIT + SCALE;
    let mut ball = ball_at(target_x - 5 * SCALE, target_y - 5 * SCALE, 5 * SCALE, 5 * SCALE);
    let position = PaddlePosition {
        pl: 0,
        pr: PADDLE_BOUND,
    };
    let eff = ball_step(&mut ball, &position, BallDirection { x: 1, y: 1 });
    assert!(eff.wall_hit && eff.paddle_hit && !eff.miss);
    assert_eq!((ball.x, ball.y), (target_x, target_y));
    assert_eq!((ball.direction.x, ball.direction.y), (-5 * SCALE, -5 * SCALE));
}

#[test]
fn ball_lingering_in_band_flips_every_tick() {
    // No debounce: while the ball stays in the band and overlaps, each
    // tick flips the horizontal velocity again.
    let mut ball = ball_at(371 * SCALE - 10, 0, 10, 0);
    let position = centred_snapshot();
    let eff = ball_step(&mut ball, &position, BallDirection { x: 1, y: 1 });
    assert!(eff.paddle_hit);
    assert_eq!(ball.direction.x, -10);
    let eff = ball_step(&mut ball, &position, BallDirection { x: 1, y: 1 });
    assert!(eff.paddle_hit);
    assert_eq!(ball.direction.x, 10);
}

#[test]
fn serve_formula_exact_values() {
    // (444000 + a) * b / 6660, rounded toward zero.
    assert_eq!(serve_from_draws(0, -111), -7400);
    assert_eq!(serve_from_draws(0, 110), 7333);
    assert_eq!(serve_from_draws(-11100, 60), 3900);
    assert_eq!(serve_from_draws(11099, 110), 7516);
    assert_eq!(serve_from_draws(5000, 0), 0);
}

#[test]
fn serve_components_stay_in_range() {
    for _ in 0..200 {
        let ball = Ball::new();
        assert_eq!((ball.x, ball.y), (0, 0));
        assert!(-SERVE_MAX < ball.direction.x && ball.direction.x < SERVE_MAX);
        assert!(-SERVE_MAX < ball.direction.y && ball.direction.y < SERVE_MAX);
    }
}

#[test]
fn ball_move_reserves_after_miss() {
    for _ in 0..50 {
        let mut ball = ball_at(600 * SCALE, 77, 0, 0);
        let position = centred_snapshot();
        let eff = ball_move(&mut ball, &position);
        assert!(eff.miss);
        assert_eq!((ball.x, ball.y), (0, 0));
        assert!(-SERVE_MAX < ball.direction.x && ball.direction.x < SERVE_MAX);
        assert!(-SERVE_MAX < ball.direction.y && ball.direction.y < SERVE_MAX);
    }
}

#[test]
fn frame_tick_runs_paddles_before_ball() {
    let mut left = LeftPaddle::new();
    let mut right = RightPaddle::new();
    let mut position = centred_snapshot();
    let mut ball = ball_at(0, 0, SCALE, SCALE);
    let input = FrameInput {
        left_up: true,
        left_down: false,
        right_up: false,
        right_down: true,
    };
    let eff = frame_tick(&mut left, &mut right, &mut position, &mut ball, input);
    // The snapshot holds the positions both controllers wrote this tick.
    assert_eq!(position.pl, left.y);
    assert_eq!(position.pr, right.y);
    assert_eq!(position.pl, PADDLE_STEP);
    assert_eq!(position.pr, -PADDLE_STEP);
    assert_eq!((ball.x, ball.y), (SCALE, SCALE));
    assert!(!eff.wall_hit && !eff.paddle_hit && !eff.miss);
}

#[test]
fn ball_half_spans_the_overlap_window() {
    // A ball whose edge just misses the paddle's edge does not overlap:
    // paddle at the bound, ball low enough that even its top edge stays
    // strictly below the paddle's bottom edge minus the window.
    let position = PaddlePosition {
        pl: 0,
        pr: PADDLE_BOUND,
    };
    // Overlap window around pr: (pr - 40 - 7.5, pr + 40 + 7.5) world units.
    let below_window = PADDLE_BOUND - 48 * SCALE - BALL_HALF;
    let mut ball = ball_at(371 * SCALE, below_window, 0, 0);
    let eff = ball_step(&mut ball, &position, BallDirection { x: 1, y: 1 });
    assert!(!eff.paddle_hit);
}
