//! Motion, collision, bounce-angle, and end-to-end episode behavior.

use pong_rl::config::{BALL_SPEED, HEIGHT, PADDLE_HEIGHT, SUBPIXELS, WIDTH};
use pong_rl::engine::frame::{Point, SubPoint};
use pong_rl::engine::{bounce, GameResult, PaddleMove, Pong, Velocity};

const S: i64 = SUBPIXELS;

#[test]
fn straight_tick_moves_by_velocity() {
    // Serve angle zero: velocity exactly (BALL_SPEED, 0); one tick with no
    // boundary in reach moves the ball by exactly its velocity.
    let mut game = Pong::with_initial_angle(false, 0);
    let before = game.get_game_state();
    assert_eq!(before[2], BALL_SPEED);
    assert_eq!(before[3], 0);
    let result = game.tick(None);
    assert!(result.is_none());
    let after = game.get_game_state();
    assert_eq!(after[0], before[0] + BALL_SPEED);
    assert_eq!(after[1], before[1]);
    assert_eq!(after[2], BALL_SPEED);
    assert_eq!(after[3], 0);
    // The centered bot is aligned with the centered ball: dead zone, no move.
    assert_eq!(after[5], before[5]);
}

#[test]
fn speed_magnitude_constant_after_every_bounce() {
    // A steep serve bounces off walls and paddles; the squared speed is
    // exactly BALL_SPEED^2 after every tick.
    let mut game = Pong::with_initial_angle(false, 40);
    for _ in 0..400 {
        let state = game.get_game_state();
        assert_eq!(state[2] * state[2] + state[3] * state[3], BALL_SPEED * BALL_SPEED);
        if game.tick(None).is_some() {
            break;
        }
    }
    let state = game.get_game_state();
    assert_eq!(state[2] * state[2] + state[3] * state[3], BALL_SPEED * BALL_SPEED);
}

#[test]
fn bounce_angle_extremes_and_center() {
    let paddle_y: usize = 200;
    // Ball center half a paddle height below the paddle center: +65 degrees.
    assert_eq!(bounce::calc_bounce_angle((paddle_y as i64 + 73) * S, paddle_y), 65);
    // Ball center half a paddle height above the paddle center: -65 degrees.
    assert_eq!(bounce::calc_bounce_angle((paddle_y as i64 - 7) * S, paddle_y), -65);
    // Dead-center hit: zero degrees.
    assert_eq!(bounce::calc_bounce_angle((paddle_y as i64 + 33) * S, paddle_y), 0);
}

#[test]
fn wall_reflection_interpolates_and_inverts() {
    // A ball at y = 5 px aimed at y = -5 px with vy = -10, vx = 4 (pixels)
    // reflects to y = 5 px with vy = +10, having advanced by the full vx.
    let mut game = Pong::with_initial_angle(false, 0);
    game.ball = SubPoint(400 * S, 5 * S);
    game.ball_velocity = Velocity { x: 4 * S, y: -10 * S };
    let to = SubPoint(404 * S, -5 * S);
    let result = game.move_ball(to);
    assert!(result.is_none());
    assert_eq!(game.ball, SubPoint(404 * S, 5 * S));
    assert_eq!(game.ball_velocity, Velocity { x: 4 * S, y: 10 * S });
}

#[test]
fn paddle_bounce_snaps_and_resets_velocity() {
    // A ball crossing the left paddle's bounce line 33 px above the paddle
    // center leaves at -56 degrees with the exact table velocity.
    let mut game = Pong::with_initial_angle(false, 0);
    game.left_paddle = Point(12, 200);
    game.ball = SubPoint(23 * S, 200 * S);
    game.ball_velocity = Velocity { x: -BALL_SPEED, y: 0 };
    let to = SubPoint(23 * S - BALL_SPEED, 200 * S);
    let result = game.move_ball(to);
    assert!(result.is_none());
    assert_eq!(game.ball, SubPoint(22 * S, 200 * S));
    assert_eq!(game.ball_velocity, Velocity { x: 380767296, y: -564086978 });
    assert_eq!(
        game.ball_velocity.x * game.ball_velocity.x
            + game.ball_velocity.y * game.ball_velocity.y,
        BALL_SPEED * BALL_SPEED
    );
}

#[test]
fn paddle_bounce_carries_crossing_height() {
    // A diagonal crossing of the left paddle's bounce line: the ball is
    // snapped to the line at the interpolated crossing height, one tenth
    // of the way into the step, and the angle is computed from that
    // height.
    let mut game = Pong::with_initial_angle(false, 0);
    game.left_paddle = Point(12, 200);
    game.ball = SubPoint(23 * S, 200 * S);
    game.ball_velocity = Velocity { x: -10 * S, y: 6 * S };
    let to = SubPoint(13 * S, 206 * S);
    let result = game.move_ball(to);
    assert!(result.is_none());
    // Crossing fraction 1/10 of the step: y advances by 6 * S / 10.
    assert_eq!(game.ball, SubPoint(22 * S, 200 * S + 29167359));
    assert_eq!(game.ball_velocity, Velocity { x: 390331648, y: -557511486 });
}

#[test]
fn direction_table_is_exact() {
    let v = bounce::velocity_for_angle(0);
    assert_eq!(v, (BALL_SPEED, 0));
    for deg in 0..=74 {
        let (x, y) = bounce::velocity_for_angle(deg);
        assert!(x > 0);
        assert!(y >= 0);
        assert_eq!(x * x + y * y, BALL_SPEED * BALL_SPEED);
    }
}

#[test]
fn paddle_always_clamped() {
    let mut paddle = Point(12, 200);
    for _ in 0..100 {
        Pong::move_paddle(&mut paddle, PaddleMove::Up);
    }
    assert_eq!(paddle.1, 0);
    for _ in 0..200 {
        Pong::move_paddle(&mut paddle, PaddleMove::Down);
    }
    assert_eq!(paddle.1, HEIGHT - PADDLE_HEIGHT);
}

#[test]
fn losing_past_left_wall() {
    // Ball just right of the arena edge moving straight left, paddle moved
    // out of the way: the episode ends with a loss.
    let mut game = Pong::with_initial_angle(false, 0);
    game.left_paddle = Point(12, 300);
    game.ball = SubPoint(10 * S, 30 * S);
    game.ball_velocity = Velocity { x: -BALL_SPEED, y: 0 };
    let to = SubPoint(10 * S - BALL_SPEED, 30 * S);
    let result = game.move_ball(to);
    assert!(matches!(result, Some(GameResult::Lose)));
}

#[test]
fn end_to_end_win_reaches_right_wall() {
    // Serve at 32 degrees with no player input: the ball outruns the bot
    // paddle and leaves past the right wall; the tick reports a win.
    let mut game = Pong::with_initial_angle(false, 32);
    let mut outcome = None;
    for _ in 0..1000 {
        outcome = game.tick(None);
        if outcome.is_some() {
            break;
        }
    }
    assert!(matches!(outcome, Some(GameResult::Win)));
}

#[test]
fn reset_restores_fresh_layout() {
    let mut game = Pong::with_initial_angle(false, 20);
    for i in 0..50 {
        let input = if i % 2 == 0 { Some(PaddleMove::Up) } else { None };
        if game.tick(input).is_some() {
            break;
        }
    }
    game.clear_game();
    let fresh = Pong::with_initial_angle(false, 20);
    let a = game.get_game_state();
    let b = fresh.get_game_state();
    // Ball and paddles are exactly the fresh layout.
    assert_eq!(a[0], b[0]);
    assert_eq!(a[1], b[1]);
    assert_eq!(a[4], b[4]);
    assert_eq!(a[5], b[5]);
    assert_eq!(a[0], (WIDTH as i64 / 2 - 7) * S);
    // The new serve is a full-speed rightward velocity.
    assert_eq!(a[2] * a[2] + a[3] * a[3], BALL_SPEED * BALL_SPEED);
    assert!(a[2] > 0);
    assert!(!game.has_ended());
    // The frame snapshot is back to the uninitialized state.
    assert_eq!(game.frame.state, fresh.frame.state);
}
