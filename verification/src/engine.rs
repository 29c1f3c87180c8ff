//! Core game simulation: ball motion with wall and paddle reflection, the
//! bounce-angle model, paddle movement, and the display frame.
//!
//! The ball's position and velocity are held in subpixels (`SUBPIXELS`
//! units per pixel); paddles are at whole-pixel positions. One tick moves
//! the player paddle on input, moves the tracking bot paddle, then
//! advances the ball by its velocity, resolving collisions:
//! - a top or bottom wall overshoot is split at the wall (the fraction of
//!   the horizontal motion before the crossing is applied, the rest
//!   re-applied from the reflected point, with the vertical velocity
//!   inverted);
//! - a paddle crossing snaps the ball to the paddle's bounce line at the
//!   interpolated crossing height and resets the velocity from the
//!   bounce-angle model, discarding the tick's leftover displacement;
//! - a ball past the left or right wall ends the episode.

pub mod bounce;
pub mod frame;
pub mod render;

use vstd::prelude::*;
use vstd::arithmetic::div_mod::lemma_div_is_ordered;
use vstd::arithmetic::div_mod::lemma_div_multiples_vanish;
use vstd::arithmetic::div_mod::lemma_multiply_divide_lt;
use vstd::arithmetic::mul::lemma_mul_inequality;
use vstd::arithmetic::mul::lemma_mul_nonnegative;

use rand::Rng;

use crate::config::{
    BALL_SIZE, BALL_SPEED, COLOR, HEIGHT, MAX_INITIAL_ANGLE, PADDLE_HEIGHT, PADDLE_OFFSET,
    PADDLE_SPEED, PADDLE_WIDTH, SUBPIXELS, WIDTH,
};
use crate::engine::bounce::dir_for_angle;
use crate::engine::bounce::is_bounce_angle;
use crate::engine::frame::frame_wf;
use crate::engine::frame::spec_obj_default;
use crate::engine::frame::spec_set_state;
use crate::engine::frame::state_paint;
use crate::engine::frame::zero_frame;
use crate::engine::frame::Frame;
use crate::engine::frame::Point;
use crate::engine::frame::SubPoint;

verus! {

/// Ball velocity in subpixels per tick.
#[derive(Clone, Copy, PartialEq, Eq, Structural, Debug)]
pub struct Velocity {
    pub x: i64,
    pub y: i64,
}

/// Paddle movement input direction.
#[derive(Clone, Copy, PartialEq, Eq, Structural, Debug)]
pub enum PaddleMove {
    Up,
    Down,
}

/// User game result.
#[derive(Clone, Copy, PartialEq, Eq, Structural, Debug)]
pub enum GameResult {
    Win,
    Lose,
}

// ---------------------------------------------------------------------------
// Arena bounds in subpixels
// ---------------------------------------------------------------------------

/// Largest in-bounds ball x coordinate.
pub open spec fn x_limit() -> int {
    (WIDTH - BALL_SIZE) * (SUBPIXELS as int)
}

/// Largest in-bounds ball y coordinate.
pub open spec fn y_limit() -> int {
    (HEIGHT - BALL_SIZE) * (SUBPIXELS as int)
}

/// The left paddle's bounce line.
pub open spec fn left_bound() -> int {
    (PADDLE_OFFSET + PADDLE_WIDTH) * (SUBPIXELS as int)
}

/// The right paddle's bounce line.
pub open spec fn right_bound() -> int {
    (WIDTH - PADDLE_OFFSET - PADDLE_WIDTH - BALL_SIZE) * (SUBPIXELS as int)
}

/// Squared speed of a velocity.
pub open spec fn speed_sq(v: Velocity) -> int {
    v.x * v.x + v.y * v.y
}

// ---------------------------------------------------------------------------
// Fractional motion
// ---------------------------------------------------------------------------

/// `a * num / den` computed on magnitudes with the sign of `a`: the part
/// of the displacement `a` that belongs to the fraction `num / den` of the
/// step, truncated toward zero.
pub open spec fn scale_toward_zero(a: int, num: int, den: int) -> int {
    if a >= 0 {
        (a * num) / den
    } else {
        -(((-a) * num) / den)
    }
}

fn scale_velocity_part(a: i64, num: i64, den: i64) -> (r: i64)
    requires
        0 < den <= 2 * BALL_SPEED,
        0 <= num <= den,
        -BALL_SPEED <= a <= BALL_SPEED,
    ensures
        r as int == scale_toward_zero(a as int, num as int, den as int),
        a >= 0 ==> 0 <= r <= a,
        a < 0 ==> a <= r <= 0,
{
    if a >= 0 {
        proof {
            lemma_mul_nonnegative(a as int, num as int);
            lemma_mul_inequality(num as int, den as int, a as int);
            lemma_div_is_ordered((a as int) * (num as int), (a as int) * (den as int), den as int);
            lemma_div_multiples_vanish(a as int, den as int);
            assert((a as int) * (num as int) == (num as int) * (a as int)) by (nonlinear_arith);
            assert((a as int) * (den as int) == (den as int) * (a as int)) by (nonlinear_arith);
            assert((a as int) * (num as int) <= 2 * (BALL_SPEED as int) * (BALL_SPEED as int))
                by (nonlinear_arith)
                requires
                    0 <= a <= BALL_SPEED,
                    0 <= num <= 2 * BALL_SPEED,
                    BALL_SPEED == 680571710i64,
            ;
        }
        let q = ((a as u64) * (num as u64)) / (den as u64);
        q as i64
    } else {
        let b = -a;
        proof {
            lemma_mul_nonnegative(b as int, num as int);
            lemma_mul_inequality(num as int, den as int, b as int);
            lemma_div_is_ordered((b as int) * (num as int), (b as int) * (den as int), den as int);
            lemma_div_multiples_vanish(b as int, den as int);
            assert((b as int) * (num as int) == (num as int) * (b as int)) by (nonlinear_arith);
            assert((b as int) * (den as int) == (den as int) * (b as int)) by (nonlinear_arith);
            assert((b as int) * (num as int) <= 2 * (BALL_SPEED as int) * (BALL_SPEED as int))
                by (nonlinear_arith)
                requires
                    0 <= b <= BALL_SPEED,
                    0 <= num <= 2 * BALL_SPEED,
                    BALL_SPEED == 680571710i64,
            ;
        }
        let q = ((b as u64) * (num as u64)) / (den as u64);
        -(q as i64)
    }
}

// ---------------------------------------------------------------------------
// The motion relation
// ---------------------------------------------------------------------------

/// Resolve at most one top or bottom wall reflection of the step from
/// `start` by `v`. Returns the (possibly moved) segment start, the
/// (possibly reflected) target, and the (possibly inverted) velocity, all
/// as integer pairs.
pub open spec fn wall_step(start: SubPoint, v: Velocity) -> ((int, int), (int, int), (int, int)) {
    let tox = start.0 + v.x;
    let toy = start.1 + v.y;
    if toy < 0 {
        let bdx = scale_toward_zero(v.x as int, start.1 as int, -(v.y as int));
        ((start.0 + bdx, 0), (tox, -toy), (v.x as int, -(v.y as int)))
    } else if toy >= y_limit() && v.y > 0 {
        let bdx = scale_toward_zero(v.x as int, y_limit() - start.1, v.y as int);
        (
            (start.0 + bdx, y_limit()),
            (tox, y_limit() - (toy - y_limit())),
            (v.x as int, -(v.y as int)),
        )
    } else {
        ((start.0 as int, start.1 as int), (tox, toy), (v.x as int, v.y as int))
    }
}

/// The y at which the segment from `p` to `t` crosses the vertical line
/// `x = bound`, linearly interpolated and truncated toward zero; a
/// degenerate (vertical) segment contributes its own target y.
pub open spec fn crossing_y(p: (int, int), t: (int, int), bound: int) -> int {
    if t.0 == p.0 {
        t.1
    } else {
        let num = if bound >= p.0 {
            bound - p.0
        } else {
            p.0 - bound
        };
        let den = if t.0 >= p.0 {
            t.0 - p.0
        } else {
            p.0 - t.0
        };
        p.1 + scale_toward_zero(t.1 - p.1, num, den)
    }
}

/// Does the ball's horizontal motion cross the left paddle's bounce line?
pub open spec fn crosses_left(p: (int, int), t: (int, int)) -> bool {
    t.0 <= left_bound() <= p.0
}

/// Does the ball's horizontal motion cross the right paddle's bounce line?
pub open spec fn crosses_right(p: (int, int), t: (int, int)) -> bool {
    t.0 >= right_bound() >= p.0
}

/// Does a ball at subpixel height `y` overlap the paddle at pixel height
/// `paddle_y`?
pub open spec fn overlaps_paddle(paddle_y: int, y: int) -> bool {
    (paddle_y - BALL_SIZE) * (SUBPIXELS as int) < y < (paddle_y + PADDLE_HEIGHT) * (
    SUBPIXELS as int)
}

/// The signed direction for the (possibly negative) whole angle `deg`:
/// x from the direction table, y following the angle's sign.
pub open spec fn signed_dir(deg: int) -> (int, int) {
    let m = if deg >= 0 {
        deg
    } else {
        -deg
    };
    let d = dir_for_angle(m);
    (d.0, if deg >= 0 {
        d.1
    } else {
        -d.1
    })
}

/// `v` is the velocity the bounce-angle model assigns to a ball leaving a
/// paddle at subpixel height `ball_y`: away from the paddle's side, with
/// the vertical component following the angle's sign.
pub open spec fn is_paddle_bounce_velocity(
    ball_y: int,
    paddle_y: int,
    from_left: bool,
    v: Velocity,
) -> bool {
    exists|deg: int|
        {
            &&& #[trigger] is_bounce_angle(ball_y, paddle_y, deg)
            &&& -73 <= deg <= 73
            &&& v.x as int == if from_left {
                signed_dir(deg).0
            } else {
                -signed_dir(deg).0
            }
            &&& v.y as int == signed_dir(deg).1
        }
}

/// The full relation of one ball move: from position `start` with velocity
/// `v` and the paddles at `lp` and `rp`, the ball ends at `ball2` with
/// velocity `v2` and the move reports `res`.
pub open spec fn ball_motion_rel(
    start: SubPoint,
    v: Velocity,
    lp: Point,
    rp: Point,
    ball2: SubPoint,
    v2: Velocity,
    res: Option<GameResult>,
) -> bool {
    let (p, t, v1) = wall_step(start, v);
    if crosses_left(p, t) && overlaps_paddle(lp.1 as int, crossing_y(p, t, left_bound())) {
        &&& ball2.0 == left_bound()
        &&& ball2.1 == crossing_y(p, t, left_bound())
        &&& is_paddle_bounce_velocity(ball2.1 as int, lp.1 as int, true, v2)
        &&& res is None
    } else if crosses_right(p, t) && overlaps_paddle(
        rp.1 as int,
        crossing_y(p, t, right_bound()),
    ) {
        &&& ball2.0 == right_bound()
        &&& ball2.1 == crossing_y(p, t, right_bound())
        &&& is_paddle_bounce_velocity(ball2.1 as int, rp.1 as int, false, v2)
        &&& res is None
    } else if t.0 <= 0 {
        &&& ball2.0 == p.0
        &&& ball2.1 == p.1
        &&& (v2.x as int, v2.y as int) == v1
        &&& res == Some(GameResult::Lose)
    } else if t.0 >= x_limit() {
        &&& ball2.0 == p.0
        &&& ball2.1 == p.1
        &&& (v2.x as int, v2.y as int) == v1
        &&& res == Some(GameResult::Win)
    } else {
        &&& ball2.0 == t.0
        &&& ball2.1 == t.1
        &&& (v2.x as int, v2.y as int) == v1
        &&& res is None
    }
}

// ---------------------------------------------------------------------------
// Paddle movement
// ---------------------------------------------------------------------------

/// The paddle height after one move: a full `PADDLE_SPEED` step, or the
/// partial step that reaches the arena bound.
pub open spec fn spec_move_paddle(y: int, direction: PaddleMove) -> int {
    match direction {
        PaddleMove::Up => if y <= PADDLE_SPEED {
            0
        } else {
            y - PADDLE_SPEED
        },
        PaddleMove::Down => if y >= HEIGHT - PADDLE_HEIGHT - PADDLE_SPEED {
            (HEIGHT - PADDLE_HEIGHT) as int
        } else {
            y + PADDLE_SPEED
        },
    }
}

/// The ball's y coordinate rounded to whole pixels, half up.
pub open spec fn spec_round_to_pixel(y: int) -> int {
    (y + (SUBPIXELS as int) / 2) / (SUBPIXELS as int)
}

/// The bot paddle's height after one tick: one step toward the ball's
/// center, unless already within `PADDLE_SPEED` pixels of it (a dead zone
/// that prevents jitter when aligned).
pub open spec fn spec_bot_move(ball_y: int, bot_y: int) -> int {
    let ball_mid = spec_round_to_pixel(ball_y) + BALL_SIZE / 2;
    let bot_mid = bot_y + PADDLE_HEIGHT / 2;
    if ball_mid + PADDLE_SPEED <= bot_mid {
        spec_move_paddle(bot_y, PaddleMove::Up)
    } else if bot_mid + PADDLE_SPEED <= ball_mid {
        spec_move_paddle(bot_y, PaddleMove::Down)
    } else {
        bot_y
    }
}

// ---------------------------------------------------------------------------
// The game
// ---------------------------------------------------------------------------

/// Core Pong game.
pub struct Pong {
    pub ball: SubPoint,
    pub ball_velocity: Velocity,
    pub left_paddle: Point,
    pub right_paddle: Point,
    pub frame: Frame,
    pub ended: bool,
}

/// Relies on rand 0.8's `Rng::gen_range`: it returns a value of the given
/// half-open range, and panics only if the range is empty, which
/// `-MAX_INITIAL_ANGLE..MAX_INITIAL_ANGLE` is not.
#[verifier::external_body]
fn random_initial_angle() -> (deg: i64)
    ensures
        -MAX_INITIAL_ANGLE <= deg < MAX_INITIAL_ANGLE,
{
    rand::thread_rng().gen_range(-MAX_INITIAL_ANGLE..MAX_INITIAL_ANGLE)
}

/// `v` is a velocity the serve can start with: a direction within
/// `MAX_INITIAL_ANGLE` of horizontal, rightward, at full speed.
pub open spec fn is_initial_velocity(v: Velocity) -> bool {
    exists|deg: int|
        -MAX_INITIAL_ANGLE <= deg <= MAX_INITIAL_ANGLE && (v.x as int, v.y as int)
            == #[trigger] signed_dir(deg)
}

/// A freshly laid out simulation: ball at the arena center, paddles
/// centered on their sides, a valid serve velocity, episode running, and
/// no snapshot drawn yet.
pub open spec fn is_fresh_sim(p: Pong) -> bool {
    &&& p.ball.0 == (WIDTH / 2 - BALL_SIZE / 2) * (SUBPIXELS as int)
    &&& p.ball.1 == (HEIGHT / 2 - BALL_SIZE / 2) * (SUBPIXELS as int)
    &&& is_initial_velocity(p.ball_velocity)
    &&& p.left_paddle.0 == PADDLE_OFFSET && p.left_paddle.1 == HEIGHT / 2 - PADDLE_HEIGHT / 2
    &&& p.right_paddle.0 == WIDTH - PADDLE_OFFSET - PADDLE_WIDTH && p.right_paddle.1 == HEIGHT / 2
        - PADDLE_HEIGHT / 2
    &&& p.ended == false
    &&& p.frame.state == spec_obj_default()
}

impl Pong {
    /// The state invariant: ball vertically in bounds (and horizontally,
    /// while the episode runs), velocity exactly on the circle of radius
    /// `BALL_SPEED` and never purely vertical, paddles on their lines
    /// within the arena, frame well formed.
    pub open spec fn wf(self) -> bool {
        &&& 0 <= self.ball.1 <= y_limit()
        &&& -BALL_SPEED <= self.ball.0 <= x_limit() + BALL_SPEED
        &&& (!self.ended ==> 0 <= self.ball.0 <= x_limit())
        &&& speed_sq(self.ball_velocity) == (BALL_SPEED as int) * (BALL_SPEED as int)
        &&& self.ball_velocity.x != 0
        &&& -BALL_SPEED <= self.ball_velocity.x <= BALL_SPEED
        &&& -BALL_SPEED <= self.ball_velocity.y <= BALL_SPEED
        &&& self.left_paddle.0 == PADDLE_OFFSET
        &&& self.left_paddle.1 <= HEIGHT - PADDLE_HEIGHT
        &&& self.right_paddle.0 == WIDTH - PADDLE_OFFSET - PADDLE_WIDTH
        &&& self.right_paddle.1 <= HEIGHT - PADDLE_HEIGHT
        &&& frame_wf(self.frame)
    }

    /// Move a paddle one step in `direction`, clamped to the arena bounds:
    /// a partial step is taken near a bound, never overshooting.
    pub fn move_paddle(paddle: &mut Point, direction: PaddleMove)
        requires
            old(paddle).1 <= HEIGHT - PADDLE_HEIGHT,
        ensures
            final(paddle).0 == old(paddle).0,
            final(paddle).1 as int == spec_move_paddle(old(paddle).1 as int, direction),
            final(paddle).1 <= HEIGHT - PADDLE_HEIGHT,
    {
        match direction {
            PaddleMove::Up => {
                if paddle.1 <= PADDLE_SPEED {
                    paddle.1 = 0;
                } else {
                    paddle.1 = paddle.1 - PADDLE_SPEED;
                }
            },
            PaddleMove::Down => {
                if paddle.1 >= HEIGHT - PADDLE_HEIGHT - PADDLE_SPEED {
                    paddle.1 = HEIGHT - PADDLE_HEIGHT;
                } else {
                    paddle.1 = paddle.1 + PADDLE_SPEED;
                }
            },
        }
    }

    /// The interpolated y at which the ball's segment crosses `bound`.
    fn crossing_height(px: i64, py: i64, tox: i64, toy: i64, bound: i64) -> (y: i64)
        requires
            0 <= py <= y_limit(),
            0 <= toy <= y_limit(),
            -BALL_SPEED <= toy - py <= BALL_SPEED,
            (tox <= bound <= px) || (px <= bound <= tox),
            -2 * BALL_SPEED <= tox - px <= 2 * BALL_SPEED,
        ensures
            y as int == crossing_y((px as int, py as int), (tox as int, toy as int), bound as int),
            0 <= y <= y_limit(),
    {
        if tox == px {
            toy
        } else {
            let num = if bound >= px {
                bound - px
            } else {
                px - bound
            };
            let den = if tox >= px {
                tox - px
            } else {
                px - tox
            };
            let dy = scale_velocity_part(toy - py, num, den);
            py + dy
        }
    }

    /// Move the ball toward `to` (its position plus its velocity),
    /// resolving wall and paddle collisions, and return the outcome if the
    /// ball left the arena past a side wall. The ball never ends this move
    /// vertically out of bounds.
    pub fn move_ball(&mut self, to: SubPoint) -> (r: Option<GameResult>)
        requires
            0 <= old(self).ball.0 <= x_limit(),
            0 <= old(self).ball.1 <= y_limit(),
            -BALL_SPEED <= old(self).ball_velocity.x <= BALL_SPEED,
            -BALL_SPEED <= old(self).ball_velocity.y <= BALL_SPEED,
            old(self).left_paddle.1 <= HEIGHT - PADDLE_HEIGHT,
            old(self).right_paddle.1 <= HEIGHT - PADDLE_HEIGHT,
            to.0 as int == old(self).ball.0 + old(self).ball_velocity.x,
            to.1 as int == old(self).ball.1 + old(self).ball_velocity.y,
        ensures
            ball_motion_rel(
                old(self).ball,
                old(self).ball_velocity,
                old(self).left_paddle,
                old(self).right_paddle,
                final(self).ball,
                final(self).ball_velocity,
                r,
            ),
            final(self).frame == old(self).frame,
            final(self).left_paddle == old(self).left_paddle,
            final(self).right_paddle == old(self).right_paddle,
            final(self).ended == old(self).ended,
            0 <= final(self).ball.1 <= y_limit(),
            -BALL_SPEED <= final(self).ball.0 <= x_limit() + BALL_SPEED,
            r is None ==> 0 <= final(self).ball.0 <= x_limit(),
            -BALL_SPEED <= final(self).ball_velocity.x <= BALL_SPEED,
            -BALL_SPEED <= final(self).ball_velocity.y <= BALL_SPEED,
            speed_sq(final(self).ball_velocity) == speed_sq(old(self).ball_velocity) || speed_sq(
                final(self).ball_velocity,
            ) == (BALL_SPEED as int) * (BALL_SPEED as int),
            final(self).ball_velocity.x != 0 || old(self).ball_velocity.x == 0,
    {
        let ghost gstart = self.ball;
        let ghost gvel = self.ball_velocity;
        let ghost (gp, gt, gv1) = wall_step(gstart, gvel);
        let vx = self.ball_velocity.x;
        let vy = self.ball_velocity.y;
        let y_max: i64 = (HEIGHT as i64 - BALL_SIZE as i64) * SUBPIXELS;

        // Resolve at most one top or bottom wall reflection. The reflected
        // target stays vertically in bounds because one tick's overshoot
        // is at most `BALL_SPEED`, far less than the arena height.
        let (tox, toy) = if to.1 < 0 {
            let bdx = scale_velocity_part(vx, self.ball.1, -vy);
            self.ball = SubPoint(self.ball.0 + bdx, 0);
            self.ball_velocity = Velocity { x: vx, y: -vy };
            (to.0, -to.1)
        } else if to.1 >= y_max && vy > 0 {
            let before = y_max - self.ball.1;
            let bdx = scale_velocity_part(vx, before, vy);
            self.ball = SubPoint(self.ball.0 + bdx, y_max);
            self.ball_velocity = Velocity { x: vx, y: -vy };
            (to.0, y_max - (to.1 - y_max))
        } else {
            (to.0, to.1)
        };
        proof {
            assert(self.ball.0 == gp.0 && self.ball.1 == gp.1);
            assert(tox as int == gt.0 && toy as int == gt.1);
            assert(self.ball_velocity.x == gv1.0 && self.ball_velocity.y == gv1.1);
            assert((-(vy as int)) * (-(vy as int)) == (vy as int) * (vy as int))
                by (nonlinear_arith);
        }

        // Paddle collision checks on the (possibly reflected) segment.
        let px = self.ball.0;
        let py = self.ball.1;
        let lb: i64 = (PADDLE_OFFSET as i64 + PADDLE_WIDTH as i64) * SUBPIXELS;
        let rb: i64 = (WIDTH as i64 - PADDLE_OFFSET as i64 - PADDLE_WIDTH as i64
            - BALL_SIZE as i64) * SUBPIXELS;
        if tox <= lb && px >= lb {
            let ycross = Self::crossing_height(px, py, tox, toy, lb);
            if (self.left_paddle.1 as i64 - BALL_SIZE as i64) * SUBPIXELS < ycross && ycross < (
            self.left_paddle.1 as i64 + PADDLE_HEIGHT as i64) * SUBPIXELS {
                self.ball = SubPoint(lb, ycross);
                let deg = bounce::calc_bounce_angle(ycross, self.left_paddle.1);
                let m = if deg < 0 {
                    -deg
                } else {
                    deg
                };
                let d = bounce::velocity_for_angle(m);
                self.ball_velocity = Velocity {
                    x: d.0,
                    y: if deg >= 0 {
                        d.1
                    } else {
                        -d.1
                    },
                };
                proof {
                    assert(is_bounce_angle(ycross as int, self.left_paddle.1 as int, deg as int));
                    assert(is_paddle_bounce_velocity(
                        ycross as int,
                        self.left_paddle.1 as int,
                        true,
                        self.ball_velocity,
                    ));
                    assert((d.0 as int) * (d.0 as int) + (-(d.1 as int)) * (-(d.1 as int)) == (
                    d.0 as int) * (d.0 as int) + (d.1 as int) * (d.1 as int)) by (nonlinear_arith);
                }
                return None;
            }
        }
        if tox >= rb && px <= rb {
            let ycross = Self::crossing_height(px, py, tox, toy, rb);
            if (self.right_paddle.1 as i64 - BALL_SIZE as i64) * SUBPIXELS < ycross && ycross < (
            self.right_paddle.1 as i64 + PADDLE_HEIGHT as i64) * SUBPIXELS {
                self.ball = SubPoint(rb, ycross);
                let deg = bounce::calc_bounce_angle(ycross, self.right_paddle.1);
                let m = if deg < 0 {
                    -deg
                } else {
                    deg
                };
                let d = bounce::velocity_for_angle(m);
                self.ball_velocity = Velocity {
                    x: -d.0,
                    y: if deg >= 0 {
                        d.1
                    } else {
                        -d.1
                    },
                };
                proof {
                    assert(is_bounce_angle(ycross as int, self.right_paddle.1 as int, deg as int));
                    assert(is_paddle_bounce_velocity(
                        ycross as int,
                        self.right_paddle.1 as int,
                        false,
                        self.ball_velocity,
                    ));
                    assert((-(d.0 as int)) * (-(d.0 as int)) + (-(d.1 as int)) * (-(d.1 as int))
                        == (d.0 as int) * (d.0 as int) + (d.1 as int) * (d.1 as int))
                        by (nonlinear_arith);
                    assert((-(d.0 as int)) * (-(d.0 as int)) + (d.1 as int) * (d.1 as int) == (
                    d.0 as int) * (d.0 as int) + (d.1 as int) * (d.1 as int)) by (nonlinear_arith);
                }
                return None;
            }
        }

        // Terminal check: the ball fully leaving past a side wall ends the
        // episode; the position keeps the last committed point.
        if tox <= 0 {
            return Some(GameResult::Lose);
        }
        let x_max: i64 = (WIDTH as i64 - BALL_SIZE as i64) * SUBPIXELS;
        if tox >= x_max {
            return Some(GameResult::Win);
        }

        // No obstructions: commit the destination.
        self.ball = SubPoint(tox, toy);
        None
    }

    /// Advance the game one tick: move the player paddle on `input`, move
    /// the tracking bot paddle, advance the ball with collision
    /// resolution, and redraw the frame differentially. Returns the
    /// episode's outcome once the ball leaves past a side wall; the game
    /// must not be ticked after that until a reset.
    pub fn tick(&mut self, input: Option<PaddleMove>) -> (r: Option<GameResult>)
        requires
            old(self).wf(),
            !old(self).ended,
        ensures
            final(self).wf(),
            final(self).left_paddle.1 as int == (match input {
                Some(m) => spec_move_paddle(old(self).left_paddle.1 as int, m),
                None => old(self).left_paddle.1 as int,
            }),
            final(self).left_paddle.0 == old(self).left_paddle.0,
            final(self).right_paddle.1 as int == spec_bot_move(
                old(self).ball.1 as int,
                old(self).right_paddle.1 as int,
            ),
            final(self).right_paddle.0 == old(self).right_paddle.0,
            ball_motion_rel(
                old(self).ball,
                old(self).ball_velocity,
                final(self).left_paddle,
                final(self).right_paddle,
                final(self).ball,
                final(self).ball_velocity,
                r,
            ),
            final(self).frame.state == spec_set_state(
                final(self).ball,
                final(self).left_paddle,
                final(self).right_paddle,
            ),
            final(self).frame.buffer is Some <==> old(self).frame.buffer is Some,
            (old(self).frame.buffer is Some ==> final(self).frame.buffer->Some_0@ == state_paint(
                state_paint(old(self).frame.buffer->Some_0@, old(self).frame.state, 0x00),
                final(self).frame.state,
                COLOR,
            )),
            final(self).ended == (r is Some),
            speed_sq(final(self).ball_velocity) == (BALL_SPEED as int) * (BALL_SPEED as int),
    {
        // Update player paddle position.
        if let Some(paddle_move) = input {
            Self::move_paddle(&mut self.left_paddle, paddle_move);
        }

        // Update bot paddle position: one step toward the ball's center,
        // unless within the dead zone.
        proof {
            lemma_multiply_divide_lt(
                self.ball.1 + (SUBPIXELS as int) / 2,
                SUBPIXELS as int,
                (HEIGHT - BALL_SIZE + 1) as int,
            );
        }
        let ball_mid = (((self.ball.1 as u64) + (SUBPIXELS as u64) / 2) / (SUBPIXELS as u64))
            as usize + BALL_SIZE / 2;
        let bot_mid = self.right_paddle.1 + PADDLE_HEIGHT / 2;
        if ball_mid + PADDLE_SPEED <= bot_mid {
            Self::move_paddle(&mut self.right_paddle, PaddleMove::Up);
        } else if bot_mid + PADDLE_SPEED <= ball_mid {
            Self::move_paddle(&mut self.right_paddle, PaddleMove::Down);
        }

        // Update ball position.
        let to = SubPoint(self.ball.0 + self.ball_velocity.x, self.ball.1 + self.ball_velocity.y);
        let game_result = self.move_ball(to);

        // Update frame with the new state.
        let ball = self.ball;
        let left_paddle = self.left_paddle;
        let right_paddle = self.right_paddle;
        self.frame.update(ball, left_paddle, right_paddle);

        if game_result.is_some() {
            self.ended = true;
        }
        game_result
    }

    /// The ball's initial position: the arena center.
    fn initial_ball_pos() -> (p: SubPoint)
        ensures
            p.0 == (WIDTH / 2 - BALL_SIZE / 2) * (SUBPIXELS as int),
            p.1 == (HEIGHT / 2 - BALL_SIZE / 2) * (SUBPIXELS as int),
    {
        SubPoint(
            (WIDTH as i64 / 2 - BALL_SIZE as i64 / 2) * SUBPIXELS,
            (HEIGHT as i64 / 2 - BALL_SIZE as i64 / 2) * SUBPIXELS,
        )
    }

    /// The velocity for a signed serve or bounce angle.
    fn velocity_at_angle(deg: i64) -> (v: Velocity)
        requires
            -74 <= deg <= 74,
        ensures
            (v.x as int, v.y as int) == signed_dir(deg as int),
            speed_sq(v) == (BALL_SPEED as int) * (BALL_SPEED as int),
            v.x != 0,
            -BALL_SPEED <= v.x <= BALL_SPEED,
            -BALL_SPEED <= v.y <= BALL_SPEED,
    {
        let m = if deg < 0 {
            -deg
        } else {
            deg
        };
        let d = bounce::velocity_for_angle(m);
        let v = Velocity {
            x: d.0,
            y: if deg >= 0 {
                d.1
            } else {
                -d.1
            },
        };
        proof {
            assert((d.0 as int) * (d.0 as int) + (-(d.1 as int)) * (-(d.1 as int)) == (d.0 as int)
                * (d.0 as int) + (d.1 as int) * (d.1 as int)) by (nonlinear_arith);
        }
        v
    }

    /// A random serve velocity: full speed, within `MAX_INITIAL_ANGLE`
    /// degrees of horizontal, rightward.
    fn random_initial_velocity() -> (v: Velocity)
        ensures
            is_initial_velocity(v),
            speed_sq(v) == (BALL_SPEED as int) * (BALL_SPEED as int),
            v.x != 0,
            -BALL_SPEED <= v.x <= BALL_SPEED,
            -BALL_SPEED <= v.y <= BALL_SPEED,
    {
        let deg = random_initial_angle();
        let v = Self::velocity_at_angle(deg);
        proof {
            assert((v.x as int, v.y as int) == signed_dir(deg as int));
        }
        v
    }

    /// The left paddle's initial position.
    fn initial_left_paddle_pos() -> (p: Point)
        ensures
            p.0 == PADDLE_OFFSET,
            p.1 == HEIGHT / 2 - PADDLE_HEIGHT / 2,
    {
        Point(PADDLE_OFFSET, HEIGHT / 2 - PADDLE_HEIGHT / 2)
    }

    /// The right paddle's initial position.
    fn initial_right_paddle_pos() -> (p: Point)
        ensures
            p.0 == WIDTH - PADDLE_OFFSET - PADDLE_WIDTH,
            p.1 == HEIGHT / 2 - PADDLE_HEIGHT / 2,
    {
        Point(WIDTH - PADDLE_OFFSET - PADDLE_WIDTH, HEIGHT / 2 - PADDLE_HEIGHT / 2)
    }

    /// Create a game with a random serve angle. With `render` set, the
    /// frame owns a pixel buffer with the border painted.
    pub fn new(render: bool) -> (p: Pong)
        ensures
            p.wf(),
            is_fresh_sim(p),
            p.frame.buffer is Some <==> render,
            (render ==> p.frame.buffer->Some_0@ == render::border_paint(zero_frame())),
    {
        Pong {
            ball: Self::initial_ball_pos(),
            ball_velocity: Self::random_initial_velocity(),
            left_paddle: Self::initial_left_paddle_pos(),
            right_paddle: Self::initial_right_paddle_pos(),
            frame: Frame::uninit(render),
            ended: false,
        }
    }

    /// Create a game serving at the given angle, in whole degrees:
    /// `new` with the serve chosen instead of drawn.
    pub fn with_initial_angle(render: bool, angle_deg: i64) -> (p: Pong)
        requires
            -MAX_INITIAL_ANGLE <= angle_deg <= MAX_INITIAL_ANGLE,
        ensures
            p.wf(),
            is_fresh_sim(p),
            (p.ball_velocity.x as int, p.ball_velocity.y as int) == signed_dir(angle_deg as int),
            p.frame.buffer is Some <==> render,
            (render ==> p.frame.buffer->Some_0@ == render::border_paint(zero_frame())),
    {
        let v = Self::velocity_at_angle(angle_deg);
        Pong {
            ball: Self::initial_ball_pos(),
            ball_velocity: v,
            left_paddle: Self::initial_left_paddle_pos(),
            right_paddle: Self::initial_right_paddle_pos(),
            frame: Frame::uninit(render),
            ended: false,
        }
    }

    /// Reset the game to a fresh layout without rerendering: the frame's
    /// snapshot is erased from the buffer, the simulation re-centered, and
    /// a new serve drawn.
    pub fn clear_game(&mut self)
        requires
            old(self).wf(),
        ensures
            final(self).wf(),
            is_fresh_sim(*final(self)),
            final(self).frame.buffer is Some <==> old(self).frame.buffer is Some,
            (old(self).frame.buffer is Some ==> final(self).frame.buffer->Some_0@ == state_paint(
                old(self).frame.buffer->Some_0@,
                old(self).frame.state,
                0x00,
            )),
    {
        self.frame.reset();
        self.ball = Self::initial_ball_pos();
        self.ball_velocity = Self::random_initial_velocity();
        self.left_paddle = Self::initial_left_paddle_pos();
        self.right_paddle = Self::initial_right_paddle_pos();
        self.ended = false;
    }

    /// Render the initial frame from the initial state.
    pub fn start_game(&mut self)
        requires
            old(self).wf(),
        ensures
            final(self).wf(),
            final(self).ball == old(self).ball,
            final(self).ball_velocity == old(self).ball_velocity,
            final(self).left_paddle == old(self).left_paddle,
            final(self).right_paddle == old(self).right_paddle,
            final(self).ended == old(self).ended,
            final(self).frame.state == spec_set_state(
                old(self).ball,
                old(self).left_paddle,
                old(self).right_paddle,
            ),
            final(self).frame.buffer is Some <==> old(self).frame.buffer is Some,
            (old(self).frame.buffer is Some ==> final(self).frame.buffer->Some_0@ == state_paint(
                old(self).frame.buffer->Some_0@,
                final(self).frame.state,
                COLOR,
            )),
    {
        let ball = self.ball;
        let left_paddle = self.left_paddle;
        let right_paddle = self.right_paddle;
        self.frame.init_state(ball, left_paddle, right_paddle);
    }

    /// Whether the episode has ended; the game must not be ticked again
    /// until a reset.
    pub fn has_ended(&self) -> (e: bool)
        ensures
            e == self.ended,
    {
        self.ended
    }

    /// A borrow of the owned pixel buffer, for a caller that presents it.
    pub fn frame_bytes(&self) -> (b: &Option<Vec<u8>>)
        ensures
            b == &self.frame.buffer,
    {
        &self.frame.buffer
    }

    /// Ball position, ball velocity, and paddle heights, in subpixels
    /// (positions, velocity) and pixels (paddles).
    pub fn get_game_state(&self) -> (s: Vec<i64>)
        requires
            self.wf(),
        ensures
            s@.len() == 6,
            s@[0] == self.ball.0,
            s@[1] == self.ball.1,
            s@[2] == self.ball_velocity.x,
            s@[3] == self.ball_velocity.y,
            s@[4] == self.left_paddle.1 as i64,
            s@[5] == self.right_paddle.1 as i64,
    {
        let mut s: Vec<i64> = Vec::new();
        s.push(self.ball.0);
        s.push(self.ball.1);
        s.push(self.ball_velocity.x);
        s.push(self.ball_velocity.y);
        s.push(self.left_paddle.1 as i64);
        s.push(self.right_paddle.1 as i64);
        s
    }
}

// ---------------------------------------------------------------------------
// Laws
// ---------------------------------------------------------------------------

/// A tick that crosses no boundary moves the ball by exactly its velocity:
/// if the straight step stays vertically and horizontally inside the arena
/// and crosses neither paddle's bounce line with overlap, the final
/// position is `position + velocity`, the velocity is unchanged, and no
/// outcome is reported.
pub proof fn lemma_straight_motion(
    start: SubPoint,
    v: Velocity,
    lp: Point,
    rp: Point,
    ball2: SubPoint,
    v2: Velocity,
    res: Option<GameResult>,
)
    requires
        ball_motion_rel(start, v, lp, rp, ball2, v2, res),
        0 <= start.1 + v.y,
        start.1 + v.y < y_limit() || v.y <= 0,
        0 < start.0 + v.x < x_limit(),
        !(crosses_left(
            (start.0 as int, start.1 as int),
            (start.0 + v.x, start.1 + v.y),
        ) && overlaps_paddle(
            lp.1 as int,
            crossing_y((start.0 as int, start.1 as int), (start.0 + v.x, start.1 + v.y), left_bound()),
        )),
        !(crosses_right(
            (start.0 as int, start.1 as int),
            (start.0 + v.x, start.1 + v.y),
        ) && overlaps_paddle(
            rp.1 as int,
            crossing_y(
                (start.0 as int, start.1 as int),
                (start.0 + v.x, start.1 + v.y),
                right_bound(),
            ),
        )),
    ensures
        ball2.0 == start.0 + v.x,
        ball2.1 == start.1 + v.y,
        v2 == v,
        res is None,
{
}

/// Repeated paddle moves in one direction.
pub open spec fn iter_move_paddle(y: int, direction: PaddleMove, n: nat) -> int
    decreases n,
{
    if n == 0 {
        y
    } else {
        spec_move_paddle(iter_move_paddle(y, direction, (n - 1) as nat), direction)
    }
}

/// The paddle is always clamped: `n` upward moves from any in-bounds
/// height land exactly at the top once `n * PADDLE_SPEED` covers the
/// distance, and never overshoot before that.
pub proof fn lemma_paddle_up_clamps(y: int, n: nat)
    requires
        0 <= y <= HEIGHT - PADDLE_HEIGHT,
    ensures
        iter_move_paddle(y, PaddleMove::Up, n) == if n * PADDLE_SPEED >= y {
            0
        } else {
            y - n * PADDLE_SPEED
        },
    decreases n,
{
    if n > 0 {
        lemma_paddle_up_clamps(y, (n - 1) as nat);
    }
}

/// The paddle is always clamped: `n` downward moves from any in-bounds
/// height land exactly at the bottom bound once `n * PADDLE_SPEED` covers
/// the distance, and never overshoot before that.
pub proof fn lemma_paddle_down_clamps(y: int, n: nat)
    requires
        0 <= y <= HEIGHT - PADDLE_HEIGHT,
    ensures
        iter_move_paddle(y, PaddleMove::Down, n) == if n * PADDLE_SPEED >= HEIGHT - PADDLE_HEIGHT
            - y {
            (HEIGHT - PADDLE_HEIGHT) as int
        } else {
            y + n * PADDLE_SPEED
        },
    decreases n,
{
    if n > 0 {
        lemma_paddle_down_clamps(y, (n - 1) as nat);
    }
}

/// Reset restores the initial layout: any two freshly laid out games (as a
/// new game is, and as `clear_game` leaves one) agree on the ball
/// position, both paddles, the frame snapshot, and the running flag; both
/// velocities are full-speed serves within the initial angle range.
pub proof fn lemma_fresh_states_agree(a: Pong, b: Pong)
    requires
        is_fresh_sim(a),
        is_fresh_sim(b),
    ensures
        a.ball == b.ball,
        a.left_paddle == b.left_paddle,
        a.right_paddle == b.right_paddle,
        a.frame.state == b.frame.state,
        a.ended == b.ended,
        is_initial_velocity(a.ball_velocity),
        is_initial_velocity(b.ball_velocity),
{
}

} // verus!
