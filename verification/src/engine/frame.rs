//! Frame state: coordinate types, the object snapshot, and the display
//! frame with its differential redraw (erase the previous snapshot, paint
//! the new one).

use vstd::prelude::*;

use crate::config::{
    BALL_SIZE, COLOR, FRAME_LEN, HEIGHT, PADDLE_HEIGHT, PADDLE_WIDTH, SUBPIXELS, WIDTH,
};
use crate::engine::render;

verus! {

/// A position in whole pixels.
#[derive(Clone, Copy, PartialEq, Eq, Structural, Debug)]
pub struct Point(pub usize, pub usize);

impl Default for Point {
    fn default() -> (p: Point)
        ensures
            p == Point(0, 0),
    {
        Point(0, 0)
    }
}

/// A position in subpixels (`SUBPIXELS` units per pixel).
#[derive(Clone, Copy, PartialEq, Eq, Structural, Debug)]
pub struct SubPoint(pub i64, pub i64);

impl Default for SubPoint {
    fn default() -> (p: SubPoint)
        ensures
            p == SubPoint(0, 0),
    {
        SubPoint(0, 0)
    }
}

/// Clamp a coordinate into `[0, limit]`.
pub open spec fn spec_clamp(v: int, limit: int) -> int {
    if v < 0 {
        0
    } else if v > limit {
        limit
    } else {
        v
    }
}

fn clamp_sub(v: i64, limit: i64) -> (r: i64)
    requires
        limit >= 0,
    ensures
        r as int == spec_clamp(v as int, limit as int),
{
    if v < 0 {
        0
    } else if v > limit {
        limit
    } else {
        v
    }
}

/// Game object positions, as last drawn.
#[derive(Clone, Copy, PartialEq, Eq, Structural, Debug)]
pub struct ObjectState {
    /// Ball position in subpixels, clamped to the drawable range.
    pub ball: SubPoint,
    /// The ball's floor pixel.
    pub ball_pos: Point,
    pub left_paddle: Point,
    pub right_paddle: Point,
}

pub open spec fn spec_obj_default() -> ObjectState {
    ObjectState {
        ball: SubPoint(0, 0),
        ball_pos: Point(0, 0),
        left_paddle: Point(0, 0),
        right_paddle: Point(0, 0),
    }
}

impl Default for ObjectState {
    fn default() -> (s: ObjectState)
        ensures
            s == spec_obj_default(),
    {
        ObjectState {
            ball: SubPoint(0, 0),
            ball_pos: Point(0, 0),
            left_paddle: Point(0, 0),
            right_paddle: Point(0, 0),
        }
    }
}

/// A snapshot whose positions can be drawn safely: the ball within the
/// drawable range with its floor pixel cached, the paddles inside the
/// arena.
pub open spec fn obj_wf(s: ObjectState) -> bool {
    &&& 0 <= s.ball.0 <= (WIDTH - BALL_SIZE) * (SUBPIXELS as int)
    &&& 0 <= s.ball.1 <= (HEIGHT - BALL_SIZE) * (SUBPIXELS as int)
    &&& s.left_paddle.0 + PADDLE_WIDTH <= WIDTH
    &&& s.left_paddle.1 + PADDLE_HEIGHT <= HEIGHT
    &&& s.right_paddle.0 + PADDLE_WIDTH <= WIDTH
    &&& s.right_paddle.1 + PADDLE_HEIGHT <= HEIGHT
}

/// The snapshot stored for the given positions: the ball is clamped into
/// the drawable range (as a saturating float-to-index cast would do) and
/// its floor pixel cached.
pub open spec fn spec_set_state(ball: SubPoint, left_paddle: Point, right_paddle: Point) -> ObjectState {
    let s = SUBPIXELS as int;
    let bx = spec_clamp(ball.0 as int, (WIDTH - BALL_SIZE) * s);
    let by = spec_clamp(ball.1 as int, (HEIGHT - BALL_SIZE) * s);
    ObjectState {
        ball: SubPoint(bx as i64, by as i64),
        ball_pos: Point((bx / s) as usize, (by / s) as usize),
        left_paddle,
        right_paddle,
    }
}

impl ObjectState {
    /// Batch set position values and cache the ball's floor pixel.
    pub fn set_state(&mut self, ball: SubPoint, left_paddle: Point, right_paddle: Point)
        requires
            left_paddle.0 + PADDLE_WIDTH <= WIDTH,
            left_paddle.1 + PADDLE_HEIGHT <= HEIGHT,
            right_paddle.0 + PADDLE_WIDTH <= WIDTH,
            right_paddle.1 + PADDLE_HEIGHT <= HEIGHT,
        ensures
            *final(self) == spec_set_state(ball, left_paddle, right_paddle),
            obj_wf(*final(self)),
    {
        let bx = clamp_sub(ball.0, (WIDTH as i64 - BALL_SIZE as i64) * SUBPIXELS);
        let by = clamp_sub(ball.1, (HEIGHT as i64 - BALL_SIZE as i64) * SUBPIXELS);
        proof {
            vstd::arithmetic::div_mod::lemma_multiply_divide_le(
                bx as int,
                SUBPIXELS as int,
                (WIDTH - BALL_SIZE) as int,
            );
            vstd::arithmetic::div_mod::lemma_multiply_divide_le(
                by as int,
                SUBPIXELS as int,
                (HEIGHT - BALL_SIZE) as int,
            );
            vstd::arithmetic::div_mod::lemma_div_pos_is_pos(bx as int, SUBPIXELS as int);
            vstd::arithmetic::div_mod::lemma_div_pos_is_pos(by as int, SUBPIXELS as int);
        }
        self.ball = SubPoint(bx, by);
        self.ball_pos = Point(
            ((bx as u64) / (SUBPIXELS as u64)) as usize,
            ((by as u64) / (SUBPIXELS as u64)) as usize,
        );
        self.left_paddle = left_paddle;
        self.right_paddle = right_paddle;
    }
}

// ---------------------------------------------------------------------------
// Frame
// ---------------------------------------------------------------------------

/// The buffer after drawing all objects of a snapshot at one intensity:
/// ball first (anti-aliased), then the two paddles as solid rectangles.
pub open spec fn state_paint(s: Seq<u8>, st: ObjectState, color: u8) -> Seq<u8> {
    render::rect_paint(
        render::rect_paint(
            render::ball_paint(s, st.ball, color),
            st.left_paddle,
            PADDLE_WIDTH as int,
            PADDLE_HEIGHT as int,
            color,
        ),
        st.right_paddle,
        PADDLE_WIDTH as int,
        PADDLE_HEIGHT as int,
        color,
    )
}

/// An all-zero frame buffer, as a fresh surface provides it.
pub open spec fn zero_frame() -> Seq<u8> {
    Seq::new(FRAME_LEN as nat, |i: int| 0u8)
}

/// Pong game display frame: the double-buffered snapshot and, when the
/// game renders, the RGBA pixel buffer it paints into.
pub struct Frame {
    pub state: ObjectState,
    pub buffer: Option<Vec<u8>>,
}

pub open spec fn frame_wf(f: Frame) -> bool {
    &&& obj_wf(f.state)
    &&& match f.buffer {
        Some(b) => b@.len() == FRAME_LEN,
        None => true,
    }
}

impl Frame {
    /// Batch draw an object snapshot on the RGBA frame.
    fn draw_state(rgba_frame: &mut Vec<u8>, state: ObjectState, color: u8)
        requires
            old(rgba_frame)@.len() == FRAME_LEN,
            obj_wf(state),
        ensures
            final(rgba_frame)@ == state_paint(old(rgba_frame)@, state, color),
    {
        render::draw_ball(rgba_frame, state.ball, color);
        render::draw_rect(rgba_frame, state.left_paddle, PADDLE_WIDTH, PADDLE_HEIGHT, color);
        render::draw_rect(rgba_frame, state.right_paddle, PADDLE_WIDTH, PADDLE_HEIGHT, color);
    }

    /// Create an empty frame. With `render` set, an owned zeroed pixel
    /// buffer is allocated and the border painted once; without, no buffer
    /// is kept and updates only track the snapshot.
    pub fn uninit(render: bool) -> (f: Frame)
        ensures
            f.state == spec_obj_default(),
            frame_wf(f),
            f.buffer is Some <==> render,
            (render ==> f.buffer->Some_0@ == render::border_paint(zero_frame())),
    {
        let buffer = if render {
            let mut v: Vec<u8> = Vec::new();
            let mut i: usize = 0;
            while i < FRAME_LEN
                invariant
                    i <= FRAME_LEN,
                    v@.len() == i,
                    forall|j: int| 0 <= j < i ==> v@[j] == 0u8,
                decreases FRAME_LEN - i,
            {
                v.push(0u8);
                i = i + 1;
            }
            proof {
                assert(v@ =~= zero_frame());
            }
            render::draw_border(&mut v);
            Some(v)
        } else {
            None
        };
        Frame { state: ObjectState::default(), buffer }
    }

    /// Initialize the frame state and paint all objects at full intensity,
    /// assuming a blank (or border-only) surface: no erase is needed.
    pub fn init_state(&mut self, ball: SubPoint, left_paddle: Point, right_paddle: Point)
        requires
            frame_wf(*old(self)),
            left_paddle.0 + PADDLE_WIDTH <= WIDTH,
            left_paddle.1 + PADDLE_HEIGHT <= HEIGHT,
            right_paddle.0 + PADDLE_WIDTH <= WIDTH,
            right_paddle.1 + PADDLE_HEIGHT <= HEIGHT,
        ensures
            final(self).state == spec_set_state(ball, left_paddle, right_paddle),
            frame_wf(*final(self)),
            final(self).buffer is Some <==> old(self).buffer is Some,
            (old(self).buffer is Some ==> final(self).buffer->Some_0@ == state_paint(
                old(self).buffer->Some_0@,
                final(self).state,
                COLOR,
            )),
    {
        self.state.set_state(ball, left_paddle, right_paddle);
        let state = self.state;
        match &mut self.buffer {
            Some(buffer) => {
                Self::draw_state(buffer, state, COLOR);
            },
            None => {},
        }
    }

    /// Update the frame with new object positions: erase the previous
    /// snapshot (paint at zero intensity), then paint the new one at full
    /// intensity, and store it. Erasing first matters because consecutive
    /// anti-aliased ball footprints can overlap.
    pub fn update(&mut self, ball: SubPoint, left_paddle: Point, right_paddle: Point)
        requires
            frame_wf(*old(self)),
            left_paddle.0 + PADDLE_WIDTH <= WIDTH,
            left_paddle.1 + PADDLE_HEIGHT <= HEIGHT,
            right_paddle.0 + PADDLE_WIDTH <= WIDTH,
            right_paddle.1 + PADDLE_HEIGHT <= HEIGHT,
        ensures
            final(self).state == spec_set_state(ball, left_paddle, right_paddle),
            frame_wf(*final(self)),
            final(self).buffer is Some <==> old(self).buffer is Some,
            (old(self).buffer is Some ==> final(self).buffer->Some_0@ == state_paint(
                state_paint(old(self).buffer->Some_0@, old(self).state, 0x00),
                final(self).state,
                COLOR,
            )),
    {
        let previous = self.state;
        self.state.set_state(ball, left_paddle, right_paddle);
        let state = self.state;
        match &mut self.buffer {
            Some(buffer) => {
                Self::draw_state(buffer, previous, 0x00);
                Self::draw_state(buffer, state, COLOR);
            },
            None => {},
        }
    }

    /// Erase the current snapshot from the buffer and revert to the
    /// uninitialized snapshot, without rerendering.
    pub fn reset(&mut self)
        requires
            frame_wf(*old(self)),
        ensures
            final(self).state == spec_obj_default(),
            frame_wf(*final(self)),
            final(self).buffer is Some <==> old(self).buffer is Some,
            (old(self).buffer is Some ==> final(self).buffer->Some_0@ == state_paint(
                old(self).buffer->Some_0@,
                old(self).state,
                0x00,
            )),
    {
        let state = self.state;
        match &mut self.buffer {
            Some(buffer) => {
                Self::draw_state(buffer, state, 0x00);
            },
            None => {},
        }
        self.state = ObjectState::default();
    }
}

} // verus!
