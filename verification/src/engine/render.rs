//! Pixel-buffer drawing: solid rectangles, the arena border, and the ball
//! with coverage-based subpixel anti-aliasing.
//!
//! The frame buffer is an RGBA byte vector of `FRAME_LEN` bytes, row-major
//! over `TOTAL_WIDTH x TOTAL_HEIGHT` pixels (arena plus border). Every
//! drawing function's contract gives the final buffer exactly, as a
//! pointwise function of the old buffer.

use vstd::prelude::*;
use vstd::arithmetic::div_mod::lemma_div_is_ordered;
use vstd::arithmetic::div_mod::lemma_fundamental_div_mod;
use vstd::arithmetic::div_mod::lemma_fundamental_div_mod_converse;
use vstd::arithmetic::div_mod::lemma_mod_division_less_than_divisor;
use vstd::arithmetic::div_mod::lemma_div_pos_is_pos;
use vstd::arithmetic::div_mod::lemma_multiply_divide_le;
use vstd::arithmetic::div_mod::lemma_multiply_divide_lt;
use vstd::arithmetic::mul::lemma_mul_nonnegative;
use vstd::arithmetic::mul::lemma_mul_upper_bound;

use crate::config::{
    BALL_SIZE, BORDER, COLOR, EXPORT_LEN, FRAME_LEN, HEIGHT, PADDLE_HEIGHT, PADDLE_WIDTH, RESCALE,
    SUBPIXELS, TOTAL_HEIGHT, TOTAL_WIDTH, WIDTH,
};
use crate::engine::frame::{Point, SubPoint};

verus! {

/// Grid side of the candidate pixel square a ball can touch: BALL_SIZE + 1.
pub const BALL_GRID: usize = 15;

// ---------------------------------------------------------------------------
// Byte-level model of the frame buffer
// ---------------------------------------------------------------------------

/// Row (in total coordinates, border included) of the pixel that byte `i`
/// belongs to.
pub open spec fn byte_row(i: int) -> int {
    (i / 4) / (TOTAL_WIDTH as int)
}

/// Column (in total coordinates) of the pixel that byte `i` belongs to.
pub open spec fn byte_col(i: int) -> int {
    (i / 4) % (TOTAL_WIDTH as int)
}

/// RGBA channel (0..4) of byte `i`.
pub open spec fn byte_channel(i: int) -> int {
    i % 4
}

/// The byte written for channel `ch` of a pixel painted at intensity
/// `color`: the three color channels get `color`, alpha gets 0xFF.
pub open spec fn rgba_channel(color: u8, ch: int) -> u8 {
    if ch == 3 {
        0xFF
    } else {
        color
    }
}

/// First byte of the pixel at total row `rt`, total column `ct`.
pub open spec fn pixel_offset(rt: int, ct: int) -> int {
    (rt * (TOTAL_WIDTH as int) + ct) * 4
}

proof fn lemma_byte_decompose(rt: int, ct: int, ch: int)
    requires
        0 <= rt < TOTAL_HEIGHT,
        0 <= ct < TOTAL_WIDTH,
        0 <= ch < 4,
    ensures
        byte_row(pixel_offset(rt, ct) + ch) == rt,
        byte_col(pixel_offset(rt, ct) + ch) == ct,
        byte_channel(pixel_offset(rt, ct) + ch) == ch,
        0 <= pixel_offset(rt, ct) + ch < FRAME_LEN,
{
    let w = TOTAL_WIDTH as int;
    let p = rt * w + ct;
    assert(p * 4 + ch == 4 * p + ch) by (nonlinear_arith);
    lemma_fundamental_div_mod_converse(p * 4 + ch, 4, p, ch);
    lemma_fundamental_div_mod_converse(p, w, rt, ct);
    assert(p * 4 + ch < FRAME_LEN) by (nonlinear_arith)
        requires
            p == rt * w + ct,
            0 <= rt < TOTAL_HEIGHT,
            0 <= ct < w,
            0 <= ch < 4,
            w == TOTAL_WIDTH as int,
    ;
}

/// Any byte index is the channel byte of exactly one pixel.
proof fn lemma_byte_compose(i: int)
    requires
        0 <= i < FRAME_LEN,
    ensures
        i == pixel_offset(byte_row(i), byte_col(i)) + byte_channel(i),
        0 <= byte_row(i) < TOTAL_HEIGHT,
        0 <= byte_col(i) < TOTAL_WIDTH,
        0 <= byte_channel(i) < 4,
{
    let w = TOTAL_WIDTH as int;
    lemma_fundamental_div_mod(i, 4);
    lemma_fundamental_div_mod(i / 4, w);
    assert(FRAME_LEN == 1546256);
    assert(i / 4 < 386564) by (nonlinear_arith)
        requires
            0 <= i < 1546256,
    ;
    assert((i / 4) / w < 482) by (nonlinear_arith)
        requires
            0 <= i / 4 < 386564,
            w == 802,
    ;
}

// ---------------------------------------------------------------------------
// set_rgba_color
// ---------------------------------------------------------------------------

/// Set the RGBA bytes of one pixel: color on the three color channels and
/// 0xFF on alpha.
pub fn set_rgba_color(frame: &mut Vec<u8>, offset: usize, color: u8)
    requires
        offset + 4 <= old(frame)@.len(),
        offset + 4 <= usize::MAX,
    ensures
        final(frame)@.len() == old(frame)@.len(),
        final(frame)@[offset as int] == color,
        final(frame)@[offset + 1] == color,
        final(frame)@[offset + 2] == color,
        final(frame)@[offset + 3] == 0xFFu8,
        forall|i: int|
            0 <= i < final(frame)@.len() && !(offset <= i < offset + 4) ==> final(frame)@[i]
                == old(frame)@[i],
{
    frame.set(offset, color);
    frame.set(offset + 1, color);
    frame.set(offset + 2, color);
    frame.set(offset + 3, 0xFF);
}

// ---------------------------------------------------------------------------
// Rectangles
// ---------------------------------------------------------------------------

/// Does the pixel at total row `rt`, total column `ct` lie in the rectangle
/// of `width x height` arena pixels whose top-left arena pixel is `pos`?
pub open spec fn in_rect(pos: Point, width: int, height: int, rt: int, ct: int) -> bool {
    &&& pos.1 + BORDER <= rt < pos.1 + BORDER + height
    &&& pos.0 + BORDER <= ct < pos.0 + BORDER + width
}

/// The buffer after painting the rectangle at intensity `color`.
pub open spec fn rect_paint(s: Seq<u8>, pos: Point, width: int, height: int, color: u8) -> Seq<
    u8,
> {
    Seq::new(
        s.len(),
        |i: int|
            if in_rect(pos, width, height, byte_row(i), byte_col(i)) {
                rgba_channel(color, byte_channel(i))
            } else {
                s[i]
            },
    )
}

/// Like `rect_paint`, but only the first `rows` rows, and within the row
/// after them only the first `cols` columns, are painted yet.
spec fn rect_paint_part(
    s: Seq<u8>,
    pos: Point,
    width: int,
    height: int,
    color: u8,
    rows: int,
    cols: int,
) -> Seq<u8> {
    Seq::new(
        s.len(),
        |i: int|
            if in_rect(pos, width, height, byte_row(i), byte_col(i)) && (byte_row(i) < pos.1
                + BORDER + rows || (byte_row(i) == pos.1 + BORDER + rows && byte_col(i) < pos.0
                + BORDER + cols)) {
                rgba_channel(color, byte_channel(i))
            } else {
                s[i]
            },
    )
}

/// Draw a filled rectangle of `width x height` arena pixels with its
/// top-left corner at arena position `pos`, at intensity `color`.
pub fn draw_rect(rgba_frame: &mut Vec<u8>, pos: Point, width: usize, height: usize, color: u8)
    requires
        old(rgba_frame)@.len() == FRAME_LEN,
        pos.0 + width <= WIDTH,
        pos.1 + height <= HEIGHT,
    ensures
        final(rgba_frame)@ == rect_paint(old(rgba_frame)@, pos, width as int, height as int, color),
{
    let ghost orig = rgba_frame@;
    let mut row = pos.1;
    while row < pos.1 + height
        invariant
            pos.1 <= row <= pos.1 + height,
            pos.0 + width <= WIDTH,
            pos.1 + height <= HEIGHT,
            rgba_frame@.len() == FRAME_LEN,
            rgba_frame@ =~= rect_paint_part(
                orig,
                pos,
                width as int,
                height as int,
                color,
                row - pos.1,
                0,
            ),
        decreases pos.1 + height - row,
    {
        let mut col = pos.0;
        while col < pos.0 + width
            invariant
                pos.0 <= col <= pos.0 + width,
                pos.1 <= row < pos.1 + height,
                pos.0 + width <= WIDTH,
                pos.1 + height <= HEIGHT,
                rgba_frame@.len() == FRAME_LEN,
                rgba_frame@ =~= rect_paint_part(
                    orig,
                    pos,
                    width as int,
                    height as int,
                    color,
                    row - pos.1,
                    col - pos.0,
                ),
            decreases pos.0 + width - col,
        {
            let ghost pre = rgba_frame@;
            let rt = row + BORDER;
            let ct = col + BORDER;
            assert(rt * TOTAL_WIDTH + ct < 386564) by {
                assert(TOTAL_WIDTH == 802 && rt < 482 && ct < 802);
            }
            let offset = (rt * TOTAL_WIDTH + ct) * 4;
            proof {
                lemma_byte_decompose(rt as int, ct as int, 0);
            }
            set_rgba_color(rgba_frame, offset, color);
            proof {
                assert forall|i: int| 0 <= i < FRAME_LEN implies rgba_frame@[i] == rect_paint_part(
                    orig,
                    pos,
                    width as int,
                    height as int,
                    color,
                    row - pos.1,
                    col + 1 - pos.0,
                )[i] by {
                    lemma_byte_compose(i);
                    if offset <= i < offset + 4 {
                        lemma_byte_decompose(rt as int, ct as int, i - offset);
                    }
                }
                assert(rgba_frame@ =~= rect_paint_part(
                    orig,
                    pos,
                    width as int,
                    height as int,
                    color,
                    row - pos.1,
                    col + 1 - pos.0,
                ));
            }
            col = col + 1;
        }
        proof {
            assert(rgba_frame@ =~= rect_paint_part(
                orig,
                pos,
                width as int,
                height as int,
                color,
                row + 1 - pos.1,
                0,
            ));
        }
        row = row + 1;
    }
    proof {
        assert(rgba_frame@ =~= rect_paint(orig, pos, width as int, height as int, color));
    }
}

// ---------------------------------------------------------------------------
// Border
// ---------------------------------------------------------------------------

/// Does the pixel at total row `rt`, total column `ct` lie on the border
/// frame around the arena?
pub open spec fn in_border(rt: int, ct: int) -> bool {
    ||| rt < BORDER
    ||| rt >= TOTAL_HEIGHT - BORDER
    ||| ct < BORDER
    ||| ct >= TOTAL_WIDTH - BORDER
}

/// The buffer after painting the border at full intensity.
pub open spec fn border_paint(s: Seq<u8>) -> Seq<u8> {
    Seq::new(
        s.len(),
        |i: int|
            if in_border(byte_row(i), byte_col(i)) {
                rgba_channel(COLOR, byte_channel(i))
            } else {
                s[i]
            },
    )
}

/// Like `border_paint`, but only pixels before total row `rows`, and within
/// that row before total column `cols`, are painted yet.
spec fn border_paint_part(s: Seq<u8>, rows: int, cols: int) -> Seq<u8> {
    Seq::new(
        s.len(),
        |i: int|
            if in_border(byte_row(i), byte_col(i)) && (byte_row(i) < rows || (byte_row(i) == rows
                && byte_col(i) < cols)) {
                rgba_channel(COLOR, byte_channel(i))
            } else {
                s[i]
            },
    )
}

/// Paint the border frame around the arena at full intensity.
pub fn draw_border(rgba_frame: &mut Vec<u8>)
    requires
        old(rgba_frame)@.len() == FRAME_LEN,
    ensures
        final(rgba_frame)@ == border_paint(old(rgba_frame)@),
{
    let ghost orig = rgba_frame@;
    let mut rt: usize = 0;
    while rt < TOTAL_HEIGHT
        invariant
            0 <= rt <= TOTAL_HEIGHT,
            rgba_frame@.len() == FRAME_LEN,
            rgba_frame@ =~= border_paint_part(orig, rt as int, 0),
        decreases TOTAL_HEIGHT - rt,
    {
        let mut ct: usize = 0;
        while ct < TOTAL_WIDTH
            invariant
                0 <= ct <= TOTAL_WIDTH,
                0 <= rt < TOTAL_HEIGHT,
                rgba_frame@.len() == FRAME_LEN,
                rgba_frame@ =~= border_paint_part(orig, rt as int, ct as int),
            decreases TOTAL_WIDTH - ct,
        {
            if rt < BORDER || rt >= TOTAL_HEIGHT - BORDER || ct < BORDER || ct >= TOTAL_WIDTH
                - BORDER {
                assert(rt * TOTAL_WIDTH + ct < 386564) by {
                    assert(TOTAL_WIDTH == 802 && rt < 482 && ct < 802);
                }
                let offset = (rt * TOTAL_WIDTH + ct) * 4;
                proof {
                    lemma_byte_decompose(rt as int, ct as int, 0);
                }
                set_rgba_color(rgba_frame, offset, COLOR);
                proof {
                    assert forall|i: int| 0 <= i < FRAME_LEN implies rgba_frame@[i]
                        == border_paint_part(orig, rt as int, ct + 1)[i] by {
                        lemma_byte_compose(i);
                        if (rt * TOTAL_WIDTH + ct) * 4 <= i < (rt * TOTAL_WIDTH + ct) * 4 + 4 {
                            lemma_byte_decompose(rt as int, ct as int, i - (rt * TOTAL_WIDTH + ct)
                                * 4);
                        }
                    }
                    assert(rgba_frame@ =~= border_paint_part(orig, rt as int, ct + 1));
                }
            } else {
                proof {
                    assert forall|i: int| 0 <= i < FRAME_LEN implies rgba_frame@[i]
                        == border_paint_part(orig, rt as int, ct + 1)[i] by {
                        lemma_byte_compose(i);
                    }
                    assert(rgba_frame@ =~= border_paint_part(orig, rt as int, ct + 1));
                }
            }
            ct = ct + 1;
        }
        proof {
            assert forall|i: int| 0 <= i < FRAME_LEN implies border_paint_part(
                orig,
                rt as int,
                TOTAL_WIDTH as int,
            )[i] == border_paint_part(orig, rt + 1, 0)[i] by {
                lemma_byte_compose(i);
            }
            assert(rgba_frame@ =~= border_paint_part(orig, rt + 1, 0));
        }
        rt = rt + 1;
    }
    proof {
        assert forall|i: int| 0 <= i < FRAME_LEN implies border_paint_part(
            orig,
            TOTAL_HEIGHT as int,
            0,
        )[i] == border_paint(orig)[i] by {
            lemma_byte_compose(i);
        }
        assert(rgba_frame@ =~= border_paint(orig));
    }
}

// ---------------------------------------------------------------------------
// Ball: coverage-based anti-aliasing
// ---------------------------------------------------------------------------

/// Overlap, in subpixels, between the ball's continuous extent of
/// `BALL_SIZE` pixels starting at subpixel coordinate `p` and the pixel cell
/// `k` steps after the ball's floor pixel, along one axis.
pub open spec fn coverage(p: int, k: int) -> int {
    let s = SUBPIXELS as int;
    let x = (p / s + k) * s;
    if x < p {
        s - (p - x)
    } else if x > p + (BALL_SIZE - 1) * s {
        s - (x - (p + (BALL_SIZE - 1) * s))
    } else {
        s
    }
}

/// The intensity painted for the candidate pixel at grid position
/// (`row`, `col`) of a ball at subpixel position `pos`: the product of the
/// fractional overlaps and the target intensity, rounded, and discarded
/// (set to zero) below half the target intensity.
pub open spec fn ball_pixel_intensity(pos: SubPoint, row: int, col: int, color: u8) -> u8 {
    if color == 0 {
        0
    } else {
        let s2 = (SUBPIXELS as int) * (SUBPIXELS as int);
        let v = (coverage(pos.0 as int, col) * coverage(pos.1 as int, row) * color + s2 / 2)
            / s2;
        if v >= COLOR / 2 {
            v as u8
        } else {
            0
        }
    }
}

proof fn lemma_coverage_bounds(p: int, k: int)
    requires
        p >= 0,
        0 <= k <= BALL_SIZE,
    ensures
        0 <= coverage(p, k) <= SUBPIXELS,
{
    let s = SUBPIXELS as int;
    let x = (p / s + k) * s;
    lemma_fundamental_div_mod(p, s);
    lemma_mod_division_less_than_divisor(p, s);
    assert(x == p - p % s + k * s) by (nonlinear_arith)
        requires
            p == s * (p / s) + p % s,
            x == (p / s + k) * s,
    ;
    assert(0 <= k * s <= 14 * s) by (nonlinear_arith)
        requires
            0 <= k <= 14,
            s > 0,
    ;
}

/// For a ball whose coordinate is exactly pixel-aligned, every cell of the
/// candidate grid overlaps the ball either fully or not at all.
proof fn lemma_aligned_coverage(p: int, k: int)
    requires
        p >= 0,
        p % (SUBPIXELS as int) == 0,
        0 <= k <= BALL_SIZE,
    ensures
        coverage(p, k) == if k < BALL_SIZE {
            SUBPIXELS as int
        } else {
            0
        },
{
    let s = SUBPIXELS as int;
    lemma_fundamental_div_mod(p, s);
    assert((p / s) * s == p) by (nonlinear_arith)
        requires
            p == s * (p / s) + p % s,
            p % s == 0,
    ;
    assert((p / s + k) * s == p + k * s) by (nonlinear_arith)
        requires
            (p / s) * s == p,
    ;
    assert(0 <= k * s && (k < 14 ==> k * s <= 13 * s) && (k == 14 ==> k * s == 14 * s))
        by (nonlinear_arith)
        requires
            0 <= k <= 14,
            s > 0,
    ;
}

/// A ball at an exactly pixel-aligned position paints full intensity on
/// exactly its `BALL_SIZE x BALL_SIZE` footprint pixels and zero on the
/// extra row and column of the candidate grid: alignment leaves no
/// fractional edge pixels.
pub proof fn lemma_aligned_ball_intensity(pos: SubPoint, row: int, col: int)
    requires
        pos.0 >= 0,
        pos.1 >= 0,
        pos.0 as int % (SUBPIXELS as int) == 0,
        pos.1 as int % (SUBPIXELS as int) == 0,
        0 <= row < BALL_GRID,
        0 <= col < BALL_GRID,
    ensures
        ball_pixel_intensity(pos, row, col, COLOR) == if row < BALL_SIZE && col < BALL_SIZE {
            COLOR
        } else {
            0u8
        },
{
    let s = SUBPIXELS as int;
    let s2 = s * s;
    lemma_aligned_coverage(pos.0 as int, col);
    lemma_aligned_coverage(pos.1 as int, row);
    assert(s2 == 2363152308430225) by (nonlinear_arith)
        requires
            s == 48612265,
            s2 == s * s,
    ;
    if row < BALL_SIZE && col < BALL_SIZE {
        assert(s * s * 255 == 602603838649707375) by (nonlinear_arith)
            requires
                s == 48612265,
        ;
        assert((602603838649707375 + 2363152308430225int / 2) / 2363152308430225int == 255);
    } else {
        assert(coverage(pos.0 as int, col) * coverage(pos.1 as int, row) == 0) by (nonlinear_arith)
            requires
                coverage(pos.0 as int, col) == 0 || coverage(pos.1 as int, row) == 0,
        ;
        assert((0 + 2363152308430225int / 2) / 2363152308430225int == 0);
    }
}

/// Exact overlap in subpixels between one pixel cell of the candidate grid
/// and the ball's extent along one axis.
fn coverage_units(p: u64, k: usize) -> (w: u64)
    requires
        p as int <= (WIDTH - BALL_SIZE) * (SUBPIXELS as int),
        k <= BALL_SIZE,
    ensures
        w as int == coverage(p as int, k as int),
        w <= SUBPIXELS as u64,
{
    proof {
        lemma_coverage_bounds(p as int, k as int);
        lemma_fundamental_div_mod(p as int, SUBPIXELS as int);
        lemma_mod_division_less_than_divisor(p as int, SUBPIXELS as int);
        lemma_multiply_divide_le(p as int, SUBPIXELS as int, (WIDTH - BALL_SIZE) as int);
        assert((p as int) - (p as int) % (SUBPIXELS as int) == (SUBPIXELS as int) * ((p as int)
            / (SUBPIXELS as int))) by (nonlinear_arith)
            requires
                p as int == (SUBPIXELS as int) * ((p as int) / (SUBPIXELS as int)) + (p as int)
                    % (SUBPIXELS as int),
        ;
    }
    let s = SUBPIXELS as u64;
    let x = (p / s + k as u64) * s;
    if x < p {
        s - (p - x)
    } else {
        let rb = p + 13 * s;
        if x > rb {
            s - (x - rb)
        } else {
            s
        }
    }
}

/// Intensity of one candidate pixel of the ball's anti-aliased footprint.
fn ball_pixel_value(pos: SubPoint, row: usize, col: usize, color: u8) -> (c: u8)
    requires
        0 <= pos.0 <= (WIDTH - BALL_SIZE) * (SUBPIXELS as int),
        0 <= pos.1 <= (HEIGHT - BALL_SIZE) * (SUBPIXELS as int),
        row < BALL_GRID,
        col < BALL_GRID,
    ensures
        c == ball_pixel_intensity(pos, row as int, col as int, color),
{
    if color == 0 {
        return 0;
    }
    let s = SUBPIXELS as u64;
    let w = coverage_units(pos.0 as u64, col);
    let h = coverage_units(pos.1 as u64, row);
    let s2 = s * s;
    proof {
        lemma_mul_upper_bound(w as int, s as int, h as int, s as int);
        lemma_mul_nonnegative(w as int, h as int);
        assert((s as int) * (s as int) == 2363152308430225) by (nonlinear_arith)
            requires
                s == 48612265u64,
        ;
        assert((w as int) * (h as int) * (color as int) <= 2363152308430225int * 255)
            by (nonlinear_arith)
            requires
                0 <= (w as int) * (h as int) <= 2363152308430225,
                0 < color <= 255,
        ;
    }
    let num = w * h * (color as u64) + s2 / 2;
    let v = num / s2;
    proof {
        lemma_div_is_ordered(
            num as int,
            2363152308430225int * 255 + (s2 as int) / 2,
            s2 as int,
        );
        assert((2363152308430225int * 255 + 2363152308430225int / 2) / 2363152308430225int
            == 255);
    }
    if v >= (COLOR / 2) as u64 {
        v as u8
    } else {
        0
    }
}

/// Compute the floor pixel of the ball and the intensities of all
/// `BALL_GRID x BALL_GRID` candidate pixels its footprint can touch.
pub fn calc_ball_pixels(pos: SubPoint, color: u8) -> (r: (Point, Vec<Vec<u8>>))
    requires
        0 <= pos.0 <= (WIDTH - BALL_SIZE) * (SUBPIXELS as int),
        0 <= pos.1 <= (HEIGHT - BALL_SIZE) * (SUBPIXELS as int),
    ensures
        r.0.0 as int == pos.0 as int / (SUBPIXELS as int),
        r.0.1 as int == pos.1 as int / (SUBPIXELS as int),
        r.0.0 <= WIDTH - BALL_SIZE,
        r.0.1 <= HEIGHT - BALL_SIZE,
        r.1@.len() == BALL_GRID,
        forall|i: int| 0 <= i < BALL_GRID ==> (#[trigger] r.1@[i])@.len() == BALL_GRID,
        forall|i: int, j: int|
            0 <= i < BALL_GRID && 0 <= j < BALL_GRID ==> r.1@[i]@[j] == ball_pixel_intensity(
                pos,
                i,
                j,
                color,
            ),
{
    proof {
        lemma_multiply_divide_le(pos.0 as int, SUBPIXELS as int, (WIDTH - BALL_SIZE) as int);
        lemma_multiply_divide_le(pos.1 as int, SUBPIXELS as int, (HEIGHT - BALL_SIZE) as int);
    }
    let s = SUBPIXELS as u64;
    let start = Point(((pos.0 as u64) / s) as usize, ((pos.1 as u64) / s) as usize);
    let mut grid: Vec<Vec<u8>> = Vec::new();
    let mut row: usize = 0;
    while row < BALL_GRID
        invariant
            0 <= pos.0 <= (WIDTH - BALL_SIZE) * (SUBPIXELS as int),
            0 <= pos.1 <= (HEIGHT - BALL_SIZE) * (SUBPIXELS as int),
            row <= BALL_GRID,
            grid@.len() == row,
            forall|i: int| 0 <= i < row ==> (#[trigger] grid@[i])@.len() == BALL_GRID,
            forall|i: int, j: int|
                0 <= i < row && 0 <= j < BALL_GRID ==> grid@[i]@[j] == ball_pixel_intensity(
                    pos,
                    i,
                    j,
                    color,
                ),
        decreases BALL_GRID - row,
    {
        let mut line: Vec<u8> = Vec::new();
        let mut col: usize = 0;
        while col < BALL_GRID
            invariant
                0 <= pos.0 <= (WIDTH - BALL_SIZE) * (SUBPIXELS as int),
                0 <= pos.1 <= (HEIGHT - BALL_SIZE) * (SUBPIXELS as int),
                row < BALL_GRID,
                col <= BALL_GRID,
                line@.len() == col,
                forall|j: int|
                    0 <= j < col ==> line@[j] == ball_pixel_intensity(
                        pos,
                        row as int,
                        j,
                        color,
                    ),
            decreases BALL_GRID - col,
        {
            let c = ball_pixel_value(pos, row, col, color);
            line.push(c);
            col = col + 1;
        }
        grid.push(line);
        row = row + 1;
    }
    (start, grid)
}

// ---------------------------------------------------------------------------
// draw_ball
// ---------------------------------------------------------------------------

/// Does the pixel at total row `rt`, total column `ct` belong to the
/// candidate grid of a ball at subpixel position `pos`? The grid row that
/// would fall on the bottom border is left out.
pub open spec fn in_ball_grid(pos: SubPoint, rt: int, ct: int) -> bool {
    let s = SUBPIXELS as int;
    let sx = pos.0 as int / s;
    let sy = pos.1 as int / s;
    &&& sy + BORDER <= rt < sy + BORDER + BALL_GRID
    &&& rt != TOTAL_HEIGHT - BORDER
    &&& sx + BORDER <= ct < sx + BORDER + BALL_GRID
}

/// The buffer after painting the ball's anti-aliased footprint.
pub open spec fn ball_paint(s: Seq<u8>, pos: SubPoint, color: u8) -> Seq<u8> {
    let sp = SUBPIXELS as int;
    Seq::new(
        s.len(),
        |i: int|
            if in_ball_grid(pos, byte_row(i), byte_col(i)) {
                rgba_channel(
                    ball_pixel_intensity(
                        pos,
                        byte_row(i) - pos.1 as int / sp - BORDER,
                        byte_col(i) - pos.0 as int / sp - BORDER,
                        color,
                    ),
                    byte_channel(i),
                )
            } else {
                s[i]
            },
    )
}

/// Like `ball_paint`, but only the first `rows` grid rows, and within the
/// row after them only the first `cols` grid columns, are painted yet.
spec fn ball_paint_part(s: Seq<u8>, pos: SubPoint, color: u8, rows: int, cols: int) -> Seq<u8> {
    let sp = SUBPIXELS as int;
    Seq::new(
        s.len(),
        |i: int|
            if in_ball_grid(pos, byte_row(i), byte_col(i)) && (byte_row(i) - pos.1 as int / sp
                - BORDER < rows || (byte_row(i) - pos.1 as int / sp - BORDER == rows && byte_col(
                i,
            ) - pos.0 as int / sp - BORDER < cols)) {
                rgba_channel(
                    ball_pixel_intensity(
                        pos,
                        byte_row(i) - pos.1 as int / sp - BORDER,
                        byte_col(i) - pos.0 as int / sp - BORDER,
                        color,
                    ),
                    byte_channel(i),
                )
            } else {
                s[i]
            },
    )
}

/// Draw the ball at subpixel position `pos` with coverage-based
/// anti-aliasing at intensity `color`.
pub fn draw_ball(rgba_frame: &mut Vec<u8>, pos: SubPoint, color: u8)
    requires
        old(rgba_frame)@.len() == FRAME_LEN,
        0 <= pos.0 <= (WIDTH - BALL_SIZE) * (SUBPIXELS as int),
        0 <= pos.1 <= (HEIGHT - BALL_SIZE) * (SUBPIXELS as int),
    ensures
        final(rgba_frame)@ == ball_paint(old(rgba_frame)@, pos, color),
{
    let ghost orig = rgba_frame@;
    let (start_pos, ball_pixels) = calc_ball_pixels(pos, color);
    let mut row: usize = 0;
    while row < BALL_GRID
        invariant
            row <= BALL_GRID,
            start_pos.0 as int == pos.0 as int / (SUBPIXELS as int),
            start_pos.1 as int == pos.1 as int / (SUBPIXELS as int),
            start_pos.0 <= WIDTH - BALL_SIZE,
            start_pos.1 <= HEIGHT - BALL_SIZE,
            ball_pixels@.len() == BALL_GRID,
            forall|i: int| 0 <= i < BALL_GRID ==> (#[trigger] ball_pixels@[i])@.len() == BALL_GRID,
            forall|i: int, j: int|
                0 <= i < BALL_GRID && 0 <= j < BALL_GRID ==> ball_pixels@[i]@[j]
                    == ball_pixel_intensity(pos, i, j, color),
            rgba_frame@.len() == FRAME_LEN,
            rgba_frame@ =~= ball_paint_part(orig, pos, color, row as int, 0),
        decreases BALL_GRID - row,
    {
        let rt = start_pos.1 + row + BORDER;
        if rt != TOTAL_HEIGHT - BORDER {
            let mut col: usize = 0;
            while col < BALL_GRID
                invariant
                    row < BALL_GRID,
                    col <= BALL_GRID,
                    rt == start_pos.1 + row + BORDER,
                    rt != TOTAL_HEIGHT - BORDER,
                    start_pos.0 as int == pos.0 as int / (SUBPIXELS as int),
                    start_pos.1 as int == pos.1 as int / (SUBPIXELS as int),
                    start_pos.0 <= WIDTH - BALL_SIZE,
                    start_pos.1 <= HEIGHT - BALL_SIZE,
                    ball_pixels@.len() == BALL_GRID,
                    forall|i: int|
                        0 <= i < BALL_GRID ==> (#[trigger] ball_pixels@[i])@.len() == BALL_GRID,
                    forall|i: int, j: int|
                        0 <= i < BALL_GRID && 0 <= j < BALL_GRID ==> ball_pixels@[i]@[j]
                            == ball_pixel_intensity(pos, i, j, color),
                    rgba_frame@.len() == FRAME_LEN,
                    rgba_frame@ =~= ball_paint_part(orig, pos, color, row as int, col as int),
                decreases BALL_GRID - col,
            {
                let ct = start_pos.0 + col + BORDER;
                assert(rt * TOTAL_WIDTH + ct < 386564) by {
                    assert(TOTAL_WIDTH == 802 && rt < 482 && ct < 802);
                }
                let offset = (rt * TOTAL_WIDTH + ct) * 4;
                proof {
                    lemma_byte_decompose(rt as int, ct as int, 0);
                    lemma_byte_decompose(rt as int, ct as int, 3);
                }
                let value = ball_pixels[row][col];
                set_rgba_color(rgba_frame, offset, value);
                proof {
                    assert forall|i: int| 0 <= i < FRAME_LEN implies rgba_frame@[i]
                        == ball_paint_part(orig, pos, color, row as int, col + 1)[i] by {
                        lemma_byte_compose(i);
                        if offset <= i < offset + 4 {
                            lemma_byte_decompose(rt as int, ct as int, i - offset);
                        }
                    }
                    assert(rgba_frame@ =~= ball_paint_part(orig, pos, color, row as int, col + 1));
                }
                col = col + 1;
            }
            proof {
                assert forall|i: int| 0 <= i < FRAME_LEN implies ball_paint_part(
                    orig,
                    pos,
                    color,
                    row as int,
                    BALL_GRID as int,
                )[i] == ball_paint_part(orig, pos, color, row + 1, 0)[i] by {
                    lemma_byte_compose(i);
                }
                assert(rgba_frame@ =~= ball_paint_part(orig, pos, color, row + 1, 0));
            }
        } else {
            proof {
                assert forall|i: int| 0 <= i < FRAME_LEN implies ball_paint_part(
                    orig,
                    pos,
                    color,
                    row as int,
                    0,
                )[i] == ball_paint_part(orig, pos, color, row + 1, 0)[i] by {
                    lemma_byte_compose(i);
                }
                assert(rgba_frame@ =~= ball_paint_part(orig, pos, color, row + 1, 0));
            }
        }
        row = row + 1;
    }
    proof {
        assert forall|i: int| 0 <= i < FRAME_LEN implies ball_paint_part(
            orig,
            pos,
            color,
            BALL_GRID as int,
            0,
        )[i] == ball_paint(orig, pos, color)[i] by {
            lemma_byte_compose(i);
        }
        assert(rgba_frame@ =~= ball_paint(orig, pos, color));
    }
}

// ---------------------------------------------------------------------------
// Downscaled state export
// ---------------------------------------------------------------------------
//
// Each export cell covers RESCALE x RESCALE source pixels. For every cell
// an object's bounding box overlaps, the exporter writes the object's
// overlap area with that cell, in subpixels squared: dividing a cell's
// value by (RESCALE * SUBPIXELS)^2 gives the proportion of the cell the
// object covers, in [0, 1].

/// Overlap, in subpixels, between the extent `[p, p + size_px px)` of an
/// object and export cell `c` along one axis: the full cell width minus
/// the left and right overhangs.
pub open spec fn cell_overlap(p: int, size_px: int, c: int) -> int {
    let s = SUBPIXELS as int;
    let cell = RESCALE * s;
    let left = c * cell;
    let right = left + cell;
    let w1 = if left < p {
        cell - (p - left)
    } else {
        cell
    };
    if right > p + size_px * s {
        w1 - (right - (p + size_px * s))
    } else {
        w1
    }
}

/// First export cell the object's extent can touch along one axis.
pub open spec fn export_lo(p: int) -> int {
    (p / (SUBPIXELS as int)) / (RESCALE as int)
}

/// Last export cell the object's extent touches along one axis: from the
/// ceiling pixel of the extent's end, clamped to the arena.
pub open spec fn export_hi(p: int, size_px: int, limit_px: int) -> int {
    let ceilp = (p + SUBPIXELS - 1) / (SUBPIXELS as int);
    let m = if ceilp + size_px < limit_px {
        ceilp + size_px
    } else {
        limit_px
    };
    (m + RESCALE - 1) / (RESCALE as int) - 1
}

/// The export grid after writing one object's overlap areas: an object of
/// `sx x sy` pixels whose top-left corner is at `(px, py)` subpixels.
pub open spec fn scaled_object_paint(s: Seq<i64>, px: int, py: int, sx: int, sy: int) -> Seq<
    i64,
> {
    Seq::new(
        s.len(),
        |idx: int|
            if export_lo(px) <= idx % 200 <= export_hi(px, sx, WIDTH as int) && export_lo(py)
                <= idx / 200 <= export_hi(py, sy, HEIGHT as int) {
                (cell_overlap(px, sx, idx % 200) * cell_overlap(py, sy, idx / 200)) as i64
            } else {
                s[idx]
            },
    )
}

/// Like `scaled_object_paint`, but only cells before column `xc`, and
/// within that column before row `yc`, are written yet.
spec fn scaled_paint_part(
    s: Seq<i64>,
    px: int,
    py: int,
    sx: int,
    sy: int,
    xc: int,
    yc: int,
) -> Seq<i64> {
    Seq::new(
        s.len(),
        |idx: int|
            if export_lo(px) <= idx % 200 <= export_hi(px, sx, WIDTH as int) && export_lo(py)
                <= idx / 200 <= export_hi(py, sy, HEIGHT as int) && (idx % 200 < xc || (idx % 200
                == xc && idx / 200 < yc)) {
                (cell_overlap(px, sx, idx % 200) * cell_overlap(py, sy, idx / 200)) as i64
            } else {
                s[idx]
            },
    )
}

proof fn lemma_export_decompose(cx: int, cy: int)
    requires
        0 <= cx < 200,
        0 <= cy < 120,
    ensures
        (cy * 200 + cx) / 200 == cy,
        (cy * 200 + cx) % 200 == cx,
        0 <= cy * 200 + cx < EXPORT_LEN,
{
    lemma_fundamental_div_mod_converse(cy * 200 + cx, 200, cy, cx);
    assert(cy * 200 + cx < 24000) by (nonlinear_arith)
        requires
            0 <= cx < 200,
            0 <= cy < 120,
    ;
}

proof fn lemma_export_compose(idx: int)
    requires
        0 <= idx < EXPORT_LEN,
    ensures
        idx == (idx / 200) * 200 + idx % 200,
        0 <= idx / 200 < 120,
        0 <= idx % 200 < 200,
{
    lemma_fundamental_div_mod(idx, 200);
    assert(idx / 200 < 120) by (nonlinear_arith)
        requires
            0 <= idx < 24000,
    ;
}

/// Bounds on the export range and the overhangs: within the computed cell
/// range, each overhang is at most one cell, so every written overlap lies
/// in `[-RESCALE * SUBPIXELS, RESCALE * SUBPIXELS]`.
proof fn lemma_export_cell_bounds(p: int, size_px: int, limit_px: int, c: int)
    requires
        0 <= p,
        p <= (limit_px - size_px) * (SUBPIXELS as int),
        4 <= size_px <= limit_px <= 800,
        limit_px % 4 == 0,
        export_lo(p) <= c <= export_hi(p, size_px, limit_px),
    ensures
        0 <= c < limit_px / 4,
        p - c * 4 * (SUBPIXELS as int) <= 4 * (SUBPIXELS as int),
        (c * 4 + 4) * (SUBPIXELS as int) - (p + size_px * (SUBPIXELS as int)) <= 4 * (
        SUBPIXELS as int),
        -4 * (SUBPIXELS as int) <= cell_overlap(p, size_px, c) <= 4 * (SUBPIXELS as int),
{
    let s = SUBPIXELS as int;
    let fl = p / s;
    let ceilp = (p + s - 1) / s;
    let m = if ceilp + size_px < limit_px {
        ceilp + size_px
    } else {
        limit_px
    };
    lemma_fundamental_div_mod(p, s);
    lemma_mod_division_less_than_divisor(p, s);
    lemma_fundamental_div_mod(fl, 4);
    lemma_mod_division_less_than_divisor(fl, 4);
    lemma_fundamental_div_mod(p + s - 1, s);
    lemma_mod_division_less_than_divisor(p + s - 1, s);
    lemma_fundamental_div_mod(m + 3, 4);
    lemma_mod_division_less_than_divisor(m + 3, 4);
    lemma_div_is_ordered(m + 3, limit_px + 3, 4);
    lemma_fundamental_div_mod_converse(limit_px + 3, 4, limit_px / 4, 3);
    // 4 * export_lo(p) >= fl - 3 and fl * s >= p - s + 1
    assert(4 * (fl / 4) >= fl - 3);
    assert(s * fl >= p - s + 1);
    assert(c * 4 * s >= (fl - 3) * s) by (nonlinear_arith)
        requires
            4 * c >= 4 * (fl / 4),
            4 * (fl / 4) >= fl - 3,
            s > 0,
            c * 4 * s == (4 * c) * s,
    ;
    assert((fl - 3) * s == fl * s - 3 * s) by (nonlinear_arith);
    assert(fl * s == s * fl) by (nonlinear_arith);
    // right side: 4 * (c + 1) <= m + 3, ceilp * s <= p + s - 1
    assert(4 * (c + 1) <= 4 * ((m + 3) / 4));
    assert(4 * ((m + 3) / 4) <= m + 3);
    assert(s * ceilp <= p + s - 1);
    assert((c * 4 + 4) * s <= (m + 3) * s) by (nonlinear_arith)
        requires
            c * 4 + 4 <= m + 3,
            s > 0,
    ;
    assert((m + 3) * s <= (ceilp + size_px + 3) * s) by (nonlinear_arith)
        requires
            m <= ceilp + size_px,
            s > 0,
    ;
    assert((ceilp + size_px + 3) * s == s * ceilp + size_px * s + 3 * s) by (nonlinear_arith);
}

/// Write the fractional-overlap footprint of the ball into the export
/// grid: each overlapped cell receives the overlap area in subpixels
/// squared; other cells are unchanged.
pub fn draw_scaled_ball(scaled_frame: &mut Vec<i64>, pos: SubPoint)
    requires
        old(scaled_frame)@.len() == EXPORT_LEN,
        0 <= pos.0 <= (WIDTH - BALL_SIZE) * (SUBPIXELS as int),
        0 <= pos.1 <= (HEIGHT - BALL_SIZE) * (SUBPIXELS as int),
    ensures
        final(scaled_frame)@ == scaled_object_paint(
            old(scaled_frame)@,
            pos.0 as int,
            pos.1 as int,
            BALL_SIZE as int,
            BALL_SIZE as int,
        ),
{
    draw_scaled_object(scaled_frame, pos.0, pos.1, BALL_SIZE, BALL_SIZE);
}

/// Write the fractional-overlap footprint of a paddle into the export
/// grid, as `draw_scaled_ball` does for the ball.
pub fn draw_scaled_paddle(scaled_frame: &mut Vec<i64>, pos: Point)
    requires
        old(scaled_frame)@.len() == EXPORT_LEN,
        pos.0 + PADDLE_WIDTH <= WIDTH,
        pos.1 + PADDLE_HEIGHT <= HEIGHT,
    ensures
        final(scaled_frame)@ == scaled_object_paint(
            old(scaled_frame)@,
            pos.0 * (SUBPIXELS as int),
            pos.1 * (SUBPIXELS as int),
            PADDLE_WIDTH as int,
            PADDLE_HEIGHT as int,
        ),
{
    proof {
        assert(pos.0 * (SUBPIXELS as int) <= (WIDTH - PADDLE_WIDTH) * (SUBPIXELS as int))
            by (nonlinear_arith)
            requires
                pos.0 + PADDLE_WIDTH <= WIDTH,
                SUBPIXELS > 0,
        ;
        assert(pos.1 * (SUBPIXELS as int) <= (HEIGHT - PADDLE_HEIGHT) * (SUBPIXELS as int))
            by (nonlinear_arith)
            requires
                pos.1 + PADDLE_HEIGHT <= HEIGHT,
                SUBPIXELS > 0,
        ;
    }
    draw_scaled_object(
        scaled_frame,
        (pos.0 as i64) * SUBPIXELS,
        (pos.1 as i64) * SUBPIXELS,
        PADDLE_WIDTH,
        PADDLE_HEIGHT,
    );
}

/// One axis of the export range: the first and last overlapped cells.
fn export_range(p: i64, size_px: usize, limit_px: usize) -> (r: (usize, usize))
    requires
        0 <= p,
        p as int <= (limit_px - size_px) * (SUBPIXELS as int),
        4 <= size_px <= limit_px <= 800,
        limit_px % 4 == 0,
    ensures
        r.0 as int == export_lo(p as int),
        r.1 as int == export_hi(p as int, size_px as int, limit_px as int),
        r.0 <= 200,
        r.1 < limit_px / 4,
{
    proof {
        lemma_multiply_divide_le(p as int, SUBPIXELS as int, (limit_px - size_px) as int);
        lemma_div_is_ordered(
            (p as int) / (SUBPIXELS as int),
            (limit_px - size_px) as int,
            4,
        );
        lemma_div_is_ordered(p + SUBPIXELS - 1, (limit_px - size_px + 1) * (SUBPIXELS as int) - 1, SUBPIXELS as int);
        lemma_multiply_divide_lt(
            (limit_px - size_px + 1) * (SUBPIXELS as int) - 1,
            SUBPIXELS as int,
            (limit_px - size_px + 1) as int,
        );
        lemma_div_pos_is_pos(p as int, SUBPIXELS as int);
        lemma_div_pos_is_pos((p as int) / (SUBPIXELS as int), 4);
        lemma_div_pos_is_pos(p + SUBPIXELS - 1, SUBPIXELS as int);
        lemma_div_is_ordered(7, ({
            let ceilp = (p + SUBPIXELS - 1) / (SUBPIXELS as int);
            if ceilp + size_px < limit_px {
                ceilp + size_px
            } else {
                limit_px as int
            }
        }) + 3, 4);
        lemma_div_is_ordered(({
            let ceilp = (p + SUBPIXELS - 1) / (SUBPIXELS as int);
            if ceilp + size_px < limit_px {
                ceilp + size_px
            } else {
                limit_px as int
            }
        }) + 3, limit_px + 3, 4);
        lemma_fundamental_div_mod_converse(limit_px + 3, 4, limit_px as int / 4, 3);
        lemma_fundamental_div_mod(limit_px as int, 4);
    }
    let lo = (((p as u64) / (SUBPIXELS as u64)) as usize) / RESCALE;
    let ceil_px = (((p as u64 + (SUBPIXELS as u64) - 1) / (SUBPIXELS as u64))) as usize;
    let m = if ceil_px + size_px <= limit_px {
        ceil_px + size_px
    } else {
        limit_px
    };
    let hi = (m + RESCALE - 1) / RESCALE - 1;
    (lo, hi)
}

/// Exact overlap between export cell `c` and the object extent starting
/// at `p`, along one axis.
fn cell_overlap_units(p: i64, size_px: usize, c: usize, limit_px: usize) -> (w: i64)
    requires
        0 <= p,
        p as int <= (limit_px - size_px) * (SUBPIXELS as int),
        4 <= size_px <= limit_px <= 800,
        limit_px % 4 == 0,
        export_lo(p as int) <= c <= export_hi(p as int, size_px as int, limit_px as int),
    ensures
        w as int == cell_overlap(p as int, size_px as int, c as int),
        -4 * (SUBPIXELS as int) <= w <= 4 * (SUBPIXELS as int),
{
    proof {
        lemma_export_cell_bounds(p as int, size_px as int, limit_px as int, c as int);
    }
    let cell: i64 = 4 * SUBPIXELS;
    let left: i64 = (c as i64) * 4 * SUBPIXELS;
    let right: i64 = left + cell;
    let extent_end: i64 = p + (size_px as i64) * SUBPIXELS;
    let w1 = if left < p {
        cell - (p - left)
    } else {
        cell
    };
    if right > extent_end {
        w1 - (right - extent_end)
    } else {
        w1
    }
}

/// Write the fractional-overlap footprint of an object of `sx x sy`
/// pixels, whose top-left corner is at `(px, py)` subpixels, into the
/// export grid.
fn draw_scaled_object(scaled_frame: &mut Vec<i64>, px: i64, py: i64, sx: usize, sy: usize)
    requires
        old(scaled_frame)@.len() == EXPORT_LEN,
        0 <= px,
        px as int <= (WIDTH - sx) * (SUBPIXELS as int),
        0 <= py,
        py as int <= (HEIGHT - sy) * (SUBPIXELS as int),
        4 <= sx <= WIDTH,
        4 <= sy <= HEIGHT,
    ensures
        final(scaled_frame)@ == scaled_object_paint(
            old(scaled_frame)@,
            px as int,
            py as int,
            sx as int,
            sy as int,
        ),
{
    let ghost orig = scaled_frame@;
    let (x_lo, x_hi) = export_range(px, sx, WIDTH);
    let (y_lo, y_hi) = export_range(py, sy, HEIGHT);
    let mut x = x_lo;
    while x <= x_hi
        invariant
            old(scaled_frame)@.len() == EXPORT_LEN,
            0 <= px,
            px as int <= (WIDTH - sx) * (SUBPIXELS as int),
            0 <= py,
            py as int <= (HEIGHT - sy) * (SUBPIXELS as int),
            4 <= sx <= WIDTH,
            4 <= sy <= HEIGHT,
            x_lo as int == export_lo(px as int),
            x_hi as int == export_hi(px as int, sx as int, WIDTH as int),
            y_lo as int == export_lo(py as int),
            y_hi as int == export_hi(py as int, sy as int, HEIGHT as int),
            x_hi < 200,
            y_hi < 120,
            x_lo <= x <= x_hi + 1,
            scaled_frame@.len() == EXPORT_LEN,
            scaled_frame@ =~= scaled_paint_part(
                orig,
                px as int,
                py as int,
                sx as int,
                sy as int,
                x as int,
                y_lo as int,
            ),
        decreases x_hi + 1 - x,
    {
        let wx = cell_overlap_units(px, sx, x, WIDTH);
        let mut y = y_lo;
        while y <= y_hi
            invariant
                old(scaled_frame)@.len() == EXPORT_LEN,
                0 <= px,
                px as int <= (WIDTH - sx) * (SUBPIXELS as int),
                0 <= py,
                py as int <= (HEIGHT - sy) * (SUBPIXELS as int),
                4 <= sx <= WIDTH,
                4 <= sy <= HEIGHT,
                x_lo as int == export_lo(px as int),
                x_hi as int == export_hi(px as int, sx as int, WIDTH as int),
                y_lo as int == export_lo(py as int),
                y_hi as int == export_hi(py as int, sy as int, HEIGHT as int),
                x_hi < 200,
                y_hi < 120,
                x_lo <= x <= x_hi,
                y_lo <= y <= y_hi + 1,
                wx as int == cell_overlap(px as int, sx as int, x as int),
                -4 * (SUBPIXELS as int) <= wx <= 4 * (SUBPIXELS as int),
                scaled_frame@.len() == EXPORT_LEN,
                scaled_frame@ =~= scaled_paint_part(
                    orig,
                    px as int,
                    py as int,
                    sx as int,
                    sy as int,
                    x as int,
                    y as int,
                ),
            decreases y_hi + 1 - y,
        {
            let wy = cell_overlap_units(py, sy, y, HEIGHT);
            let value = {
                proof {
                    assert(-16 * (SUBPIXELS as int) * (SUBPIXELS as int) <= (wx as int) * (
                    wy as int) <= 16 * (SUBPIXELS as int) * (SUBPIXELS as int))
                        by (nonlinear_arith)
                        requires
                            -4 * (SUBPIXELS as int) <= wx as int <= 4 * (SUBPIXELS as int),
                            -4 * (SUBPIXELS as int) <= wy as int <= 4 * (SUBPIXELS as int),
                            SUBPIXELS == 48612265,
                    ;
                }
                wx * wy
            };
            let idx = y * 200 + x;
            proof {
                lemma_export_decompose(x as int, y as int);
            }
            scaled_frame.set(idx, value);
            proof {
                let s2 = scaled_paint_part(orig, px as int, py as int, sx as int, sy as int, x as int, y + 1);
                assert forall|i: int| 0 <= i < EXPORT_LEN implies #[trigger] scaled_frame@[i] == s2[i] by {
                    lemma_export_compose(i);
                    if i == idx {
                        lemma_export_decompose(x as int, y as int);
                    }
                }
                assert(scaled_frame@ =~= s2);
            }
            y = y + 1;
        }
        proof {
            let s1 = scaled_paint_part(orig, px as int, py as int, sx as int, sy as int, x as int, y_hi + 1);
            let s2 = scaled_paint_part(orig, px as int, py as int, sx as int, sy as int, x + 1, y_lo as int);
            assert forall|i: int| 0 <= i < EXPORT_LEN implies #[trigger] s1[i] == s2[i] by {
                lemma_export_compose(i);
            }
            assert(scaled_frame@ =~= s2);
        }
        x = x + 1;
    }
    proof {
        let s1 = scaled_paint_part(orig, px as int, py as int, sx as int, sy as int, x_hi + 1, y_lo as int);
        let s2 = scaled_object_paint(orig, px as int, py as int, sx as int, sy as int);
        assert forall|i: int| 0 <= i < EXPORT_LEN implies #[trigger] s1[i] == s2[i] by {
            lemma_export_compose(i);
        }
        assert(scaled_frame@ =~= s2);
    }
}


} // verus!
