//! Frame-buffer drawing: anti-aliased ball, rectangles, border, the
//! differential redraw, and the downscaled exporter.

use pong_rl::config::{EXPORT_LEN, FRAME_LEN, SUBPIXELS, TOTAL_WIDTH};
use pong_rl::engine::frame::{Point, SubPoint};
use pong_rl::engine::render::{
    draw_ball, draw_border, draw_rect, draw_scaled_ball, draw_scaled_paddle, set_rgba_color,
};
use pong_rl::engine::Pong;

const S: i64 = SUBPIXELS;

/// First byte of the pixel at arena coordinates (col, row).
fn offset(col: usize, row: usize) -> usize {
    ((row + 1) * TOTAL_WIDTH + col + 1) * 4
}

#[test]
fn rgba_color_sets_three_channels_and_alpha() {
    let mut frame = vec![0u8; FRAME_LEN];
    set_rgba_color(&mut frame, offset(5, 5), 0xAB);
    assert_eq!(&frame[offset(5, 5)..offset(5, 5) + 4], &[0xAB, 0xAB, 0xAB, 0xFF]);
    assert_eq!(frame[offset(5, 5) + 4], 0x00);
}

#[test]
fn aligned_ball_paints_exact_footprint() {
    // A ball at an exact pixel coordinate: full intensity on exactly its
    // 14 x 14 footprint, zero on the candidate grid's extra row/column.
    let mut frame = vec![0u8; FRAME_LEN];
    draw_ball(&mut frame, SubPoint(16 * S, 8 * S), 0xFF);
    for row in 8..22 {
        for col in 16..30 {
            assert_eq!(frame[offset(col, row)], 0xFF);
            assert_eq!(frame[offset(col, row) + 3], 0xFF);
        }
    }
    // The extra column and row get zero intensity (but alpha is written).
    assert_eq!(frame[offset(30, 8)], 0x00);
    assert_eq!(frame[offset(30, 8) + 3], 0xFF);
    assert_eq!(frame[offset(16, 22)], 0x00);
    // Pixels outside the candidate grid are untouched.
    assert_eq!(frame[offset(31, 8) + 3], 0x00);
    assert_eq!(frame[offset(15, 8) + 3], 0x00);
}

#[test]
fn fractional_ball_spreads_intensity() {
    // A ball offset by about half a pixel horizontally: the leading and
    // trailing columns share the intensity, and dim corners are discarded.
    let frac: i64 = 24306132;  // floor(SUBPIXELS / 2)
    let mut frame = vec![0u8; FRAME_LEN];
    draw_ball(&mut frame, SubPoint(16 * S + frac, 8 * S), 0xFF);
    // Leading edge column rounds to 128, trailing to 127.
    assert_eq!(frame[offset(16, 10)], 128);
    assert_eq!(frame[offset(30, 10)], 127);
    // Interior is full intensity.
    assert_eq!(frame[offset(20, 10)], 0xFF);

    // With both axes fractional, the corners fall below half intensity and
    // are discarded entirely.
    let mut frame2 = vec![0u8; FRAME_LEN];
    draw_ball(&mut frame2, SubPoint(16 * S + frac, 8 * S + frac), 0xFF);
    assert_eq!(frame2[offset(16, 8)], 0);
    assert_eq!(frame2[offset(30, 22)], 0);
    assert_eq!(frame2[offset(20, 10)], 0xFF);
}

#[test]
fn rect_paints_solid_rectangle() {
    let mut frame = vec![0u8; FRAME_LEN];
    draw_rect(&mut frame, Point(100, 50), 10, 80, 0xFF);
    assert_eq!(frame[offset(100, 50)], 0xFF);
    assert_eq!(frame[offset(109, 129)], 0xFF);
    assert_eq!(frame[offset(109, 129) + 3], 0xFF);
    // One past each edge is untouched.
    assert_eq!(frame[offset(110, 50) + 3], 0x00);
    assert_eq!(frame[offset(100, 130) + 3], 0x00);
    assert_eq!(frame[offset(99, 50) + 3], 0x00);
}

#[test]
fn border_frames_the_arena() {
    let mut frame = vec![0u8; FRAME_LEN];
    draw_border(&mut frame);
    // Total coordinates: the outermost ring is painted.
    assert_eq!(frame[0], 0xFF);
    assert_eq!(frame[(TOTAL_WIDTH - 1) * 4], 0xFF);
    // The first arena pixel is untouched.
    assert_eq!(frame[offset(0, 0) + 3], 0x00);
}

#[test]
fn differential_redraw_erases_previous_ball() {
    let mut game = Pong::with_initial_angle(true, 0);
    game.start_game();
    let start_x = game.ball.0 / S;
    {
        let frame = game.frame_bytes().as_ref().unwrap();
        assert_eq!(frame[offset(start_x as usize, 233)], 0xFF);
    }
    let _ = game.tick(None);
    {
        // The ball moved 14 px right; its old leading column is now erased
        // (zero intensity), the new footprint painted.
        let frame = game.frame_bytes().as_ref().unwrap();
        assert_eq!(frame[offset(start_x as usize, 233)], 0x00);
        assert_eq!(frame[offset(start_x as usize + 14, 233)], 0xFF);
    }
    // clear_game erases the drawn state but keeps the border.
    game.clear_game();
    let frame = game.frame_bytes().as_ref().unwrap();
    assert_eq!(frame[offset(start_x as usize + 14, 233)], 0x00);
    assert_eq!(frame[0], 0xFF);
}

#[test]
fn scaled_ball_writes_overlap_areas() {
    // Aligned ball at (16, 8) px, 14 px square: covers export cells x in
    // 4..=7, y in 2..=5; interior cells hold a full cell's area, the last
    // row/column a partial one.
    let mut grid = vec![0i64; EXPORT_LEN];
    draw_scaled_ball(&mut grid, SubPoint(16 * S, 8 * S));
    let full = 4 * S * 4 * S;
    let half = 2 * S * 4 * S;
    assert_eq!(grid[2 * 200 + 4], full);
    assert_eq!(grid[3 * 200 + 5], full);
    assert_eq!(grid[2 * 200 + 7], half);
    assert_eq!(grid[5 * 200 + 4], half);
    assert_eq!(grid[5 * 200 + 7], 2 * S * 2 * S);
    // An untouched cell keeps its value.
    assert_eq!(grid[0], 0);
    assert_eq!(grid[2 * 200 + 8], 0);
}

#[test]
fn scaled_paddle_writes_overlap_areas() {
    // Left paddle at (12, 200): 10 px wide, x cells 3..=5; the last cell
    // overlaps 2 px of the paddle's width.
    let mut grid = vec![0i64; EXPORT_LEN];
    draw_scaled_paddle(&mut grid, Point(12, 200));
    let full = 4 * S * 4 * S;
    assert_eq!(grid[50 * 200 + 3], full);
    assert_eq!(grid[50 * 200 + 4], full);
    assert_eq!(grid[50 * 200 + 5], 2 * S * 4 * S);
    assert_eq!(grid[50 * 200 + 6], 0);
}
