//! Game configuration parameters.
//!
//! Pixel-valued constants match the arena layout; continuous quantities
//! (ball position, ball velocity) are kept in subpixel units, with
//! `SUBPIXELS` units per pixel.

use vstd::prelude::*;

verus! {

pub const WIDTH: usize = 800;
pub const HEIGHT: usize = 480;
pub const RESCALE: usize = 4;
pub const FRAME_DELAY: u64 = 33;

pub const BALL_SIZE: usize = 14;

/// Subpixel units per pixel. The value 5*13*17*29*37*41 is chosen so that
/// the circle of radius `BALL_SPEED` (= 14 pixels, in subpixels) passes
/// through many integer points: the bounce-velocity table in `core` can
/// then hold the ball's speed exactly constant while changing its angle.
pub const SUBPIXELS: i64 = 48612265;

/// Ball speed in subpixels per tick: 14 pixels per tick.
pub const BALL_SPEED: i64 = 14 * SUBPIXELS;

/// Largest deflection off a paddle edge, in degrees.
pub const MAX_BOUNCE_ANGLE: i64 = 65;
/// Largest initial serve angle, in degrees.
pub const MAX_INITIAL_ANGLE: i64 = 45;

pub const PADDLE_WIDTH: usize = 10;
pub const PADDLE_HEIGHT: usize = 80;
pub const PADDLE_SPEED: usize = 6;
pub const PADDLE_OFFSET: usize = 12;

pub const COLOR: u8 = 0xFF;
pub const WINDOW_SCALE: usize = 1;
pub const BORDER: usize = 1;
pub const TOTAL_WIDTH: usize = WIDTH + BORDER * 2;
pub const TOTAL_HEIGHT: usize = HEIGHT + BORDER * 2;

/// Number of cells in the downscaled export grid.
pub const EXPORT_LEN: usize = 24000;

/// Number of bytes in the RGBA frame buffer.
pub const FRAME_LEN: usize = TOTAL_WIDTH * TOTAL_HEIGHT * 4;

} // verus!
