//! A two-paddle ball game: a fixed-point motion integrator with wall and
//! paddle reflection, a bounce-angle model, a differential frame renderer
//! with subpixel anti-aliasing, and a downscaled state exporter.
//!
//! Continuous quantities (ball position and velocity) are held in subpixel
//! units: `config::SUBPIXELS` units per pixel. All arithmetic is exact
//! integer arithmetic, so the contracts below pin results down exactly.

pub mod config;
pub mod engine;
pub mod env;
pub mod game;

pub use config::FRAME_DELAY;
pub use game::TickResult;
