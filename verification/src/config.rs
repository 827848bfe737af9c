//! Tunable constants of the game, all in centipixels (hundredths of a
//! pixel) per unit where a distance or a speed is meant.

use vstd::prelude::*;

verus! {

/// How many centipixels make one screen pixel.
pub const UNITS_PER_PIXEL: i64 = 100;

/// Width of the play field: 640 pixels.
pub const WINDOW_WIDTH: i64 = 64000;

/// Height of the play field: 480 pixels.
pub const WINDOW_HEIGHT: i64 = 48000;

/// Vertical paddle speed in normal mode: 8 pixels per frame.
pub const PADDLE_SPEED_NORMAL: i64 = 800;

/// Vertical paddle speed in hard mode: 13 pixels per frame.
pub const PADDLE_SPEED_HIGH: i64 = 1300;

/// Starting horizontal ball speed in normal mode: 5 pixels per frame.
pub const BALL_SPEED_NORMAL: i64 = 500;

/// Starting horizontal ball speed in hard mode: 9 pixels per frame.
pub const BALL_SPEED_HARD: i64 = 900;

/// Spin scale: 4 pixels per frame of vertical speed at full paddle offset.
pub const PADDLE_SPIN: i64 = 400;

/// Gain of horizontal ball speed on each paddle hit: 0.05 pixels per frame.
pub const BALL_ACC: i64 = 5;

/// Inset of the upper and lower paddle limits from the field edges: 10 pixels.
pub const FIELD_INSET: i64 = 1000;

/// Grace margin past the left or right edge before a goal counts: 100 pixels.
pub const SCORE_MARGIN: i64 = 10000;

/// Horizontal inset of each paddle from its side of the field: 16 pixels.
pub const PADDLE_INSET: i64 = 1600;

/// A round ends as soon as either score reaches this value.
pub const SCORE_LIMIT: u8 = 15;

/// Bound on every coordinate and velocity component the update step accepts;
/// it keeps each frame's arithmetic far away from `i64` overflow.
pub const COORD_BOUND: i64 = 1000000000;

} // verus!
