//! The constants of a match. Lengths and positions are in thousandths of a
//! pixel, speeds in thousandths of a pixel per tick.

use vstd::prelude::*;

verus! {

/// Number of paddles, and so of players, in a match.
pub const NUM_PLAYERS: usize = 2;

/// Width of the play field.
pub const FIELD_WIDTH: i64 = 800_000;

/// Height of the play field.
pub const FIELD_HEIGHT: i64 = 600_000;

/// Radius of the ball.
pub const BALL_RADIUS: i64 = 15_000;

/// Pixels that the ball travels in one tick.
pub const BALL_SPEED: i64 = 5;

/// Distance between a paddle and the field edge that it guards.
pub const PADDLE_GAP: i64 = 0;

/// Horizontal extent of a paddle.
pub const PADDLE_WIDTH: i64 = 30_000;

/// Vertical extent of a paddle at rest: its baseline length.
pub const PADDLE_LENGTH: i64 = 100_000;

/// Speed that a moving paddle loses in one tick.
pub const PADDLE_FRICTION: i64 = 10;

/// Speed that one unit of an accelerate command adds to a paddle.
pub const PADDLE_ACCELERATION: i64 = 2_000;

/// Length that a paddle loses in one tick.
pub const PADDLE_DECAY: i64 = 10;

/// Length that a paddle gains when it blocks the ball.
pub const PADDLE_BONUS: i64 = 10_000;

/// A slow command leaves a paddle this many quarters of its speed.
pub const SLOW_QUARTERS: i64 = 3;

/// A paddle longer than this wins the match for its player.
pub const WINNING_LENGTH: i64 = 200_000;

} // verus!
