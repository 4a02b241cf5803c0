//! Reference configuration of the field, the paddles and the ball.
use vstd::prelude::*;

verus! {

/// Milli-units of game space per whole unit.
pub const UNIT: i64 = 1000;

/// Microseconds per second.
pub const MICROS_PER_SECOND: i64 = 1_000_000;

/// Half the width of the field (the field is 800 units wide).
pub const FIELD_HALF_WIDTH: i64 = 400_000;

/// Half the height of the field (the field is 600 units tall).
pub const FIELD_HALF_HEIGHT: i64 = 300_000;

/// Half the width of a paddle (paddles are 20 units wide).
pub const PADDLE_HALF_WIDTH: i64 = 10_000;

/// Half the height of a paddle (paddles are 100 units tall).
pub const PADDLE_HALF_HEIGHT: i64 = 50_000;

/// Gap between a side wall and the outer face of the paddle in front of it.
pub const PADDLE_WALL_PADDING: i64 = 10_000;

/// Paddle speed, in milli-units per second (500 units per second).
pub const PADDLE_SPEED: i64 = 500_000;

/// Half the side of the square ball (the ball is 15 units wide).
pub const BALL_HALF_SIZE: i64 = 7_500;

/// Horizontal speed of a served ball (200 units per second).
pub const SERVE_SPEED: i64 = 200_000;

/// Upper bound on either velocity component of the ball: escalation stops
/// here, so that every later product stays well inside machine integers.
pub const MAX_BALL_SPEED: i64 = 1_000_000_000_000;

/// Each paddle hit multiplies the ball's speed by 21/20, that is 1.05.
pub const BALL_SPEED_UP_NUMERATOR: i64 = 21;

/// See `BALL_SPEED_UP_NUMERATOR`.
pub const BALL_SPEED_UP_DENOMINATOR: i64 = 20;

/// An edge hit deflects the ball at 3/4 of its horizontal speed.
pub const DEFLECTION_NUMERATOR: i64 = 3;

/// See `DEFLECTION_NUMERATOR`.
pub const DEFLECTION_DENOMINATOR: i64 = 4;

} // verus!
