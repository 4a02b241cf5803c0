//! Deterministic simulation core of a two-player paddle-and-ball game.
//!
//! All quantities are integers: lengths in milli-units of game space,
//! speeds in milli-units per second, and elapsed time in microseconds.
//! The origin is the centre of the field; `y` grows upwards.
mod arith;
mod ball;
mod collision;
mod config;
mod game;
mod geometry;
mod paddle;
mod scoring;

pub use arith::{clamp, clamp_i128, div_toward_zero, elapsed_of, saturate_i64, travel, travel_distance};
pub use ball::{shifted, Ball};
pub use collision::{
    after_paddle, after_walls, deflect, deflection, escalate, escalated, lemma_center_hit_is_flat,
    lemma_deflection_capped, lemma_hit_escalates_speed, lemma_level_ball_never_bounces, paddle_hit,
    resolve_collisions, resolve_paddle, resolve_walls, wall_hit,
};
pub use config::{
    BALL_HALF_SIZE, BALL_SPEED_UP_DENOMINATOR, BALL_SPEED_UP_NUMERATOR, DEFLECTION_DENOMINATOR,
    DEFLECTION_NUMERATOR, FIELD_HALF_HEIGHT, FIELD_HALF_WIDTH, MAX_BALL_SPEED, MICROS_PER_SECOND,
    PADDLE_HALF_HEIGHT, PADDLE_HALF_WIDTH, PADDLE_SPEED, PADDLE_WALL_PADDING, SERVE_SPEED, UNIT,
};
pub use game::{frame, lemma_scores_never_decrease, run, FrameInput, Game};
pub use geometry::{clamped_offset, overlaps, Aabb};
pub use paddle::{lemma_paddle_stays_in_bounds, Direction, Paddle};
pub use scoring::{
    bumped, lemma_serve_idempotent, lemma_serve_resets_ball, out_left, out_right, score_and_serve,
    served_ball, served_score, Score,
};
