//! The ball and its integration step.
use vstd::prelude::*;
use crate::arith::{clamp, saturate_i64, travel, travel_distance};
use crate::config::{FIELD_HALF_HEIGHT, MAX_BALL_SPEED};
use crate::geometry::Aabb;

verus! {

/// The square ball: centre, velocity (per second) and half its side.
#[derive(Clone, Copy, Debug, PartialEq, Eq)]
pub struct Ball {
    pub x: i64,
    pub y: i64,
    pub vx: i64,
    pub vy: i64,
    pub half_size: i64,
}

/// A position after moving by `d`, kept inside the range of `i64`.
pub open spec fn shifted(p: i64, d: int) -> i64 {
    clamp(p + d, i64::MIN as int, i64::MAX as int) as i64
}

impl Ball {
    /// A ball that fits the field, with both velocity components within
    /// `MAX_BALL_SPEED`.
    pub open spec fn wf(self) -> bool {
        &&& 0 < self.half_size < FIELD_HALF_HEIGHT
        &&& -MAX_BALL_SPEED <= self.vx <= MAX_BALL_SPEED
        &&& -MAX_BALL_SPEED <= self.vy <= MAX_BALL_SPEED
    }

    /// The ball's box.
    pub open spec fn aabb_spec(self) -> Aabb {
        Aabb { x: self.x, y: self.y, half_width: self.half_size, half_height: self.half_size }
    }

    /// The ball after `micros` microseconds of straight-line motion.
    pub open spec fn integrated(self, micros: i64) -> Ball {
        Ball {
            x: shifted(self.x, travel(self.vx as int, micros)),
            y: shifted(self.y, travel(self.vy as int, micros)),
            ..self
        }
    }

    /// A ball at `(x, y)` moving at `(vx, vy)`.
    pub fn new(x: i64, y: i64, vx: i64, vy: i64, half_size: i64) -> (r: Ball)
        requires
            0 < half_size < FIELD_HALF_HEIGHT,
            -MAX_BALL_SPEED <= vx <= MAX_BALL_SPEED,
            -MAX_BALL_SPEED <= vy <= MAX_BALL_SPEED,
        ensures
            r.wf(),
            r == (Ball { x, y, vx, vy, half_size }),
    {
        Ball { x, y, vx, vy, half_size }
    }

    /// The ball's box.
    pub fn aabb(&self) -> (r: Aabb)
        ensures
            r == self.aabb_spec(),
    {
        Aabb { x: self.x, y: self.y, half_width: self.half_size, half_height: self.half_size }
    }

    /// Advances the position by `velocity * elapsed` on each axis (explicit
    /// Euler step, rounded toward zero); a negative elapsed time counts as
    /// none. Positions saturate at the range of `i64`.
    pub fn integrate(&mut self, micros: i64)
        requires
            old(self).wf(),
        ensures
            *final(self) == old(self).integrated(micros),
            final(self).wf(),
    {
        let dx = travel_distance(self.vx, micros);
        let dy = travel_distance(self.vy, micros);
        self.x = saturate_i64(self.x as i128 + dx);
        self.y = saturate_i64(self.y as i128 + dy);
    }
}

} // verus!
