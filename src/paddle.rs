//! Paddles and their vertical motion.
use vstd::prelude::*;
use crate::arith::{clamp, clamp_i128, travel, travel_distance};
use crate::config::FIELD_HALF_HEIGHT;
use crate::geometry::Aabb;

verus! {

/// One frame's input for one paddle.
#[derive(Clone, Copy, Debug, PartialEq, Eq)]
pub enum Direction {
    Up,
    Down,
    Still,
}

impl Direction {
    /// The direction as a sign: `+1` up, `-1` down, `0` still.
    pub open spec fn sign(self) -> int {
        match self {
            Direction::Up => 1,
            Direction::Down => -1,
            Direction::Still => 0,
        }
    }

    /// The direction asked for by the state of an up key and a down key;
    /// both keys together cancel out.
    pub fn from_keys(up: bool, down: bool) -> (r: Direction)
        ensures
            r.sign() == (if up { 1int } else { 0 }) - (if down { 1int } else { 0 }),
    {
        if up && !down {
            Direction::Up
        } else if down && !up {
            Direction::Down
        } else {
            Direction::Still
        }
    }
}

/// A paddle: its centre, half extents and movement speed (per second).
/// Only `y` changes during play.
#[derive(Clone, Copy, Debug, PartialEq, Eq)]
pub struct Paddle {
    pub x: i64,
    pub y: i64,
    pub half_width: i64,
    pub half_height: i64,
    pub speed: i64,
}

impl Paddle {
    /// Lowest centre height that keeps the paddle inside the field.
    pub open spec fn lower_bound(self) -> int {
        -FIELD_HALF_HEIGHT + self.half_height
    }

    /// Highest centre height that keeps the paddle inside the field.
    pub open spec fn upper_bound(self) -> int {
        FIELD_HALF_HEIGHT - self.half_height
    }

    /// A paddle with positive extents that fits the field's height, a
    /// non-negative speed, and its centre between the two bounds.
    pub open spec fn wf(self) -> bool {
        &&& 0 < self.half_width
        &&& 0 < self.half_height <= FIELD_HALF_HEIGHT
        &&& 0 <= self.speed
        &&& self.lower_bound() <= self.y <= self.upper_bound()
    }

    /// The paddle's box.
    pub open spec fn aabb_spec(self) -> Aabb {
        Aabb { x: self.x, y: self.y, half_width: self.half_width, half_height: self.half_height }
    }

    /// Centre height after moving in `dir` for `micros` microseconds,
    /// clamped to the bounds.
    pub open spec fn moved_y(self, dir: Direction, micros: i64) -> int {
        clamp(
            self.y + dir.sign() * travel(self.speed as int, micros),
            self.lower_bound(),
            self.upper_bound(),
        )
    }

    /// The paddle after one frame of motion.
    pub open spec fn moved(self, dir: Direction, micros: i64) -> Paddle {
        Paddle { y: self.moved_y(dir, micros) as i64, ..self }
    }

    /// A paddle of the given extents and speed, centred at `(x, 0)`.
    pub fn new(x: i64, half_width: i64, half_height: i64, speed: i64) -> (r: Paddle)
        requires
            0 < half_width,
            0 < half_height <= FIELD_HALF_HEIGHT,
            0 <= speed,
        ensures
            r.wf(),
            r == (Paddle { x, y: 0, half_width, half_height, speed }),
    {
        Paddle { x, y: 0, half_width, half_height, speed }
    }

    /// The paddle's box.
    pub fn aabb(&self) -> (r: Aabb)
        ensures
            r == self.aabb_spec(),
    {
        Aabb { x: self.x, y: self.y, half_width: self.half_width, half_height: self.half_height }
    }

    /// Moves the paddle for one frame: `y` becomes
    /// `clamp(y + sign(dir) * speed * elapsed, lower, upper)`, with a
    /// negative elapsed time counting as none.
    pub fn advance(&mut self, dir: Direction, micros: i64)
        requires
            old(self).wf(),
        ensures
            *final(self) == old(self).moved(dir, micros),
            final(self).wf(),
    {
        let d = travel_distance(self.speed, micros);
        let delta: i128 = match dir {
            Direction::Up => d,
            Direction::Down => -d,
            Direction::Still => 0,
        };
        let lo: i128 = -(FIELD_HALF_HEIGHT as i128) + self.half_height as i128;
        let hi: i128 = FIELD_HALF_HEIGHT as i128 - self.half_height as i128;
        let y = clamp_i128(self.y as i128 + delta, lo, hi);
        self.y = y as i64;
    }
}

/// A paddle stays between its bounds after any frame of motion, whatever
/// the input direction and however long the frame.
pub proof fn lemma_paddle_stays_in_bounds(p: Paddle, dir: Direction, micros: i64)
    requires
        p.wf(),
    ensures
        p.moved(dir, micros).wf(),
        p.lower_bound() <= p.moved(dir, micros).y <= p.upper_bound(),
{
}

} // verus!
