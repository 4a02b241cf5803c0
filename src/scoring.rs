//! Scoring and serving: a ball that leaves the field through a side gives
//! the opposite player a point and is served again from the centre.
use vstd::prelude::*;
use crate::ball::Ball;
use crate::config::{FIELD_HALF_WIDTH, SERVE_SPEED};

verus! {

/// The two players' points.
#[derive(Clone, Copy, Debug, PartialEq, Eq)]
pub struct Score {
    pub left: u64,
    pub right: u64,
}

impl Score {
    /// No points for either player.
    pub fn new() -> (r: Score)
        ensures
            r == (Score { left: 0, right: 0 }),
    {
        Score { left: 0, right: 0 }
    }
}

/// A counter after one more point; it stays at its maximum once there.
pub open spec fn bumped(n: u64) -> u64 {
    if n < u64::MAX {
        (n + 1) as u64
    } else {
        n
    }
}

/// The ball's right edge has passed the left side of the field.
pub open spec fn out_left(b: Ball) -> bool {
    b.x + b.half_size < -FIELD_HALF_WIDTH
}

/// The ball's left edge has passed the right side of the field.
pub open spec fn out_right(b: Ball) -> bool {
    b.x - b.half_size > FIELD_HALF_WIDTH
}

/// The ball after the scoring check: back at the centre with the serve
/// velocity after a point (moving right after leaving on the left, moving
/// left after leaving on the right), untouched otherwise.
pub open spec fn served_ball(b: Ball) -> Ball {
    if out_left(b) {
        Ball { x: 0, y: 0, vx: SERVE_SPEED, vy: 0, ..b }
    } else if out_right(b) {
        Ball { x: 0, y: 0, vx: -SERVE_SPEED as i64, vy: 0, ..b }
    } else {
        b
    }
}

/// The score after the scoring check: a ball out on the left is a point
/// for the right player, a ball out on the right a point for the left one.
pub open spec fn served_score(b: Ball, s: Score) -> Score {
    if out_left(b) {
        Score { right: bumped(s.right), ..s }
    } else if out_right(b) {
        Score { left: bumped(s.left), ..s }
    } else {
        s
    }
}

/// Awards a point and serves again when the ball has left the field;
/// returns whether a point was scored. A ball inside the field is left as
/// it is, and so is the score.
pub fn score_and_serve(ball: &mut Ball, score: &mut Score) -> (scored: bool)
    requires
        old(ball).wf(),
    ensures
        *final(ball) == served_ball(*old(ball)),
        *final(score) == served_score(*old(ball), *old(score)),
        scored == (out_left(*old(ball)) || out_right(*old(ball))),
        final(ball).wf(),
{
    let right_edge = ball.x as i128 + ball.half_size as i128;
    let left_edge = ball.x as i128 - ball.half_size as i128;
    let w = FIELD_HALF_WIDTH as i128;
    if right_edge < -w {
        if score.right < u64::MAX {
            score.right = score.right + 1;
        }
        ball.x = 0;
        ball.y = 0;
        ball.vx = SERVE_SPEED;
        ball.vy = 0;
        true
    } else if left_edge > w {
        if score.left < u64::MAX {
            score.left = score.left + 1;
        }
        ball.x = 0;
        ball.y = 0;
        ball.vx = -SERVE_SPEED;
        ball.vy = 0;
        true
    } else {
        false
    }
}

/// The two ways out are exclusive, since the ball is narrower than the
/// field. After a point the ball is at the centre, level, at the serve speed:
/// moving right after leaving on the left, moving left after leaving on
/// the right. The scorer's counter has gone up by one (unless already at
/// its maximum) and the other is unchanged.
pub proof fn lemma_serve_resets_ball(b: Ball, s: Score)
    requires
        b.wf(),
        out_left(b) || out_right(b),
    ensures
        !(out_left(b) && out_right(b)),
        served_ball(b).x == 0,
        served_ball(b).y == 0,
        served_ball(b).vy == 0,
        out_left(b) ==> served_ball(b).vx == SERVE_SPEED,
        out_right(b) ==> served_ball(b).vx == -SERVE_SPEED,
        out_left(b) ==> served_score(b, s).left == s.left,
        out_left(b) && s.right < u64::MAX ==> served_score(b, s).right == s.right + 1,
        out_right(b) ==> served_score(b, s).right == s.right,
        out_right(b) && s.left < u64::MAX ==> served_score(b, s).left == s.left + 1,
{
}

/// The scoring check is idempotent: on a ball inside the field it changes
/// nothing, so running it a second time changes nothing either.
pub proof fn lemma_serve_idempotent(b: Ball, s: Score)
    requires
        b.wf(),
    ensures
        !out_left(b) && !out_right(b) ==> served_ball(b) == b && served_score(b, s) == s,
        !out_left(served_ball(b)) && !out_right(served_ball(b)),
        served_ball(served_ball(b)) == served_ball(b),
        served_score(served_ball(b), served_score(b, s)) == served_score(b, s),
{
}

} // verus!
