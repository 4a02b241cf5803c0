//! Wall and paddle contacts: reflection, deflection and speed escalation.
use vstd::prelude::*;
use crate::arith::{clamp, div_toward_zero, travel};
use crate::ball::Ball;
use crate::config::{
    BALL_SPEED_UP_DENOMINATOR, BALL_SPEED_UP_NUMERATOR, DEFLECTION_DENOMINATOR, DEFLECTION_NUMERATOR,
    FIELD_HALF_HEIGHT, MAX_BALL_SPEED,
};
use crate::geometry::{clamped_offset, overlaps};
use crate::paddle::Paddle;

verus! {

/// The ball's top edge is above the top wall while it moves up, or its
/// bottom edge is below the bottom wall while it moves down.
pub open spec fn wall_hit(b: Ball) -> bool {
    ||| (b.y + b.half_size > FIELD_HALF_HEIGHT && b.vy > 0)
    ||| (b.y - b.half_size < -FIELD_HALF_HEIGHT && b.vy < 0)
}

/// The ball after wall contact: a pure reflection of `vy`.
pub open spec fn after_walls(b: Ball) -> Ball {
    if wall_hit(b) {
        Ball { vy: -b.vy as i64, ..b }
    } else {
        b
    }
}

/// A speed (non-negative) raised by the escalation factor, rounded down,
/// and capped at `MAX_BALL_SPEED`.
pub open spec fn escalated(speed: int) -> int {
    let s = speed * BALL_SPEED_UP_NUMERATOR / BALL_SPEED_UP_DENOMINATOR as int;
    if s > MAX_BALL_SPEED {
        MAX_BALL_SPEED as int
    } else {
        s
    }
}

/// Vertical velocity given to a ball struck at vertical `offset` from the
/// centre of a paddle of half height `half_height`, moving away at
/// horizontal `speed`: `offset / half_height * speed * 3/4`, rounded toward zero.
pub open spec fn deflection(offset: int, half_height: int, speed: int) -> int {
    div_toward_zero(offset * speed * DEFLECTION_NUMERATOR, DEFLECTION_DENOMINATOR * half_height)
}

/// The boxes overlap and the ball moves toward the paddle's near face.
pub open spec fn paddle_hit(b: Ball, p: Paddle) -> bool {
    &&& b.aabb_spec().overlaps_spec(p.aabb_spec())
    &&& ((b.vx > 0 && b.x < p.x) || (b.vx < 0 && b.x > p.x))
}

/// The ball after a possible hit on paddle `p`: on a hit the horizontal
/// velocity turns round and grows by the escalation factor, and the
/// vertical velocity becomes the deflection for the clamped impact offset
/// at the new horizontal speed. (In exact arithmetic this equals deflecting
/// at the old speed and then escalating both components; computing from the
/// escalated speed rounds only once.)
pub open spec fn after_paddle(b: Ball, p: Paddle) -> Ball {
    if paddle_hit(b, p) {
        let speed = escalated(if b.vx < 0 { -b.vx } else { b.vx as int });
        let offset = clamp(b.y - p.y, -p.half_height, p.half_height as int);
        Ball {
            vx: (if b.vx > 0 { -speed } else { speed }) as i64,
            vy: deflection(offset, p.half_height as int, speed) as i64,
            ..b
        }
    } else {
        b
    }
}

/// Raises a speed by the escalation factor (21/20), rounding down and
/// stopping at `MAX_BALL_SPEED`.
pub fn escalate(speed: i64) -> (r: i64)
    requires
        0 <= speed <= MAX_BALL_SPEED,
    ensures
        r == escalated(speed as int),
        speed <= r <= MAX_BALL_SPEED,
{
    let s = speed * BALL_SPEED_UP_NUMERATOR / BALL_SPEED_UP_DENOMINATOR;
    if s > MAX_BALL_SPEED {
        MAX_BALL_SPEED
    } else {
        s
    }
}

/// Deflection for a clamped impact `offset` on a paddle of half height
/// `half_height`, at horizontal `speed`.
pub fn deflect(offset: i64, half_height: i64, speed: i64) -> (r: i64)
    requires
        0 < half_height <= FIELD_HALF_HEIGHT,
        -half_height <= offset <= half_height,
        0 <= speed <= MAX_BALL_SPEED,
    ensures
        r == deflection(offset as int, half_height as int, speed as int),
        -(speed * 3 / 4) <= r <= speed * 3 / 4,
{
    let h: i128 = half_height as i128;
    let den: i128 = 4 * h;
    let s: i128 = speed as i128;
    let s3: i128 = 3 * s;
    let m: i128 = if offset < 0 { -(offset as i128) } else { offset as i128 };
    assert(0 <= m * s3 <= 900_000_000_000_000_000) by (nonlinear_arith)
        requires
            0 <= m <= h <= 300_000,
            0 <= s3 <= 3_000_000_000_000,
    ;
    let q: i128 = m * s3 / den;
    proof {
        lemma_deflection_bound(offset as int, half_height as int, speed as int);
        assert(m * s3 == -(offset * speed * 3) || offset >= 0) by (nonlinear_arith)
            requires
                offset < 0 ==> m == -offset,
                s3 == 3 * speed,
        ;
        assert(m * s3 == offset * speed * 3 || offset < 0) by (nonlinear_arith)
            requires
                offset >= 0 ==> m == offset,
                s3 == 3 * speed,
        ;
    }
    if offset < 0 {
        (-q) as i64
    } else {
        q as i64
    }
}

/// A deflection is at most 3/4 of the speed it is computed from.
proof fn lemma_deflection_bound(offset: int, half_height: int, speed: int)
    requires
        -half_height <= offset <= half_height,
        0 < half_height,
        0 <= speed,
    ensures
        -(speed * 3 / 4) <= deflection(offset, half_height, speed) <= speed * 3 / 4,
        4 * (speed * 3 / 4) <= 3 * speed,
        offset == 0 ==> deflection(offset, half_height, speed) == 0,
{
    let m = if offset < 0 { -offset } else { offset };
    lemma_scaled_quotient(m, half_height, speed * 3);
    assert(offset * speed * 3 == m * (speed * 3) || offset < 0) by (nonlinear_arith)
        requires
            offset >= 0 ==> m == offset,
    ;
    assert(-(offset * speed * 3) == m * (speed * 3) || offset >= 0) by (nonlinear_arith)
        requires
            offset < 0 ==> m == -offset,
    ;
    assert(offset * speed * 3 == 0 || offset != 0) by (nonlinear_arith);
}

/// `(m * s) / (4 * h) <= s / 4` whenever `0 <= m <= h`.
proof fn lemma_scaled_quotient(m: int, h: int, s: int)
    requires
        0 <= m <= h,
        0 < h,
        0 <= s,
    ensures
        0 <= (m * s) / (4 * h) <= s / 4,
{
    assert(m * s <= h * s) by (nonlinear_arith)
        requires
            0 <= m <= h,
            0 <= s,
    ;
    assert(0 <= m * s) by (nonlinear_arith)
        requires
            0 <= m,
            0 <= s,
    ;
    vstd::arithmetic::div_mod::lemma_div_is_ordered(m * s, h * s, 4 * h);
    vstd::arithmetic::div_mod::lemma_div_pos_is_pos(m * s, 4 * h);
    assert((h * s) / (4 * h) == s / 4) by {
        vstd::arithmetic::div_mod::lemma_div_denominator(h * s, h, 4);
        vstd::arithmetic::div_mod::lemma_div_by_multiple(s, h);
        vstd::arithmetic::mul::lemma_mul_is_commutative(h, s);
        vstd::arithmetic::mul::lemma_mul_is_commutative(h, 4);
    }
}

/// Reflects the ball off the top or bottom wall: `vy` changes sign when
/// `wall_hit` holds, and nothing else changes.
pub fn resolve_walls(ball: &mut Ball)
    requires
        old(ball).wf(),
    ensures
        *final(ball) == after_walls(*old(ball)),
        final(ball).wf(),
{
    let top = ball.y as i128 + ball.half_size as i128;
    let bottom = ball.y as i128 - ball.half_size as i128;
    let h = FIELD_HALF_HEIGHT as i128;
    if (top > h && ball.vy > 0) || (bottom < -h && ball.vy < 0) {
        ball.vy = -ball.vy;
    }
}

/// Resolves a possible hit of the ball on paddle `p` (see `after_paddle`).
pub fn resolve_paddle(ball: &mut Ball, p: &Paddle)
    requires
        old(ball).wf(),
        p.wf(),
    ensures
        *final(ball) == after_paddle(*old(ball), *p),
        final(ball).wf(),
{
    let hit = overlaps(&ball.aabb(), &p.aabb());
    let toward = (ball.vx > 0 && ball.x < p.x) || (ball.vx < 0 && ball.x > p.x);
    if hit && toward {
        let pre: i64 = if ball.vx < 0 { -ball.vx } else { ball.vx };
        let speed = escalate(pre);
        let offset = clamped_offset(ball.y, p.y, p.half_height);
        let vy = deflect(offset, p.half_height, speed);
        ball.vx = if ball.vx > 0 { -speed } else { speed };
        ball.vy = vy;
    }
}

/// The collision stage of a frame: walls first, then the left paddle, then
/// the right paddle.
pub fn resolve_collisions(ball: &mut Ball, left: &Paddle, right: &Paddle)
    requires
        old(ball).wf(),
        left.wf(),
        right.wf(),
    ensures
        *final(ball) == after_paddle(after_paddle(after_walls(*old(ball)), *left), *right),
        final(ball).wf(),
{
    resolve_walls(ball);
    resolve_paddle(ball, left);
    resolve_paddle(ball, right);
}

/// A paddle hit turns the horizontal velocity round and multiplies its
/// magnitude by 21/20 (rounded down), unless that would pass `MAX_BALL_SPEED`.
pub proof fn lemma_hit_escalates_speed(b: Ball, p: Paddle)
    requires
        b.wf(),
        p.wf(),
        paddle_hit(b, p),
        (if b.vx < 0 { -b.vx } else { b.vx as int }) * 21 / 20 <= MAX_BALL_SPEED,
    ensures
        b.vx > 0 ==> after_paddle(b, p).vx == -(b.vx * 21 / 20),
        b.vx < 0 ==> after_paddle(b, p).vx == (-b.vx) * 21 / 20,
{
}

/// After a paddle hit the vertical speed is at most 3/4 of the horizontal speed.
pub proof fn lemma_deflection_capped(b: Ball, p: Paddle)
    requires
        b.wf(),
        p.wf(),
        paddle_hit(b, p),
    ensures
        ({
            let a = after_paddle(b, p);
            let vx = if a.vx < 0 { -a.vx } else { a.vx as int };
            let vy = if a.vy < 0 { -a.vy } else { a.vy as int };
            4 * vy <= 3 * vx
        }),
{
    let speed = escalated(if b.vx < 0 { -b.vx } else { b.vx as int });
    let offset = clamp(b.y - p.y, -p.half_height, p.half_height as int);
    lemma_escalated_range(if b.vx < 0 { -b.vx } else { b.vx as int });
    lemma_deflection_bound(offset, p.half_height as int, speed);
}

/// A hit exactly at the paddle's centre sends the ball back level.
pub proof fn lemma_center_hit_is_flat(b: Ball, p: Paddle)
    requires
        b.wf(),
        p.wf(),
        paddle_hit(b, p),
        b.y == p.y,
    ensures
        after_paddle(b, p).vy == 0,
{
    let speed = escalated(if b.vx < 0 { -b.vx } else { b.vx as int });
    lemma_escalated_range(if b.vx < 0 { -b.vx } else { b.vx as int });
    lemma_deflection_bound(0, p.half_height as int, speed);
}

/// Escalation never lowers a speed and never passes `MAX_BALL_SPEED`.
proof fn lemma_escalated_range(speed: int)
    requires
        0 <= speed <= MAX_BALL_SPEED,
    ensures
        speed <= escalated(speed) <= MAX_BALL_SPEED,
{
}

/// A ball that moves level inside the field never bounces off a wall:
/// after any step of integration it is still level at the same height and
/// wall contact leaves it unchanged.
pub proof fn lemma_level_ball_never_bounces(b: Ball, micros: i64)
    requires
        b.wf(),
        b.vy == 0,
        -FIELD_HALF_HEIGHT <= b.y - b.half_size,
        b.y + b.half_size <= FIELD_HALF_HEIGHT,
    ensures
        b.integrated(micros).y == b.y,
        b.integrated(micros).vy == 0,
        after_walls(b.integrated(micros)) == b.integrated(micros),
{
    assert(travel(0, micros) == 0);
}

} // verus!
