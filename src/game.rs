//! One frame of play, and the game state it advances.
use vstd::prelude::*;
use crate::ball::Ball;
use crate::collision::{after_paddle, after_walls, resolve_collisions};
use crate::config::{
    BALL_HALF_SIZE, FIELD_HALF_WIDTH, PADDLE_HALF_HEIGHT, PADDLE_HALF_WIDTH, PADDLE_SPEED,
    PADDLE_WALL_PADDING, SERVE_SPEED,
};
use crate::paddle::{Direction, Paddle};
use crate::scoring::{score_and_serve, served_ball, served_score, Score};

verus! {

/// What the outside world hands the simulation for one frame.
#[derive(Clone, Copy, Debug, PartialEq, Eq)]
pub struct FrameInput {
    pub left: Direction,
    pub right: Direction,
    pub elapsed_micros: i64,
}

/// The whole game state: both paddles, the ball and the score.
#[derive(Clone, Copy, Debug, PartialEq, Eq)]
pub struct Game {
    pub left: Paddle,
    pub right: Paddle,
    pub ball: Ball,
    pub score: Score,
}

impl Game {
    pub open spec fn wf(self) -> bool {
        &&& self.left.wf()
        &&& self.right.wf()
        &&& self.ball.wf()
    }

    /// The reference configuration: paddles centred vertically, a small gap
    /// from the side walls, the ball at the centre served to the right, and
    /// no points.
    pub fn new() -> (r: Game)
        ensures
            r.wf(),
            r.left == (Paddle {
                x: (-FIELD_HALF_WIDTH + PADDLE_WALL_PADDING + PADDLE_HALF_WIDTH) as i64,
                y: 0,
                half_width: PADDLE_HALF_WIDTH,
                half_height: PADDLE_HALF_HEIGHT,
                speed: PADDLE_SPEED,
            }),
            r.right == (Paddle {
                x: (FIELD_HALF_WIDTH - PADDLE_WALL_PADDING - PADDLE_HALF_WIDTH) as i64,
                y: 0,
                half_width: PADDLE_HALF_WIDTH,
                half_height: PADDLE_HALF_HEIGHT,
                speed: PADDLE_SPEED,
            }),
            r.ball == (Ball { x: 0, y: 0, vx: SERVE_SPEED, vy: 0, half_size: BALL_HALF_SIZE }),
            r.score == (Score { left: 0, right: 0 }),
    {
        let inset = FIELD_HALF_WIDTH - PADDLE_WALL_PADDING - PADDLE_HALF_WIDTH;
        Game {
            left: Paddle::new(-inset, PADDLE_HALF_WIDTH, PADDLE_HALF_HEIGHT, PADDLE_SPEED),
            right: Paddle::new(inset, PADDLE_HALF_WIDTH, PADDLE_HALF_HEIGHT, PADDLE_SPEED),
            ball: Ball::new(0, 0, SERVE_SPEED, 0, BALL_HALF_SIZE),
            score: Score::new(),
        }
    }

    /// Advances the game by one frame, in this order: paddle motion, ball
    /// integration, collisions, scoring and serve. Returns whether the score
    /// changed, so that a display knows when to refresh.
    pub fn step(&mut self, input: FrameInput) -> (changed: bool)
        requires
            old(self).wf(),
        ensures
            *final(self) == frame(*old(self), input),
            final(self).wf(),
            changed == (final(self).score != old(self).score),
    {
        self.left.advance(input.left, input.elapsed_micros);
        self.right.advance(input.right, input.elapsed_micros);
        self.ball.integrate(input.elapsed_micros);
        resolve_collisions(&mut self.ball, &self.left, &self.right);
        let before = self.score;
        score_and_serve(&mut self.ball, &mut self.score);
        self.score.left != before.left || self.score.right != before.right
    }
}

/// The game after one frame with the given input.
pub open spec fn frame(g: Game, input: FrameInput) -> Game {
    let left = g.left.moved(input.left, input.elapsed_micros);
    let right = g.right.moved(input.right, input.elapsed_micros);
    let b = after_paddle(
        after_paddle(after_walls(g.ball.integrated(input.elapsed_micros)), left),
        right,
    );
    Game { left, right, ball: served_ball(b), score: served_score(b, g.score) }
}

/// The game after a sequence of frames, first to last.
pub open spec fn run(g: Game, inputs: Seq<FrameInput>) -> Game
    decreases inputs.len(),
{
    if inputs.len() == 0 {
        g
    } else {
        run(frame(g, inputs[0]), inputs.skip(1))
    }
}

/// Neither player's score ever goes down, over any sequence of frames.
pub proof fn lemma_scores_never_decrease(g: Game, inputs: Seq<FrameInput>)
    ensures
        run(g, inputs).score.left >= g.score.left,
        run(g, inputs).score.right >= g.score.right,
    decreases inputs.len(),
{
    if inputs.len() > 0 {
        lemma_scores_never_decrease(frame(g, inputs[0]), inputs.skip(1));
    }
}

} // verus!
