use pong::{
    clamped_offset, deflect, escalate, overlaps, resolve_collisions, resolve_paddle, resolve_walls,
    saturate_i64, score_and_serve, travel_distance, Aabb, Ball, Direction, FrameInput, Game, Paddle,
    Score, BALL_HALF_SIZE, FIELD_HALF_HEIGHT, MAX_BALL_SPEED, PADDLE_HALF_HEIGHT, SERVE_SPEED,
};

fn right_paddle() -> Paddle {
    Paddle::new(380_000, 10_000, 50_000, 500_000)
}

fn left_paddle() -> Paddle {
    Paddle::new(-380_000, 10_000, 50_000, 500_000)
}

#[test]
fn paddle_moves_up_at_its_speed() {
    let mut p = right_paddle();
    p.advance(Direction::Up, 100_000);
    assert_eq!(p.y, 50_000);
    p.advance(Direction::Down, 40_000);
    assert_eq!(p.y, 30_000);
    p.advance(Direction::Still, 1_000_000);
    assert_eq!(p.y, 30_000);
}

#[test]
fn paddle_is_clamped_to_the_field() {
    let mut p = left_paddle();
    p.advance(Direction::Up, 10_000_000);
    assert_eq!(p.y, FIELD_HALF_HEIGHT - PADDLE_HALF_HEIGHT);
    p.advance(Direction::Down, i64::MAX);
    assert_eq!(p.y, -FIELD_HALF_HEIGHT + PADDLE_HALF_HEIGHT);
}

#[test]
fn paddle_ignores_negative_elapsed_time() {
    let mut p = left_paddle();
    p.advance(Direction::Up, -1_000_000);
    assert_eq!(p.y, 0);
}

#[test]
fn both_keys_cancel() {
    assert_eq!(Direction::from_keys(true, true), Direction::Still);
    assert_eq!(Direction::from_keys(false, false), Direction::Still);
    assert_eq!(Direction::from_keys(true, false), Direction::Up);
    assert_eq!(Direction::from_keys(false, true), Direction::Down);
}

#[test]
fn travel_rounds_toward_zero() {
    assert_eq!(travel_distance(200_000, 16_667), 3_333);
    assert_eq!(travel_distance(-200_000, 16_667), -3_333);
    assert_eq!(travel_distance(200_000, -16_667), 0);
}

#[test]
fn saturation_keeps_the_i64_range() {
    assert_eq!(saturate_i64(i64::MAX as i128 + 5), i64::MAX);
    assert_eq!(saturate_i64(i64::MIN as i128 - 5), i64::MIN);
    assert_eq!(saturate_i64(-12), -12);
}

#[test]
fn ball_integration_is_euler() {
    let mut b = Ball::new(1_000, -2_000, 200_000, -100_000, BALL_HALF_SIZE);
    b.integrate(500_000);
    assert_eq!((b.x, b.y), (101_000, -52_000));
    assert_eq!((b.vx, b.vy), (200_000, -100_000));
}

#[test]
fn level_ball_never_bounces() {
    let mut b = Ball::new(0, 0, 200_000, 0, BALL_HALF_SIZE);
    b.integrate(292_500_000);
    resolve_walls(&mut b);
    assert_eq!(b.y, 0);
    assert_eq!(b.vy, 0);
    assert_eq!(b.x, 58_500_000);
}

#[test]
fn wall_reflects_only_outward_motion() {
    let mut b = Ball::new(0, 295_000, 200_000, 50_000, BALL_HALF_SIZE);
    resolve_walls(&mut b);
    assert_eq!(b.vy, -50_000);
    resolve_walls(&mut b);
    assert_eq!(b.vy, -50_000);
    let mut c = Ball::new(0, -295_000, 200_000, -50_000, BALL_HALF_SIZE);
    resolve_walls(&mut c);
    assert_eq!(c.vy, 50_000);
    assert_eq!(c.vx, 200_000);
}

#[test]
fn touching_edges_do_not_overlap() {
    let a = Aabb { x: 0, y: 0, half_width: 10, half_height: 10 };
    let b = Aabb { x: 20, y: 0, half_width: 10, half_height: 10 };
    let c = Aabb { x: 19, y: 19, half_width: 10, half_height: 10 };
    assert!(!overlaps(&a, &b));
    assert!(overlaps(&a, &c));
    assert!(overlaps(&c, &a));
}

#[test]
fn offset_is_clamped_to_half_height() {
    assert_eq!(clamped_offset(120_000, 0, 50_000), 50_000);
    assert_eq!(clamped_offset(-120_000, 0, 50_000), -50_000);
    assert_eq!(clamped_offset(10_000, -5_000, 50_000), 15_000);
}

#[test]
fn escalation_is_five_percent() {
    assert_eq!(escalate(200_000), 210_000);
    assert_eq!(escalate(210_000), 220_500);
    assert_eq!(escalate(MAX_BALL_SPEED), MAX_BALL_SPEED);
}

#[test]
fn deflection_is_three_quarters_at_the_edge() {
    assert_eq!(deflect(50_000, 50_000, 210_000), 157_500);
    assert_eq!(deflect(-50_000, 50_000, 210_000), -157_500);
    assert_eq!(deflect(0, 50_000, 210_000), 0);
}

#[test]
fn hit_half_way_up_the_right_paddle() {
    let p = right_paddle();
    let mut b = Ball::new(370_000, 25_000, 200_000, 0, BALL_HALF_SIZE);
    resolve_paddle(&mut b, &p);
    assert_eq!(b.vx, -210_000);
    assert_eq!(b.vy, 78_750);
    assert_eq!((b.x, b.y), (370_000, 25_000));
}

#[test]
fn hit_at_the_centre_is_flat() {
    let p = left_paddle();
    let mut b = Ball::new(-372_000, 0, -300_000, 40_000, BALL_HALF_SIZE);
    resolve_paddle(&mut b, &p);
    assert_eq!(b.vx, 315_000);
    assert_eq!(b.vy, 0);
}

#[test]
fn edge_hit_is_capped_at_three_quarters() {
    let p = right_paddle();
    let mut b = Ball::new(372_000, -56_000, 400_000, 0, BALL_HALF_SIZE);
    resolve_paddle(&mut b, &p);
    assert_eq!(b.vx, -420_000);
    assert_eq!(b.vy, -315_000);
    assert!(4 * b.vy.abs() <= 3 * b.vx.abs());
}

#[test]
fn embedded_ball_moving_away_is_not_hit_again() {
    let p = right_paddle();
    let mut b = Ball::new(375_000, 0, -210_000, 10_000, BALL_HALF_SIZE);
    resolve_paddle(&mut b, &p);
    assert_eq!((b.vx, b.vy), (-210_000, 10_000));
    let mut c = Ball::new(385_000, 0, 210_000, 10_000, BALL_HALF_SIZE);
    resolve_paddle(&mut c, &p);
    assert_eq!((c.vx, c.vy), (210_000, 10_000));
}

#[test]
fn collisions_run_walls_then_paddles() {
    let l = left_paddle();
    let r = right_paddle();
    let mut b = Ball::new(370_000, 0, 200_000, 0, BALL_HALF_SIZE);
    resolve_collisions(&mut b, &l, &r);
    assert_eq!((b.vx, b.vy), (-210_000, 0));
}

#[test]
fn ball_out_on_the_right_scores_for_the_left() {
    let mut b = Ball::new(410_000, 30_000, -200_000, 5_000, BALL_HALF_SIZE);
    let mut s = Score::new();
    assert!(score_and_serve(&mut b, &mut s));
    assert_eq!((s.left, s.right), (1, 0));
    assert_eq!((b.x, b.y, b.vx, b.vy), (0, 0, -SERVE_SPEED, 0));
}

#[test]
fn ball_out_on_the_left_scores_for_the_right() {
    let mut b = Ball::new(-410_000, -30_000, -651_000, 5_000, BALL_HALF_SIZE);
    let mut s = Score { left: 3, right: 7 };
    assert!(score_and_serve(&mut b, &mut s));
    assert_eq!((s.left, s.right), (3, 8));
    assert_eq!((b.x, b.y, b.vx, b.vy), (0, 0, SERVE_SPEED, 0));
}

#[test]
fn ball_in_bounds_is_left_alone() {
    let mut b = Ball::new(400_000, 12_000, 300_000, -5_000, BALL_HALF_SIZE);
    let mut s = Score { left: 2, right: 4 };
    assert!(!score_and_serve(&mut b, &mut s));
    assert_eq!(b, Ball::new(400_000, 12_000, 300_000, -5_000, BALL_HALF_SIZE));
    assert_eq!((s.left, s.right), (2, 4));
    let mut served = Ball::new(410_000, 0, 1, 0, BALL_HALF_SIZE);
    assert!(score_and_serve(&mut served, &mut s));
    let once = (served, s);
    assert!(!score_and_serve(&mut served, &mut s));
    assert_eq!((served, s), once);
}

#[test]
fn score_stays_at_its_maximum() {
    let mut b = Ball::new(-500_000, 0, -1, 0, BALL_HALF_SIZE);
    let mut s = Score { left: 0, right: u64::MAX };
    assert!(score_and_serve(&mut b, &mut s));
    assert_eq!(s.right, u64::MAX);
}

#[test]
fn new_game_is_the_reference_setup() {
    let g = Game::new();
    assert_eq!((g.left.x, g.right.x), (-380_000, 380_000));
    assert_eq!((g.left.y, g.right.y), (0, 0));
    assert_eq!(g.ball, Ball::new(0, 0, 200_000, 0, 7_500));
    assert_eq!((g.score.left, g.score.right), (0, 0));
}

#[test]
fn frame_scores_when_the_ball_leaves_right() {
    let mut g = Game::new();
    g.ball = Ball::new(420_000, 0, -200_000, 0, BALL_HALF_SIZE);
    let changed = g.step(FrameInput { left: Direction::Still, right: Direction::Still, elapsed_micros: 16_000 });
    assert!(changed);
    assert_eq!((g.score.left, g.score.right), (1, 0));
    assert_eq!((g.ball.x, g.ball.y, g.ball.vx, g.ball.vy), (0, 0, -200_000, 0));
}

#[test]
fn frame_moves_paddles_and_ball() {
    let mut g = Game::new();
    let changed = g.step(FrameInput { left: Direction::Up, right: Direction::Down, elapsed_micros: 20_000 });
    assert!(!changed);
    assert_eq!((g.left.y, g.right.y), (10_000, -10_000));
    assert_eq!((g.ball.x, g.ball.y), (4_000, 0));
}

#[test]
fn rally_scores_never_decrease() {
    let mut g = Game::new();
    let mut last = (0u64, 0u64);
    let mut points = 0;
    for i in 0..20_000i64 {
        let left = if i % 3 == 0 { Direction::Up } else { Direction::Down };
        let right = if i % 5 == 0 { Direction::Down } else { Direction::Up };
        if g.step(FrameInput { left, right, elapsed_micros: 16_667 }) {
            points += 1;
        }
        assert!(g.score.left >= last.0 && g.score.right >= last.1);
        last = (g.score.left, g.score.right);
        assert!(g.left.y.abs() <= FIELD_HALF_HEIGHT - PADDLE_HALF_HEIGHT);
        assert!(g.right.y.abs() <= FIELD_HALF_HEIGHT - PADDLE_HALF_HEIGHT);
    }
    assert!(points > 0);
    assert_eq!(points, last.0 + last.1);
}
