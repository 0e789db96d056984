use pong::arena::{collide, screen_center, Point, CENTER_X, CENTER_Y, UNIT};
use pong::ball::{Ball, BALL_RADIUS, BALL_START_SPEED};
use pong::direction::{launch_from_offsets, random_direction, Direction, DIR_ONE};
use pong::paddle::{Paddle, PADDLE_HALF_HEIGHT, PADDLE_HALF_WIDTH, PADDLE_MAX_Y};
use pong::state::{Input, State, LEFT_PADDLE_X, RIGHT_PADDLE_X};

const NO_INPUT: Input = Input { left_up: false, left_down: false, right_up: false, right_down: false };

fn is_unit(d: &Direction) -> bool {
    let x = d.x as i128;
    let y = d.y as i128;
    let one = DIR_ONE as i128;
    let squared = x * x + y * y;
    squared <= one * one
        && one * one < (x.abs() + 1) * (x.abs() + 1) + (y.abs() + 1) * (y.abs() + 1)
        && one * one - squared <= one * one / 1_000_000
}

/// The components of a launch come from whole offsets in `[-5, 5)`, neither
/// zero: each lies between 1/sqrt(26) and 5/sqrt(26) of the unit, up to
/// rounding.
fn is_drawn(d: &Direction) -> bool {
    let low = (DIR_ONE as f64 / 26f64.sqrt()) as i64;
    let high = (5.0 * DIR_ONE as f64 / 26f64.sqrt()) as i64 + 1;
    let inside = |c: i64| c.abs() >= low && c.abs() <= high;
    inside(d.x) && inside(d.y)
}

fn still_state(ball: Ball) -> State {
    State { ball, left: Paddle::new(LEFT_PADDLE_X), right: Paddle::new(RIGHT_PADDLE_X) }
}

#[test]
fn center_is_middle_of_arena() {
    assert_eq!(screen_center(), Point { x: 200 * UNIT, y: 150 * UNIT });
}

#[test]
fn new_session_starts_at_rest() {
    let s = State::new();
    assert_eq!((s.ball.x, s.ball.y), (CENTER_X, CENTER_Y));
    assert_eq!(s.ball.speed, 150);
    assert_eq!(BALL_START_SPEED, 150);
    assert!(s.ball.dir.x != 0 && s.ball.dir.y != 0 && is_unit(&s.ball.dir));
    assert_eq!((s.left.x, s.left.y, s.left.score), (5 * UNIT, 150 * UNIT, 0));
    assert_eq!((s.right.x, s.right.y, s.right.score), (390 * UNIT, 150 * UNIT, 0));
}

#[test]
fn offsets_scale_to_unit_length() {
    assert_eq!(Direction::from_offsets(3, 4), Some(Direction { x: 600_000_000, y: 800_000_000 }));
    assert_eq!(Direction::from_offsets(-1, 0), Some(Direction { x: -DIR_ONE, y: 0 }));
    assert_eq!(Direction::from_offsets(0, 0), None);
    // 1/sqrt(26) = 0.19611613..., 5/sqrt(26) = 0.98058067...
    assert_eq!(Direction::from_offsets(1, -5), Some(Direction { x: 196_116_135, y: -980_580_675 }));
    // 1/sqrt(2) = 0.70710678..., rounded toward zero.
    assert_eq!(Direction::from_offsets(-2, 2), Some(Direction { x: -707_106_781, y: 707_106_781 }));
}

#[test]
fn launch_rejects_zero_offsets() {
    assert_eq!(launch_from_offsets(0, 3), None);
    assert_eq!(launch_from_offsets(-4, 0), None);
    let d = launch_from_offsets(-5, 1).unwrap();
    assert!(d.x < 0 && d.y > 0 && is_unit(&d));
}

#[test]
fn every_random_launch_is_a_unit_vector_without_zero_component() {
    let mut seen = std::collections::HashSet::new();
    for _ in 0..500 {
        let d = random_direction();
        assert!(d.x != 0 && d.y != 0);
        assert!(is_unit(&d));
        assert!(is_drawn(&d));
        seen.insert((d.x, d.y));
    }
    assert!(seen.len() > 1);
}

#[test]
fn ball_reset_keeps_speed() {
    let mut b = Ball { x: -3, y: 7, dir: Direction { x: DIR_ONE, y: 0 }, speed: 170 };
    b.reset();
    assert_eq!((b.x, b.y, b.speed), (CENTER_X, CENTER_Y, 170));
    assert!(b.dir.x != 0 && b.dir.y != 0 && is_unit(&b.dir) && is_drawn(&b.dir));
}

#[test]
fn paddle_near_top_refuses_move_past_it() {
    let mut p = Paddle::new(LEFT_PADDLE_X);
    p.y = UNIT;
    p.set_input(true, false);
    p.advance(20_000);
    assert_eq!(p.y, UNIT);
}

#[test]
fn ball_advance_integrates_direction_and_speed() {
    let mut b = Ball { x: 0, y: 0, dir: Direction { x: 600_000_000, y: -800_000_000 }, speed: 150 };
    b.advance(10_000);
    assert_eq!((b.x, b.y), (900_000, -1_200_000));
    let mut far = Ball { x: i64::MAX - 5, y: i64::MIN + 5, dir: Direction { x: DIR_ONE, y: -DIR_ONE }, speed: 1000 };
    far.advance(1_000_000);
    assert_eq!((far.x, far.y), (i64::MAX, i64::MIN));
}

#[test]
fn ball_flips_negate_one_component() {
    let mut b = Ball { x: 1, y: 2, dir: Direction { x: 600_000_000, y: 800_000_000 }, speed: 150 };
    b.flip_horizontal();
    assert_eq!(b.dir, Direction { x: -600_000_000, y: 800_000_000 });
    b.flip_vertical();
    assert_eq!(b.dir, Direction { x: -600_000_000, y: -800_000_000 });
}

#[test]
fn paddle_at_top_refuses_upward_move() {
    let mut p = Paddle::new(LEFT_PADDLE_X);
    p.y = 0;
    p.set_input(true, false);
    p.advance(1_000_000);
    assert_eq!(p.y, 0);
}

#[test]
fn paddle_freezes_short_of_a_bound() {
    let mut p = Paddle::new(LEFT_PADDLE_X);
    p.y = 3 * UNIT;
    p.set_input(true, false);
    p.advance(50_000);
    assert_eq!(p.y, 3 * UNIT);
    p.advance(30_000);
    assert_eq!(p.y, 0);
    p.y = PADDLE_MAX_Y - UNIT;
    p.set_input(false, true);
    p.advance(20_000);
    assert_eq!(p.y, PADDLE_MAX_Y - UNIT);
    p.advance(10_000);
    assert_eq!(p.y, PADDLE_MAX_Y);
}

#[test]
fn paddle_with_both_flags_stays() {
    let mut p = Paddle::new(RIGHT_PADDLE_X);
    p.set_input(true, true);
    p.advance(100_000);
    assert_eq!(p.y, 150 * UNIT);
}

#[test]
fn paddle_stays_inside_over_many_frames() {
    let mut p = Paddle::new(LEFT_PADDLE_X);
    for i in 0..400u32 {
        p.set_input(i % 7 < 3, i % 5 == 0);
        p.advance(33_333 + i * 100);
        assert!(p.y >= 0 && p.y <= PADDLE_MAX_Y);
    }
}

#[test]
fn paddle_center_and_extent() {
    let p = Paddle::new(LEFT_PADDLE_X);
    assert_eq!(p.center(), Point { x: 7_500_000, y: 175_000_000 });
    assert_eq!(p.extent(), Point { x: PADDLE_HALF_WIDTH, y: PADDLE_HALF_HEIGHT });
    assert_eq!(p.extent(), Point { x: 2_500_000, y: 25_000_000 });
}

#[test]
fn touching_boxes_do_not_collide() {
    let e1 = Point { x: 6 * UNIT, y: 6 * UNIT };
    let e2 = Point { x: 2_500_000, y: 25_000_000 };
    let c = Point { x: 100 * UNIT, y: 100 * UNIT };
    let touching = Point { x: c.x + 8_500_000, y: c.y };
    let closer = Point { x: c.x + 7_500_000, y: c.y };
    assert!(!collide(&touching, &e1, &c, &e2));
    assert!(collide(&closer, &e1, &c, &e2));
    let below = Point { x: c.x, y: c.y + 31 * UNIT };
    assert!(!collide(&below, &e1, &c, &e2));
}

#[test]
fn touching_paddle_does_not_flip_ball() {
    let paddle = Paddle::new(LEFT_PADDLE_X).center();
    let dir = Direction { x: -DIR_ONE, y: 0 };
    let mut s = still_state(Ball { x: paddle.x + 8_500_000, y: paddle.y, dir, speed: 150 });
    s.step(0, NO_INPUT, dir);
    assert_eq!(s.ball.dir, dir);
    let mut s = still_state(Ball { x: paddle.x + 7_500_000, y: paddle.y, dir, speed: 150 });
    s.step(0, NO_INPUT, dir);
    assert_eq!(s.ball.dir, Direction { x: DIR_ONE, y: 0 });
}

#[test]
fn ball_overlapping_both_paddles_flips_once() {
    let dir = Direction { x: DIR_ONE, y: 0 };
    let mut s = still_state(Ball { x: 100 * UNIT, y: 175 * UNIT, dir, speed: 150 });
    s.right.x = 95 * UNIT;
    s.left.x = 95 * UNIT;
    s.step(0, NO_INPUT, dir);
    assert_eq!(s.ball.dir, Direction { x: -DIR_ONE, y: 0 });
}

#[test]
fn ball_through_left_edge_scores_for_right() {
    let dir = Direction::from_offsets(-1, 0).unwrap();
    let mut s = still_state(Ball { x: UNIT, y: 150 * UNIT, dir, speed: 150 });
    s.step(20_000, NO_INPUT, dir);
    assert_eq!((s.ball.x, s.ball.y), (-2 * UNIT, 150 * UNIT));
    assert_eq!(s.right.score, 0);
    let launch = Direction::from_offsets(3, 4).unwrap();
    let mut at_rest = s;
    at_rest.step(0, NO_INPUT, launch);
    assert_eq!((at_rest.ball.x, at_rest.ball.y), (200 * UNIT, 150 * UNIT));
    assert_eq!((at_rest.right.score, at_rest.left.score), (1, 0));
    assert_eq!(at_rest.ball.speed, 151);
    s.step(20_000, NO_INPUT, launch);
    assert_eq!((s.right.score, s.left.score), (1, 0));
    assert_eq!(s.ball.speed, 151);
    assert_eq!((s.ball.x, s.ball.y), (201_812_000, 152_416_000));
}

#[test]
fn random_relaunch_after_left_goal() {
    let dir = Direction { x: -DIR_ONE, y: 0 };
    let mut s = still_state(Ball { x: UNIT, y: 150 * UNIT, dir, speed: 150 });
    s.update(20_000, NO_INPUT);
    assert_eq!(s.ball.x, -2 * UNIT);
    s.update(0, NO_INPUT);
    assert_eq!((s.ball.x, s.ball.y), (200 * UNIT, 150 * UNIT));
    assert_eq!(s.right.score, 1);
    assert_eq!(s.ball.speed, 151);
    assert!(s.ball.dir.x != 0 && s.ball.dir.y != 0 && is_unit(&s.ball.dir));
}

#[test]
fn ball_through_right_edge_scores_for_left() {
    let dir = Direction { x: DIR_ONE, y: 0 };
    let launch = Direction { x: 600_000_000, y: 800_000_000 };
    let mut s = still_state(Ball { x: 400 * UNIT, y: 20 * UNIT, dir, speed: 200 });
    s.step(0, NO_INPUT, launch);
    assert_eq!((s.left.score, s.right.score), (1, 0));
    assert_eq!((s.ball.x, s.ball.y, s.ball.dir, s.ball.speed), (CENTER_X, CENTER_Y, launch, 201));
}

#[test]
fn top_and_bottom_walls_bounce_and_speed_up() {
    let dir = Direction { x: 600_000_000, y: -800_000_000 };
    let mut s = still_state(Ball { x: 100 * UNIT, y: 0, dir, speed: 150 });
    s.step(10_000, NO_INPUT, dir);
    assert_eq!(s.ball.dir, Direction { x: 600_000_000, y: 800_000_000 });
    assert_eq!(s.ball.speed, 151);
    assert_eq!((s.ball.x, s.ball.y), (100 * UNIT + 906_000, 1_208_000));
    let mut s = still_state(Ball { x: 100 * UNIT, y: 300 * UNIT, dir: Direction { x: 0, y: DIR_ONE }, speed: 150 });
    s.step(0, NO_INPUT, dir);
    assert_eq!(s.ball.dir, Direction { x: 0, y: -DIR_ONE });
    assert_eq!(s.ball.speed, 151);
    assert_eq!((s.left.score, s.right.score), (0, 0));
}

#[test]
fn input_moves_paddles_in_step() {
    let dir = Direction { x: 600_000_000, y: 800_000_000 };
    let mut s = still_state(Ball { x: 200 * UNIT, y: 100 * UNIT, dir, speed: 150 });
    s.left.y = 0;
    let input = Input { left_up: true, left_down: false, right_up: false, right_down: true };
    s.step(1_000_000, input, dir);
    assert_eq!(s.left.y, 0);
    assert_eq!(s.right.y, 250 * UNIT);
    assert!(s.left.moving_up && s.right.moving_down);
}

#[test]
fn speed_never_decreases_over_a_session() {
    let mut s = State::new();
    let mut last = s.ball.speed;
    for i in 0..3000u32 {
        let input = Input { left_up: i % 3 == 0, left_down: i % 4 == 0, right_up: i % 5 == 0, right_down: i % 2 == 0 };
        s.update(16_667, input);
        assert!(s.ball.speed >= last);
        assert!(s.left.y >= 0 && s.left.y <= PADDLE_MAX_Y);
        assert!(s.right.y >= 0 && s.right.y <= PADDLE_MAX_Y);
        last = s.ball.speed;
    }
    assert!(last > 150);
}

#[test]
fn snapshot_twice_agrees() {
    let mut s = State::new();
    s.update(16_000, NO_INPUT);
    let a = s.snapshot();
    let b = s.snapshot();
    assert_eq!(a, b);
    assert_eq!((a.ball_x, a.ball_y, a.ball_radius), (s.ball.x, s.ball.y, BALL_RADIUS));
    assert_eq!((a.paddle_width, a.paddle_height), (5 * UNIT, 50 * UNIT));
    assert_eq!((a.left_x, a.left_y, a.right_x, a.right_y), (s.left.x, s.left.y, s.right.x, s.right.y));
    assert_eq!((a.left_score, a.right_score), (0, 0));
}
