//! The session: one ball, two paddles, and the per-frame update.
use vstd::prelude::*;
use crate::arena::{collide, overlaps, Point, ARENA_HEIGHT, ARENA_WIDTH, CENTER_X, CENTER_Y};
use crate::ball::{saturating_inc, Ball, BALL_RADIUS, BALL_START_SPEED};
use crate::direction::{random_direction, Direction};
use crate::paddle::{
    law_paddle_stays_in_arena, Paddle, PADDLE_HALF_HEIGHT, PADDLE_HALF_WIDTH, PADDLE_HEIGHT,
    PADDLE_MAX_Y, PADDLE_WIDTH,
};

verus! {

/// Left edge of the left paddle, in micro-units.
pub const LEFT_PADDLE_X: i64 = 5_000_000;

/// Left edge of the right paddle, in micro-units.
pub const RIGHT_PADDLE_X: i64 = 390_000_000;

/// The four movement controls sampled for one frame.
#[derive(Clone, Copy, Debug, PartialEq, Eq, Structural)]
pub struct Input {
    pub left_up: bool,
    pub left_down: bool,
    pub right_up: bool,
    pub right_down: bool,
}

/// What a renderer reads of the session for one frame; lengths in
/// micro-units.
#[derive(Clone, Copy, Debug, PartialEq, Eq, Structural)]
pub struct Frame {
    pub ball_x: i64,
    pub ball_y: i64,
    pub ball_radius: i64,
    pub left_x: i64,
    pub left_y: i64,
    pub right_x: i64,
    pub right_y: i64,
    pub paddle_width: i64,
    pub paddle_height: i64,
    pub left_score: u64,
    pub right_score: u64,
}

/// The session state.
#[derive(Clone, Copy, Debug, PartialEq, Eq, Structural)]
pub struct State {
    pub ball: Ball,
    pub left: Paddle,
    pub right: Paddle,
}

/// The ball's direction turned on the vertical axis.
pub open spec fn bounced_y(b: Ball) -> Ball {
    Ball { dir: b.dir.flipped_y(), ..b }
}

/// A paddle with one more point.
pub open spec fn scored(p: Paddle) -> Paddle {
    Paddle { score: saturating_inc(p.score), ..p }
}

/// A paddle given this frame's movement flags.
pub open spec fn steered(p: Paddle, up: bool, down: bool) -> Paddle {
    Paddle { moving_up: up, moving_down: down, ..p }
}

impl State {
    pub open spec fn wf(self) -> bool {
        self.ball.wf() && self.left.wf() && self.right.wf()
    }

    pub open spec fn hits_top(self) -> bool {
        self.ball.y <= 0
    }

    pub open spec fn hits_bottom(self) -> bool {
        self.ball.y >= ARENA_HEIGHT
    }

    /// The ball reached the left edge: a point for the right paddle.
    pub open spec fn hits_left(self) -> bool {
        self.ball.x <= 0
    }

    /// The ball reached the right edge: a point for the left paddle.
    pub open spec fn hits_right(self) -> bool {
        self.ball.x >= ARENA_WIDTH
    }

    pub open spec fn hits_border(self) -> bool {
        self.hits_top() || self.hits_bottom() || self.hits_left() || self.hits_right()
    }

    /// The border reactions and the speed-up, judged on the ball's position
    /// before this frame's motion; a scoring ball is launched along `launch`.
    pub open spec fn after_borders(self, launch: Direction) -> State {
        let b1 = if self.hits_top() { bounced_y(self.ball) } else { self.ball };
        let b2 = if self.hits_bottom() { bounced_y(b1) } else { b1 };
        let b3 = if self.hits_left() { b2.launched(launch) } else { b2 };
        let b4 = if self.hits_right() { b3.launched(launch) } else { b3 };
        let b5 = if self.hits_border() { Ball { speed: saturating_inc(b4.speed), ..b4 } } else { b4 };
        State {
            ball: b5,
            left: if self.hits_right() { scored(self.left) } else { self.left },
            right: if self.hits_left() { scored(self.right) } else { self.right },
        }
    }

    /// The input applied, then both paddles and the ball moved.
    pub open spec fn after_motion(self, delta: u32, input: Input) -> State {
        State {
            ball: self.ball.advanced(delta),
            left: steered(self.left, input.left_up, input.left_down).advanced(delta),
            right: steered(self.right, input.right_up, input.right_down).advanced(delta),
        }
    }

    /// The ball overlaps either paddle.
    pub open spec fn paddle_hit(self) -> bool {
        let c = Point { x: self.ball.x, y: self.ball.y };
        let e = Point { x: BALL_RADIUS, y: BALL_RADIUS };
        let pe = Point { x: PADDLE_HALF_WIDTH, y: PADDLE_HALF_HEIGHT };
        overlaps(c, e, self.left.center_spec(), pe) || overlaps(c, e, self.right.center_spec(), pe)
    }

    /// A ball that overlaps a paddle turns on the horizontal axis, once.
    pub open spec fn after_collisions(self) -> State {
        if self.paddle_hit() {
            State { ball: Ball { dir: self.ball.dir.flipped_x(), ..self.ball }, ..self }
        } else {
            self
        }
    }

    /// One frame of `delta` microseconds: borders, motion, collisions.
    pub open spec fn stepped(self, delta: u32, input: Input, launch: Direction) -> State {
        self.after_borders(launch).after_motion(delta, input).after_collisions()
    }

    pub open spec fn frame(self) -> Frame {
        Frame {
            ball_x: self.ball.x,
            ball_y: self.ball.y,
            ball_radius: BALL_RADIUS,
            left_x: self.left.x,
            left_y: self.left.y,
            right_x: self.right.x,
            right_y: self.right.y,
            paddle_width: PADDLE_WIDTH,
            paddle_height: PADDLE_HEIGHT,
            left_score: self.left.score,
            right_score: self.right.score,
        }
    }

    /// A session at its start: the ball at the center with a random launch
    /// direction, both paddles at mid-height, no points.
    pub fn new() -> (r: State)
        ensures
            r.wf(),
            r.ball.x == CENTER_X && r.ball.y == CENTER_Y,
            r.ball.dir.is_drawn_launch(),
            r.ball.speed == BALL_START_SPEED,
            r.left == Paddle::new_spec(LEFT_PADDLE_X),
            r.right == Paddle::new_spec(RIGHT_PADDLE_X),
    {
        State {
            ball: Ball::new(),
            left: Paddle::new(LEFT_PADDLE_X),
            right: Paddle::new(RIGHT_PADDLE_X),
        }
    }

    fn process_input(&mut self, input: Input)
        ensures
            *final(self) == (State {
                left: steered(old(self).left, input.left_up, input.left_down),
                right: steered(old(self).right, input.right_up, input.right_down),
                ..*old(self)
            }),
    {
        self.left.set_input(input.left_up, input.left_down);
        self.right.set_input(input.right_up, input.right_down);
    }

    fn next_turn(&mut self, launch: Direction)
        ensures
            *final(self) == (State { ball: old(self).ball.launched(launch), ..*old(self) }),
    {
        self.ball.launch(launch);
    }

    /// One frame of `delta` microseconds with the given input; a ball that
    /// scores is launched again along `launch`.
    pub fn step(&mut self, delta: u32, input: Input, launch: Direction)
        requires
            old(self).wf(),
            launch.wf(),
        ensures
            *final(self) == old(self).stepped(delta, input, launch),
            final(self).wf(),
    {
        let ghost s0 = *self;
        // Border checks, on the position before this frame's motion.
        let hit_top = self.ball.y <= 0;
        let hit_bottom = self.ball.y >= ARENA_HEIGHT;
        let hit_left = self.ball.x <= 0;
        let hit_right = self.ball.x >= ARENA_WIDTH;

        if hit_top {
            self.ball.flip_vertical();
        }
        if hit_bottom {
            self.ball.flip_vertical();
        }
        if hit_left {
            self.right.add_point();
            self.next_turn(launch);
        }
        if hit_right {
            self.left.add_point();
            self.next_turn(launch);
        }
        if hit_top || hit_bottom || hit_left || hit_right {
            self.ball.speed_up();
        }
        assert(*self == s0.after_borders(launch));

        self.process_input(input);
        self.left.advance(delta);
        self.right.advance(delta);
        self.ball.advance(delta);
        assert(*self == s0.after_borders(launch).after_motion(delta, input));

        let ball_pos = self.ball.center();
        let ball_extent = self.ball.extent();
        let hit_p1 = collide(&ball_pos, &ball_extent, &self.left.center(), &self.left.extent());
        let hit_p2 = collide(&ball_pos, &ball_extent, &self.right.center(), &self.right.extent());
        if hit_p1 || hit_p2 {
            self.ball.flip_horizontal();
        }
    }

    /// One frame of `delta` microseconds with the given input; a ball that
    /// scores is launched again in a fresh random direction.
    pub fn update(&mut self, delta: u32, input: Input)
        requires
            old(self).wf(),
        ensures
            final(self).wf(),
            exists|launch: Direction|
                launch.is_drawn_launch() && *final(self) == old(self).stepped(delta, input, launch),
    {
        if self.ball.x <= 0 || self.ball.x >= ARENA_WIDTH {
            let launch = random_direction();
            self.step(delta, input, launch);
        } else {
            let ghost s0 = *self;
            let kept = self.ball.dir;
            self.step(delta, input, kept);
            proof {
                let w = Direction { x: 600_000_000, y: 800_000_000 };
                lemma_three_four_launch();
                assert(w.normalizes(3, 4));
                assert(w.is_drawn_launch());
                assert(s0.after_borders(kept) == s0.after_borders(w));
                assert(s0.stepped(delta, input, kept) == s0.stepped(delta, input, w));
            }
        }
    }

    /// What a renderer reads of the session; reading changes nothing, so
    /// two reads between updates agree.
    pub fn snapshot(&self) -> (r: Frame)
        ensures
            r == self.frame(),
    {
        Frame {
            ball_x: self.ball.x,
            ball_y: self.ball.y,
            ball_radius: BALL_RADIUS,
            left_x: self.left.x,
            left_y: self.left.y,
            right_x: self.right.x,
            right_y: self.right.y,
            paddle_width: PADDLE_WIDTH,
            paddle_height: PADDLE_HEIGHT,
            left_score: self.left.score,
            right_score: self.right.score,
        }
    }
}

/// The offsets `(3, 4)` scale to `(0.6, 0.8)`, a launch that a draw can give.
proof fn lemma_three_four_launch()
    ensures
        (Direction { x: 600_000_000, y: 800_000_000 }).normalizes(3, 4),
        (Direction { x: 600_000_000, y: 800_000_000 }).is_launch(),
{
    assert(600_000_000int * 600_000_000 * 25 == 9 * 1_000_000_000_000_000_000int);
    assert(800_000_000int * 800_000_000 * 25 == 16 * 1_000_000_000_000_000_000int);
    assert(600_000_001int * 600_000_001 * 25 > 9 * 1_000_000_000_000_000_000int);
    assert(800_000_001int * 800_000_001 * 25 > 16 * 1_000_000_000_000_000_000int);
    assert(600_000_000int * 600_000_000 + 800_000_000int * 800_000_000
        == 1_000_000_000_000_000_000int);
    assert(600_000_001int * 600_000_001 + 800_000_001int * 800_000_001
        > 1_000_000_000_000_000_000int);
}

/// The state after each frame of `frames` in turn; a frame is its duration
/// in microseconds, its input, and the launch direction for a scoring ball.
pub open spec fn run(s: State, frames: Seq<(u32, Input, Direction)>) -> State
    decreases frames.len(),
{
    if frames.len() == 0 {
        s
    } else {
        run(s.stepped(frames[0].0, frames[0].1, frames[0].2), frames.drop_first())
    }
}

/// After any frame, both paddles of a well-formed session lie inside the
/// arena, and the session stays well-formed.
pub proof fn law_paddles_stay_in_arena(s: State, delta: u32, input: Input, launch: Direction)
    requires
        s.wf(),
        launch.wf(),
    ensures
        s.stepped(delta, input, launch).wf(),
        0 <= s.stepped(delta, input, launch).left.y <= PADDLE_MAX_Y,
        0 <= s.stepped(delta, input, launch).right.y <= PADDLE_MAX_Y,
{
    let b = s.after_borders(launch);
    law_paddle_stays_in_arena(steered(b.left, input.left_up, input.left_down), delta);
    law_paddle_stays_in_arena(steered(b.right, input.right_up, input.right_down), delta);
}

/// The ball's speed never drops, over any sequence of frames.
pub proof fn law_speed_never_decreases(s: State, frames: Seq<(u32, Input, Direction)>)
    ensures
        run(s, frames).ball.speed >= s.ball.speed,
    decreases frames.len(),
{
    if frames.len() > 0 {
        let next = s.stepped(frames[0].0, frames[0].1, frames[0].2);
        law_speed_never_decreases(next, frames.drop_first());
    }
}

/// A ball at or past the left edge when a frame starts gives the right
/// paddle exactly one point and the left none, and is launched from the
/// center, one unit per second faster, before the frame's motion; the
/// mirror image holds at the right edge.
pub proof fn law_goal_scores(s: State, delta: u32, input: Input, launch: Direction)
    requires
        s.right.score < u64::MAX,
        s.left.score < u64::MAX,
        s.ball.speed < u64::MAX,
    ensures
        s.hits_left() ==> {
            &&& s.stepped(delta, input, launch).right.score == s.right.score + 1
            &&& s.stepped(delta, input, launch).left.score == s.left.score
            &&& s.after_borders(launch).ball == (Ball {
                x: CENTER_X,
                y: CENTER_Y,
                dir: launch,
                speed: (s.ball.speed + 1) as u64,
            })
        },
        s.hits_right() ==> {
            &&& s.stepped(delta, input, launch).left.score == s.left.score + 1
            &&& s.stepped(delta, input, launch).right.score == s.right.score
            &&& s.after_borders(launch).ball == (Ball {
                x: CENTER_X,
                y: CENTER_Y,
                dir: launch,
                speed: (s.ball.speed + 1) as u64,
            })
        },
        s.hits_left() || s.hits_right() ==> {
            &&& s.stepped(delta, input, launch).ball.x == s.after_borders(launch).ball.advanced(delta).x
            &&& s.stepped(delta, input, launch).ball.y == s.after_borders(launch).ball.advanced(delta).y
        },
{
}

} // verus!
