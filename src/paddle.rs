//! A paddle: a fixed-size box that moves vertically on input and keeps score.
use vstd::prelude::*;
use crate::arena::{Point, CENTER_Y};
use crate::ball::saturating_inc;

verus! {

/// Paddle width, in micro-units.
pub const PADDLE_WIDTH: i64 = 5_000_000;

/// Paddle height, in micro-units.
pub const PADDLE_HEIGHT: i64 = 50_000_000;

/// Half the paddle's width and height: its half-extents for collisions.
pub const PADDLE_HALF_WIDTH: i64 = 2_500_000;

pub const PADDLE_HALF_HEIGHT: i64 = 25_000_000;

/// The rightmost left edge that keeps the paddle inside the arena.
pub const PADDLE_MAX_X: i64 = 395_000_000;

/// Paddle speed, in arena units per second.
pub const PADDLE_SPEED: i64 = 100;

/// The lowest top edge that keeps the paddle inside the arena.
pub const PADDLE_MAX_Y: i64 = 250_000_000;

/// A paddle. Its position is its top-left corner, in micro-units.
#[derive(Clone, Copy, Debug, PartialEq, Eq, Structural)]
pub struct Paddle {
    pub x: i64,
    pub y: i64,
    pub moving_up: bool,
    pub moving_down: bool,
    pub score: u64,
}

/// The distance in micro-units that a paddle covers in `delta` microseconds.
pub open spec fn paddle_step(delta: u32) -> int {
    PADDLE_SPEED * delta
}

impl Paddle {
    /// The paddle lies inside the arena.
    pub open spec fn wf(self) -> bool {
        0 <= self.x <= PADDLE_MAX_X && 0 <= self.y <= PADDLE_MAX_Y
    }

    /// The paddle after moving for `delta` microseconds: each direction that
    /// is asked for is taken only where the moved paddle stays inside the
    /// arena, both judged from the position before the move.
    pub open spec fn advanced(self, delta: u32) -> Paddle {
        let step = paddle_step(delta);
        let up = self.moving_up && self.y - step >= 0;
        let down = self.moving_down && self.y + step <= PADDLE_MAX_Y;
        Paddle {
            y: (self.y - (if up { step } else { 0 }) + (if down { step } else { 0 })) as i64,
            ..self
        }
    }

    pub open spec fn new_spec(x: i64) -> Paddle {
        Paddle { x, y: CENTER_Y, moving_up: false, moving_down: false, score: 0 }
    }

    /// A paddle with its left edge at `x`, its top edge at mid-height, still
    /// and without points.
    pub fn new(x: i64) -> (r: Paddle)
        requires
            0 <= x <= PADDLE_MAX_X,
        ensures
            r == Paddle::new_spec(x),
            r.wf(),
    {
        Paddle { x, y: CENTER_Y, moving_up: false, moving_down: false, score: 0 }
    }

    /// Sets the two movement flags for this frame.
    pub fn set_input(&mut self, moving_up: bool, moving_down: bool)
        ensures
            *final(self) == (Paddle { moving_up, moving_down, ..*old(self) }),
    {
        self.moving_up = moving_up;
        self.moving_down = moving_down;
    }

    /// Moves the paddle for `delta` microseconds; it stays inside the arena.
    pub fn advance(&mut self, delta: u32)
        requires
            0 <= old(self).y <= PADDLE_MAX_Y,
        ensures
            *final(self) == old(self).advanced(delta),
            0 <= final(self).y <= PADDLE_MAX_Y,
            old(self).wf() ==> final(self).wf(),
    {
        proof {
            law_paddle_stays_in_arena(*self, delta);
        }
        let step: i64 = PADDLE_SPEED * delta as i64;
        let up = self.moving_up && self.y - step >= 0;
        let down = self.moving_down && self.y + step <= PADDLE_MAX_Y;
        let mut y = self.y;
        if up {
            y = y - step;
        }
        if down {
            y = y + step;
        }
        self.y = y;
    }

    /// One more point, held at the largest count.
    pub fn add_point(&mut self)
        ensures
            *final(self) == (Paddle {
                score: saturating_inc(old(self).score),
                ..*old(self)
            }),
    {
        if self.score < u64::MAX {
            self.score = self.score + 1;
        }
    }

    /// The paddle's center.
    pub open spec fn center_spec(self) -> Point {
        Point {
            x: (self.x + PADDLE_HALF_WIDTH) as i64,
            y: (self.y + PADDLE_HALF_HEIGHT) as i64,
        }
    }

    pub fn center(&self) -> (r: Point)
        requires
            self.wf(),
        ensures
            r == self.center_spec(),
    {
        Point { x: self.x + PADDLE_HALF_WIDTH, y: self.y + PADDLE_HALF_HEIGHT }
    }

    /// The paddle's half-extents for collisions.
    pub fn extent(&self) -> (r: Point)
        ensures
            r == (Point { x: PADDLE_HALF_WIDTH, y: PADDLE_HALF_HEIGHT }),
    {
        Point { x: PADDLE_HALF_WIDTH, y: PADDLE_HALF_HEIGHT }
    }
}

/// Wherever a paddle inside the arena moves to in one frame, it is still
/// inside the arena: its top edge lies between zero and the arena's height
/// less the paddle's height.
pub proof fn law_paddle_stays_in_arena(p: Paddle, delta: u32)
    requires
        0 <= p.y <= PADDLE_MAX_Y,
    ensures
        0 <= p.advanced(delta).y <= PADDLE_MAX_Y,
        p.wf() ==> p.advanced(delta).wf(),
{
}

} // verus!
