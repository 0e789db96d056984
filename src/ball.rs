//! The ball: position, direction and speed.
use vstd::prelude::*;
use crate::arena::{screen_center, Point, CENTER_X, CENTER_Y};
use crate::direction::{random_direction, Direction, DIR_ONE};

verus! {

/// The ball's radius, in micro-units.
pub const BALL_RADIUS: i64 = 6_000_000;

/// The ball's speed at the start of a session, in units per second.
pub const BALL_START_SPEED: u64 = 150;

/// The ball. Its position is its center, in micro-units; its speed is in
/// arena units per second.
#[derive(Clone, Copy, Debug, PartialEq, Eq, Structural)]
pub struct Ball {
    pub x: i64,
    pub y: i64,
    pub dir: Direction,
    pub speed: u64,
}

/// The value `v` held to the range of `i64`.
pub open spec fn clamp_i64(v: int) -> i64 {
    if v < i64::MIN {
        i64::MIN
    } else if v > i64::MAX {
        i64::MAX
    } else {
        v as i64
    }
}

/// The distance in micro-units covered in `delta` microseconds at `speed`
/// units per second along a direction component `d` (in billionths),
/// rounded toward zero.
pub open spec fn travel(d: int, speed: int, delta: int) -> int {
    if d >= 0 {
        d * speed * delta / (DIR_ONE as int)
    } else {
        -((-d) * speed * delta / (DIR_ONE as int))
    }
}

/// One more, held at the largest value of the type.
pub open spec fn saturating_inc(v: u64) -> u64 {
    if v < u64::MAX {
        (v + 1) as u64
    } else {
        v
    }
}

fn clamp_to_i64(v: i128) -> (r: i64)
    ensures
        r == clamp_i64(v as int),
{
    if v < i64::MIN as i128 {
        i64::MIN
    } else if v > i64::MAX as i128 {
        i64::MAX
    } else {
        v as i64
    }
}

/// A bound on the travel of one step, far inside the range of `i128`.
pub open spec fn travel_bound() -> int {
    1_000_000_000int * 0x1_0000_0000_0000_0000 * 0x1_0000_0000
}

fn travel_exec(d: i64, speed: u64, delta: u32) -> (r: i128)
    requires
        -DIR_ONE <= d <= DIR_ONE,
    ensures
        r == travel(d as int, speed as int, delta as int),
        -travel_bound() <= r <= travel_bound(),
{
    let m: u128 = if d >= 0 { d as u128 } else { (-d) as u128 };
    proof {
        assert(m * speed <= 1_000_000_000 * 0x1_0000_0000_0000_0000) by (nonlinear_arith)
            requires m <= 1_000_000_000, speed <= 0xffff_ffff_ffff_ffff;
        assert(m * speed * delta <= 1_000_000_000 * 0x1_0000_0000_0000_0000 * 0x1_0000_0000)
            by (nonlinear_arith)
            requires m * speed <= 1_000_000_000 * 0x1_0000_0000_0000_0000, delta <= 0xffff_ffff;
    }
    let p: u128 = m * (speed as u128) * (delta as u128);
    let q: u128 = p / (DIR_ONE as u128);
    proof {
        assert(q <= p) by (nonlinear_arith)
            requires q == p / 1_000_000_000, p >= 0;
    }
    if d >= 0 {
        q as i128
    } else {
        -(q as i128)
    }
}

impl Ball {
    pub open spec fn wf(self) -> bool {
        self.dir.wf()
    }

    /// The ball after moving for `delta` microseconds, each coordinate held
    /// to the range of `i64`.
    pub open spec fn advanced(self, delta: u32) -> Ball {
        Ball {
            x: clamp_i64(self.x + travel(self.dir.x as int, self.speed as int, delta as int)),
            y: clamp_i64(self.y + travel(self.dir.y as int, self.speed as int, delta as int)),
            ..self
        }
    }

    /// The ball back at the arena's center, heading along `dir`.
    pub open spec fn launched(self, dir: Direction) -> Ball {
        Ball { x: CENTER_X, y: CENTER_Y, dir, ..self }
    }

    /// A ball at the arena's center, with a random launch direction and the
    /// start speed.
    pub fn new() -> (r: Ball)
        ensures
            r.wf(),
            r.x == CENTER_X,
            r.y == CENTER_Y,
            r.dir.is_drawn_launch(),
            r.speed == BALL_START_SPEED,
    {
        let c = screen_center();
        Ball { x: c.x, y: c.y, dir: random_direction(), speed: BALL_START_SPEED }
    }

    /// Back to the center with a fresh random launch direction; the speed is
    /// kept.
    pub fn reset(&mut self)
        ensures
            *final(self) == old(self).launched(final(self).dir),
            final(self).dir.is_drawn_launch(),
            final(self).wf(),
    {
        let dir = random_direction();
        self.launch(dir);
    }

    /// Back to the center, heading along `dir`; the speed is kept.
    pub fn launch(&mut self, dir: Direction)
        ensures
            *final(self) == old(self).launched(dir),
    {
        let c = screen_center();
        self.x = c.x;
        self.y = c.y;
        self.dir = dir;
    }

    /// Moves the ball along its direction for `delta` microseconds.
    pub fn advance(&mut self, delta: u32)
        requires
            old(self).wf(),
        ensures
            *final(self) == old(self).advanced(delta),
    {
        let tx = travel_exec(self.dir.x, self.speed, delta);
        let ty = travel_exec(self.dir.y, self.speed, delta);
        self.x = clamp_to_i64(self.x as i128 + tx);
        self.y = clamp_to_i64(self.y as i128 + ty);
    }

    /// Negates the horizontal component of the direction.
    pub fn flip_horizontal(&mut self)
        requires
            old(self).wf(),
        ensures
            *final(self) == (Ball { dir: old(self).dir.flipped_x(), ..*old(self) }),
            final(self).wf(),
    {
        self.dir = self.dir.flip_x();
    }

    /// Negates the vertical component of the direction.
    pub fn flip_vertical(&mut self)
        requires
            old(self).wf(),
        ensures
            *final(self) == (Ball { dir: old(self).dir.flipped_y(), ..*old(self) }),
            final(self).wf(),
    {
        self.dir = self.dir.flip_y();
    }

    /// One unit per second faster, held at the largest speed.
    pub fn speed_up(&mut self)
        ensures
            *final(self) == (Ball { speed: saturating_inc(old(self).speed), ..*old(self) }),
    {
        if self.speed < u64::MAX {
            self.speed = self.speed + 1;
        }
    }

    /// The ball's center.
    pub fn center(&self) -> (r: Point)
        ensures
            r == (Point { x: self.x, y: self.y }),
    {
        Point { x: self.x, y: self.y }
    }

    /// The ball's half-extents for collisions: its radius on both axes.
    pub fn extent(&self) -> (r: Point)
        ensures
            r == (Point { x: BALL_RADIUS, y: BALL_RADIUS }),
    {
        Point { x: BALL_RADIUS, y: BALL_RADIUS }
    }
}

} // verus!
