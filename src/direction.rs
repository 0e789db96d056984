//! Ball directions: unit vectors in fixed point, and their random launch.
use vstd::prelude::*;
use crate::arena::abs;

verus! {

/// The length of a unit vector: direction components count billionths.
pub const DIR_ONE: i64 = 1_000_000_000;

/// Attempts at drawing two non-zero offsets before the launch gives up on
/// rejection and moves a zero offset to one.
const MAX_DRAWS: u32 = 1000;

/// A direction, each component scaled by `DIR_ONE`.
#[derive(Clone, Copy, Debug, PartialEq, Eq, Structural)]
pub struct Direction {
    pub x: i64,
    pub y: i64,
}

/// `c` is the component of the offset vector `(o, _)` of squared length `n`
/// on the unit scale, rounded toward zero: it has the sign of `o` and
/// `|c| <= |o| * DIR_ONE / sqrt(n) < |c| + 1`.
pub open spec fn scaled_component(c: int, o: int, n: int) -> bool {
    (o >= 0 ==> c >= 0) && (o < 0 ==> c <= 0) && c * c * n <= o * o * (DIR_ONE * DIR_ONE) && o * o
        * (DIR_ONE * DIR_ONE) < (abs(c) + 1) * (abs(c) + 1) * n
}

impl Direction {
    /// Each component lies within one unit.
    pub open spec fn wf(self) -> bool {
        -DIR_ONE <= self.x <= DIR_ONE && -DIR_ONE <= self.y <= DIR_ONE
    }

    /// Unit length up to the rounding of each component toward zero; the
    /// squared length is then within a millionth of one.
    pub open spec fn is_unit(self) -> bool {
        let x = self.x as int;
        let y = self.y as int;
        &&& x * x + y * y <= DIR_ONE * DIR_ONE
        &&& DIR_ONE * DIR_ONE < (abs(x) + 1) * (abs(x) + 1) + (abs(y) + 1) * (abs(y) + 1)
        &&& DIR_ONE * DIR_ONE - (x * x + y * y) <= DIR_ONE * DIR_ONE / 1_000_000
    }

    /// What a launch may give: a unit vector with no zero component.
    pub open spec fn is_launch(self) -> bool {
        self.wf() && self.is_unit() && self.x != 0 && self.y != 0
    }

    /// What a random launch gives: a unit vector with no zero component,
    /// scaled from two non-zero whole offsets drawn in `[-5, 5)`.
    pub open spec fn is_drawn_launch(self) -> bool {
        &&& self.is_launch()
        &&& exists|ox: int, oy: int|
            -5 <= ox < 5 && -5 <= oy < 5 && ox != 0 && oy != 0 && #[trigger] self.normalizes(ox, oy)
    }

    /// This direction is the offset vector `(ox, oy)` scaled to unit length.
    pub open spec fn normalizes(self, ox: int, oy: int) -> bool {
        let n = ox * ox + oy * oy;
        scaled_component(self.x as int, ox, n) && scaled_component(self.y as int, oy, n)
    }

    pub open spec fn flipped_x(self) -> Direction {
        Direction { x: (-self.x) as i64, y: self.y }
    }

    pub open spec fn flipped_y(self) -> Direction {
        Direction { x: self.x, y: (-self.y) as i64 }
    }

    /// The offset vector `(ox, oy)` scaled to unit length; `None` for the
    /// zero vector.
    pub fn from_offsets(ox: i32, oy: i32) -> (r: Option<Direction>)
        ensures
            r is None <==> ox == 0 && oy == 0,
            r matches Some(d) ==> d.wf() && d.normalizes(ox as int, oy as int),
    {
        if ox == 0 && oy == 0 {
            return None;
        }
        let ax: u64 = if ox < 0 { (-(ox as i64)) as u64 } else { ox as u64 };
        let ay: u64 = if oy < 0 { (-(oy as i64)) as u64 } else { oy as u64 };
        proof {
            assert(ax * ax <= 0x4000_0000_0000_0000) by (nonlinear_arith)
                requires ax <= 0x8000_0000;
            assert(ay * ay <= 0x4000_0000_0000_0000) by (nonlinear_arith)
                requires ay <= 0x8000_0000;
            assert(ax * ax >= 0 && ay * ay >= 0) by (nonlinear_arith);
            assert(ax * ax + ay * ay >= 1) by (nonlinear_arith)
                requires ax >= 1 || ay >= 1;
        }
        let n: u64 = ax * ax + ay * ay;
        let cx = scaled_magnitude(ax, n);
        let cy = scaled_magnitude(ay, n);
        let x: i64 = if ox < 0 { -(cx as i64) } else { cx as i64 };
        let y: i64 = if oy < 0 { -(cy as i64) } else { cy as i64 };
        proof {
            assert(ox * ox == ax * ax) by (nonlinear_arith)
                requires ax == abs(ox as int);
            assert(oy * oy == ay * ay) by (nonlinear_arith)
                requires ay == abs(oy as int);
            assert(x * x == cx * cx) by (nonlinear_arith)
                requires cx == abs(x as int);
            assert(y * y == cy * cy) by (nonlinear_arith)
                requires cy == abs(y as int);
        }
        Some(Direction { x, y })
    }

    /// The direction with its horizontal component negated.
    pub fn flip_x(&self) -> (r: Direction)
        requires
            self.wf(),
        ensures
            r == self.flipped_x(),
            r.wf(),
    {
        Direction { x: (-self.x) as i64, y: self.y }
    }

    /// The direction with its vertical component negated.
    pub fn flip_y(&self) -> (r: Direction)
        requires
            self.wf(),
        ensures
            r == self.flipped_y(),
            r.wf(),
    {
        Direction { x: self.x, y: (-self.y) as i64 }
    }
}

/// The largest `c` with `c * c * n <= a * a * DIR_ONE * DIR_ONE`.
fn scaled_magnitude(a: u64, n: u64) -> (c: u64)
    requires
        a * a <= n,
        1 <= n,
    ensures
        c <= DIR_ONE,
        c * c * n <= a * a * (DIR_ONE * DIR_ONE) < (c + 1) * (c + 1) * n,
{
    let one: u128 = DIR_ONE as u128;
    let nn: u128 = n as u128;
    proof {
        assert(a * a * (one * one) <= n * (one * one)) by (nonlinear_arith)
            requires a * a <= n, one == DIR_ONE;
        assert(n * (one * one) < (one + 1) * (one + 1) * n) by (nonlinear_arith)
            requires n >= 1, one == DIR_ONE;
        assert(a <= 0x1_0000_0000) by (nonlinear_arith)
            requires a * a <= n, n <= 0xffff_ffff_ffff_ffff;
        assert(a * a * (one * one) <= 0xffff_ffff_ffff_ffff * 1_000_000_000_000_000_000)
            by (nonlinear_arith)
            requires a * a <= n, n <= 0xffff_ffff_ffff_ffff, one == DIR_ONE;
    }
    let t: u128 = (a as u128) * (a as u128) * (one * one);
    let mut lo: u128 = 0;
    let mut hi: u128 = one + 1;
    proof {
        assert(lo * lo * nn == 0) by (nonlinear_arith)
            requires lo == 0;
        assert(t < hi * hi * nn);
    }
    while hi - lo > 1
        invariant
            lo < hi <= one + 1,
            one == DIR_ONE,
            nn == n,
            t == a * a * (one * one),
            lo * lo * nn <= t < hi * hi * nn,
        decreases hi - lo,
    {
        let mid: u128 = lo + (hi - lo) / 2;
        proof {
            assert(mid * mid <= 0x1000_0000_0000_0000) by (nonlinear_arith)
                requires mid <= 1_000_000_001;
            assert(mid * mid * nn <= 0x1000_0000_0000_0000 * 0x1_0000_0000_0000_0000)
                by (nonlinear_arith)
                requires mid * mid <= 0x1000_0000_0000_0000, nn <= 0xffff_ffff_ffff_ffff;
        }
        if mid * mid * nn <= t {
            lo = mid;
        } else {
            hi = mid;
        }
    }
    lo as u64
}

/// Relies on macroquad's `rand::gen_range` (quad-rand's global generator):
/// for integers it scales a 32-bit draw in `[0, 1)` onto `[low, high)` and
/// truncates, so the result lies in `[low, high)` when `low < high`, `high`
/// is positive and the span is small.
#[verifier::external_body]
fn gen_range(low: i32, high: i32) -> (r: i32)
    requires
        -65536 <= low < high <= 65536,
        0 < high,
    ensures
        low <= r < high,
{
    macroquad::rand::gen_range(low, high)
}

/// The launch direction for two drawn offsets: `None` (draw again) when
/// either is zero, else their vector scaled to unit length.
pub fn launch_from_offsets(ox: i32, oy: i32) -> (r: Option<Direction>)
    requires
        -5 <= ox <= 5,
        -5 <= oy <= 5,
    ensures
        r is None <==> ox == 0 || oy == 0,
        r matches Some(d) ==> d.is_launch() && d.normalizes(ox as int, oy as int),
{
    if ox == 0 || oy == 0 {
        return None;
    }
    let d = Direction::from_offsets(ox, oy).unwrap();
    proof {
        lemma_small_offsets_launch(d, ox as int, oy as int);
    }
    Some(d)
}

/// A fresh random launch direction: offsets are drawn in `[-5, 5)` until
/// neither is zero, and their vector is scaled to unit length.
pub fn random_direction() -> (r: Direction)
    ensures
        r.is_drawn_launch(),
{
    let mut attempts: u32 = 0;
    let mut ox: i32 = gen_range(-5, 5);
    let mut oy: i32 = gen_range(-5, 5);
    while (ox == 0 || oy == 0) && attempts < MAX_DRAWS
        invariant
            -5 <= ox < 5,
            -5 <= oy < 5,
        decreases MAX_DRAWS - attempts,
    {
        ox = gen_range(-5, 5);
        oy = gen_range(-5, 5);
        attempts = attempts + 1;
    }
    if ox == 0 {
        ox = 1;
    }
    if oy == 0 {
        oy = 1;
    }
    let r = launch_from_offsets(ox, oy).unwrap();
    assert(r.normalizes(ox as int, oy as int));
    r
}

/// Scaling any offset vector with non-zero components in `[-5, 5]` gives a
/// unit vector with no zero component.
pub proof fn lemma_small_offsets_launch(d: Direction, ox: int, oy: int)
    requires
        1 <= abs(ox) <= 5,
        1 <= abs(oy) <= 5,
        d.normalizes(ox, oy),
    ensures
        d.is_launch(),
{
    let n = ox * ox + oy * oy;
    let s = DIR_ONE * DIR_ONE;
    let x = d.x as int;
    let y = d.y as int;
    assert(1 <= ox * ox <= 25 && 1 <= oy * oy <= 25) by (nonlinear_arith)
        requires 1 <= abs(ox) <= 5, 1 <= abs(oy) <= 5;
    assert(x * x * n <= ox * ox * s);
    assert(y * y * n <= oy * oy * s);
    assert((x * x + y * y) * n <= n * s) by (nonlinear_arith)
        requires x * x * n <= ox * ox * s, y * y * n <= oy * oy * s, n == ox * ox + oy * oy;
    assert(x * x + y * y <= s) by (nonlinear_arith)
        requires (x * x + y * y) * n <= n * s, n >= 2;
    assert(n * s < ((abs(x) + 1) * (abs(x) + 1) + (abs(y) + 1) * (abs(y) + 1)) * n)
        by (nonlinear_arith)
        requires
            ox * ox * s < (abs(x) + 1) * (abs(x) + 1) * n,
            oy * oy * s < (abs(y) + 1) * (abs(y) + 1) * n,
            n == ox * ox + oy * oy;
    assert(s < (abs(x) + 1) * (abs(x) + 1) + (abs(y) + 1) * (abs(y) + 1)) by (nonlinear_arith)
        requires n * s < ((abs(x) + 1) * (abs(x) + 1) + (abs(y) + 1) * (abs(y) + 1)) * n, n >= 2;
    assert(x != 0) by (nonlinear_arith)
        requires ox * ox * s < (abs(x) + 1) * (abs(x) + 1) * n, ox * ox >= 1, n <= 50,
            s == 1_000_000_000_000_000_000;
    assert(y != 0) by (nonlinear_arith)
        requires oy * oy * s < (abs(y) + 1) * (abs(y) + 1) * n, oy * oy >= 1, n <= 50,
            s == 1_000_000_000_000_000_000;
    assert(abs(x) <= DIR_ONE && abs(y) <= DIR_ONE) by (nonlinear_arith)
        requires x * x + y * y <= s, s == DIR_ONE * DIR_ONE;
    assert(s - (x * x + y * y) <= s / 1_000_000) by (nonlinear_arith)
        requires
            s < (abs(x) + 1) * (abs(x) + 1) + (abs(y) + 1) * (abs(y) + 1),
            abs(x) <= DIR_ONE,
            abs(y) <= DIR_ONE,
            s == 1_000_000_000_000_000_000;
}

} // verus!
