//! The arena's dimensions and the box overlap test.
use vstd::prelude::*;

verus! {

/// Micro-units in one arena unit.
pub const UNIT: i64 = 1_000_000;

/// Arena width, in micro-units.
pub const ARENA_WIDTH: i64 = 400_000_000;

/// Arena height, in micro-units.
pub const ARENA_HEIGHT: i64 = 300_000_000;

/// The arena's center, in micro-units.
pub const CENTER_X: i64 = 200_000_000;

pub const CENTER_Y: i64 = 150_000_000;

/// A point or an extent, in micro-units; y grows downward.
#[derive(Clone, Copy, Debug, PartialEq, Eq, Structural)]
pub struct Point {
    pub x: i64,
    pub y: i64,
}

/// The middle of the arena.
pub fn screen_center() -> (r: Point)
    ensures
        r == (Point { x: CENTER_X, y: CENTER_Y }),
{
    Point { x: CENTER_X, y: CENTER_Y }
}

pub open spec fn abs(v: int) -> int {
    if v < 0 {
        -v
    } else {
        v
    }
}

/// Two boxes, given by centers and half-extents, overlap: on each axis the
/// distance between the centers is strictly below the sum of the half-extents.
pub open spec fn overlaps(p1: Point, e1: Point, p2: Point, e2: Point) -> bool {
    abs(p1.x - p2.x) < e1.x + e2.x && abs(p1.y - p2.y) < e1.y + e2.y
}

fn distance(a: i64, b: i64) -> (r: i128)
    ensures
        r == abs(a - b),
{
    if a < b {
        b as i128 - a as i128
    } else {
        a as i128 - b as i128
    }
}

/// Overlap of two boxes given by their centers and half-extents; touching
/// boxes do not overlap.
pub fn collide(p1: &Point, e1: &Point, p2: &Point, e2: &Point) -> (r: bool)
    ensures
        r == overlaps(*p1, *e1, *p2, *e2),
{
    distance(p1.x, p2.x) < e1.x as i128 + e2.x as i128 && distance(p1.y, p2.y) < e1.y as i128
        + e2.y as i128
}

/// Boxes that touch on the x axis do not overlap, and one unit closer they do
/// (while they overlap on the y axis).
pub proof fn law_touching_is_no_collision(p1: Point, e1: Point, p2: Point, e2: Point)
    requires
        abs(p1.y - p2.y) < e1.y + e2.y,
    ensures
        abs(p1.x - p2.x) == e1.x + e2.x ==> !overlaps(p1, e1, p2, e2),
        abs(p1.x - p2.x) == e1.x + e2.x - UNIT ==> overlaps(p1, e1, p2, e2),
{
}

} // verus!
