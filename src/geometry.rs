//! Fixed-point world positions and the distance tests the rules use.
use vstd::prelude::*;

verus! {

/// Sub-units per world pixel: a position of `1000` lies one pixel from the origin.
pub const UNIT: i64 = 1000;

/// A point of the world, each coordinate in thousandths of a pixel. `z` is
/// the drawing depth of a 2D scene, and counts in distances like the others.
#[derive(Clone, Copy, Debug, PartialEq, Eq, Structural)]
pub struct Point {
    pub x: i64,
    pub y: i64,
    pub z: i64,
}

/// Squared Euclidean distance between two points, in sub-units squared.
pub open spec fn dist_sq(a: Point, b: Point) -> int {
    (a.x - b.x) * (a.x - b.x) + (a.y - b.y) * (a.y - b.y) + (a.z - b.z) * (a.z - b.z)
}

/// `a` and `b` lie strictly closer than `r` to each other.
pub open spec fn closer_than(a: Point, b: Point, r: int) -> bool {
    dist_sq(a, b) < r * r
}

impl Point {
    pub fn new(x: i64, y: i64, z: i64) -> (r: Point)
        ensures
            r == (Point { x, y, z }),
    {
        Point { x, y, z }
    }
}

/// `|a - b|` as an unsigned integer.
fn abs_diff(a: i64, b: i64) -> (r: u128)
    ensures
        r == (if a >= b { a - b } else { b - a }),
{
    let d: i128 = a as i128 - b as i128;
    if d < 0 {
        (-d) as u128
    } else {
        d as u128
    }
}

/// Whether the distance between `a` and `b` is less than `r`.
pub fn is_closer_than(a: Point, b: Point, r: i64) -> (res: bool)
    requires
        0 <= r,
    ensures
        res == closer_than(a, b, r as int),
{
    let dx = abs_diff(a.x, b.x);
    let dy = abs_diff(a.y, b.y);
    let dz = abs_diff(a.z, b.z);
    let ru: u128 = r as u128;
    assert(dx * dx == (a.x - b.x) * (a.x - b.x)) by (nonlinear_arith)
        requires dx == (if a.x >= b.x { a.x - b.x } else { b.x - a.x });
    assert(dy * dy == (a.y - b.y) * (a.y - b.y)) by (nonlinear_arith)
        requires dy == (if a.y >= b.y { a.y - b.y } else { b.y - a.y });
    assert(dz * dz == (a.z - b.z) * (a.z - b.z)) by (nonlinear_arith)
        requires dz == (if a.z >= b.z { a.z - b.z } else { b.z - a.z });
    if dx >= ru || dy >= ru || dz >= ru {
        assert(!closer_than(a, b, r as int)) by (nonlinear_arith)
            requires
                dx * dx + dy * dy + dz * dz == dist_sq(a, b),
                dx >= ru || dy >= ru || dz >= ru,
                ru == r,
                0 <= r,
                dx >= 0,
                dy >= 0,
                dz >= 0,
        ;
        false
    } else {
        assert(dx * dx < 0x4000_0000_0000_0000_0000_0000_0000_0000) by (nonlinear_arith)
            requires 0 <= dx < ru, ru <= i64::MAX;
        assert(dy * dy < 0x4000_0000_0000_0000_0000_0000_0000_0000) by (nonlinear_arith)
            requires 0 <= dy < ru, ru <= i64::MAX;
        assert(dz * dz < 0x4000_0000_0000_0000_0000_0000_0000_0000) by (nonlinear_arith)
            requires 0 <= dz < ru, ru <= i64::MAX;
        assert(ru * ru < 0x4000_0000_0000_0000_0000_0000_0000_0000) by (nonlinear_arith)
            requires 0 <= ru <= i64::MAX;
        dx * dx + dy * dy + dz * dz < ru * ru
    }
}

} // verus!
