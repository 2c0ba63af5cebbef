//! Points of the arena and the exact distances between them.
//!
//! Coordinates are whole world units. Distances are compared by their squares,
//! so no root is ever taken and nothing is rounded.

use vstd::prelude::*;

verus! {

/// A place in the arena.
#[derive(Debug, Clone, Copy, PartialEq, Eq, Hash, Structural)]
pub struct Point {
    pub x: i32,
    pub y: i32,
}

/// The way from one point to another, component by component. Its length is
/// left as it is: the host scales it to the speed or force that goes with it.
#[derive(Debug, Clone, Copy, PartialEq, Eq, Hash, Structural)]
pub struct Offset {
    pub dx: i64,
    pub dy: i64,
}

/// The square of a radius.
pub open spec fn squared(radius: int) -> int {
    radius * radius
}

impl Offset {
    /// Whether the offset leads nowhere.
    pub open spec fn is_zero(self) -> bool {
        self.dx == 0 && self.dy == 0
    }
}

impl Point {
    /// The square of the distance between two points.
    pub open spec fn dist2(self, other: Point) -> int {
        (other.x - self.x) * (other.x - self.x) + (other.y - self.y) * (other.y - self.y)
    }

    /// The offset that leads from `self` to `other`.
    pub open spec fn offset_to(self, other: Point) -> Offset {
        Offset { dx: (other.x - self.x) as i64, dy: (other.y - self.y) as i64 }
    }

    /// Whether `other` lies no farther from `self` than `radius`.
    pub open spec fn within(self, other: Point, radius: u32) -> bool {
        self.dist2(other) <= squared(radius as int)
    }

    /// The square of the distance between two points.
    pub fn distance_squared(self, other: Point) -> (d: u128)
        ensures
            d == self.dist2(other),
    {
        let dx: i128 = other.x as i128 - self.x as i128;
        let dy: i128 = other.y as i128 - self.y as i128;
        assert(0 <= dx * dx <= 0x1_0000_0000_0000_0000) by (nonlinear_arith)
            requires
                -0x1_0000_0000 <= dx <= 0x1_0000_0000,
        ;
        assert(0 <= dy * dy <= 0x1_0000_0000_0000_0000) by (nonlinear_arith)
            requires
                -0x1_0000_0000 <= dy <= 0x1_0000_0000,
        ;
        (dx * dx + dy * dy) as u128
    }

    /// The offset that leads from `self` to `other`.
    pub fn direction_to(self, other: Point) -> (offset: Offset)
        ensures
            offset == self.offset_to(other),
            offset.dx == other.x - self.x,
            offset.dy == other.y - self.y,
            offset.is_zero() <==> self == other,
    {
        Offset { dx: other.x as i64 - self.x as i64, dy: other.y as i64 - self.y as i64 }
    }

    /// Whether `other` lies no farther from `self` than `radius`.
    pub fn is_within(self, other: Point, radius: u32) -> (near: bool)
        ensures
            near == self.within(other, radius),
    {
        let limit: u128 = radius as u128;
        assert(0 <= limit * limit <= 0x1_0000_0000_0000_0000) by (nonlinear_arith)
            requires
                0 <= limit <= 0x1_0000_0000,
        ;
        self.distance_squared(other) <= limit * limit
    }
}

/// Two points are at distance zero exactly when they are the same point.
pub proof fn lemma_dist2_zero(a: Point, b: Point)
    ensures
        a.dist2(b) >= 0,
        a.dist2(b) == 0 <==> a == b,
        a.dist2(b) == b.dist2(a),
{
    let dx = b.x - a.x;
    let dy = b.y - a.y;
    assert(dx * dx >= 0 && (dx * dx == 0 <==> dx == 0)) by (nonlinear_arith);
    assert(dy * dy >= 0 && (dy * dy == 0 <==> dy == 0)) by (nonlinear_arith);
    assert((a.x - b.x) * (a.x - b.x) == dx * dx) by (nonlinear_arith)
        requires
            dx == b.x - a.x,
    ;
    assert((a.y - b.y) * (a.y - b.y) == dy * dy) by (nonlinear_arith)
        requires
            dy == b.y - a.y,
    ;
}

} // verus!
