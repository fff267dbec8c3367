use vstd::prelude::*;

verus! {

/// A point in world space, in whole world units.
#[derive(Clone, Copy, Debug, PartialEq, Eq, Structural)]
pub struct Point {
    pub x: i32,
    pub y: i32,
    pub z: i32,
}

/// An unnormalised displacement between two points of the world.
#[derive(Clone, Copy, Debug, PartialEq, Eq, Structural)]
pub struct Direction {
    pub x: i64,
    pub y: i64,
    pub z: i64,
}

/// What a tower reads of an enemy in one tick.
#[derive(Clone, Copy, Debug, PartialEq, Eq, Structural)]
pub struct EnemySnapshot {
    pub position: Point,
    pub health: u32,
    /// How far the enemy has come along its path, toward the base.
    pub distance_travelled: u64,
}

/// The displacement that leads from `from` to `to`.
pub open spec fn displacement(from: Point, to: Point) -> Direction {
    Direction {
        x: (to.x - from.x) as i64,
        y: (to.y - from.y) as i64,
        z: (to.z - from.z) as i64,
    }
}

/// The square of the Euclidean distance between `a` and `b`.
pub open spec fn dist_sq(a: Point, b: Point) -> int {
    (a.x - b.x) * (a.x - b.x) + (a.y - b.y) * (a.y - b.y) + (a.z - b.z) * (a.z - b.z)
}

/// Whether `p` lies within `range` of `origin`, the boundary included.
///
/// Both sides of `distance <= range` are non-negative, so comparing their
/// squares decides it exactly.
pub open spec fn within(p: Point, origin: Point, range: u32) -> bool {
    dist_sq(p, origin) <= range * range
}

/// Whether `p + offset` has coordinates that a `Point` can hold.
pub open spec fn sum_fits(p: Point, offset: Point) -> bool {
    &&& i32::MIN <= p.x + offset.x <= i32::MAX
    &&& i32::MIN <= p.y + offset.y <= i32::MAX
    &&& i32::MIN <= p.z + offset.z <= i32::MAX
}

/// The point `p` moved by `offset`.
pub open spec fn translate(p: Point, offset: Point) -> Point {
    Point { x: (p.x + offset.x) as i32, y: (p.y + offset.y) as i32, z: (p.z + offset.z) as i32 }
}

impl Point {
    pub fn new(x: i32, y: i32, z: i32) -> (r: Point)
        ensures
            r == (Point { x, y, z }),
    {
        Point { x, y, z }
    }

    /// This point moved by `offset`.
    pub fn translated(&self, offset: &Point) -> (r: Point)
        requires
            sum_fits(*self, *offset),
        ensures
            r == translate(*self, *offset),
    {
        Point { x: self.x + offset.x, y: self.y + offset.y, z: self.z + offset.z }
    }

    /// The displacement from this point to `to`.
    pub fn direction_to(&self, to: &Point) -> (r: Direction)
        ensures
            r == displacement(*self, *to),
    {
        Direction {
            x: to.x as i64 - self.x as i64,
            y: to.y as i64 - self.y as i64,
            z: to.z as i64 - self.z as i64,
        }
    }

    /// The square of the distance from this point to `other`.
    pub fn distance_squared(&self, other: &Point) -> (r: u128)
        ensures
            r == dist_sq(*self, *other),
    {
        let dx: i64 = self.x as i64 - other.x as i64;
        let dy: i64 = self.y as i64 - other.y as i64;
        let dz: i64 = self.z as i64 - other.z as i64;
        let sx: u128 = square(dx);
        let sy: u128 = square(dy);
        let sz: u128 = square(dz);
        assert(sx + sy + sz < 3 * 0x1_0000_0000_0000_0000) by (nonlinear_arith)
            requires
                sx < 0x1_0000_0000_0000_0000,
                sy < 0x1_0000_0000_0000_0000,
                sz < 0x1_0000_0000_0000_0000,
        ;
        sx + sy + sz
    }

    /// Whether this point lies within `range` of `origin`, the boundary included.
    pub fn is_within(&self, origin: &Point, range: u32) -> (r: bool)
        ensures
            r == within(*self, *origin, range),
    {
        let r: u128 = range as u128;
        assert(r * r < 0x1_0000_0000_0000_0000) by (nonlinear_arith)
            requires
                r < 0x1_0000_0000,
        ;
        let limit: u128 = r * r;
        self.distance_squared(origin) <= limit
    }
}

/// `d * d`, for a `d` that is the difference of two `i32` values.
fn square(d: i64) -> (r: u128)
    requires
        -0x1_0000_0000 < d < 0x1_0000_0000,
    ensures
        r == d * d,
        r < 0x1_0000_0000_0000_0000,
{
    let a: u128 = if d < 0 { (-(d as i128)) as u128 } else { d as u128 };
    assert(a * a < 0x1_0000_0000_0000_0000) by (nonlinear_arith)
        requires
            0 <= a < 0x1_0000_0000,
    ;
    assert(a * a == d * d) by (nonlinear_arith)
        requires
            a == d || a == -d,
    ;
    a * a
}

} // verus!
