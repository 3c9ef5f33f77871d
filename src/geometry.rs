use vstd::prelude::*;

verus! {

/// Fixed-point steps in one world unit: coordinates are thousandths.
pub const MILLIS_PER_UNIT: i64 = 1000;

/// A point or a vector in world space, each coordinate in thousandths of a
/// world unit.
#[derive(Clone, Copy, Debug, PartialEq, Eq, Structural)]
pub struct Point3 {
    pub x: i64,
    pub y: i64,
    pub z: i64,
}

/// Whether `p + (dx, dy, dz)` fits in the coordinate type.
pub open spec fn can_offset(p: Point3, dx: int, dy: int, dz: int) -> bool {
    &&& i64::MIN <= p.x + dx <= i64::MAX
    &&& i64::MIN <= p.y + dy <= i64::MAX
    &&& i64::MIN <= p.z + dz <= i64::MAX
}

/// The point `p + (dx, dy, dz)`.
pub open spec fn offset_spec(p: Point3, dx: int, dy: int, dz: int) -> Point3 {
    Point3 { x: (p.x + dx) as i64, y: (p.y + dy) as i64, z: (p.z + dz) as i64 }
}

impl Point3 {
    pub fn new(x: i64, y: i64, z: i64) -> (r: Point3)
        ensures
            r.x == x,
            r.y == y,
            r.z == z,
    {
        Point3 { x, y, z }
    }

    /// The point moved by `(dx, dy, dz)`.
    pub fn offset(self, dx: i64, dy: i64, dz: i64) -> (r: Point3)
        requires
            can_offset(self, dx as int, dy as int, dz as int),
        ensures
            r == offset_spec(self, dx as int, dy as int, dz as int),
            r.x == self.x + dx,
            r.y == self.y + dy,
            r.z == self.z + dz,
    {
        Point3 { x: self.x + dx, y: self.y + dy, z: self.z + dz }
    }
}

} // verus!
