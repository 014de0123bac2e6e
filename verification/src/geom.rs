//! Exact 3D coordinates.
//!
//! Geometry in this crate is carried in integer coordinates so that every
//! transform result is exact.  All stored coordinates are kept within
//! `COORD_LIMIT`; this headroom guarantees that the intermediate products
//! and sums of any single transform step fit in the machine integers.

use vstd::prelude::*;

verus! {

/// Largest magnitude a stored coordinate, transform parameter or matrix
/// entry may have.
pub const COORD_LIMIT: i64 = 0x4000_0000;

/// Whether one mathematical coordinate is storable.
pub open spec fn coord_ok(v: int) -> bool {
    -(COORD_LIMIT as int) <= v <= COORD_LIMIT as int
}

/// Whether all three coordinates of a triple are storable.
pub open spec fn triple_ok(t: (int, int, int)) -> bool {
    coord_ok(t.0) && coord_ok(t.1) && coord_ok(t.2)
}

/// A position in space.
#[derive(Clone, Copy, Debug, PartialEq, Eq, Structural)]
pub struct Point3 {
    pub x: i64,
    pub y: i64,
    pub z: i64,
}

/// A displacement or direction in space.
#[derive(Clone, Copy, Debug, PartialEq, Eq, Structural)]
pub struct Vector3 {
    pub x: i64,
    pub y: i64,
    pub z: i64,
}

impl Point3 {
    /// The point with the given coordinates.
    pub fn new(x: i64, y: i64, z: i64) -> (r: Point3)
        ensures
            r == (Point3 { x, y, z }),
    {
        Point3 { x, y, z }
    }

    /// The point as a mathematical triple.
    pub open spec fn ints(self) -> (int, int, int) {
        (self.x as int, self.y as int, self.z as int)
    }

    /// Whether all coordinates are within `COORD_LIMIT`.
    pub open spec fn in_bounds(self) -> bool {
        triple_ok(self.ints())
    }
}

impl Vector3 {
    /// The vector with the given coordinates.
    pub fn new(x: i64, y: i64, z: i64) -> (r: Vector3)
        ensures
            r == (Vector3 { x, y, z }),
    {
        Vector3 { x, y, z }
    }

    /// The vector as a mathematical triple.
    pub open spec fn ints(self) -> (int, int, int) {
        (self.x as int, self.y as int, self.z as int)
    }

    /// Whether all coordinates are within `COORD_LIMIT`.
    pub open spec fn in_bounds(self) -> bool {
        triple_ok(self.ints())
    }
}

/// A product of magnitude-bounded factors is magnitude-bounded.
pub proof fn lemma_abs_mul_bound(a: int, b: int, ma: int, mb: int)
    by (nonlinear_arith)
    requires
        -ma <= a <= ma,
        -mb <= b <= mb,
    ensures
        -(ma * mb) <= a * b <= ma * mb,
{
}

} // verus!
