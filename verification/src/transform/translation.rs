//! Translation by a fixed offset.

use vstd::prelude::*;

use crate::geom::coord_ok;

verus! {

/// A translation: points are shifted by `(x, y, z)`, vectors are unchanged.
#[derive(Clone, Copy, Debug, PartialEq, Eq, Structural)]
pub struct Translation {
    pub x: i64,
    pub y: i64,
    pub z: i64,
}

impl Translation {
    /// Whether the offset is storable.
    pub open spec fn wf(self) -> bool {
        coord_ok(self.x as int) && coord_ok(self.y as int) && coord_ok(self.z as int)
    }

    /// The translation by the given offset.
    pub fn new(x: i64, y: i64, z: i64) -> (r: Translation)
        requires
            coord_ok(x as int) && coord_ok(y as int) && coord_ok(z as int),
        ensures
            r == (Translation { x, y, z }),
            r.wf(),
    {
        Translation { x, y, z }
    }

    /// The transformation's name.
    pub fn name(&self) -> (r: String)
        ensures
            r@ == "Translation"@,
    {
        String::from_str("Translation")
    }

    /// Combine with another translation: the offsets add, and the result
    /// applies both translations (in either order, as translations commute).
    pub fn combine(&self, other: Translation) -> (r: Translation)
        requires
            coord_ok(self.x + other.x),
            coord_ok(self.y + other.y),
            coord_ok(self.z + other.z),
        ensures
            r == (Translation { x: (self.x + other.x) as i64, y: (self.y + other.y) as i64, z: (self.z + other.z) as i64 }),
            r.wf(),
            forall|p: (int, int, int)|
                #[trigger] r.spec_apply_point(p) == self.spec_apply_point(other.spec_apply_point(p)),
    {
        Translation { x: self.x + other.x, y: self.y + other.y, z: self.z + other.z }
    }

    /// A point is shifted by the offset.
    pub open spec fn spec_apply_point(self, p: (int, int, int)) -> (int, int, int) {
        (p.0 + self.x, p.1 + self.y, p.2 + self.z)
    }

    /// A vector is unchanged: a displacement does not feel a shift.
    pub open spec fn spec_apply_vector(self, v: (int, int, int)) -> (int, int, int) {
        v
    }
}

} // verus!
