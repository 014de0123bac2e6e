//! A linear map applied about an arbitrary origin.
//!
//! A rotation owns the origin it is conjugated around and the rows of its
//! linear part: its effect on a point `p` is `origin + L * (p - origin)`,
//! the homogeneous matrix `Translate(origin) * L * Translate(-origin)`
//! evaluated at `p`.  Vectors only feel `L`.  The rows are given outright —
//! exact coordinates have no half turns of trigonometry, so the caller
//! supplies the matrix an axis and angle would have produced.

use vstd::prelude::*;

use crate::error::Error;
use crate::geom::{coord_ok, triple_ok, Point3, Vector3, COORD_LIMIT};

verus! {

/// The dot product of a row with a mathematical triple.
pub open spec fn dot3(r: Vector3, t: (int, int, int)) -> int {
    r.x * t.0 + r.y * t.1 + r.z * t.2
}

/// The rows of the product of two row-matrices: row `i` of `A * B` is
/// row `i` of `A` combined with the columns of `B`.
pub open spec fn compose_row(a: Vector3, b0: Vector3, b1: Vector3, b2: Vector3) -> (
    int,
    int,
    int,
) {
    (
        a.x * b0.x + a.y * b1.x + a.z * b2.x,
        a.x * b0.y + a.y * b1.y + a.z * b2.y,
        a.x * b0.z + a.y * b1.z + a.z * b2.z,
    )
}

/// A linear map with rows `r0, r1, r2`, fixed at `origin`.
#[derive(Clone, Copy, Debug, PartialEq, Eq, Structural)]
pub struct Rotation {
    pub origin: Point3,
    pub r0: Vector3,
    pub r1: Vector3,
    pub r2: Vector3,
}

impl Rotation {
    /// Whether origin and rows are storable.
    pub open spec fn wf(self) -> bool {
        self.origin.in_bounds() && self.r0.in_bounds() && self.r1.in_bounds()
            && self.r2.in_bounds()
    }

    /// The rotation with the given origin and linear rows.
    pub fn from_origin_rows(origin: Point3, r0: Vector3, r1: Vector3, r2: Vector3) -> (r: Rotation)
        requires
            origin.in_bounds(),
            r0.in_bounds(),
            r1.in_bounds(),
            r2.in_bounds(),
        ensures
            r == (Rotation { origin, r0, r1, r2 }),
            r.wf(),
    {
        Rotation { origin, r0, r1, r2 }
    }

    /// The transformation's name.
    pub fn name(&self) -> (r: String)
        ensures
            r@ == "Rotation"@,
    {
        String::from_str("Rotation")
    }

    /// A point is moved by the linear part about the origin.
    pub open spec fn spec_apply_point(self, p: (int, int, int)) -> (int, int, int) {
        let d = (p.0 - self.origin.x, p.1 - self.origin.y, p.2 - self.origin.z);
        (
            self.origin.x + dot3(self.r0, d),
            self.origin.y + dot3(self.r1, d),
            self.origin.z + dot3(self.r2, d),
        )
    }

    /// A vector feels only the linear part.
    pub open spec fn spec_apply_vector(self, v: (int, int, int)) -> (int, int, int) {
        (dot3(self.r0, v), dot3(self.r1, v), dot3(self.r2, v))
    }

    /// Combine with another rotation about the same origin: the linear
    /// parts multiply, and applying the result equals applying `other`
    /// first and then `self`.
    pub fn combine(&self, other: Rotation) -> (r: Rotation)
        requires
            self.origin == other.origin,
            self.wf(),
            other.wf(),
            triple_ok(compose_row(self.r0, other.r0, other.r1, other.r2)),
            triple_ok(compose_row(self.r1, other.r0, other.r1, other.r2)),
            triple_ok(compose_row(self.r2, other.r0, other.r1, other.r2)),
        ensures
            r.origin == self.origin,
            r.r0.ints() == compose_row(self.r0, other.r0, other.r1, other.r2),
            r.r1.ints() == compose_row(self.r1, other.r0, other.r1, other.r2),
            r.r2.ints() == compose_row(self.r2, other.r0, other.r1, other.r2),
            r.wf(),
            forall|p: (int, int, int)|
                #[trigger] r.spec_apply_point(p) == self.spec_apply_point(other.spec_apply_point(p)),
            forall|v: (int, int, int)|
                #[trigger] r.spec_apply_vector(v) == self.spec_apply_vector(
                    other.spec_apply_vector(v),
                ),
    {
        proof {
            lemma_row_products_fit(*self, other);
        }
        let r = Rotation {
            origin: self.origin,
            r0: compose_row_exec(self.r0, other.r0, other.r1, other.r2),
            r1: compose_row_exec(self.r1, other.r0, other.r1, other.r2),
            r2: compose_row_exec(self.r2, other.r0, other.r1, other.r2),
        };
        proof {
            assert forall|v: (int, int, int)|
                #[trigger] r.spec_apply_vector(v) == self.spec_apply_vector(
                    other.spec_apply_vector(v),
                ) by {
                lemma_dot_compose(self.r0, other.r0, other.r1, other.r2, v);
                lemma_dot_compose(self.r1, other.r0, other.r1, other.r2, v);
                lemma_dot_compose(self.r2, other.r0, other.r1, other.r2, v);
            }
            assert forall|p: (int, int, int)|
                #[trigger] r.spec_apply_point(p) == self.spec_apply_point(
                    other.spec_apply_point(p),
                ) by {
                let d = (p.0 - self.origin.x as int, p.1 - self.origin.y as int, p.2
                    - self.origin.z as int);
                lemma_dot_compose(self.r0, other.r0, other.r1, other.r2, d);
                lemma_dot_compose(self.r1, other.r0, other.r1, other.r2, d);
                lemma_dot_compose(self.r2, other.r0, other.r1, other.r2, d);
            }
        }
        r
    }
}

/// Each entry of a composed row is a sum of three bounded products.
proof fn lemma_row_products_fit(a: Rotation, b: Rotation)
    requires
        a.wf(),
        b.wf(),
    ensures
        forall|i: int, j: int|
            -(3 * (COORD_LIMIT as int) * (COORD_LIMIT as int)) <= #[trigger] row_entry(a, b, i, j)
                <= 3 * (COORD_LIMIT as int) * (COORD_LIMIT as int),
{
    assert forall|i: int, j: int|
        -(3 * (COORD_LIMIT as int) * (COORD_LIMIT as int)) <= #[trigger] row_entry(a, b, i, j) <= 3
            * (COORD_LIMIT as int) * (COORD_LIMIT as int) by {
        let ar = if i == 0 {
            a.r0
        } else if i == 1 {
            a.r1
        } else {
            a.r2
        };
        let c = bcol(b, j);
        crate::geom::lemma_abs_mul_bound(ar.x as int, c.0, COORD_LIMIT as int, COORD_LIMIT as int);
        crate::geom::lemma_abs_mul_bound(ar.y as int, c.1, COORD_LIMIT as int, COORD_LIMIT as int);
        crate::geom::lemma_abs_mul_bound(ar.z as int, c.2, COORD_LIMIT as int, COORD_LIMIT as int);
    }
}

/// Column `j` of the rows of `b`.
spec fn bcol(b: Rotation, j: int) -> (int, int, int) {
    if j == 0 {
        (b.r0.x as int, b.r1.x as int, b.r2.x as int)
    } else if j == 1 {
        (b.r0.y as int, b.r1.y as int, b.r2.y as int)
    } else {
        (b.r0.z as int, b.r1.z as int, b.r2.z as int)
    }
}

/// Entry `(i, j)` of the composed linear part.
spec fn row_entry(a: Rotation, b: Rotation, i: int, j: int) -> int {
    let ar = if i == 0 {
        a.r0
    } else if i == 1 {
        a.r1
    } else {
        a.r2
    };
    let c = bcol(b, j);
    ar.x * c.0 + ar.y * c.1 + ar.z * c.2
}

/// One composed row, computed exactly.
fn compose_row_exec(a: Vector3, b0: Vector3, b1: Vector3, b2: Vector3) -> (r: Vector3)
    requires
        a.in_bounds(),
        b0.in_bounds(),
        b1.in_bounds(),
        b2.in_bounds(),
        triple_ok(compose_row(a, b0, b1, b2)),
    ensures
        r.ints() == compose_row(a, b0, b1, b2),
        r.in_bounds(),
{
    proof {
        let l = COORD_LIMIT as int;
        crate::geom::lemma_abs_mul_bound(a.x as int, b0.x as int, l, l);
        crate::geom::lemma_abs_mul_bound(a.y as int, b1.x as int, l, l);
        crate::geom::lemma_abs_mul_bound(a.z as int, b2.x as int, l, l);
        crate::geom::lemma_abs_mul_bound(a.x as int, b0.y as int, l, l);
        crate::geom::lemma_abs_mul_bound(a.y as int, b1.y as int, l, l);
        crate::geom::lemma_abs_mul_bound(a.z as int, b2.y as int, l, l);
        crate::geom::lemma_abs_mul_bound(a.x as int, b0.z as int, l, l);
        crate::geom::lemma_abs_mul_bound(a.y as int, b1.z as int, l, l);
        crate::geom::lemma_abs_mul_bound(a.z as int, b2.z as int, l, l);
    }
    Vector3 {
        x: a.x * b0.x + a.y * b1.x + a.z * b2.x,
        y: a.x * b0.y + a.y * b1.y + a.z * b2.y,
        z: a.x * b0.z + a.y * b1.z + a.z * b2.z,
    }
}

/// Applying row `a` to the image of a triple under the rows `b0, b1, b2`
/// equals applying the composed row directly: matrix product composes.
proof fn lemma_dot_compose(a: Vector3, b0: Vector3, b1: Vector3, b2: Vector3, t: (int, int, int))
    ensures
        dot3(a, (dot3(b0, t), dot3(b1, t), dot3(b2, t))) == compose_row(a, b0, b1, b2).0 * t.0
            + compose_row(a, b0, b1, b2).1 * t.1 + compose_row(a, b0, b1, b2).2 * t.2,
{
    lemma_mul_into_sum3(a.x as int, b0.x as int, b0.y as int, b0.z as int, t.0, t.1, t.2);
    lemma_mul_into_sum3(a.y as int, b1.x as int, b1.y as int, b1.z as int, t.0, t.1, t.2);
    lemma_mul_into_sum3(a.z as int, b2.x as int, b2.y as int, b2.z as int, t.0, t.1, t.2);
    lemma_sum3_into_mul(t.0, a.x * b0.x, a.y * b1.x, a.z * b2.x);
    lemma_sum3_into_mul(t.1, a.x * b0.y, a.y * b1.y, a.z * b2.y);
    lemma_sum3_into_mul(t.2, a.x * b0.z, a.y * b1.z, a.z * b2.z);
}

/// Multiplication distributes into a three-term dot product.
proof fn lemma_mul_into_sum3(m: int, x: int, y: int, z: int, p: int, q: int, r: int)
    ensures
        m * (x * p + y * q + z * r) == (m * x) * p + (m * y) * q + (m * z) * r,
{
    vstd::arithmetic::mul::lemma_mul_is_distributive_add(m, x * p + y * q, z * r);
    vstd::arithmetic::mul::lemma_mul_is_distributive_add(m, x * p, y * q);
    vstd::arithmetic::mul::lemma_mul_is_associative(m, x, p);
    vstd::arithmetic::mul::lemma_mul_is_associative(m, y, q);
    vstd::arithmetic::mul::lemma_mul_is_associative(m, z, r);
}

/// A three-term sum distributes over a common factor.
proof fn lemma_sum3_into_mul(s: int, u: int, v: int, w: int)
    ensures
        (u + v + w) * s == u * s + v * s + w * s,
{
    vstd::arithmetic::mul::lemma_mul_is_distributive_add_other_way(s, u + v, w);
    vstd::arithmetic::mul::lemma_mul_is_distributive_add_other_way(s, u, v);
}

/// Builder for a `Rotation`: origin and linear rows must both be given.
#[derive(Clone, Copy, Debug)]
pub struct RotationBuilder {
    pub origin: Option<Point3>,
    pub rows: Option<(Vector3, Vector3, Vector3)>,
}

impl RotationBuilder {
    /// An empty builder.
    pub fn default() -> (r: RotationBuilder)
        ensures
            r.origin is None,
            r.rows is None,
    {
        RotationBuilder { origin: None, rows: None }
    }

    /// Set the origin the rotation is fixed at.
    pub fn with_origin(self, x: i64, y: i64, z: i64) -> (r: RotationBuilder)
        requires
            coord_ok(x as int) && coord_ok(y as int) && coord_ok(z as int),
        ensures
            r.origin == Some(Point3 { x, y, z }),
            r.rows == self.rows,
    {
        RotationBuilder { origin: Some(Point3 { x, y, z }), ..self }
    }

    /// Set the rows of the linear part.
    pub fn with_rows(self, r0: Vector3, r1: Vector3, r2: Vector3) -> (r: RotationBuilder)
        requires
            r0.in_bounds(),
            r1.in_bounds(),
            r2.in_bounds(),
        ensures
            r.rows == Some((r0, r1, r2)),
            r.origin == self.origin,
    {
        RotationBuilder { rows: Some((r0, r1, r2)), ..self }
    }

    /// Build the rotation; fails exactly when origin or rows were not set.
    pub fn build(self) -> (r: Result<Rotation, Error>)
        requires
            self.origin matches Some(o) ==> o.in_bounds(),
            self.rows matches Some(rows) ==> rows.0.in_bounds() && rows.1.in_bounds()
                && rows.2.in_bounds(),
        ensures
            self.origin matches Some(o) ==> self.rows matches Some(rows) ==> r == Ok::<
                Rotation,
                Error,
            >(Rotation { origin: o, r0: rows.0, r1: rows.1, r2: rows.2 }),
            self.origin is None ==> (r matches Err(e) && e.message@
                == "Unable to build Rotation transform: origin is not specified"@),
            self.origin is Some && self.rows is None ==> (r matches Err(e) && e.message@
                == "Unable to build Rotation transform: rows are not specified"@),
    {
        match self.origin {
            None => Err(
                Error::from_text("Unable to build Rotation transform: origin is not specified"),
            ),
            Some(origin) => match self.rows {
                None => Err(
                    Error::from_text("Unable to build Rotation transform: rows are not specified"),
                ),
                Some((r0, r1, r2)) => Ok(Rotation::from_origin_rows(origin, r0, r1, r2)),
            },
        }
    }
}

} // verus!
