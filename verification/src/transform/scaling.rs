//! Scaling around an arbitrary origin.
//!
//! A scaling owns the origin it is conjugated around: its effect on a point
//! `p` is `origin + factors * (p - origin)`, the homogeneous matrix
//! `Translate(origin) * Scale(factors) * Translate(-origin)` evaluated at
//! `p`.  Vectors only feel the linear part.

use vstd::prelude::*;

use crate::error::Error;
use crate::geom::{coord_ok, Point3, Vector3};

verus! {

/// A scaling by per-axis `factors`, fixed at `origin`.
#[derive(Clone, Copy, Debug, PartialEq, Eq, Structural)]
pub struct Scaling {
    pub origin: Point3,
    pub factors: Vector3,
}

impl Scaling {
    /// Whether origin and factors are storable.
    pub open spec fn wf(self) -> bool {
        self.origin.in_bounds() && self.factors.in_bounds()
    }

    /// The scaling with the given origin and per-axis factors.
    pub fn from_origin_vector(origin: Point3, vector: Vector3) -> (r: Scaling)
        requires
            origin.in_bounds(),
            vector.in_bounds(),
        ensures
            r == (Scaling { origin, factors: vector }),
            r.wf(),
    {
        Scaling { origin, factors: vector }
    }

    /// The transformation's name.
    pub fn name(&self) -> (r: String)
        ensures
            r@ == "Scaling"@,
    {
        String::from_str("Scaling")
    }

    /// Combine with another scaling around the same origin: the factors
    /// multiply, and applying the result equals applying `other` first and
    /// then `self`.
    pub fn combine(&self, other: Scaling) -> (r: Scaling)
        requires
            self.origin == other.origin,
            self.wf(),
            other.wf(),
            coord_ok(self.factors.x * other.factors.x),
            coord_ok(self.factors.y * other.factors.y),
            coord_ok(self.factors.z * other.factors.z),
        ensures
            r.origin == self.origin,
            r.factors.x == self.factors.x * other.factors.x,
            r.factors.y == self.factors.y * other.factors.y,
            r.factors.z == self.factors.z * other.factors.z,
            r.wf(),
            forall|p: (int, int, int)|
                #[trigger] r.spec_apply_point(p) == self.spec_apply_point(other.spec_apply_point(p)),
            forall|v: (int, int, int)|
                #[trigger] r.spec_apply_vector(v) == self.spec_apply_vector(other.spec_apply_vector(v)),
    {
        let r = Scaling {
            origin: self.origin,
            factors: Vector3 {
                x: self.factors.x * other.factors.x,
                y: self.factors.y * other.factors.y,
                z: self.factors.z * other.factors.z,
            },
        };
        proof {
            assert forall|p: (int, int, int)|
                #[trigger] r.spec_apply_point(p) == self.spec_apply_point(
                    other.spec_apply_point(p),
                ) by {
                lemma_scale_compose(
                    self.origin.x as int,
                    self.factors.x as int,
                    other.factors.x as int,
                    p.0,
                );
                lemma_scale_compose(
                    self.origin.y as int,
                    self.factors.y as int,
                    other.factors.y as int,
                    p.1,
                );
                lemma_scale_compose(
                    self.origin.z as int,
                    self.factors.z as int,
                    other.factors.z as int,
                    p.2,
                );
            }
            assert forall|v: (int, int, int)|
                #[trigger] r.spec_apply_vector(v) == self.spec_apply_vector(
                    other.spec_apply_vector(v),
                ) by {
                assert((self.factors.x * other.factors.x) * v.0 == self.factors.x * (
                other.factors.x * v.0)) by (nonlinear_arith);
                assert((self.factors.y * other.factors.y) * v.1 == self.factors.y * (
                other.factors.y * v.1)) by (nonlinear_arith);
                assert((self.factors.z * other.factors.z) * v.2 == self.factors.z * (
                other.factors.z * v.2)) by (nonlinear_arith);
            }
        }
        r
    }

    /// A point is scaled about the origin, one axis at a time.
    pub open spec fn spec_apply_point(self, p: (int, int, int)) -> (int, int, int) {
        (
            self.origin.x + self.factors.x * (p.0 - self.origin.x),
            self.origin.y + self.factors.y * (p.1 - self.origin.y),
            self.origin.z + self.factors.z * (p.2 - self.origin.z),
        )
    }

    /// A vector feels only the linear part: per-axis multiplication.
    pub open spec fn spec_apply_vector(self, v: (int, int, int)) -> (int, int, int) {
        (self.factors.x * v.0, self.factors.y * v.1, self.factors.z * v.2)
    }
}

/// One axis of scaling composition: scaling by `a` after scaling by `b`,
/// both about `o`, is scaling by `a * b` about `o`.
proof fn lemma_scale_compose(o: int, a: int, b: int, p: int)
    by (nonlinear_arith)
    ensures
        o + (a * b) * (p - o) == o + a * ((o + b * (p - o)) - o),
{
}

/// Builder for a `Scaling`: origin and factor vector must both be given.
#[derive(Clone, Copy, Debug, PartialEq, Eq, Structural)]
pub struct ScalingBuilder {
    pub origin: Option<Point3>,
    pub vector: Option<Vector3>,
}

impl ScalingBuilder {
    /// An empty builder.
    pub fn default() -> (r: ScalingBuilder)
        ensures
            r.origin is None,
            r.vector is None,
    {
        ScalingBuilder { origin: None, vector: None }
    }

    /// Set the origin the scaling is fixed at.
    pub fn with_origin(self, x: i64, y: i64, z: i64) -> (r: ScalingBuilder)
        requires
            coord_ok(x as int) && coord_ok(y as int) && coord_ok(z as int),
        ensures
            r.origin == Some(Point3 { x, y, z }),
            r.vector == self.vector,
    {
        ScalingBuilder { origin: Some(Point3 { x, y, z }), ..self }
    }

    /// Set the per-axis scaling factors.
    pub fn with_vector(self, x: i64, y: i64, z: i64) -> (r: ScalingBuilder)
        requires
            coord_ok(x as int) && coord_ok(y as int) && coord_ok(z as int),
        ensures
            r.vector == Some(Vector3 { x, y, z }),
            r.origin == self.origin,
    {
        ScalingBuilder { vector: Some(Vector3 { x, y, z }), ..self }
    }

    /// Build the scaling; fails exactly when origin or vector was not set.
    pub fn build(self) -> (r: Result<Scaling, Error>)
        requires
            self.origin matches Some(o) ==> o.in_bounds(),
            self.vector matches Some(v) ==> v.in_bounds(),
        ensures
            self.origin matches Some(o) ==> self.vector matches Some(v) ==> r == Ok::<
                Scaling,
                Error,
            >(Scaling { origin: o, factors: v }),
            self.origin is None ==> (r matches Err(e) && e.message@
                == "Unable to build Scaling transform: origin is not specified"@),
            self.origin is Some && self.vector is None ==> (r matches Err(e) && e.message@
                == "Unable to build Scaling transform: vector is not specified"@),
    {
        match self.origin {
            None => Err(
                Error::from_text("Unable to build Scaling transform: origin is not specified"),
            ),
            Some(origin) => match self.vector {
                None => Err(
                    Error::from_text("Unable to build Scaling transform: vector is not specified"),
                ),
                Some(vector) => Ok(Scaling::from_origin_vector(origin, vector)),
            },
        }
    }
}

} // verus!
