//! The composable transform stack.
//!
//! A `Transform` is one tagged value out of a closed set: identity,
//! translation, scaling about an origin, or a linear map about an origin.
//! A drawable owns an ordered sequence of them; a point is folded through
//! the sequence first-applied-first, and a vector is folded as a
//! point/vector pair so that each step sees the point as transformed so
//! far.  Every application is exact; a step whose result leaves the
//! storable coordinate range reports an error instead of wrapping.

pub mod identity;
pub mod translation;
pub mod scaling;
pub mod rotation;

use vstd::prelude::*;

use crate::error::Error;
use crate::geom::{coord_ok, triple_ok, Point3, Vector3, COORD_LIMIT};
use identity::Identity;
use rotation::{dot3, Rotation};
use scaling::Scaling;
use translation::Translation;

verus! {

/// One affine transform out of the closed set.
#[derive(Clone, Copy, Debug, PartialEq, Eq, Structural)]
pub enum Transform {
    Identity(Identity),
    Translate(Translation),
    Scale(Scaling),
    Rotate(Rotation),
}

impl Transform {
    /// Whether the transform's parameters are storable.
    pub open spec fn wf(self) -> bool {
        match self {
            Transform::Identity(_) => true,
            Transform::Translate(t) => t.wf(),
            Transform::Scale(s) => s.wf(),
            Transform::Rotate(r) => r.wf(),
        }
    }

    /// Where the transform sends a point, exactly.
    pub open spec fn spec_apply_point(self, p: (int, int, int)) -> (int, int, int) {
        match self {
            Transform::Identity(op) => op.spec_apply_point(p),
            Transform::Translate(op) => op.spec_apply_point(p),
            Transform::Scale(op) => op.spec_apply_point(p),
            Transform::Rotate(op) => op.spec_apply_point(p),
        }
    }

    /// Where the transform sends a vector: only the linear part acts, the
    /// translation component of the step's matrix is never felt.
    pub open spec fn spec_apply_vector(self, v: (int, int, int)) -> (int, int, int) {
        match self {
            Transform::Identity(op) => op.spec_apply_vector(v),
            Transform::Translate(op) => op.spec_apply_vector(v),
            Transform::Scale(op) => op.spec_apply_vector(v),
            Transform::Rotate(op) => op.spec_apply_vector(v),
        }
    }

    /// Apply the transform to a point.  Succeeds exactly when the image is
    /// storable, and then returns it exactly.
    pub fn transform_point(&self, p: &Point3) -> (r: Result<Point3, Error>)
        requires
            self.wf(),
            p.in_bounds(),
        ensures
            r matches Ok(q) ==> spec_step_point(*self, *p) == Some(q),
            r is Err <==> spec_step_point(*self, *p) is None,
            r matches Err(e) ==> e.message@ == "Transform result exceeds the coordinate range"@,
    {
        let (qx, qy, qz) = match self {
            Transform::Identity(_) => (p.x, p.y, p.z),
            Transform::Translate(t) => (p.x + t.x, p.y + t.y, p.z + t.z),
            Transform::Scale(s) => {
                let dx = p.x - s.origin.x;
                let dy = p.y - s.origin.y;
                let dz = p.z - s.origin.z;
                proof {
                    let l = COORD_LIMIT as int;
                    crate::geom::lemma_abs_mul_bound(s.factors.x as int, dx as int, l, 2 * l);
                    crate::geom::lemma_abs_mul_bound(s.factors.y as int, dy as int, l, 2 * l);
                    crate::geom::lemma_abs_mul_bound(s.factors.z as int, dz as int, l, 2 * l);
                }
                (
                    s.origin.x + s.factors.x * dx,
                    s.origin.y + s.factors.y * dy,
                    s.origin.z + s.factors.z * dz,
                )
            },
            Transform::Rotate(rot) => {
                let dx = p.x - rot.origin.x;
                let dy = p.y - rot.origin.y;
                let dz = p.z - rot.origin.z;
                let ax = dot_row(rot.r0, dx, dy, dz);
                let ay = dot_row(rot.r1, dx, dy, dz);
                let az = dot_row(rot.r2, dx, dy, dz);
                (rot.origin.x + ax, rot.origin.y + ay, rot.origin.z + az)
            },
        };
        if -COORD_LIMIT <= qx && qx <= COORD_LIMIT && -COORD_LIMIT <= qy && qy <= COORD_LIMIT
            && -COORD_LIMIT <= qz && qz <= COORD_LIMIT {
            Ok(Point3 { x: qx, y: qy, z: qz })
        } else {
            Err(Error::from_text("Transform result exceeds the coordinate range"))
        }
    }

    /// Apply the transform to a vector anchored at a point.  The point
    /// parameter mirrors the pairwise fold below; the image of the vector
    /// does not depend on it — see `lemma_vector_is_point_difference`.
    pub fn transform_vector(&self, _p: &Point3, v: &Vector3) -> (r: Result<Vector3, Error>)
        requires
            self.wf(),
            v.in_bounds(),
        ensures
            r matches Ok(w) ==> spec_step_vector(*self, *v) == Some(w),
            r is Err <==> spec_step_vector(*self, *v) is None,
            r matches Err(e) ==> e.message@ == "Transform result exceeds the coordinate range"@,
    {
        let (qx, qy, qz) = match self {
            Transform::Identity(_) => (v.x, v.y, v.z),
            Transform::Translate(_) => (v.x, v.y, v.z),
            Transform::Scale(s) => {
                proof {
                    let l = COORD_LIMIT as int;
                    crate::geom::lemma_abs_mul_bound(s.factors.x as int, v.x as int, l, l);
                    crate::geom::lemma_abs_mul_bound(s.factors.y as int, v.y as int, l, l);
                    crate::geom::lemma_abs_mul_bound(s.factors.z as int, v.z as int, l, l);
                }
                (s.factors.x * v.x, s.factors.y * v.y, s.factors.z * v.z)
            },
            Transform::Rotate(rot) => {
                let ax = dot_row(rot.r0, v.x, v.y, v.z);
                let ay = dot_row(rot.r1, v.x, v.y, v.z);
                let az = dot_row(rot.r2, v.x, v.y, v.z);
                (ax, ay, az)
            },
        };
        if -COORD_LIMIT <= qx && qx <= COORD_LIMIT && -COORD_LIMIT <= qy && qy <= COORD_LIMIT
            && -COORD_LIMIT <= qz && qz <= COORD_LIMIT {
            Ok(Vector3 { x: qx, y: qy, z: qz })
        } else {
            Err(Error::from_text("Transform result exceeds the coordinate range"))
        }
    }
}

/// The dot product of a bounded row with a displacement whose coordinates
/// come from differences of bounded coordinates.
fn dot_row(row: Vector3, dx: i64, dy: i64, dz: i64) -> (r: i64)
    requires
        row.in_bounds(),
        -(2 * (COORD_LIMIT as int)) <= dx as int <= 2 * (COORD_LIMIT as int),
        -(2 * (COORD_LIMIT as int)) <= dy as int <= 2 * (COORD_LIMIT as int),
        -(2 * (COORD_LIMIT as int)) <= dz as int <= 2 * (COORD_LIMIT as int),
    ensures
        r as int == dot3(row, (dx as int, dy as int, dz as int)),
        -(6 * (COORD_LIMIT as int) * (COORD_LIMIT as int)) <= r as int <= 6 * (COORD_LIMIT as int)
            * (COORD_LIMIT as int),
{
    proof {
        let l = COORD_LIMIT as int;
        crate::geom::lemma_abs_mul_bound(row.x as int, dx as int, l, 2 * l);
        crate::geom::lemma_abs_mul_bound(row.y as int, dy as int, l, 2 * l);
        crate::geom::lemma_abs_mul_bound(row.z as int, dz as int, l, 2 * l);
    }
    row.x * dx + row.y * dy + row.z * dz
}

/// One step of the point fold: the image point if it is storable.
pub open spec fn spec_step_point(t: Transform, p: Point3) -> Option<Point3> {
    let q = t.spec_apply_point(p.ints());
    if triple_ok(q) {
        Some(Point3 { x: q.0 as i64, y: q.1 as i64, z: q.2 as i64 })
    } else {
        None
    }
}

/// One step of the vector fold: the image vector if it is storable.
pub open spec fn spec_step_vector(t: Transform, v: Vector3) -> Option<Vector3> {
    let q = t.spec_apply_vector(v.ints());
    if triple_ok(q) {
        Some(Vector3 { x: q.0 as i64, y: q.1 as i64, z: q.2 as i64 })
    } else {
        None
    }
}

/// A point folded through a sequence of transforms, first-applied-first.
pub open spec fn spec_apply_seq_point(ts: Seq<Transform>, p: Point3) -> Option<Point3>
    decreases ts.len(),
{
    if ts.len() == 0 {
        Some(p)
    } else {
        match spec_step_point(ts[0], p) {
            Some(q) => spec_apply_seq_point(ts.drop_first(), q),
            None => None,
        }
    }
}

/// A point/vector pair folded through a sequence of transforms: at each
/// step the vector is transformed at the point as transformed so far.
pub open spec fn spec_apply_seq_pair(ts: Seq<Transform>, p: Point3, v: Vector3) -> Option<
    (Point3, Vector3),
>
    decreases ts.len(),
{
    if ts.len() == 0 {
        Some((p, v))
    } else {
        match (spec_step_point(ts[0], p), spec_step_vector(ts[0], v)) {
            (Some(q), Some(w)) => spec_apply_seq_pair(ts.drop_first(), q, w),
            _ => None,
        }
    }
}

/// Whether every transform of a sequence is storable.
pub open spec fn seq_wf(ts: Seq<Transform>) -> bool {
    forall|i: int| 0 <= i < ts.len() ==> (#[trigger] ts[i]).wf()
}

/// Fold a point through a sequence of transforms, left to right.
pub fn transform_sequence_point(ts: &Vec<Transform>, p: &Point3) -> (r: Result<Point3, Error>)
    requires
        seq_wf(ts@),
        p.in_bounds(),
    ensures
        r matches Ok(q) ==> spec_apply_seq_point(ts@, *p) == Some(q) && q.in_bounds(),
        r is Err <==> spec_apply_seq_point(ts@, *p) is None,
        ts@.len() == 0 ==> r == Ok::<Point3, Error>(*p),
{
    let mut cur: Point3 = *p;
    let mut i: usize = 0;
    proof {
        assert(ts@.subrange(0, ts@.len() as int) =~= ts@);
    }
    while i < ts.len()
        invariant
            0 <= i <= ts@.len(),
            seq_wf(ts@),
            cur.in_bounds(),
            spec_apply_seq_point(ts@, *p) == spec_apply_seq_point(
                ts@.subrange(i as int, ts@.len() as int),
                cur,
            ),
        decreases ts@.len() - i,
    {
        let ghost rest = ts@.subrange(i as int, ts@.len() as int);
        proof {
            assert(rest[0] == ts@[i as int]);
            assert(rest.drop_first() =~= ts@.subrange(i as int + 1, ts@.len() as int));
        }
        match ts[i].transform_point(&cur) {
            Ok(q) => {
                cur = q;
            },
            Err(e) => {
                return Err(e);
            },
        }
        i = i + 1;
    }
    proof {
        assert(ts@.subrange(ts@.len() as int, ts@.len() as int) =~= Seq::<Transform>::empty());
    }
    Ok(cur)
}

/// Fold a point/vector pair through a sequence of transforms and return
/// the transformed vector.
pub fn transform_sequence_vector(ts: &Vec<Transform>, p: &Point3, v: &Vector3) -> (r: Result<
    Vector3,
    Error,
>)
    requires
        seq_wf(ts@),
        p.in_bounds(),
        v.in_bounds(),
    ensures
        r matches Ok(w) ==> (spec_apply_seq_pair(ts@, *p, *v) matches Some(pair) && pair.1 == w
            && w.in_bounds()),
        r is Err <==> spec_apply_seq_pair(ts@, *p, *v) is None,
        ts@.len() == 0 ==> r == Ok::<Vector3, Error>(*v),
{
    let mut cur_p: Point3 = *p;
    let mut cur_v: Vector3 = *v;
    let mut i: usize = 0;
    proof {
        assert(ts@.subrange(0, ts@.len() as int) =~= ts@);
    }
    while i < ts.len()
        invariant
            0 <= i <= ts@.len(),
            seq_wf(ts@),
            cur_p.in_bounds(),
            cur_v.in_bounds(),
            spec_apply_seq_pair(ts@, *p, *v) == spec_apply_seq_pair(
                ts@.subrange(i as int, ts@.len() as int),
                cur_p,
                cur_v,
            ),
        decreases ts@.len() - i,
    {
        let ghost rest = ts@.subrange(i as int, ts@.len() as int);
        proof {
            assert(rest[0] == ts@[i as int]);
            assert(rest.drop_first() =~= ts@.subrange(i as int + 1, ts@.len() as int));
        }
        let next_p = match ts[i].transform_point(&cur_p) {
            Ok(q) => q,
            Err(e) => {
                return Err(e);
            },
        };
        let next_v = match ts[i].transform_vector(&cur_p, &cur_v) {
            Ok(w) => w,
            Err(e) => {
                return Err(e);
            },
        };
        cur_p = next_p;
        cur_v = next_v;
        i = i + 1;
    }
    proof {
        assert(ts@.subrange(ts@.len() as int, ts@.len() as int) =~= Seq::<Transform>::empty());
    }
    Ok(cur_v)
}

/// Applying an empty transform sequence returns any point and any vector
/// unchanged.
pub proof fn lemma_empty_sequence_is_identity(p: Point3, v: Vector3)
    ensures
        spec_apply_seq_point(Seq::<Transform>::empty(), p) == Some(p),
        spec_apply_seq_pair(Seq::<Transform>::empty(), p, v) == Some((p, v)),
{
}

/// Sequence application composes in application order: folding a point
/// through one sequence and then another is folding it through their
/// concatenation, failures included.
pub proof fn lemma_sequence_composition(ts1: Seq<Transform>, ts2: Seq<Transform>, p: Point3)
    ensures
        spec_apply_seq_point(ts1 + ts2, p) == (match spec_apply_seq_point(ts1, p) {
            Some(q) => spec_apply_seq_point(ts2, q),
            None => None,
        }),
    decreases ts1.len(),
{
    if ts1.len() == 0 {
        assert(ts1 + ts2 =~= ts2);
    } else {
        assert((ts1 + ts2)[0] == ts1[0]);
        assert((ts1 + ts2).drop_first() =~= ts1.drop_first() + ts2);
        match spec_step_point(ts1[0], p) {
            Some(q) => {
                lemma_sequence_composition(ts1.drop_first(), ts2, q);
            },
            None => {},
        }
    }
}

/// The same composition law for the point/vector pair fold.
pub proof fn lemma_sequence_composition_pair(
    ts1: Seq<Transform>,
    ts2: Seq<Transform>,
    p: Point3,
    v: Vector3,
)
    ensures
        spec_apply_seq_pair(ts1 + ts2, p, v) == (match spec_apply_seq_pair(ts1, p, v) {
            Some(pair) => spec_apply_seq_pair(ts2, pair.0, pair.1),
            None => None,
        }),
    decreases ts1.len(),
{
    if ts1.len() == 0 {
        assert(ts1 + ts2 =~= ts2);
    } else {
        assert((ts1 + ts2)[0] == ts1[0]);
        assert((ts1 + ts2).drop_first() =~= ts1.drop_first() + ts2);
        match (spec_step_point(ts1[0], p), spec_step_vector(ts1[0], v)) {
            (Some(q), Some(w)) => {
                lemma_sequence_composition_pair(ts1.drop_first(), ts2, q, w);
            },
            _ => {},
        }
    }
}

/// Transforming a vector never translates it: for every transform, the
/// image of a vector is the difference of the images of `p + v` and `p`,
/// for any anchor point `p` — so the translation component of the step's
/// matrix cancels and only the linear part acts.
pub proof fn lemma_vector_is_point_difference(t: Transform, p: (int, int, int), v: (int, int, int))
    ensures
        ({
            let q1 = t.spec_apply_point((p.0 + v.0, p.1 + v.1, p.2 + v.2));
            let q0 = t.spec_apply_point(p);
            t.spec_apply_vector(v) == (q1.0 - q0.0, q1.1 - q0.1, q1.2 - q0.2)
        }),
{
    match t {
        Transform::Identity(_) => {},
        Transform::Translate(_) => {},
        Transform::Scale(s) => {
            lemma_scale_axis_difference(s.factors.x as int, s.origin.x as int, p.0, v.0);
            lemma_scale_axis_difference(s.factors.y as int, s.origin.y as int, p.1, v.1);
            lemma_scale_axis_difference(s.factors.z as int, s.origin.z as int, p.2, v.2);
        },
        Transform::Rotate(r) => {
            let o = (r.origin.x as int, r.origin.y as int, r.origin.z as int);
            lemma_dot_offset_difference(r.r0, o, p, v);
            lemma_dot_offset_difference(r.r1, o, p, v);
            lemma_dot_offset_difference(r.r2, o, p, v);
        },
    }
}

/// On one axis, scaling `p + v` and scaling `p` about `o` differ by the
/// scaled `v` alone.
proof fn lemma_scale_axis_difference(a: int, o: int, p: int, v: int)
    by (nonlinear_arith)
    ensures
        (o + a * ((p + v) - o)) - (o + a * (p - o)) == a * v,
{
}

/// A row's dot product is linear in its argument's offset.
proof fn lemma_dot_offset_difference(
    row: Vector3,
    o: (int, int, int),
    p: (int, int, int),
    v: (int, int, int),
)
    by (nonlinear_arith)
    ensures
        dot3(row, (p.0 + v.0 - o.0, p.1 + v.1 - o.1, p.2 + v.2 - o.2)) - dot3(
            row,
            (p.0 - o.0, p.1 - o.1, p.2 - o.2),
        ) == dot3(row, v),
{
}

impl From<Identity> for Transform {
    /// Wrap an identity as a `Transform`.
    fn from(v: Identity) -> (r: Transform) {
        Transform::Identity(v)
    }
}

impl vstd::std_specs::convert::FromSpecImpl<Identity> for Transform {
    open spec fn obeys_from_spec() -> bool {
        true
    }

    open spec fn from_spec(v: Identity) -> Transform {
        Transform::Identity(v)
    }
}

impl From<Translation> for Transform {
    /// Wrap a translation as a `Transform`.
    fn from(v: Translation) -> (r: Transform) {
        Transform::Translate(v)
    }
}

impl vstd::std_specs::convert::FromSpecImpl<Translation> for Transform {
    open spec fn obeys_from_spec() -> bool {
        true
    }

    open spec fn from_spec(v: Translation) -> Transform {
        Transform::Translate(v)
    }
}

impl From<Scaling> for Transform {
    /// Wrap a scaling as a `Transform`.
    fn from(v: Scaling) -> (r: Transform) {
        Transform::Scale(v)
    }
}

impl vstd::std_specs::convert::FromSpecImpl<Scaling> for Transform {
    open spec fn obeys_from_spec() -> bool {
        true
    }

    open spec fn from_spec(v: Scaling) -> Transform {
        Transform::Scale(v)
    }
}

impl From<Rotation> for Transform {
    /// Wrap a rotation as a `Transform`.
    fn from(v: Rotation) -> (r: Transform) {
        Transform::Rotate(v)
    }
}

impl vstd::std_specs::convert::FromSpecImpl<Rotation> for Transform {
    open spec fn obeys_from_spec() -> bool {
        true
    }

    open spec fn from_spec(v: Rotation) -> Transform {
        Transform::Rotate(v)
    }
}

} // verus!
