//! The hexahedron primitive: an axis-aligned box between two corners.
//!
//! The box owns a stable identifier, its two opposite corners and a
//! transform sequence.  Its surface is twelve triangles — two per face —
//! each with an outward unit normal; every triangle corner is a
//! coordinate mix of the two box corners, so vertex generation is exact.

use vstd::prelude::*;

use crate::error::Error;
use crate::geom::{Point3, Vector3};
use crate::transform::{
    spec_apply_seq_pair, spec_apply_seq_point, seq_wf, transform_sequence_point,
    transform_sequence_vector, Transform,
};
use crate::transform::translation::Translation;
use crate::uid::nano_id;

verus! {

/// An axis-aligned box between `start` and `end`, with its transforms.
#[derive(Clone, Debug)]
pub struct Hexahedron {
    pub uid: String,
    pub start: Point3,
    pub end: Point3,
    pub transform: Vec<Transform>,
}

/// The corner of the box taking `end`'s coordinate on each chosen axis
/// and `start`'s on the others.
pub open spec fn spec_corner(s: Point3, e: Point3, ux: bool, uy: bool, uz: bool) -> Point3 {
    Point3 {
        x: if ux {
            e.x
        } else {
            s.x
        },
        y: if uy {
            e.y
        } else {
            s.y
        },
        z: if uz {
            e.z
        } else {
            s.z
        },
    }
}

/// The twelve surface triangles of the box, two per face, in the fixed
/// order the renderer draws them.
pub open spec fn spec_hexahedron_triangles(s: Point3, e: Point3) -> Seq<(Point3, Point3, Point3)> {
    seq![
        (
            spec_corner(s, e, false, false, false),
            spec_corner(s, e, false, true, false),
            spec_corner(s, e, true, false, false),
        ),
        (
            spec_corner(s, e, true, false, false),
            spec_corner(s, e, false, true, false),
            spec_corner(s, e, true, true, false),
        ),
        (
            spec_corner(s, e, false, false, false),
            spec_corner(s, e, true, false, false),
            spec_corner(s, e, false, false, true),
        ),
        (
            spec_corner(s, e, false, false, true),
            spec_corner(s, e, true, false, false),
            spec_corner(s, e, true, false, true),
        ),
        (
            spec_corner(s, e, false, false, false),
            spec_corner(s, e, false, false, true),
            spec_corner(s, e, false, true, false),
        ),
        (
            spec_corner(s, e, false, true, false),
            spec_corner(s, e, false, false, true),
            spec_corner(s, e, false, true, true),
        ),
        (
            spec_corner(s, e, true, false, true),
            spec_corner(s, e, false, true, true),
            spec_corner(s, e, false, false, true),
        ),
        (
            spec_corner(s, e, true, true, true),
            spec_corner(s, e, false, true, true),
            spec_corner(s, e, true, false, true),
        ),
        (
            spec_corner(s, e, false, true, true),
            spec_corner(s, e, true, true, false),
            spec_corner(s, e, false, true, false),
        ),
        (
            spec_corner(s, e, true, true, true),
            spec_corner(s, e, true, true, false),
            spec_corner(s, e, false, true, true),
        ),
        (
            spec_corner(s, e, true, false, false),
            spec_corner(s, e, true, true, false),
            spec_corner(s, e, true, false, true),
        ),
        (
            spec_corner(s, e, true, false, true),
            spec_corner(s, e, true, true, false),
            spec_corner(s, e, true, true, true),
        ),
    ]
}

/// The outward unit normal of each of the twelve triangles, in order.
pub open spec fn spec_hexahedron_normals() -> Seq<Vector3> {
    seq![
        Vector3 { x: 0, y: 0, z: -1i64 },
        Vector3 { x: 0, y: 0, z: -1i64 },
        Vector3 { x: 0, y: -1i64, z: 0 },
        Vector3 { x: 0, y: -1i64, z: 0 },
        Vector3 { x: -1i64, y: 0, z: 0 },
        Vector3 { x: -1i64, y: 0, z: 0 },
        Vector3 { x: 0, y: 0, z: 1 },
        Vector3 { x: 0, y: 0, z: 1 },
        Vector3 { x: 0, y: 1, z: 0 },
        Vector3 { x: 0, y: 1, z: 0 },
        Vector3 { x: 1, y: 0, z: 0 },
        Vector3 { x: 1, y: 0, z: 0 },
    ]
}

/// One triangle and its normal folded through the transform sequence:
/// each corner is transformed, and the normal is transformed once at each
/// corner (normals are vectors, so translation never moves them).
pub open spec fn spec_transform_triangle(
    ts: Seq<Transform>,
    tri: (Point3, Point3, Point3),
    n: Vector3,
) -> Option<((Point3, Point3, Point3), (Vector3, Vector3, Vector3))> {
    let p1 = spec_apply_seq_point(ts, tri.0);
    let p2 = spec_apply_seq_point(ts, tri.1);
    let p3 = spec_apply_seq_point(ts, tri.2);
    let w1 = spec_apply_seq_pair(ts, tri.0, n);
    let w2 = spec_apply_seq_pair(ts, tri.1, n);
    let w3 = spec_apply_seq_pair(ts, tri.2, n);
    if p1 is Some && p2 is Some && p3 is Some && w1 is Some && w2 is Some && w3 is Some {
        Some(
            (
                (p1.unwrap(), p2.unwrap(), p3.unwrap()),
                (w1.unwrap().1, w2.unwrap().1, w3.unwrap().1),
            ),
        )
    } else {
        None
    }
}

/// All triangles and normals folded through the transform sequence, or
/// nothing if any single step leaves the coordinate range.
pub open spec fn spec_transform_all(
    ts: Seq<Transform>,
    tris: Seq<(Point3, Point3, Point3)>,
    ns: Seq<Vector3>,
) -> Option<(Seq<(Point3, Point3, Point3)>, Seq<(Vector3, Vector3, Vector3)>)>
    decreases tris.len(),
{
    if tris.len() == 0 {
        Some((Seq::empty(), Seq::empty()))
    } else {
        match (
            spec_transform_all(ts, tris.drop_last(), ns.drop_last()),
            spec_transform_triangle(ts, tris.last(), ns.last()),
        ) {
            (Some(acc), Some(one)) => Some((acc.0.push(one.0), acc.1.push(one.1))),
            _ => None,
        }
    }
}

/// If the whole fold succeeds, every triangle's own fold succeeds.
proof fn lemma_transform_all_parts(
    ts: Seq<Transform>,
    tris: Seq<(Point3, Point3, Point3)>,
    ns: Seq<Vector3>,
    i: int,
)
    requires
        tris.len() == ns.len(),
        0 <= i < tris.len(),
        spec_transform_all(ts, tris, ns) is Some,
    ensures
        spec_transform_triangle(ts, tris[i], ns[i]) is Some,
    decreases tris.len(),
{
    if i == tris.len() - 1 {
    } else {
        assert(tris.drop_last()[i] == tris[i]);
        assert(ns.drop_last()[i] == ns[i]);
        lemma_transform_all_parts(ts, tris.drop_last(), ns.drop_last(), i);
    }
}

/// Every triangle corner is a coordinate mix of the box corners, and
/// every normal a unit vector, so the whole surface is storable whenever
/// the box corners are.
proof fn lemma_hexahedron_geometry_bounds(s: Point3, e: Point3, k: int)
    requires
        s.in_bounds(),
        e.in_bounds(),
        0 <= k < spec_hexahedron_triangles(s, e).len(),
    ensures
        spec_hexahedron_triangles(s, e)[k].0.in_bounds(),
        spec_hexahedron_triangles(s, e)[k].1.in_bounds(),
        spec_hexahedron_triangles(s, e)[k].2.in_bounds(),
        spec_hexahedron_normals()[k].in_bounds(),
{
    if k == 0 {
    } else if k == 1 {
    } else if k == 2 {
    } else if k == 3 {
    } else if k == 4 {
    } else if k == 5 {
    } else if k == 6 {
    } else if k == 7 {
    } else if k == 8 {
    } else if k == 9 {
    } else if k == 10 {
    } else {
    }
}

impl Hexahedron {
    /// Whether corners and transforms are storable.
    pub open spec fn wf(self) -> bool {
        self.start.in_bounds() && self.end.in_bounds() && seq_wf(self.transform@)
    }

    /// A box between the two corners, with a fresh identifier and no
    /// transforms.
    fn new(start: Point3, end: Point3) -> (r: Result<Hexahedron, Error>)
        requires
            start.in_bounds(),
            end.in_bounds(),
        ensures
            r matches Ok(h) && h.start == start && h.end == end && h.transform@
                =~= Seq::<Transform>::empty() && h.uid@.len() == 6 && h.wf(),
    {
        Ok(Hexahedron { uid: nano_id(), start, end, transform: Vec::new() })
    }

    /// The box's stable identifier.
    pub fn uuid(&self) -> (r: Result<String, Error>)
        ensures
            r matches Ok(s) && s@ == self.uid@,
    {
        Ok(self.uid.clone())
    }

    /// The name of this primitive kind.
    pub fn kind_name(&self) -> (r: Result<String, Error>)
        ensures
            r matches Ok(s) && s@ == "Hexahedron"@,
    {
        Ok(String::from_str("Hexahedron"))
    }

    /// Append one transform; it applies after all earlier ones.
    pub fn with_transform(self, transform: Transform) -> (r: Hexahedron)
        requires
            transform.wf(),
        ensures
            r.uid@ == self.uid@,
            r.start == self.start,
            r.end == self.end,
            r.transform@ == self.transform@.push(transform),
            self.wf() ==> r.wf(),
    {
        let mut h = self;
        h.transform.push(transform);
        h
    }

    /// Append a translation.
    pub fn with_translate(self, translate: Translation) -> (r: Hexahedron)
        requires
            translate.wf(),
        ensures
            r.uid@ == self.uid@,
            r.start == self.start,
            r.end == self.end,
            r.transform@ == self.transform@.push(Transform::Translate(translate)),
            self.wf() ==> r.wf(),
    {
        self.with_transform(Transform::from(translate))
    }

    /// Append a translation.  Alias kept for hosts that call it under
    /// this name.
    pub fn translate(self, translate: Translation) -> (r: Hexahedron)
        requires
            translate.wf(),
        ensures
            r.uid@ == self.uid@,
            r.start == self.start,
            r.end == self.end,
            r.transform@ == self.transform@.push(Transform::Translate(translate)),
            self.wf() ==> r.wf(),
    {
        self.with_translate(translate)
    }

    /// The twelve surface triangles and their outward unit normals, in
    /// draw order, untransformed.
    pub fn vertices(&self) -> (r: Result<
        (Vec<(Point3, Point3, Point3)>, Vec<Vector3>),
        Error,
    >)
        ensures
            r matches Ok(p) && p.0@ == spec_hexahedron_triangles(self.start, self.end) && p.1@
                == spec_hexahedron_normals(),
    {
        let c000 = Point3 { x: self.start.x, y: self.start.y, z: self.start.z };
        let c100 = Point3 { x: self.end.x, y: self.start.y, z: self.start.z };
        let c010 = Point3 { x: self.start.x, y: self.end.y, z: self.start.z };
        let c110 = Point3 { x: self.end.x, y: self.end.y, z: self.start.z };
        let c001 = Point3 { x: self.start.x, y: self.start.y, z: self.end.z };
        let c101 = Point3 { x: self.end.x, y: self.start.y, z: self.end.z };
        let c011 = Point3 { x: self.start.x, y: self.end.y, z: self.end.z };
        let c111 = Point3 { x: self.end.x, y: self.end.y, z: self.end.z };
        let mut v: Vec<(Point3, Point3, Point3)> = Vec::new();
        let mut n: Vec<Vector3> = Vec::new();
        v.push((c000, c010, c100));
        n.push(Vector3 { x: 0, y: 0, z: -1 });
        v.push((c100, c010, c110));
        n.push(Vector3 { x: 0, y: 0, z: -1 });
        v.push((c000, c100, c001));
        n.push(Vector3 { x: 0, y: -1, z: 0 });
        v.push((c001, c100, c101));
        n.push(Vector3 { x: 0, y: -1, z: 0 });
        v.push((c000, c001, c010));
        n.push(Vector3 { x: -1, y: 0, z: 0 });
        v.push((c010, c001, c011));
        n.push(Vector3 { x: -1, y: 0, z: 0 });
        v.push((c101, c011, c001));
        n.push(Vector3 { x: 0, y: 0, z: 1 });
        v.push((c111, c011, c101));
        n.push(Vector3 { x: 0, y: 0, z: 1 });
        v.push((c011, c110, c010));
        n.push(Vector3 { x: 0, y: 1, z: 0 });
        v.push((c111, c110, c011));
        n.push(Vector3 { x: 0, y: 1, z: 0 });
        v.push((c100, c110, c101));
        n.push(Vector3 { x: 1, y: 0, z: 0 });
        v.push((c101, c110, c111));
        n.push(Vector3 { x: 1, y: 0, z: 0 });
        proof {
            assert(v@ =~= spec_hexahedron_triangles(self.start, self.end));
            assert(n@ =~= spec_hexahedron_normals());
        }
        Ok((v, n))
    }

    /// The surface triangles and their normals with the box's transform
    /// sequence applied: each corner is folded through the sequence, and
    /// the normal once per corner.  Fails exactly when some step leaves
    /// the coordinate range.
    pub fn transformed_geometry(&self) -> (r: Result<
        (Vec<(Point3, Point3, Point3)>, Vec<(Vector3, Vector3, Vector3)>),
        Error,
    >)
        requires
            self.wf(),
        ensures
            ({
                let full = spec_transform_all(
                    self.transform@,
                    spec_hexahedron_triangles(self.start, self.end),
                    spec_hexahedron_normals(),
                );
                &&& (r matches Ok(p) ==> full == Some((p.0@, p.1@)))
                &&& (r is Err <==> full is None)
            }),
    {
        let (tris, ns) = match self.vertices() {
            Ok(p) => p,
            Err(e) => {
                return Err(e);
            },
        };
        let ghost gtris = spec_hexahedron_triangles(self.start, self.end);
        let ghost gns = spec_hexahedron_normals();
        let mut out_v: Vec<(Point3, Point3, Point3)> = Vec::new();
        let mut out_n: Vec<(Vector3, Vector3, Vector3)> = Vec::new();
        let mut i: usize = 0;
        proof {
            assert(gtris.take(0) =~= Seq::<(Point3, Point3, Point3)>::empty());
            assert(gns.take(0) =~= Seq::<Vector3>::empty());
        }
        while i < tris.len()
            invariant
                0 <= i <= gtris.len(),
                self.wf(),
                gtris == spec_hexahedron_triangles(self.start, self.end),
                gns == spec_hexahedron_normals(),
                tris@ == gtris,
                ns@ == gns,
                gtris.len() == gns.len(),
                spec_transform_all(self.transform@, gtris.take(i as int), gns.take(i as int))
                    == Some((out_v@, out_n@)),
            decreases tris@.len() - i,
        {
            proof {
                assert(gtris.take(i as int + 1).drop_last() =~= gtris.take(i as int));
                assert(gns.take(i as int + 1).drop_last() =~= gns.take(i as int));
                assert(gtris.take(i as int + 1).last() == gtris[i as int]);
                assert(gns.take(i as int + 1).last() == gns[i as int]);
                lemma_hexahedron_geometry_bounds(self.start, self.end, i as int);
            }
            let (a, b, c) = tris[i];
            let nv = ns[i];
            let r1 = transform_sequence_point(&self.transform, &a);
            let r2 = transform_sequence_point(&self.transform, &b);
            let r3 = transform_sequence_point(&self.transform, &c);
            let w1 = transform_sequence_vector(&self.transform, &a, &nv);
            let w2 = transform_sequence_vector(&self.transform, &b, &nv);
            let w3 = transform_sequence_vector(&self.transform, &c, &nv);
            match (r1, r2, r3, w1, w2, w3) {
                (Ok(p1), Ok(p2), Ok(p3), Ok(v1), Ok(v2), Ok(v3)) => {
                    out_v.push((p1, p2, p3));
                    out_n.push((v1, v2, v3));
                },
                _ => {
                    proof {
                        assert(spec_transform_triangle(self.transform@, gtris[i as int], gns[i as int])
                            is None);
                        if spec_transform_all(self.transform@, gtris, gns) is Some {
                            lemma_transform_all_parts(self.transform@, gtris, gns, i as int);
                        }
                    }
                    return Err(Error::from_text("Transform result exceeds the coordinate range"));
                },
            }
            i = i + 1;
        }
        proof {
            assert(gtris.take(gtris.len() as int) =~= gtris);
            assert(gns.take(gns.len() as int) =~= gns);
        }
        Ok((out_v, out_n))
    }
}

/// Builder for a `Hexahedron`: both corners must be given.
#[derive(Clone, Copy, Debug)]
pub struct HexahedronBuilder {
    pub start: Option<Point3>,
    pub end: Option<Point3>,
}

impl HexahedronBuilder {
    /// An empty builder.
    pub fn new() -> (r: HexahedronBuilder)
        ensures
            r.start is None,
            r.end is None,
    {
        HexahedronBuilder { start: None, end: None }
    }

    /// Set the first corner.
    pub fn start(self, x: i64, y: i64, z: i64) -> (r: HexahedronBuilder)
        requires
            crate::geom::coord_ok(x as int) && crate::geom::coord_ok(y as int)
                && crate::geom::coord_ok(z as int),
        ensures
            r.start == Some(Point3 { x, y, z }),
            r.end == self.end,
    {
        HexahedronBuilder { start: Some(Point3 { x, y, z }), ..self }
    }

    /// Set the opposite corner.
    pub fn end(self, x: i64, y: i64, z: i64) -> (r: HexahedronBuilder)
        requires
            crate::geom::coord_ok(x as int) && crate::geom::coord_ok(y as int)
                && crate::geom::coord_ok(z as int),
        ensures
            r.end == Some(Point3 { x, y, z }),
            r.start == self.start,
    {
        HexahedronBuilder { end: Some(Point3 { x, y, z }), ..self }
    }

    /// Build the box; fails exactly when a corner was not given.
    pub fn build(self) -> (r: Result<Hexahedron, Error>)
        requires
            self.start matches Some(s) ==> s.in_bounds(),
            self.end matches Some(e) ==> e.in_bounds(),
        ensures
            self.start matches Some(s) ==> self.end matches Some(e) ==> (r matches Ok(h)
                && h.start == s && h.end == e && h.transform@ =~= Seq::<Transform>::empty()
                && h.uid@.len() == 6 && h.wf()),
            self.start is None ==> (r matches Err(e) && e.message@
                == "Start is not specified"@),
            self.start is Some && self.end is None ==> (r matches Err(e) && e.message@
                == "End is not specified"@),
    {
        match self.start {
            None => Err(Error::from_text("Start is not specified")),
            Some(start) => match self.end {
                None => Err(Error::from_text("End is not specified")),
                Some(end) => Hexahedron::new(start, end),
            },
        }
    }
}

} // verus!
