//! The grid primitive: evenly spaced lines spanning a square patch.
//!
//! A grid owns a stable identifier, the plane it lies in (normal and
//! tangent directions), its center, spacing and cell count, and a
//! transform sequence.  Line generation normalizes the plane vectors and
//! is carried out by the rendering host; the exact parameters, the
//! transform stack and the transformed reference point live here.

use vstd::prelude::*;

use crate::error::Error;
use crate::geom::{coord_ok, Point3, Vector3};
use crate::transform::{seq_wf, spec_apply_seq_point, transform_sequence_point, Transform};
use crate::transform::scaling::Scaling;
use crate::transform::translation::Translation;
use crate::uid::nano_id;

verus! {

/// A planar grid of `n` by `n` cells with spacing `delta`.
#[derive(Clone, Debug)]
pub struct Grid {
    pub uid: String,
    pub normal: Vector3,
    pub tangent: Vector3,
    pub center: Point3,
    pub delta: i64,
    pub n: u32,
    pub transform: Vec<Transform>,
}

impl Grid {
    /// Whether the grid's parameters and transforms are storable.
    pub open spec fn wf(self) -> bool {
        self.normal.in_bounds() && self.tangent.in_bounds() && self.center.in_bounds()
            && coord_ok(self.delta as int) && seq_wf(self.transform@)
    }

    /// A grid with the given parameters, a fresh identifier and no
    /// transforms.
    fn new(normal: Vector3, tangent: Vector3, center: Point3, delta: i64, n: u32) -> (r: Result<
        Grid,
        Error,
    >)
        requires
            normal.in_bounds(),
            tangent.in_bounds(),
            center.in_bounds(),
            coord_ok(delta as int),
        ensures
            r matches Ok(g) && g.normal == normal && g.tangent == tangent && g.center == center
                && g.delta == delta && g.n == n && g.transform@ =~= Seq::<Transform>::empty()
                && g.uid@.len() == 6 && g.wf(),
    {
        Ok(Grid { uid: nano_id(), normal, tangent, center, delta, n, transform: Vec::new() })
    }

    /// The grid's stable identifier.
    pub fn uuid(&self) -> (r: Result<String, Error>)
        ensures
            r matches Ok(s) && s@ == self.uid@,
    {
        Ok(self.uid.clone())
    }

    /// The name of this primitive kind.
    pub fn kind_name(&self) -> (r: Result<String, Error>)
        ensures
            r matches Ok(s) && s@ == "Grid"@,
    {
        Ok(String::from_str("Grid"))
    }

    /// Append one transform; it applies after all earlier ones.
    pub fn with_transform(self, transform: Transform) -> (r: Grid)
        requires
            transform.wf(),
        ensures
            r.uid@ == self.uid@,
            r.normal == self.normal,
            r.tangent == self.tangent,
            r.center == self.center,
            r.delta == self.delta,
            r.n == self.n,
            r.transform@ == self.transform@.push(transform),
            self.wf() ==> r.wf(),
    {
        let mut g = self;
        g.transform.push(transform);
        g
    }

    /// Append a translation.
    pub fn with_translate(self, translate: Translation) -> (r: Grid)
        requires
            translate.wf(),
        ensures
            r.uid@ == self.uid@,
            r.center == self.center,
            r.transform@ == self.transform@.push(Transform::Translate(translate)),
            self.wf() ==> r.wf(),
    {
        self.with_transform(Transform::from(translate))
    }

    /// Append a scaling.
    pub fn with_scale(self, transform: Scaling) -> (r: Grid)
        requires
            transform.wf(),
        ensures
            r.uid@ == self.uid@,
            r.center == self.center,
            r.transform@ == self.transform@.push(Transform::Scale(transform)),
            self.wf() ==> r.wf(),
    {
        self.with_transform(Transform::from(transform))
    }

    /// The grid's center folded through its transform sequence: the point
    /// hosts anchor overlays at.  Fails exactly when some step leaves the
    /// coordinate range.
    pub fn transform_reference_point(&self) -> (r: Result<Point3, Error>)
        requires
            self.wf(),
        ensures
            r matches Ok(q) ==> spec_apply_seq_point(self.transform@, self.center) == Some(q),
            r is Err <==> spec_apply_seq_point(self.transform@, self.center) is None,
    {
        transform_sequence_point(&self.transform, &self.center)
    }
}

/// Builder for a `Grid`: every parameter must be given.
#[derive(Clone, Copy, Debug)]
pub struct GridBuilder {
    pub normal: Option<Vector3>,
    pub tangent: Option<Vector3>,
    pub center: Option<Point3>,
    pub delta: Option<i64>,
    pub n: Option<u32>,
}

impl GridBuilder {
    /// An empty builder.
    pub fn new() -> (r: GridBuilder)
        ensures
            r.normal is None,
            r.tangent is None,
            r.center is None,
            r.delta is None,
            r.n is None,
    {
        GridBuilder { normal: None, tangent: None, center: None, delta: None, n: None }
    }

    /// Set the plane's normal direction.
    pub fn normal(self, x: i64, y: i64, z: i64) -> (r: GridBuilder)
        requires
            coord_ok(x as int) && coord_ok(y as int) && coord_ok(z as int),
        ensures
            r == (GridBuilder { normal: Some(Vector3 { x, y, z }), ..self }),
    {
        GridBuilder { normal: Some(Vector3 { x, y, z }), ..self }
    }

    /// Set the in-plane tangent direction.
    pub fn tangent(self, x: i64, y: i64, z: i64) -> (r: GridBuilder)
        requires
            coord_ok(x as int) && coord_ok(y as int) && coord_ok(z as int),
        ensures
            r == (GridBuilder { tangent: Some(Vector3 { x, y, z }), ..self }),
    {
        GridBuilder { tangent: Some(Vector3 { x, y, z }), ..self }
    }

    /// Set the center point.
    pub fn center(self, x: i64, y: i64, z: i64) -> (r: GridBuilder)
        requires
            coord_ok(x as int) && coord_ok(y as int) && coord_ok(z as int),
        ensures
            r == (GridBuilder { center: Some(Point3 { x, y, z }), ..self }),
    {
        GridBuilder { center: Some(Point3 { x, y, z }), ..self }
    }

    /// Set the spacing between grid lines.
    pub fn delta(self, delta: i64) -> (r: GridBuilder)
        requires
            coord_ok(delta as int),
        ensures
            r == (GridBuilder { delta: Some(delta), ..self }),
    {
        GridBuilder { delta: Some(delta), ..self }
    }

    /// Set the number of grid cells per direction.
    pub fn n(self, n: u32) -> (r: GridBuilder)
        ensures
            r == (GridBuilder { n: Some(n), ..self }),
    {
        GridBuilder { n: Some(n), ..self }
    }

    /// Build the grid; fails exactly on the first parameter not given.
    pub fn build(self) -> (r: Result<Grid, Error>)
        requires
            self.normal matches Some(v) ==> v.in_bounds(),
            self.tangent matches Some(v) ==> v.in_bounds(),
            self.center matches Some(p) ==> p.in_bounds(),
            self.delta matches Some(d) ==> coord_ok(d as int),
        ensures
            self.normal matches Some(nv) ==> self.tangent matches Some(tv) ==> self.center
                matches Some(c) ==> self.delta matches Some(d) ==> self.n matches Some(n) ==> (r
                matches Ok(g) && g.normal == nv && g.tangent == tv && g.center == c && g.delta == d
                && g.n == n && g.transform@ =~= Seq::<Transform>::empty() && g.uid@.len() == 6
                && g.wf()),
            self.normal is None ==> (r matches Err(e) && e.message@ == "Normal not specified"@),
            self.normal is Some && self.tangent is None ==> (r matches Err(e) && e.message@
                == "Tangent not specified"@),
            self.normal is Some && self.tangent is Some && self.center is None ==> (r matches Err(
                e,
            ) && e.message@ == "Center not specified"@),
            self.normal is Some && self.tangent is Some && self.center is Some && self.delta
                is None ==> (r matches Err(e) && e.message@
                == "Grid spacing (delta) not specified"@),
            self.normal is Some && self.tangent is Some && self.center is Some && self.delta
                is Some && self.n is None ==> (r matches Err(e) && e.message@
                == "Number of grid cell (n) not specified"@),
    {
        let normal = match self.normal {
            Some(v) => v,
            None => {
                return Err(Error::from_text("Normal not specified"));
            },
        };
        let tangent = match self.tangent {
            Some(v) => v,
            None => {
                return Err(Error::from_text("Tangent not specified"));
            },
        };
        let center = match self.center {
            Some(p) => p,
            None => {
                return Err(Error::from_text("Center not specified"));
            },
        };
        let delta = match self.delta {
            Some(d) => d,
            None => {
                return Err(Error::from_text("Grid spacing (delta) not specified"));
            },
        };
        let n = match self.n {
            Some(n) => n,
            None => {
                return Err(Error::from_text("Number of grid cell (n) not specified"));
            },
        };
        Grid::new(normal, tangent, center, delta, n)
    }
}

} // verus!
