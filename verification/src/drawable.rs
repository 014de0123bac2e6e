//! The closed set of drawable primitives and their host-facing errors.
//!
//! A drawable element is either a grid or a hexahedron.  Hosts hand in
//! foreign values tagged with a kind name; the name decides which
//! primitive the value claims to be, and anything else is rejected as
//! unsupported.

use vstd::prelude::*;

use crate::error::Error;
use crate::grid::Grid;
use crate::hexahedron::Hexahedron;
use vstd::string::StringExecFns;

verus! {

broadcast use vstd::string::group_string_axioms;

/// An object that carries a stable unique identifier.
pub trait Identifiable {
    fn uuid(&self) -> Result<String, Error>;
}

/// What can go wrong when a host value is taken as a drawable element.
#[derive(Debug)]
pub enum WebglError {
    /// The value names a kind this viewer does not draw.
    DrawableUnsupported(String),
    /// The value names a known kind but could not be converted.
    DrawableError,
}

impl WebglError {
    /// The error as human-readable text.
    pub fn message(&self) -> (r: String)
        ensures
            self matches WebglError::DrawableUnsupported(s) ==> r@ == "Item `"@ + s@
                + "` is not a supported drawable element."@,
            self is DrawableError ==> r@
                == "An error occured when converting to drawable element."@,
    {
        match self {
            WebglError::DrawableUnsupported(s) => String::from_str("Item `").concat(
                s.as_str(),
            ).concat("` is not a supported drawable element."),
            WebglError::DrawableError => String::from_str(
                "An error occured when converting to drawable element.",
            ),
        }
    }
}

/// The kind a drawable element can be.
#[derive(Clone, Copy, Debug, PartialEq, Eq, Structural)]
pub enum DrawableKind {
    Grid,
    Hexahedron,
}

/// Decide which primitive kind a host value claims to be from its kind
/// name; any name but the two known ones is unsupported.
pub fn classify_kind_name(name: &str) -> (r: Result<DrawableKind, WebglError>)
    ensures
        name@ == "Grid"@ ==> r == Ok::<DrawableKind, WebglError>(DrawableKind::Grid),
        name@ == "Hexahedron"@ ==> r == Ok::<DrawableKind, WebglError>(DrawableKind::Hexahedron),
        !(name@ == "Grid"@ || name@ == "Hexahedron"@) ==> (r matches Err(e) && e matches
            WebglError::DrawableUnsupported(s) && s@ == name@),
{
    proof {
        reveal_strlit("Grid");
        reveal_strlit("Hexahedron");
        assert(("Grid"@).len() == 4);
        assert(("Hexahedron"@).len() == 10);
    }
    if crate::str_equal(name, "Grid") {
        Ok(DrawableKind::Grid)
    } else if crate::str_equal(name, "Hexahedron") {
        Ok(DrawableKind::Hexahedron)
    } else {
        Err(WebglError::DrawableUnsupported(String::from_str(name)))
    }
}

/// One drawable element out of the closed set.
#[derive(Clone, Debug)]
pub enum DrawableElement {
    Grid(Grid),
    Hexahedron(Hexahedron),
}

impl DrawableElement {
    /// The element's stable identifier, whatever its kind.
    pub fn uuid(&self) -> (r: Result<String, Error>)
        ensures
            self matches DrawableElement::Grid(g) ==> (r matches Ok(s) && s@ == g.uid@),
            self matches DrawableElement::Hexahedron(h) ==> (r matches Ok(s) && s@ == h.uid@),
    {
        match self {
            DrawableElement::Grid(g) => g.uuid(),
            DrawableElement::Hexahedron(h) => h.uuid(),
        }
    }

    /// The element's kind.
    pub fn kind(&self) -> (r: DrawableKind)
        ensures
            r is Grid <==> self is Grid,
            r is Hexahedron <==> self is Hexahedron,
    {
        match self {
            DrawableElement::Grid(_) => DrawableKind::Grid,
            DrawableElement::Hexahedron(_) => DrawableKind::Hexahedron,
        }
    }
}

impl Identifiable for Grid {
    /// The grid's stable identifier.
    fn uuid(&self) -> Result<String, Error> {
        Grid::uuid(self)
    }
}

impl Identifiable for Hexahedron {
    /// The box's stable identifier.
    fn uuid(&self) -> Result<String, Error> {
        Hexahedron::uuid(self)
    }
}

impl Identifiable for DrawableElement {
    /// The element's stable identifier.
    fn uuid(&self) -> Result<String, Error> {
        DrawableElement::uuid(self)
    }
}

impl From<Grid> for DrawableElement {
    /// Wrap a grid as a drawable element.
    fn from(v: Grid) -> (r: DrawableElement) {
        DrawableElement::Grid(v)
    }
}

impl vstd::std_specs::convert::FromSpecImpl<Grid> for DrawableElement {
    open spec fn obeys_from_spec() -> bool {
        true
    }

    open spec fn from_spec(v: Grid) -> DrawableElement {
        DrawableElement::Grid(v)
    }
}

impl From<Hexahedron> for DrawableElement {
    /// Wrap a hexahedron as a drawable element.
    fn from(v: Hexahedron) -> (r: DrawableElement) {
        DrawableElement::Hexahedron(v)
    }
}

impl vstd::std_specs::convert::FromSpecImpl<Hexahedron> for DrawableElement {
    open spec fn obeys_from_spec() -> bool {
        true
    }

    open spec fn from_spec(v: Hexahedron) -> DrawableElement {
        DrawableElement::Hexahedron(v)
    }
}

} // verus!
