//! Core of an interactive 3D viewer: an affine transform stack over exact
//! integer coordinates, pure gesture state machines that turn pointer input
//! into camera-update decisions, and the color-coded object picking protocol.
//!
//! Floating-point matrix evaluation and the GPU backend are collaborators
//! that live outside this crate; everything here is plain data and exact
//! arithmetic, verified down to its contracts.

pub mod drawable;
pub mod error;
pub mod geom;
pub mod grid;
pub mod gesture;
pub mod hexahedron;
mod uid;
pub mod pick;
pub mod programs;
pub mod transform;

use vstd::prelude::*;
use vstd::string::StringExecFns;

verus! {

/// Whether two text values hold the same characters.
pub fn str_equal(a: &str, b: &str) -> (r: bool)
    ensures
        r <==> a@ == b@,
{
    let sa = String::from_str(a);
    let sb = String::from_str(b);
    sa == sb
}

/// Default value for a camera's `updated` flag when it is restored from a
/// serialized form: a freshly loaded camera has not been interacted with.
pub fn make_false() -> (r: bool)
    ensures
        !r,
{
    false
}

} // verus!
