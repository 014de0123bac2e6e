//! The transform that leaves every point and vector where it is.

use vstd::prelude::*;

verus! {

/// The identity transform.
#[derive(Clone, Copy, Debug, PartialEq, Eq, Structural)]
pub struct Identity {}

impl Identity {
    /// The identity transform.
    pub fn new() -> (r: Identity)
        ensures
            r == (Identity {}),
    {
        Identity {}
    }

    /// A point is left unchanged.
    pub open spec fn spec_apply_point(self, p: (int, int, int)) -> (int, int, int) {
        p
    }

    /// A vector is left unchanged.
    pub open spec fn spec_apply_vector(self, v: (int, int, int)) -> (int, int, int) {
        v
    }
}

impl Default for Identity {
    /// The identity transform.
    fn default() -> (r: Identity)
        ensures
            r == (Identity {}),
    {
        Identity {}
    }
}

} // verus!
