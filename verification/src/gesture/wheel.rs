//! The wheel gesture: a stateless single shot.

use vstd::prelude::*;

use super::ZoomAction;

verus! {

/// The wheel gesture holds no state: each event zooms on its own.
#[derive(Clone, Copy, Debug, PartialEq, Eq, Structural)]
pub struct WheelGesture {}

impl WheelGesture {
    /// The (stateless) wheel gesture.
    pub fn new() -> (g: WheelGesture)
        ensures
            g == (WheelGesture {  }),
    {
        WheelGesture {}
    }

    /// A wheel event zooms by its scroll delta at its screen position.
    pub fn on_wheel(&self, x: i64, y: i64, delta: i64) -> (r: ZoomAction)
        ensures
            r == (ZoomAction { x, y, delta }),
    {
        ZoomAction { x, y, delta }
    }

    /// A wheel gesture always leaves the camera freshly updated.
    pub fn updated(&self) -> (r: bool)
        ensures
            r,
    {
        true
    }
}

} // verus!
