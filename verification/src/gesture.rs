//! Gesture state machines.
//!
//! Pointer input drives the camera through small, pure state machines: each
//! machine owns the anchor and the latest pointer data of one gesture and,
//! on commit, decides which camera updates to apply — an orbit between two
//! screen positions, a zoom at a position, a roll by the gesture's twist.
//! The machines never touch the camera themselves: they hand exact
//! decisions to whoever owns it, so commits can be applied strictly in
//! event-arrival order.

pub mod mouse;
pub mod touch;
pub mod wheel;

use vstd::prelude::*;

verus! {

/// A pointer position in screen pixels.
#[derive(Clone, Copy, Debug, PartialEq, Eq, Structural)]
pub struct ScreenPos {
    pub x: i64,
    pub y: i64,
}

impl ScreenPos {
    /// The position with the given pixel coordinates.
    pub fn new(x: i64, y: i64) -> (r: ScreenPos)
        ensures
            r == (ScreenPos { x, y }),
    {
        ScreenPos { x, y }
    }
}

/// A decided zoom: apply `delta` at screen position `(x, y)`.
#[derive(Clone, Copy, Debug, PartialEq, Eq, Structural)]
pub struct ZoomAction {
    pub x: i64,
    pub y: i64,
    pub delta: i64,
}

} // verus!
