//! The mouse gesture: press, drag, release.
//!
//! A session starts on mouse-down with anchor and latest position equal.
//! Every move updates the latest position and marks the session as a drag.
//! Release commits: a drag commits the orbit from anchor to release
//! position; a plain click commits a zero-delta orbit and carries the
//! release position as a selection hint instead.

use vstd::prelude::*;

use super::{ScreenPos, ZoomAction};

verus! {

/// The state of one mouse gesture.
#[derive(Clone, Copy, Debug, PartialEq, Eq, Structural)]
pub struct MouseGesture {
    /// Where the mouse went down: the orbit anchor.
    pub mouse_down: ScreenPos,
    /// The latest mouse position seen.
    pub mouse_move: ScreenPos,
    /// Whether a move has been seen, making this gesture a drag.
    pub panning: bool,
}

/// What a finished mouse gesture asks of the camera: one orbit, and, for a
/// plain click, the position to test for selection.
#[derive(Clone, Copy, Debug, PartialEq, Eq, Structural)]
pub struct MouseCommit {
    pub orbit_from: ScreenPos,
    pub orbit_to: ScreenPos,
    pub select: Option<ScreenPos>,
}

impl MouseGesture {
    /// Start a session at the mouse-down position: anchor and latest
    /// position coincide and nothing has been dragged yet.
    pub fn begin(pos: ScreenPos) -> (g: MouseGesture)
        ensures
            g == (MouseGesture { mouse_down: pos, mouse_move: pos, panning: false }),
    {
        MouseGesture { mouse_down: pos, mouse_move: pos, panning: false }
    }

    /// A mouse move: the latest position advances, the anchor stays, and
    /// the session becomes a drag.
    pub fn on_mouse_move(self, pos: ScreenPos) -> (g: MouseGesture)
        ensures
            g == (MouseGesture { mouse_down: self.mouse_down, mouse_move: pos, panning: true }),
    {
        MouseGesture { mouse_move: pos, panning: true, ..self }
    }

    /// Release: a drag commits the orbit from the anchor to the release
    /// position; a plain click commits the (zero-delta) orbit to the last
    /// seen position and carries the release position as a selection hint.
    pub fn on_mouse_up(self, pos: ScreenPos) -> (c: MouseCommit)
        ensures
            self.panning ==> c == (MouseCommit {
                orbit_from: self.mouse_down,
                orbit_to: pos,
                select: None,
            }),
            !self.panning ==> c == (MouseCommit {
                orbit_from: self.mouse_down,
                orbit_to: self.mouse_move,
                select: Some(pos),
            }),
    {
        if self.panning {
            MouseCommit { orbit_from: self.mouse_down, orbit_to: pos, select: None }
        } else {
            MouseCommit { orbit_from: self.mouse_down, orbit_to: self.mouse_move, select: Some(pos) }
        }
    }

    /// A wheel event during a mouse gesture first commits the pending
    /// orbit — released at the last seen position — and then zooms by the
    /// wheel delta at the wheel position.
    pub fn on_wheel(self, x: i64, y: i64, delta: i64) -> (r: (MouseCommit, ZoomAction))
        ensures
            r.0 == self.on_mouse_up_spec(self.mouse_move),
            r.1 == (ZoomAction { x, y, delta }),
    {
        let commit = self.on_mouse_up(self.mouse_move);
        (commit, ZoomAction { x, y, delta })
    }

    /// What releasing at `pos` commits.
    pub open spec fn on_mouse_up_spec(self, pos: ScreenPos) -> MouseCommit {
        if self.panning {
            MouseCommit { orbit_from: self.mouse_down, orbit_to: pos, select: None }
        } else {
            MouseCommit { orbit_from: self.mouse_down, orbit_to: self.mouse_move, select: Some(pos) }
        }
    }

    /// A mouse gesture always leaves the camera freshly updated.
    pub fn updated(&self) -> (r: bool)
        ensures
            r,
    {
        true
    }
}

/// A gesture released where it began, without a drag, commits an orbit
/// whose start and end coincide: a plain click asks the camera for a
/// zero-delta orbit and nothing more.
pub proof fn lemma_stationary_gesture_commits_zero_delta_orbit(p: ScreenPos)
    ensures
        ({
            let c = MouseGesture { mouse_down: p, mouse_move: p, panning: false }.on_mouse_up_spec(
                p,
            );
            c.orbit_from == p && c.orbit_to == p && c.select == Some(p)
        }),
{
}

} // verus!
