use webgl_viewer::gesture::mouse::MouseGesture;
use webgl_viewer::gesture::touch::{centroid_sums, guarded_count, twist_pairs, TouchGesture, TouchPoint};
use webgl_viewer::gesture::wheel::WheelGesture;
use webgl_viewer::gesture::ScreenPos;

fn tp(id: i64, x: i64, y: i64) -> TouchPoint {
    TouchPoint { id, x, y }
}

#[test]
fn a_drag_commits_the_orbit_from_anchor_to_release() {
    let g = MouseGesture::begin(ScreenPos::new(10, 20));
    let g = g.on_mouse_move(ScreenPos::new(30, 40));
    assert!(g.panning);
    let c = g.on_mouse_up(ScreenPos::new(50, 60));
    assert_eq!(c.orbit_from, ScreenPos::new(10, 20));
    assert_eq!(c.orbit_to, ScreenPos::new(50, 60));
    assert_eq!(c.select, None);
}

#[test]
fn a_plain_click_commits_a_selection_hint() {
    let g = MouseGesture::begin(ScreenPos::new(10, 20));
    let c = g.on_mouse_up(ScreenPos::new(10, 20));
    // No move was seen: the orbit is zero-delta and the release position
    // becomes the selection hint.
    assert_eq!(c.orbit_from, ScreenPos::new(10, 20));
    assert_eq!(c.orbit_to, ScreenPos::new(10, 20));
    assert_eq!(c.select, Some(ScreenPos::new(10, 20)));
    assert!(g.updated());
}

#[test]
fn a_wheel_during_a_drag_commits_then_zooms() {
    let g = MouseGesture::begin(ScreenPos::new(0, 0));
    let g = g.on_mouse_move(ScreenPos::new(5, 5));
    let (commit, zoom) = g.on_wheel(7, 8, -120);
    assert_eq!(commit.orbit_from, ScreenPos::new(0, 0));
    assert_eq!(commit.orbit_to, ScreenPos::new(5, 5));
    assert_eq!(commit.select, None);
    assert_eq!((zoom.x, zoom.y, zoom.delta), (7, 8, -120));
}

#[test]
fn the_wheel_gesture_is_a_stateless_zoom() {
    let w = WheelGesture::new();
    let z = w.on_wheel(100, 200, 3);
    assert_eq!((z.x, z.y, z.delta), (100, 200, 3));
    assert!(w.updated());
}

#[test]
fn touchstart_with_no_active_gesture_commits_nothing() {
    let g = TouchGesture::new();
    let changed = vec![tp(1, 10, 10)];
    let (g, commit) = g.on_touch("touchstart", &changed).unwrap();
    assert!(commit.is_none());
    assert_eq!(g.touches, vec![tp(1, 10, 10)]);
    assert_eq!(g.touches_down, vec![tp(1, 10, 10)]);
}

#[test]
fn touchmove_updates_positions_but_not_the_baseline() {
    let g = TouchGesture::new();
    let (g, _) = g.on_touch("touchstart", &vec![tp(1, 10, 10)]).unwrap();
    let (g, commit) = g.on_touch("touchmove", &vec![tp(1, 25, 35)]).unwrap();
    assert!(commit.is_none());
    assert_eq!(g.touches, vec![tp(1, 25, 35)]);
    assert_eq!(g.touches_down, vec![tp(1, 10, 10)]);
}

#[test]
fn a_second_finger_commits_the_gesture_so_far() {
    let g = TouchGesture::new();
    let (g, _) = g.on_touch("touchstart", &vec![tp(1, 10, 10)]).unwrap();
    let (g, _) = g.on_touch("touchmove", &vec![tp(1, 20, 20)]).unwrap();
    let (g, commit) = g.on_touch("touchstart", &vec![tp(2, 50, 50)]).unwrap();
    let commit = commit.expect("an active gesture must be committed first");
    assert_eq!(commit.touches_down, vec![tp(1, 10, 10)]);
    assert_eq!(commit.touches, vec![tp(1, 20, 20)]);
    // The baseline restarts at the full current set.
    assert_eq!(g.touches, vec![tp(1, 20, 20), tp(2, 50, 50)]);
    assert_eq!(g.touches_down, g.touches);
}

#[test]
fn touchend_commits_then_removes_the_lifted_fingers() {
    let g = TouchGesture::new();
    let (g, _) = g.on_touch("touchstart", &vec![tp(1, 10, 10), tp(2, 30, 30)]).unwrap();
    let (g, commit) = g.on_touch("touchend", &vec![tp(1, 10, 10)]).unwrap();
    assert!(commit.is_some());
    assert_eq!(g.touches, vec![tp(2, 30, 30)]);
    assert_eq!(g.touches_down, vec![tp(2, 30, 30)]);
}

#[test]
fn an_unsupported_event_kind_is_an_input_error() {
    let g = TouchGesture::new();
    let e = g.on_touch("touchhover", &Vec::new()).unwrap_err();
    assert_eq!(e.message(), "Event type touchhover is not supported");
}

#[test]
fn zero_active_touches_never_divide_by_zero() {
    let none: Vec<TouchPoint> = Vec::new();
    let (sx, sy, n) = centroid_sums(&none);
    assert_eq!((sx, sy), (0, 0));
    assert_eq!(n, 1);
    // The guarded centroid of no contacts is the origin.
    assert_eq!((sx / n, sy / n), (0, 0));
    assert_eq!(guarded_count(0), 1);
    assert_eq!(guarded_count(4), 4);
    // An event stream over an empty session also holds up.
    let g = TouchGesture::new();
    let (g, commit) = g.on_touch("touchend", &none).unwrap();
    assert!(commit.is_none());
    assert!(g.touches.is_empty());
}

#[test]
fn centroid_sums_add_up_the_contact_positions() {
    let pts = vec![tp(1, 10, 20), tp(2, 30, 40), tp(3, -10, 0)];
    let (sx, sy, n) = centroid_sums(&pts);
    assert_eq!((sx, sy, n), (30, 60, 3));
}

#[test]
fn one_shared_touch_yields_no_twist_contributions() {
    let down = vec![tp(1, 0, 0), tp(9, 5, 5)];
    let current = vec![tp(1, 100, 100), tp(7, 2, 2)];
    // Only contact 1 is present in both sets: nothing to measure a
    // rotation against, so the twist is zero by construction.
    assert!(twist_pairs(&down, &current).is_empty());
}

#[test]
fn each_extra_shared_touch_contributes_one_pair() {
    let down = vec![tp(1, 0, 0), tp(2, 10, 0), tp(3, 0, 10)];
    let current = vec![tp(3, 0, 20), tp(2, 20, 0), tp(1, 1, 1)];
    let pairs = twist_pairs(&down, &current);
    assert_eq!(pairs.len(), 2);
    assert_eq!(pairs[0].reference_down, tp(1, 0, 0));
    assert_eq!(pairs[0].reference_current, tp(1, 1, 1));
    assert_eq!(pairs[0].other_down, tp(2, 10, 0));
    assert_eq!(pairs[0].other_current, tp(2, 20, 0));
    assert_eq!(pairs[1].other_down, tp(3, 0, 10));
    assert_eq!(pairs[1].other_current, tp(3, 0, 20));
}

#[test]
fn a_moved_finger_replaces_its_entry_in_place() {
    let g = TouchGesture::new();
    let (g, _) = g.on_touch("touchstart", &vec![tp(1, 0, 0), tp(2, 9, 9)]).unwrap();
    let (g, _) = g.on_touch("touchmove", &vec![tp(2, 11, 11)]).unwrap();
    assert_eq!(g.touches, vec![tp(1, 0, 0), tp(2, 11, 11)]);
}
