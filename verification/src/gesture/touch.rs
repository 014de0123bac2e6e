//! The multi-touch gesture: pinch, twist and pan with any number of
//! fingers.
//!
//! The session owns two touch sets keyed by contact identifier: `touches`
//! holds the latest position of each contact, `touches_down` the positions
//! at the gesture's baseline.  Moves only update `touches`; whenever the
//! set of contacts itself changes — a finger lands or lifts — the gesture
//! so far is committed first and the baseline becomes the current set, so
//! the camera never jumps.
//!
//! The numeric readings the camera update needs — centroid, spread, twist —
//! are served as exact building blocks: coordinate sums with a guarded
//! denominator, and the reference/other pairing of shared contacts from
//! which twist angles are measured.

use vstd::prelude::*;
use vstd::pervasive::VecAdditionalExecFns;
use vstd::string::StringExecFns;

use crate::error::Error;
use crate::geom::COORD_LIMIT;

verus! {

broadcast use vstd::string::group_string_axioms;

/// One touch contact: its stable identifier and its screen position.
#[derive(Clone, Copy, Debug, PartialEq, Eq, Structural)]
pub struct TouchPoint {
    pub id: i64,
    pub x: i64,
    pub y: i64,
}

/// Whether some contact in the sequence has the given identifier.
pub open spec fn contains_id(s: Seq<TouchPoint>, id: i64) -> bool {
    exists|i: int| 0 <= i < s.len() && s[i].id == id
}

/// Whether no two contacts of the sequence share an identifier.
pub open spec fn ids_unique(s: Seq<TouchPoint>) -> bool {
    forall|i: int, j: int| 0 <= i < j < s.len() ==> s[i].id != s[j].id
}

/// The sequence read as a map from identifier to contact.
pub open spec fn as_map(s: Seq<TouchPoint>) -> Map<i64, TouchPoint>
    decreases s.len(),
{
    if s.len() == 0 {
        Map::empty()
    } else {
        as_map(s.drop_last()).insert(s.last().id, s.last())
    }
}

/// The map after storing every changed contact in order, later entries
/// overriding earlier ones.
pub open spec fn upserted(m: Map<i64, TouchPoint>, cs: Seq<TouchPoint>) -> Map<i64, TouchPoint>
    decreases cs.len(),
{
    if cs.len() == 0 {
        m
    } else {
        upserted(m.insert(cs[0].id, cs[0]), cs.drop_first())
    }
}

/// The contacts of `s` whose identifiers do not occur in `gone`, in order.
pub open spec fn without_ids(s: Seq<TouchPoint>, gone: Seq<TouchPoint>) -> Seq<TouchPoint>
    decreases s.len(),
{
    if s.len() == 0 {
        Seq::empty()
    } else {
        let rest = without_ids(s.drop_last(), gone);
        if contains_id(gone, s.last().id) {
            rest
        } else {
            rest.push(s.last())
        }
    }
}

/// The contacts of `down` whose identifiers also occur in `current`, in
/// `down` order: the contacts a twist can be measured from.
pub open spec fn shared_points(down: Seq<TouchPoint>, current: Seq<TouchPoint>) -> Seq<TouchPoint>
    decreases down.len(),
{
    if down.len() == 0 {
        Seq::empty()
    } else {
        let rest = shared_points(down.drop_last(), current);
        if contains_id(current, down.last().id) {
            rest.push(down.last())
        } else {
            rest
        }
    }
}

/// The sum of the x coordinates of a sequence of contacts.
pub open spec fn sum_x(s: Seq<TouchPoint>) -> int
    decreases s.len(),
{
    if s.len() == 0 {
        0
    } else {
        sum_x(s.drop_last()) + s.last().x
    }
}

/// The sum of the y coordinates of a sequence of contacts.
pub open spec fn sum_y(s: Seq<TouchPoint>) -> int
    decreases s.len(),
{
    if s.len() == 0 {
        0
    } else {
        sum_y(s.drop_last()) + s.last().y
    }
}

/// Appending a contact stores it in the map.
proof fn lemma_as_map_push(s: Seq<TouchPoint>, tp: TouchPoint)
    ensures
        as_map(s.push(tp)) == as_map(s).insert(tp.id, tp),
{
    assert(s.push(tp).drop_last() =~= s);
    assert(s.push(tp).last() == tp);
}

/// The map stores each contact of a duplicate-free sequence at its own
/// identifier.
proof fn lemma_as_map_index(s: Seq<TouchPoint>, i: int)
    requires
        ids_unique(s),
        0 <= i < s.len(),
    ensures
        as_map(s).contains_key(s[i].id),
        as_map(s)[s[i].id] == s[i],
    decreases s.len(),
{
    if i == s.len() - 1 {
    } else {
        assert(s[s.len() - 1].id != s[i].id);
        assert(s.drop_last()[i] == s[i]);
        lemma_as_map_index(s.drop_last(), i);
    }
}

/// Replacing a contact by one with the same identifier stores it in the
/// map and keeps the sequence duplicate-free.
proof fn lemma_as_map_update(s: Seq<TouchPoint>, j: int, tp: TouchPoint)
    requires
        ids_unique(s),
        0 <= j < s.len(),
        s[j].id == tp.id,
    ensures
        ids_unique(s.update(j, tp)),
        as_map(s.update(j, tp)) == as_map(s).insert(tp.id, tp),
    decreases s.len(),
{
    let u = s.update(j, tp);
    assert forall|a: int, b: int| 0 <= a < b < u.len() implies u[a].id != u[b].id by {
        assert(s[a].id != s[b].id);
    }
    if j == s.len() - 1 {
        assert(u.drop_last() =~= s.drop_last());
        assert(u.last() == tp);
        assert(as_map(s.drop_last()).insert(s.last().id, s.last()).insert(tp.id, tp)
            =~= as_map(s.drop_last()).insert(tp.id, tp));
    } else {
        assert(u.drop_last() =~= s.drop_last().update(j, tp));
        assert(u.last() == s.last());
        assert(s.drop_last()[j] == s[j]);
        lemma_as_map_update(s.drop_last(), j, tp);
        assert(s.last().id != tp.id);
        assert(as_map(s.drop_last()).insert(tp.id, tp).insert(s.last().id, s.last())
            =~= as_map(s.drop_last()).insert(s.last().id, s.last()).insert(tp.id, tp));
    }
}

/// Every identifier left by `without_ids` comes from the original
/// sequence and does not occur in `gone`.
proof fn lemma_without_ids_membership(s: Seq<TouchPoint>, gone: Seq<TouchPoint>, id: i64)
    ensures
        contains_id(without_ids(s, gone), id) <==> contains_id(s, id) && !contains_id(gone, id),
    decreases s.len(),
{
    if s.len() == 0 {
    } else {
        lemma_without_ids_membership(s.drop_last(), gone, id);
        let rest = without_ids(s.drop_last(), gone);
        let w = without_ids(s, gone);
        if contains_id(w, id) {
            let i = choose|i: int| 0 <= i < w.len() && w[i].id == id;
            if !contains_id(gone, s.last().id) && i == w.len() - 1 {
                assert(w[i] == s.last());
                assert(s[s.len() - 1].id == id);
            } else {
                assert(w[i] == rest[i]);
                assert(contains_id(rest, id));
                let k = choose|k: int| 0 <= k < s.drop_last().len() && s.drop_last()[k].id == id;
                assert(s[k].id == id);
            }
        }
        if contains_id(s, id) && !contains_id(gone, id) {
            let i = choose|i: int| 0 <= i < s.len() && s[i].id == id;
            if i == s.len() - 1 {
                assert(w[w.len() - 1] == s.last());
            } else {
                assert(s.drop_last()[i].id == id);
                let k = choose|k: int| 0 <= k < rest.len() && rest[k].id == id;
                if contains_id(gone, s.last().id) {
                    assert(w[k].id == id);
                } else {
                    assert(w[k] == rest[k]);
                }
            }
        }
    }
}

/// Removing identifiers keeps a duplicate-free sequence duplicate-free.
proof fn lemma_without_ids_unique(s: Seq<TouchPoint>, gone: Seq<TouchPoint>)
    requires
        ids_unique(s),
    ensures
        ids_unique(without_ids(s, gone)),
    decreases s.len(),
{
    if s.len() == 0 {
    } else {
        assert forall|a: int, b: int|
            0 <= a < b < s.drop_last().len() implies s.drop_last()[a].id
            != s.drop_last()[b].id by {
            assert(s[a].id != s[b].id);
        }
        lemma_without_ids_unique(s.drop_last(), gone);
        let rest = without_ids(s.drop_last(), gone);
        if !contains_id(gone, s.last().id) {
            assert forall|k: int| 0 <= k < rest.len() implies rest[k].id != s.last().id by {
                if rest[k].id == s.last().id {
                    assert(contains_id(rest, s.last().id));
                    lemma_without_ids_membership(s.drop_last(), gone, s.last().id);
                    let i = choose|i: int|
                        0 <= i < s.drop_last().len() && s.drop_last()[i].id == s.last().id;
                    assert(s[i].id == s[s.len() - 1].id);
                }
            }
            let w = rest.push(s.last());
            assert forall|a: int, b: int| 0 <= a < b < w.len() implies w[a].id != w[b].id by {
                if b < w.len() - 1 {
                    assert(w[a] == rest[a] && w[b] == rest[b]);
                } else {
                    assert(w[a] == rest[a] && w[b] == s.last());
                }
            }
        }
    }
}

/// Whether some contact of the list has the given identifier.
fn has_id(list: &Vec<TouchPoint>, id: i64) -> (r: bool)
    ensures
        r == contains_id(list@, id),
{
    let mut i: usize = 0;
    while i < list.len()
        invariant
            0 <= i <= list@.len(),
            forall|k: int| 0 <= k < i ==> list@[k].id != id,
        decreases list@.len() - i,
    {
        if list[i].id == id {
            return true;
        }
        i = i + 1;
    }
    false
}

/// The contact of a duplicate-free list with the given identifier, if any.
fn find_by_id(list: &Vec<TouchPoint>, id: i64) -> (r: Option<TouchPoint>)
    requires
        ids_unique(list@),
    ensures
        r is None <==> !contains_id(list@, id),
        r matches Some(tp) ==> contains_id(list@, id) && as_map(list@).contains_key(id)
            && as_map(list@)[id] == tp && tp.id == id,
{
    let mut i: usize = 0;
    while i < list.len()
        invariant
            0 <= i <= list@.len(),
            ids_unique(list@),
            forall|k: int| 0 <= k < i ==> list@[k].id != id,
        decreases list@.len() - i,
    {
        if list[i].id == id {
            proof {
                lemma_as_map_index(list@, i as int);
            }
            return Some(list[i]);
        }
        i = i + 1;
    }
    None
}

/// An exact copy of a list of contacts.
fn copy_points(list: &Vec<TouchPoint>) -> (r: Vec<TouchPoint>)
    ensures
        r@ == list@,
{
    let mut r: Vec<TouchPoint> = Vec::new();
    let mut i: usize = 0;
    while i < list.len()
        invariant
            0 <= i <= list@.len(),
            r@ == list@.take(i as int),
        decreases list@.len() - i,
    {
        proof {
            assert(list@.take(i as int + 1).drop_last() =~= list@.take(i as int));
        }
        r.push(list[i]);
        proof {
            assert(r@ =~= list@.take(i as int + 1));
        }
        i = i + 1;
    }
    proof {
        assert(list@.take(list@.len() as int) =~= list@);
    }
    r
}

/// Store one contact: replace the entry with its identifier, or append.
fn upsert(list: &mut Vec<TouchPoint>, tp: TouchPoint)
    requires
        ids_unique(old(list)@),
    ensures
        ids_unique(final(list)@),
        as_map(final(list)@) == as_map(old(list)@).insert(tp.id, tp),
{
    let n = list.len();
    let mut i: usize = 0;
    while i < n
        invariant
            0 <= i <= n,
            n == list@.len(),
            ids_unique(list@),
            list@ == old(list)@,
            forall|k: int| 0 <= k < i ==> list@[k].id != tp.id,
        decreases n - i,
    {
        if list[i].id == tp.id {
            proof {
                lemma_as_map_update(list@, i as int, tp);
            }
            list.set(i, tp);
            return;
        }
        i = i + 1;
    }
    proof {
        lemma_as_map_push(list@, tp);
        assert forall|a: int, b: int|
            0 <= a < b < list@.push(tp).len() implies list@.push(tp)[a].id
            != list@.push(tp)[b].id by {
            if b < list@.len() {
                assert(list@[a].id != list@[b].id);
            }
        }
    }
    list.push(tp);
}

/// Store every changed contact, in order.
fn upsert_all(list: &mut Vec<TouchPoint>, changed: &Vec<TouchPoint>)
    requires
        ids_unique(old(list)@),
    ensures
        ids_unique(final(list)@),
        as_map(final(list)@) == upserted(as_map(old(list)@), changed@),
{
    proof {
        assert(changed@.skip(0) =~= changed@);
    }
    let mut i: usize = 0;
    while i < changed.len()
        invariant
            0 <= i <= changed@.len(),
            ids_unique(list@),
            upserted(as_map(list@), changed@.skip(i as int)) == upserted(
                as_map(old(list)@),
                changed@,
            ),
        decreases changed@.len() - i,
    {
        let ghost rest = changed@.skip(i as int);
        proof {
            assert(rest[0] == changed@[i as int]);
            assert(rest.drop_first() =~= changed@.skip(i as int + 1));
        }
        upsert(list, changed[i]);
        i = i + 1;
    }
}

/// Drop every contact whose identifier occurs among the changed ones.
fn remove_ids(list: &mut Vec<TouchPoint>, gone: &Vec<TouchPoint>)
    requires
        ids_unique(old(list)@),
    ensures
        final(list)@ == without_ids(old(list)@, gone@),
        ids_unique(final(list)@),
{
    let mut result: Vec<TouchPoint> = Vec::new();
    let mut i: usize = 0;
    while i < list.len()
        invariant
            0 <= i <= list@.len(),
            list@ == old(list)@,
            result@ == without_ids(list@.take(i as int), gone@),
        decreases list@.len() - i,
    {
        proof {
            assert(list@.take(i as int + 1).drop_last() =~= list@.take(i as int));
            assert(list@.take(i as int + 1).last() == list@[i as int]);
        }
        let tp = list[i];
        if !has_id(gone, tp.id) {
            result.push(tp);
        }
        i = i + 1;
    }
    proof {
        assert(list@.take(list@.len() as int) =~= list@);
        lemma_without_ids_unique(list@, gone@);
    }
    *list = result;
}

/// The two touch sets committed as a gesture baseline: the camera update
/// is computed from their centroids, spreads and twist.
#[derive(Clone, Debug)]
pub struct TouchCommit {
    /// The baseline contacts of the committed gesture.
    pub touches_down: Vec<TouchPoint>,
    /// The contacts at commit time.
    pub touches: Vec<TouchPoint>,
}

/// The state of one multi-touch session.
#[derive(Clone, Debug)]
pub struct TouchGesture {
    /// The latest position of each active contact.
    pub touches: Vec<TouchPoint>,
    /// The position of each contact at the gesture baseline.
    pub touches_down: Vec<TouchPoint>,
}

impl TouchGesture {
    /// Whether both touch sets are free of duplicate identifiers.
    pub open spec fn wf(self) -> bool {
        ids_unique(self.touches@) && ids_unique(self.touches_down@)
    }

    /// A session with no active contacts.
    pub fn new() -> (g: TouchGesture)
        ensures
            g.touches@ =~= Seq::<TouchPoint>::empty(),
            g.touches_down@ =~= Seq::<TouchPoint>::empty(),
            g.wf(),
    {
        TouchGesture { touches: Vec::new(), touches_down: Vec::new() }
    }

    /// The commit this state would produce: the baseline and current sets,
    /// provided the baseline holds at least one contact.
    fn make_commit(&self) -> (c: Option<TouchCommit>)
        ensures
            c is Some <==> self.touches_down@.len() > 0,
            c matches Some(cc) ==> cc.touches_down@ == self.touches_down@ && cc.touches@
                == self.touches@,
    {
        if self.touches_down.len() > 0 {
            Some(
                TouchCommit {
                    touches_down: copy_points(&self.touches_down),
                    touches: copy_points(&self.touches),
                },
            )
        } else {
            None
        }
    }

    /// Feed one touch event into the session.
    ///
    /// * `touchstart`: if a gesture is active it is committed first; the
    ///   changed contacts are stored and the baseline becomes the current
    ///   set.
    /// * `touchmove`: the changed contacts are stored; the baseline stays.
    /// * `touchend` / `touchcancel`: an active gesture is committed first;
    ///   the changed contacts are removed and the baseline becomes the
    ///   current set.
    /// * anything else is an input error and produces no new state.
    pub fn on_touch(self, event_type: &str, changed: &Vec<TouchPoint>) -> (r: Result<
        (TouchGesture, Option<TouchCommit>),
        Error,
    >)
        requires
            self.wf(),
        ensures
            ({
                let m = as_map(self.touches@);
                let start = event_type@ == "touchstart"@;
                let mv = event_type@ == "touchmove"@;
                let end = event_type@ == "touchend"@ || event_type@ == "touchcancel"@;
                &&& (r is Err <==> !(start || mv || end))
                &&& (r matches Err(e) ==> e.message@ == "Event type "@ + event_type@
                    + " is not supported"@)
                &&& (r matches Ok(p) ==> p.0.wf())
                &&& (start ==> (r matches Ok(p) ==> as_map(p.0.touches@) == upserted(m, changed@)
                    && p.0.touches_down@ == p.0.touches@ && self.commit_matches(p.1)))
                &&& (mv ==> (r matches Ok(p) ==> as_map(p.0.touches@) == upserted(m, changed@)
                    && p.0.touches_down@ == self.touches_down@ && p.1 is None))
                &&& (end ==> (r matches Ok(p) ==> p.0.touches@ == without_ids(
                    self.touches@,
                    changed@,
                ) && p.0.touches_down@ == p.0.touches@ && self.commit_matches(p.1)))
            }),
    {
        proof {
            reveal_strlit("touchstart");
            reveal_strlit("touchmove");
            reveal_strlit("touchend");
            reveal_strlit("touchcancel");
            assert(("touchstart"@).len() == 10);
            assert(("touchmove"@).len() == 9);
            assert(("touchend"@).len() == 8);
            assert(("touchcancel"@).len() == 11);
        }
        let is_start = crate::str_equal(event_type, "touchstart");
        let is_move = crate::str_equal(event_type, "touchmove");
        let is_end = crate::str_equal(event_type, "touchend") || crate::str_equal(event_type, "touchcancel");
        if is_start {
            let commit = self.make_commit();
            let mut touches = self.touches;
            upsert_all(&mut touches, changed);
            let touches_down = copy_points(&touches);
            Ok((TouchGesture { touches, touches_down }, commit))
        } else if is_move {
            let mut touches = self.touches;
            upsert_all(&mut touches, changed);
            Ok((TouchGesture { touches, touches_down: self.touches_down }, None))
        } else if is_end {
            let commit = self.make_commit();
            let mut touches = self.touches;
            remove_ids(&mut touches, changed);
            let touches_down = copy_points(&touches);
            Ok((TouchGesture { touches, touches_down }, commit))
        } else {
            Err(
                Error::new(
                    String::from_str("Event type ").concat(event_type).concat(
                        " is not supported",
                    ),
                ),
            )
        }
    }

    /// Whether `c` is the commit this state produces: present exactly when
    /// the baseline is non-empty, and then carrying both sets.
    pub open spec fn commit_matches(self, c: Option<TouchCommit>) -> bool {
        &&& (c is Some <==> self.touches_down@.len() > 0)
        &&& (c matches Some(cc) ==> cc.touches_down@ == self.touches_down@ && cc.touches@
            == self.touches@)
    }
}

/// The coordinate sums of a touch set together with the guarded count:
/// an empty set divides by one, so the centroid of no contacts is the
/// origin and nothing ever divides by zero.
pub fn centroid_sums(points: &Vec<TouchPoint>) -> (r: (i64, i64, i64))
    requires
        points@.len() <= COORD_LIMIT as int,
        forall|i: int|
            0 <= i < points@.len() ==> -(COORD_LIMIT as int) <= (#[trigger] points@[i]).x
                <= COORD_LIMIT as int && -(COORD_LIMIT as int) <= points@[i].y <= COORD_LIMIT as int,
    ensures
        r.0 == sum_x(points@),
        r.1 == sum_y(points@),
        r.2 == if points@.len() == 0 {
            1int
        } else {
            points@.len() as int
        },
        r.2 >= 1,
{
    let mut sx: i64 = 0;
    let mut sy: i64 = 0;
    let mut i: usize = 0;
    while i < points.len()
        invariant
            0 <= i <= points@.len(),
            points@.len() <= COORD_LIMIT as int,
            forall|k: int|
                0 <= k < points@.len() ==> -(COORD_LIMIT as int) <= (#[trigger] points@[k]).x
                    <= COORD_LIMIT as int && -(COORD_LIMIT as int) <= points@[k].y
                    <= COORD_LIMIT as int,
            sx as int == sum_x(points@.take(i as int)),
            sy as int == sum_y(points@.take(i as int)),
            -(i as int) * (COORD_LIMIT as int) <= sx as int <= (i as int) * (COORD_LIMIT as int),
            -(i as int) * (COORD_LIMIT as int) <= sy as int <= (i as int) * (COORD_LIMIT as int),
        decreases points@.len() - i,
    {
        proof {
            assert(points@.take(i as int + 1).drop_last() =~= points@.take(i as int));
            assert(points@.take(i as int + 1).last() == points@[i as int]);
        }
        sx = sx + points[i].x;
        sy = sy + points[i].y;
        i = i + 1;
    }
    proof {
        assert(points@.take(points@.len() as int) =~= points@);
    }
    let n = if points.len() == 0 {
        1
    } else {
        points.len()
    };
    (sx, sy, n as i64)
}

/// `max(n, 1)`: the denominator guard used for every per-contact average.
pub fn guarded_count(n: usize) -> (r: usize)
    ensures
        r == if n == 0 {
            1int
        } else {
            n as int
        },
        r >= 1,
{
    if n == 0 {
        1
    } else {
        n
    }
}

/// One twist contribution: a contact present at the baseline and now,
/// measured against the reference contact (the first shared one).
#[derive(Clone, Copy, Debug, PartialEq, Eq, Structural)]
pub struct TwistPair {
    pub reference_down: TouchPoint,
    pub reference_current: TouchPoint,
    pub other_down: TouchPoint,
    pub other_current: TouchPoint,
}

/// The twist contributions between a baseline set and a current set.
///
/// The first shared contact (in baseline order) is the zero-twist
/// reference; every further shared contact contributes one pair.  With
/// fewer than two shared contacts there is nothing to measure and the
/// result is empty.
pub fn twist_pairs(down: &Vec<TouchPoint>, current: &Vec<TouchPoint>) -> (r: Vec<TwistPair>)
    requires
        ids_unique(down@),
        ids_unique(current@),
    ensures
        ({
            let sh = shared_points(down@, current@);
            &&& (sh.len() <= 1 ==> r@.len() == 0)
            &&& (sh.len() >= 2 ==> r@.len() == sh.len() - 1)
            &&& forall|k: int|
                0 <= k < r@.len() ==> r@[k] == (TwistPair {
                    reference_down: sh[0],
                    reference_current: as_map(current@)[sh[0].id],
                    other_down: sh[k + 1],
                    other_current: as_map(current@)[sh[k + 1].id],
                })
        }),
{
    let mut out: Vec<TwistPair> = Vec::new();
    let mut reference: Option<(TouchPoint, TouchPoint)> = None;
    let mut i: usize = 0;
    proof {
        assert(down@.take(0) =~= Seq::<TouchPoint>::empty());
    }
    while i < down.len()
        invariant
            0 <= i <= down@.len(),
            ids_unique(down@),
            ids_unique(current@),
            ({
                let sh = shared_points(down@.take(i as int), current@);
                &&& (reference is None <==> sh.len() == 0)
                &&& (reference matches Some(rf) ==> sh.len() >= 1 && rf.0 == sh[0] && rf.1
                    == as_map(current@)[sh[0].id])
                &&& (sh.len() == 0 ==> out@.len() == 0)
                &&& (sh.len() >= 1 ==> out@.len() == sh.len() - 1)
                &&& forall|k: int|
                    0 <= k < out@.len() ==> out@[k] == (TwistPair {
                        reference_down: sh[0],
                        reference_current: as_map(current@)[sh[0].id],
                        other_down: sh[k + 1],
                        other_current: as_map(current@)[sh[k + 1].id],
                    })
            }),
        decreases down@.len() - i,
    {
        proof {
            assert(down@.take(i as int + 1).drop_last() =~= down@.take(i as int));
            assert(down@.take(i as int + 1).last() == down@[i as int]);
        }
        let tp = down[i];
        match find_by_id(current, tp.id) {
            Some(cur_tp) => {
                match &reference {
                    None => {
                        reference = Some((tp, cur_tp));
                    },
                    Some(rf) => {
                        out.push(
                            TwistPair {
                                reference_down: rf.0,
                                reference_current: rf.1,
                                other_down: tp,
                                other_current: cur_tp,
                            },
                        );
                    },
                }
            },
            None => {},
        }
        i = i + 1;
    }
    proof {
        assert(down@.take(down@.len() as int) =~= down@);
    }
    out
}

/// When no baseline contact is shared with the current set, nothing is
/// shared at all.
proof fn lemma_no_shared_points(down: Seq<TouchPoint>, current: Seq<TouchPoint>)
    requires
        forall|i: int| 0 <= i < down.len() ==> !contains_id(current, (#[trigger] down[i]).id),
    ensures
        shared_points(down, current).len() == 0,
    decreases down.len(),
{
    if down.len() == 0 {
    } else {
        assert forall|i: int|
            0 <= i < down.drop_last().len() implies !contains_id(
            current,
            (#[trigger] down.drop_last()[i]).id,
        ) by {
            assert(down.drop_last()[i] == down[i]);
        }
        lemma_no_shared_points(down.drop_last(), current);
        assert(down[down.len() - 1] == down.last());
    }
}

/// With at most one shared contact between the baseline and the current
/// set there is no twist contribution at all: a single finger cannot
/// measure a rotation.
pub proof fn lemma_single_shared_touch_has_no_pairs(down: Seq<TouchPoint>, current: Seq<TouchPoint>)
    requires
        forall|i: int, j: int|
            (0 <= i < down.len() && 0 <= j < down.len() && contains_id(
                current,
                (#[trigger] down[i]).id,
            ) && contains_id(current, (#[trigger] down[j]).id)) ==> i == j,
    ensures
        shared_points(down, current).len() <= 1,
    decreases down.len(),
{
    if down.len() == 0 {
    } else {
        assert forall|i: int, j: int|
            (0 <= i < down.drop_last().len() && 0 <= j < down.drop_last().len() && contains_id(
                current,
                (#[trigger] down.drop_last()[i]).id,
            ) && contains_id(current, (#[trigger] down.drop_last()[j]).id)) implies i == j by {
            assert(down.drop_last()[i] == down[i]);
            assert(down.drop_last()[j] == down[j]);
        }
        if contains_id(current, down.last().id) {
            assert forall|i: int|
                0 <= i < down.drop_last().len() implies !contains_id(
                current,
                (#[trigger] down.drop_last()[i]).id,
            ) by {
                assert(down.drop_last()[i] == down[i]);
                if contains_id(current, down[i].id) {
                    assert(down[down.len() - 1] == down.last());
                }
            }
            lemma_no_shared_points(down.drop_last(), current);
        } else {
            lemma_single_shared_touch_has_no_pairs(down.drop_last(), current);
        }
    }
}

} // verus!
