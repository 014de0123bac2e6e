//! Object picking: identity is encoded as a color and decoded from a pixel.
//!
//! During a picking pass every drawn object is logged, and the object's
//! position in the log determines a flat color: the id `log length + 1`
//! (0 is reserved for "no object") is split into four base-255 digits, one
//! per 8-bit color channel.  Channel values are later divided by 255 to
//! become normalized floats, which is why the radix is 255 and not 256.
//! Reading one pixel back yields four bytes; the integer they denote either
//! names a logged object, names nothing (0), or convicts the pass of an
//! inconsistency when it exceeds the log.

use vstd::prelude::*;

use crate::error::Error;

verus! {

/// Number of usable values per 8-bit color channel: ids are base-255.
pub const N_RGBA_VALUES: u32 = 255;

/// Ids above this ceiling cannot be represented by four base-255 digits;
/// a pass may therefore log at most `PICK_ID_LIMIT - 1` objects.
pub const PICK_ID_LIMIT: u32 = 255 * 255 * 255 * 255;

/// The integer denoted by four channel bytes, little-endian in base 255.
pub open spec fn spec_pick_decode(r: int, g: int, b: int, a: int) -> int {
    r + 255 * (g + 255 * (b + 255 * a))
}

/// Split a pick id into its four base-255 channel digits.
///
/// The digits are pinned uniquely by the two ensures clauses: they are the
/// base-255 representation of `count`, little-endian.
pub fn encode_pick_id(count: u32) -> (rgba: (u8, u8, u8, u8))
    requires
        count < PICK_ID_LIMIT,
    ensures
        rgba.0 < 255 && rgba.1 < 255 && rgba.2 < 255 && rgba.3 < 255,
        spec_pick_decode(rgba.0 as int, rgba.1 as int, rgba.2 as int, rgba.3 as int)
            == count as int,
{
    let r = (count % 255) as u8;
    let c1 = count / 255;
    let g = (c1 % 255) as u8;
    let c2 = c1 / 255;
    let b = (c2 % 255) as u8;
    let c3 = c2 / 255;
    let a = (c3 % 255) as u8;
    proof {
        assert(count as int == 255 * (c1 as int) + (r as int));
        assert(c1 as int == 255 * (c2 as int) + (g as int));
        assert(c2 as int == 255 * (c3 as int) + (b as int));
        assert(c3 < 255);
        assert(a as int == c3 as int);
    }
    (r, g, b, a)
}

/// Reassemble the pick id denoted by four channel bytes.
///
/// Accepts arbitrary bytes (the pixel comes from outside); the result is
/// exactly the base-255 little-endian value, at most `255 * (255^3 + 255^2
/// + 255 + 1)`, which fits in a `u32`.
pub fn decode_pick_id(r: u8, g: u8, b: u8, a: u8) -> (count: u32)
    ensures
        count as int == spec_pick_decode(r as int, g as int, b as int, a as int),
{
    (r as u32) + 255 * ((g as u32) + 255 * ((b as u32) + 255 * (a as u32)))
}

/// A pick id below the ceiling has exactly one base-255 representation:
/// any four digits that decode to it are its little-endian digits.  In
/// particular, encoding an id and decoding the resulting bytes gives the
/// id back.
pub proof fn lemma_pick_id_round_trip(count: u32, rgba: (u8, u8, u8, u8))
    requires
        count < PICK_ID_LIMIT,
        rgba.0 < 255 && rgba.1 < 255 && rgba.2 < 255 && rgba.3 < 255,
        spec_pick_decode(rgba.0 as int, rgba.1 as int, rgba.2 as int, rgba.3 as int)
            == count as int,
    ensures
        rgba.0 as int == count as int % 255,
        rgba.1 as int == (count as int / 255) % 255,
        rgba.2 as int == (count as int / 255 / 255) % 255,
        rgba.3 as int == (count as int / 255 / 255 / 255) % 255,
{
    let c = count as int;
    let k1 = rgba.1 as int + 255 * (rgba.2 as int + 255 * (rgba.3 as int));
    let k2 = rgba.2 as int + 255 * (rgba.3 as int);
    let k3 = rgba.3 as int;
    vstd::arithmetic::div_mod::lemma_fundamental_div_mod_converse(c, 255, k1, rgba.0 as int);
    vstd::arithmetic::div_mod::lemma_fundamental_div_mod_converse(k1, 255, k2, rgba.1 as int);
    vstd::arithmetic::div_mod::lemma_fundamental_div_mod_converse(k2, 255, k3, rgba.2 as int);
    vstd::arithmetic::div_mod::lemma_fundamental_div_mod_converse(k3, 255, 0, rgba.3 as int);
}

/// A picking pass: the ordered log of drawn object identifiers, the screen
/// position whose object is asked for, and the answer once resolved.
pub struct Picker {
    /// Identifiers of the objects drawn so far, in draw order.
    pub objects: Vec<String>,
    /// Screen position to be tested, if a pick was requested.
    pub pick_position: Option<(i64, i64)>,
    /// Identifier of the picked object, once a pixel has been resolved.
    pub pick_result: Option<String>,
}

impl Picker {
    /// A picking session with an empty log and no pending request.
    pub fn new() -> (r: Picker)
        ensures
            r.objects@ =~= Seq::<String>::empty(),
            r.pick_position is None,
            r.pick_result is None,
    {
        Picker { objects: Vec::new(), pick_position: None, pick_result: None }
    }

    /// Ask for the object covering the given screen position.
    pub fn with_pick_position(self, client_x: i64, client_y: i64) -> (r: Picker)
        ensures
            r.pick_position == Some((client_x, client_y)),
            r.objects == self.objects,
            r.pick_result == self.pick_result,
    {
        Picker { pick_position: Some((client_x, client_y)), ..self }
    }

    /// The screen position whose object was asked for, if any.
    pub fn pick_position(&self) -> (r: Option<(i64, i64)>)
        ensures
            r == self.pick_position,
    {
        self.pick_position
    }

    /// The identifier resolved by the last pass, if any object was hit.
    pub fn result(&self) -> (r: Option<String>)
        ensures
            r == self.pick_result,
    {
        match &self.pick_result {
            Some(s) => Some(s.clone()),
            None => None,
        }
    }

    /// Number of objects logged so far in this pass.
    pub fn object_count(&self) -> (n: usize)
        ensures
            n == self.objects@.len(),
    {
        self.objects.len()
    }

    /// Start a pass: the object log is emptied; a pending pick request and
    /// an earlier result are kept.
    pub fn begin_pass(&mut self)
        ensures
            final(self).objects@ =~= Seq::<String>::empty(),
            final(self).pick_position == old(self).pick_position,
            final(self).pick_result == old(self).pick_result,
    {
        self.objects = Vec::new();
    }

    /// Log one drawn object and hand back the channel digits of its id.
    ///
    /// The id is the log length *after* this append — equivalently `length
    /// before + 1` — so the first object drawn gets id 1; 0 stays reserved
    /// for "no object".
    pub fn log_object(&mut self, uid: String) -> (rgba: (u8, u8, u8, u8))
        requires
            old(self).objects@.len() + 1 < PICK_ID_LIMIT,
        ensures
            final(self).objects@ =~= old(self).objects@.push(uid),
            final(self).pick_position == old(self).pick_position,
            final(self).pick_result == old(self).pick_result,
            rgba.0 < 255 && rgba.1 < 255 && rgba.2 < 255 && rgba.3 < 255,
            spec_pick_decode(rgba.0 as int, rgba.1 as int, rgba.2 as int, rgba.3 as int)
                == old(self).objects@.len() + 1,
    {
        let count = self.objects.len() + 1;
        let rgba = encode_pick_id(count as u32);
        self.objects.push(uid);
        rgba
    }

    /// Resolve the pixel read back for the requested position.
    ///
    /// The four bytes denote an id: 0 resolves to "no object"; an id within
    /// the log resolves to the identifier logged at `id - 1`; an id beyond
    /// the log is an integrity fault of the pass and is rejected, leaving
    /// the session unchanged.
    pub fn resolve_pick(&mut self, r: u8, g: u8, b: u8, a: u8) -> (res: Result<(), Error>)
        ensures
            ({
                let count = spec_pick_decode(r as int, g as int, b as int, a as int);
                &&& final(self).objects == old(self).objects
                &&& final(self).pick_position == old(self).pick_position
                &&& (res is Err <==> count > old(self).objects@.len())
                &&& (res matches Err(e) ==> e.message@
                    == "Found a pick id that exceeds the number of logged objects"@)
                &&& (res is Err ==> final(self).pick_result == old(self).pick_result)
                &&& (count == 0 && res is Ok ==> final(self).pick_result is None)
                &&& (0 < count <= old(self).objects@.len() ==> res is Ok
                    && final(self).pick_result == Some(old(self).objects@[count - 1]))
            }),
    {
        let count = decode_pick_id(r, g, b, a) as usize;
        if count > self.objects.len() {
            return Err(Error::from_text(
                "Found a pick id that exceeds the number of logged objects",
            ));
        }
        self.pick_result = if count == 0 {
            None
        } else {
            Some(self.objects[count - 1].clone())
        };
        Ok(())
    }
}

} // verus!
