//! Fresh object identifiers.
//!
//! Every drawable owns a short stable identifier, generated once at
//! construction and used only to correlate picking results — never for
//! geometric equality.

use vstd::prelude::*;

verus! {

/// A fresh six-character identifier.
///
/// Relies on `nanoid::format` with the crate's URL-safe 64-symbol
/// alphabet and its default random source: it returns a string of exactly
/// the requested number of characters.  The characters themselves are
/// random; nothing more is assumed of them.
#[verifier::external_body]
pub fn nano_id() -> (r: String)
    ensures
        r@.len() == 6,
{
    nanoid::format(nanoid::rngs::default, &nanoid::alphabet::SAFE, 6)
}

} // verus!
