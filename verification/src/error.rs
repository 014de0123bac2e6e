//! The crate's error value: a plain textual message.
//!
//! The viewer reports configuration mistakes (a builder field left unset),
//! picking inconsistencies and unsupported input events through this one
//! type; the host side decides what to do with the text.

use vstd::prelude::*;

verus! {

/// An error carrying a human-readable description.
#[derive(Debug)]
pub struct Error {
    pub message: String,
}

impl Error {
    /// Wrap a message in an `Error`.
    pub fn new(message: String) -> (r: Error)
        ensures
            r.message@ == message@,
    {
        Error { message }
    }

    /// Build an `Error` from literal text.
    pub fn from_text(message: &str) -> (r: Error)
        ensures
            r.message@ == message@,
    {
        Error { message: String::from_str(message) }
    }

    /// The description this error carries.
    pub fn message(&self) -> (r: &str)
        ensures
            r@ == self.message@,
    {
        self.message.as_str()
    }

    /// The description this error carries, in spec form.
    pub open spec fn spec_message(&self) -> Seq<char> {
        self.message@
    }
}

} // verus!
