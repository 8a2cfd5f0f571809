//! The structured diagnostic produced when lowering meets the wrong tag.
use crate::value::{kind_of, Kind, Value};
use vstd::prelude::*;

verus! {

/// An expected-versus-found tag mismatch.
///
/// Lowering a [`Value`] into a native type fails exactly when the value's
/// tag is not the one the target type needs; the diagnostic records which
/// kind was expected and which kind was actually present. It holds two
/// bare kinds and never the offending payload, so callers can branch on
/// it programmatically and report it however they choose.
#[derive(Clone, Copy, Debug, PartialEq, Eq, Structural)]
pub struct TypeError {
    /// The kind the lowering target required.
    pub expected: Kind,
    /// The kind of the value actually encountered.
    pub found: Kind,
}

/// The diagnostic for lowering `v` where a value of kind `expected` was
/// needed.
pub open spec fn mismatch(expected: Kind, v: Value) -> TypeError {
    TypeError { expected, found: kind_of(v) }
}

impl TypeError {
    /// Builds the diagnostic for finding `found` where a value of kind
    /// `expected` was needed.
    pub fn new(expected: Kind, found: &Value) -> (e: TypeError)
        ensures
            e == mismatch(expected, *found),
    {
        TypeError { expected, found: found.kind() }
    }
}

} // verus!
