//! Error values for the wire-format codecs.
//!
//! There is a single category of decode failure — the payload does not match
//! the expected schema — and the error carries the path of object keys that
//! leads to the offending field. Encoding can fail only where a timestamp
//! value has no textual representation.

use vstd::prelude::*;

verus! {

/// A schema mismatch found while decoding a payload.
#[derive(Debug, PartialEq, Eq)]
pub struct DecodeError {
    /// Object keys from the outermost payload down to the offending field.
    pub path: Vec<String>,
}

impl DecodeError {
    /// A decode error at the field named `k`.
    pub fn at(k: &str) -> (r: DecodeError)
        ensures
            r.path@.len() == 1,
            r.path@[0]@ == k@,
    {
        DecodeError { path: vec![k.to_owned()] }
    }

    /// A decode error with an empty path, for a payload whose overall shape
    /// is wrong before any field can be named.
    pub fn here() -> (r: DecodeError)
        ensures
            r.path@.len() == 0,
    {
        DecodeError { path: Vec::new() }
    }

    /// The same error, reported one level further out: `k` is prefixed to
    /// the path.
    pub fn nested(k: &str, e: DecodeError) -> (r: DecodeError)
        ensures
            r.path@.len() == e.path@.len() + 1,
            r.path@[0]@ == k@,
    {
        let mut path = e.path;
        path.insert(0, k.to_owned());
        DecodeError { path }
    }
}

/// An encode failure: a value in memory has no representation on the wire.
/// Only a timestamp outside the representable range can cause this.
#[derive(Debug, PartialEq, Eq)]
pub struct EncodeError {}

} // verus!
