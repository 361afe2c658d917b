//! The one value type the API serves.

use vstd::prelude::*;

verus! {

/// The value returned by the one endpoint.
///
/// Both fields travel in the serialized body, but only `a` belongs to the
/// published schema; `b` is deliberately left out of it.
#[derive(Debug)]
pub struct Thing {
    pub a: String,
    pub b: String,
}

impl Thing {
    /// Builds a `Thing` from its two fields.
    pub fn new(a: String, b: String) -> (t: Thing)
        ensures
            t.a == a,
            t.b == b,
    {
        Thing { a, b }
    }

    /// The field names that appear in the published schema: only `a`.
    pub fn schema_field_names() -> (names: Vec<&'static str>)
        ensures
            names@.len() == 1,
            names@[0]@ == "a"@,
    {
        let mut names: Vec<&'static str> = Vec::new();
        names.push("a");
        names
    }

    /// The field names that appear in the serialized body: `a`, then `b`.
    pub fn serialized_field_names() -> (names: Vec<&'static str>)
        ensures
            names@.len() == 2,
            names@[0]@ == "a"@,
            names@[1]@ == "b"@,
    {
        let mut names: Vec<&'static str> = Vec::new();
        names.push("a");
        names.push("b");
        names
    }
}

} // verus!
