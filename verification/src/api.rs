//! The API's one route and its handler.

use vstd::prelude::*;
use vstd::string::StrSliceExecFns;
use crate::thing::Thing;

verus! {

/// The method of the one declared route.
pub open spec fn thing_route_method() -> Seq<char> {
    "GET"@
}

/// The path of the one declared route.
pub open spec fn thing_route_path() -> Seq<char> {
    "/thing"@
}

/// Character-by-character equality of two strings, decided in executable
/// code; `==` on `&str` carries no specification here.
pub fn str_eq(a: &str, b: &str) -> (r: bool)
    ensures
        r == (a@ == b@),
{
    let a_len = a.unicode_len();
    let b_len = b.unicode_len();
    if a_len != b_len {
        return false;
    }
    let mut i: usize = 0;
    while i < a_len
        invariant
            a_len == a@.len(),
            b_len == b@.len(),
            a_len == b_len,
            i <= a_len,
            forall|j: int| 0 <= j < i ==> a@[j] == b@[j],
        decreases a@.len() - i,
    {
        if a.get_char(i) != b.get_char(i) {
            return false;
        }
        i += 1;
    }
    proof {
        assert(a@ =~= b@);
    }
    true
}

/// The handler of the one route: it takes nothing from the request and
/// always returns the same pair of values.
pub fn get_thing() -> (t: Thing)
    ensures
        t.a@ == "ok"@,
        t.b@ == "oops"@,
{
    Thing::new("ok".to_owned(), "oops".to_owned())
}

/// Route dispatch as this API declares it: the fixed response for
/// `GET /thing`, and nothing for any other method or path.
pub fn handle_request(method: &str, path: &str) -> (r: Option<Thing>)
    ensures
        r is Some <==> (method@ == thing_route_method() && path@ == thing_route_path()),
        r is Some ==> r->Some_0.a@ == "ok"@ && r->Some_0.b@ == "oops"@,
{
    if str_eq(method, "GET") && str_eq(path, "/thing") {
        Some(get_thing())
    } else {
        None
    }
}

} // verus!
