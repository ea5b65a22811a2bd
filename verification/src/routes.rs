//! The route table: request paths mapped to pages, with a fallback page for
//! unmatched paths and its status code rule.

use vstd::prelude::*;
use vstd::string::StrSliceExecFns;

verus! {

/// The pages the application serves. The three content pages render the
/// same two-operation join; they differ only in which combination strategy
/// drives the rendering decision. `NotFound` is the fallback for every
/// unmatched path.
#[derive(Clone, Copy, Debug, PartialEq, Eq, Structural)]
pub enum Page {
    Home,
    Correct,
    Workaround,
    NotFound,
}

/// The route table as a function: each path pattern is matched exactly, and
/// every other path falls through to the fallback page.
pub open spec fn spec_route(path: Seq<char>) -> Page {
    if path == "/"@ {
        Page::Home
    } else if path == "/correct"@ {
        Page::Correct
    } else if path == "/workaround"@ {
        Page::Workaround
    } else {
        Page::NotFound
    }
}

/// Character-for-character string equality.
pub fn str_eq(a: &str, b: &str) -> (r: bool)
    ensures
        r == (a@ == b@),
{
    let a_len = a.unicode_len();
    let b_len = b.unicode_len();
    if a_len != b_len {
        return false;
    }
    let mut i: usize = 0;
    while i < a_len
        invariant
            a_len == a@.len(),
            b_len == b@.len(),
            a_len == b_len,
            0 <= i <= a_len,
            forall|j: int| 0 <= j < i ==> a@[j] == b@[j],
        decreases a_len - i,
    {
        if a.get_char(i) != b.get_char(i) {
            return false;
        }
        i += 1;
    }
    proof {
        assert(a@ =~= b@);
    }
    true
}

/// Resolve a request path against the route table.
pub fn resolve_route(path: &str) -> (p: Page)
    ensures
        p == spec_route(path@),
{
    if str_eq(path, "/") {
        Page::Home
    } else if str_eq(path, "/correct") {
        Page::Correct
    } else if str_eq(path, "/workaround") {
        Page::Workaround
    } else {
        Page::NotFound
    }
}

/// The status code the fallback page sets: the not-found status is set only
/// while serving the initial document request; a later in-page navigation to
/// an unmatched path sends no new request, so no status is set.
pub fn not_found_status(initial_request: bool) -> (s: Option<u16>)
    ensures
        s == if initial_request {
            Some(404u16)
        } else {
            None::<u16>
        },
{
    if initial_request {
        Some(404)
    } else {
        None
    }
}

} // verus!
