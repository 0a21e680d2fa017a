//! The `Authorization` header of a request: the scheme `Bearer`, one space,
//! and the token.

use vstd::prelude::*;
use vstd::string::StrSliceExecFns;

verus! {

/// What precedes the token in the header: the scheme and one space.
pub const BEARER_PREFIX: &'static str = "Bearer ";

/// `text` begins with `prefix`.
pub open spec fn starts_with(text: Seq<char>, prefix: Seq<char>) -> bool {
    prefix.len() <= text.len() && text.subrange(0, prefix.len() as int) == prefix
}

/// The token of a header: what follows [`BEARER_PREFIX`], where the header
/// is there, begins with the prefix letter for letter, and something
/// follows.
pub open spec fn bearer_of(header: Option<Seq<char>>) -> Option<Seq<char>> {
    match header {
        Some(h) => {
            if starts_with(h, BEARER_PREFIX@) && h.len() > BEARER_PREFIX@.len() {
                Some(h.subrange(BEARER_PREFIX@.len() as int, h.len() as int))
            } else {
                None
            }
        },
        None => None,
    }
}

/// The view of a text that may be missing.
pub open spec fn text_view(text: Option<&str>) -> Option<Seq<char>> {
    match text {
        Some(t) => Some(t@),
        None => None,
    }
}

/// Tells whether `text` begins with `prefix`.
pub fn has_prefix(text: &str, prefix: &str) -> (res: bool)
    ensures
        res == starts_with(text@, prefix@),
{
    let n = prefix.unicode_len();
    if text.unicode_len() < n {
        return false;
    }
    let mut i: usize = 0;
    while i < n
        invariant
            i <= n,
            n == prefix@.len(),
            n <= text@.len(),
            forall|j: int| 0 <= j < i ==> text@[j] == prefix@[j],
        decreases n - i,
    {
        if text.get_char(i) != prefix.get_char(i) {
            assert(text@.subrange(0, n as int)[i as int] != prefix@[i as int]);
            return false;
        }
        i += 1;
    }
    assert(text@.subrange(0, n as int) =~= prefix@);
    true
}

/// Takes the bearer token out of the value of the `Authorization` header.
/// A missing header, another scheme and an empty token all give `None`.
pub fn bearer_token<'a>(header: Option<&'a str>) -> (res: Option<&'a str>)
    ensures
        text_view(res) == bearer_of(text_view(header)),
{
    let h = match header {
        Some(h) => h,
        None => {
            return None;
        },
    };
    let n = h.unicode_len();
    let skip = BEARER_PREFIX.unicode_len();
    if has_prefix(h, BEARER_PREFIX) && n > skip {
        Some(h.substring_char(skip, n))
    } else {
        None
    }
}

} // verus!
