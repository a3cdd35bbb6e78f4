//! The access guard: a request is let through when the credential of its
//! `Authorization` header is the configured key.

use vstd::prelude::*;
use vstd::string::*;

verus! {

/// The scheme word, with its space, that may stand before the credential.
pub open spec fn bearer_prefix() -> Seq<char> {
    "Bearer "@
}

/// The credential that a header value carries: what follows the scheme word
/// where the value starts with it, else the whole value.
pub open spec fn credential(header: Seq<char>) -> Seq<char> {
    if bearer_prefix().is_prefix_of(header) {
        header.skip(bearer_prefix().len() as int)
    } else {
        header
    }
}

/// Whether a request with this `Authorization` header, if it has one, is let
/// through under the configured key, if one is configured. Without a header
/// no request is let through, and none where no key is configured.
pub open spec fn is_authorized(authorization: Option<Seq<char>>, api_key: Option<Seq<char>>) -> bool {
    match (authorization, api_key) {
        (Some(header), Some(key)) => credential(header) == key,
        _ => false,
    }
}

/// A text as characters, if there is one.
pub open spec fn text_of(value: Option<&str>) -> Option<Seq<char>> {
    match value {
        Some(text) => Some(text@),
        None => None,
    }
}

/// Whether `text` starts with `prefix`.
fn starts_with(text: &str, prefix: &str) -> (b: bool)
    ensures
        b == prefix@.is_prefix_of(text@),
{
    let n = prefix.unicode_len();
    if text.unicode_len() < n {
        return false;
    }
    let mut i: usize = 0;
    while i < n
        invariant
            i <= n,
            n == prefix@.len(),
            n <= text@.len(),
            forall|j: int| 0 <= j < i ==> text@[j] == prefix@[j],
        decreases n - i,
    {
        if text.get_char(i) != prefix.get_char(i) {
            assert(text@.subrange(0, n as int)[i as int] != prefix@[i as int]);
            return false;
        }
        i += 1;
    }
    assert(text@.subrange(0, n as int) =~= prefix@);
    true
}

/// The credential of a header value.
fn strip_bearer(header: &str) -> (key: &str)
    ensures
        key@ == credential(header@),
{
    let prefix = "Bearer ";
    if starts_with(header, prefix) {
        header.substring_char(prefix.unicode_len(), header.unicode_len())
    } else {
        header
    }
}

/// Checks the `Authorization` header of a request against the configured key.
/// A request without the header is refused, and every request is while no key
/// is configured.
pub fn check_api_key(authorization: Option<&str>, api_key: Option<&str>) -> (ok: bool)
    ensures
        ok == is_authorized(text_of(authorization), text_of(api_key)),
{
    match (authorization, api_key) {
        (Some(header), Some(api_key)) => {
            let key = strip_bearer(header).to_owned();
            let expected = api_key.to_owned();
            key == expected
        },
        _ => false,
    }
}

} // verus!
