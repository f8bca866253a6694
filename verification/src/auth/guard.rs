//! The bearer-token request guard.
//!
//! Resolving a principal is the whole authorization check for an authenticated route; this
//! module holds the part that reads the `Authorization` header.

use crate::text::{
    ascii_fold, chars_eq_ignore_ascii_case, chars_of, first_index, index_of, slice_chars,
    string_of, trim_slice, trimmed,
};
use vstd::prelude::*;

verus! {

/// The scheme name a bearer credential carries, compared without regard to ASCII case.
pub open spec fn bearer_scheme() -> Seq<char> {
    "bearer"@
}

/// The token an `Authorization` header value carries, if it names the bearer scheme.
///
/// The value splits at its first space into scheme and credential. The scheme must be
/// "bearer" in any ASCII case (RFC 7235); the credential is trimmed and must not be empty.
pub open spec fn bearer_token(value: Seq<char>) -> Option<Seq<char>> {
    let k = index_of(value, ' ');
    if k >= value.len() {
        None
    } else {
        let scheme = value.subrange(0, k);
        let token = trimmed(value.subrange(k + 1, value.len() as int));
        if ascii_fold(scheme) == ascii_fold(bearer_scheme()) && token.len() > 0 {
            Some(token)
        } else {
            None
        }
    }
}

/// Pull the token out of an `Authorization: Bearer <token>` header value.
///
/// `None` for an absent header or anything that is not a bearer credential; the caller turns
/// that into a 401 without saying which part was wrong.
pub fn bearer(header: Option<&str>) -> (token: Option<String>)
    ensures
        header is None ==> token is None,
        header matches Some(value) ==> match bearer_token(value@) {
            Some(t) => token matches Some(got) && got@ == t,
            None => token is None,
        },
{
    let raw = match header {
        None => return None,
        Some(raw) => raw,
    };
    let v = chars_of(raw);
    let k = match first_index(&v, ' ') {
        None => return None,
        Some(k) => k,
    };
    let scheme = slice_chars(&v, 0, k);
    let rest = slice_chars(&v, k + 1, v.len());
    let token = trim_slice(&rest);
    let wanted = chars_of("bearer");
    if !chars_eq_ignore_ascii_case(&scheme, &wanted) {
        return None;
    }
    if token.len() == 0 {
        return None;
    }
    Some(string_of(&token))
}

} // verus!
