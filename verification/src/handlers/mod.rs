//! The decisions behind the organization-model routes: which references are acceptable, who
//! may act, and what each answer carries.

pub mod environments;
pub mod github;
pub mod grants;
pub mod groups;
pub mod invites;
pub mod offboard;
pub mod orgs;
pub mod projects;
pub mod pubkeys;
pub mod secondfactor;
pub mod teams;
pub mod variables;

use crate::error::{Error, Result};
use crate::text::{debug_of, debug_text, join, owned};
use crate::validate::{email_verdict, name_ok, normalize_email, valid_tenant};
use vstd::prelude::*;

verus! {

/// How long a fresh invite stays redeemable: a week.
pub const INVITE_TTL_SECS: i64 = 7 * 86_400;

/// Whether `text` parses as a UUID, in any of the forms the `uuid` crate accepts.
pub uninterp spec fn uuid_accepts(text: Seq<char>) -> bool;

/// `uuid::Uuid::parse_str` succeeds on `text`.
#[verifier::external_body]
fn parses_as_uuid(text: &str) -> (r: bool)
    ensures
        r == uuid_accepts(text@),
{
    uuid::Uuid::parse_str(text).is_ok()
}

/// A character of a UUID's hyphenated text: a lowercase hex digit or `-`.
pub open spec fn is_uuid_char(c: char) -> bool {
    ('0' <= c && c <= '9') || ('a' <= c && c <= 'f') || c == '-'
}

/// A fresh random id: `uuid::Uuid::new_v4()` in its hyphenated text form.
///
/// Claimed, as the `uuid` crate documents its `Display`: 36 characters of lowercase hex
/// digits and hyphens, which parse back as a UUID. Nothing is claimed of which id it is.
#[verifier::external_body]
pub(crate) fn fresh_id() -> (id: String)
    ensures
        id@.len() == 36,
        forall|k: int| 0 <= k < 36 ==> is_uuid_char(#[trigger] id@[k]),
        uuid_accepts(id@),
{
    uuid::Uuid::new_v4().to_string()
}

/// Refuse an id that is not a UUID.
///
/// Project ids must be UUIDs because a client derives an environment's scope id from the
/// project's UUID bytes; a non-UUID id would have no derivable scope and every secret
/// operation on it would fail later, far from here.
pub fn check_uuid(value: &str, field: &str) -> (r: Result<()>)
    ensures
        uuid_accepts(value@) ==> r is Ok,
        !uuid_accepts(value@) ==> (r matches Err(Error::BadRequest(m)) && m@ == field@
            + " must be a UUID"@),
{
    if parses_as_uuid(value) {
        return Ok(());
    }
    Err(Error::BadRequest(join(field, " must be a UUID")))
}

/// Refuse a slug that would not be safe as an identifier. Slugs share the tenant-name rule:
/// both end up as user-visible identifiers in the same system.
pub fn check_slug(slug: &str, field: &str) -> (r: Result<()>)
    ensures
        name_ok(slug@) ==> r is Ok,
        !name_ok(slug@) ==> (r matches Err(Error::BadRequest(m)) && m@ == field@
            + " must be 1..=64 characters of [A-Za-z0-9_-]"@),
{
    if valid_tenant(slug) {
        return Ok(());
    }
    Err(Error::BadRequest(join(field, " must be 1..=64 characters of [A-Za-z0-9_-]")))
}

/// What a member reference is looked up by: an address is normalized the way accounts store
/// it, and anything else (an account id) is used as given.
pub open spec fn member_key_of(reference: Seq<char>) -> Seq<char> {
    match email_verdict(reference) {
        Ok(stored) => stored,
        Err(_) => reference,
    }
}

/// The key to look a member reference up by: an account id or an email address.
///
/// Resolution comes before any authorization check on the removal routes: they permit
/// removing yourself by comparing ids, so an address must become an id first for "leaving
/// is always allowed" to hold for the identifier people actually have.
pub fn member_key(reference: &str) -> (key: String)
    ensures
        key@ == member_key_of(reference@),
{
    match normalize_email(reference) {
        Ok(stored) => stored,
        Err(_) => owned(reference),
    }
}

/// The refusal for a reference that names nobody in the organization.
pub fn no_member(reference: &str) -> (e: Error)
    ensures
        e matches Error::BadRequest(m) && m@ == "no member "@ + debug_text(reference@)
            + " in this organization"@,
{
    let mut m = join("no member ", debug_of(reference).as_str());
    m.append(" in this organization");
    Error::BadRequest(m)
}

} // verus!
