//! Offboarding rules: an organization must never lose its last owner, and an erased account
//! keeps an opaque id with nothing personal attached.

use crate::error::{Error, Result};
use crate::text::{join, owned, str_eq};
use vstd::prelude::*;

verus! {

/// The refusal for removing an organization's only owner.
pub open spec fn only_owner() -> Seq<char> {
    "this is the organization's only owner; promote another owner first"@
}

/// The refusal for erasing the only owner of some organization.
pub open spec fn stranding_owner() -> Seq<char> {
    "this account is the only owner of an organization; promote another owner first"@
}

/// Whether removing a member whose role is `role` from an organization with `owners` owners
/// would leave it without an owner.
pub open spec fn strands(role: Option<Seq<char>>, owners: i64) -> bool {
    role == Some("owner"@) && owners <= 1
}

/// Refuse removing the organization's only owner. `role` is the member's stored role, if
/// they are a member, and `owners` how many owners the organization has.
pub fn require_not_last_owner(role: Option<&str>, owners: i64) -> (r: Result<()>)
    ensures
        strands(
            match role {
                Some(x) => Some(x@),
                None => None,
            },
            owners,
        ) ==> (r matches Err(Error::Conflict(m)) && m@ == only_owner()),
        !strands(
            match role {
                Some(x) => Some(x@),
                None => None,
            },
            owners,
        ) ==> r is Ok,
{
    let is_owner = match role {
        Some(x) => str_eq(x, "owner"),
        None => false,
    };
    if !is_owner {
        return Ok(());
    }
    if owners <= 1 {
        return Err(
            Error::Conflict(owned("this is the organization's only owner; promote another owner first")),
        );
    }
    Ok(())
}

/// Refuse erasing an account that is the only owner of `stranded` organizations, if any.
pub fn require_owner_nowhere(stranded: i64) -> (r: Result<()>)
    ensures
        stranded > 0 ==> (r matches Err(Error::Conflict(m)) && m@ == stranding_owner()),
        stranded <= 0 ==> r is Ok,
{
    if stranded > 0 {
        return Err(
            Error::Conflict(
                owned("this account is the only owner of an organization; promote another owner first"),
            ),
        );
    }
    Ok(())
}

/// The address an erased account is left with: `erased:` and its id, so it stays unique and,
/// holding no `@`, never parses as an email.
pub open spec fn tombstone_text(account_id: Seq<char>) -> Seq<char> {
    "erased:"@ + account_id
}

/// The tombstone address for an erased account.
pub fn tombstone_address(account_id: &str) -> (a: String)
    ensures
        a@ == tombstone_text(account_id@),
{
    join("erased:", account_id)
}

/// An erased account cannot be named by a login: its tombstone address is refused by email
/// validation, for any id without an `@` (account ids are UUIDs).
pub proof fn a_tombstone_is_never_an_address(account_id: Seq<char>)
    requires
        crate::validate::lacks_at(account_id),
    ensures
        crate::validate::email_verdict(tombstone_text(account_id)) is Err,
{
    reveal_strlit("erased:");
    let t = tombstone_text(account_id);
    assert forall|k: int| 0 <= k < t.len() implies t[k] != '@' by {
        if k >= 7 {
            assert(t[k] == account_id[k - 7]);
        }
    }
    crate::validate::no_at_no_address(t);
}

/// An organization never loses its last owner through removal: removing an owner is allowed
/// only while another owner remains.
pub proof fn the_last_owner_stays(role: Option<Seq<char>>, owners: i64)
    requires
        role == Some("owner"@),
        !strands(role, owners),
    ensures
        owners >= 2,
{
}

} // verus!
