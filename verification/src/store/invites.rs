//! The invite ledger's rules. An invite is redeemable once, before it expires, and only by
//! the address it was issued to: holding the token is not enough.

use crate::error::{Error, Result};
use crate::text::{debug_of, debug_text, join, owned, str_eq};
use vstd::prelude::*;

verus! {

/// An invite to issue.
pub struct NewInvite {
    pub id: String,
    pub token_hash: String,
    pub scope_kind: String,
    pub scope_id: String,
    pub email: String,
    pub role: String,
    pub invited_by: String,
    pub expires_at: i64,
}

/// An invite as the API reports it.
pub struct InviteRow {
    pub id: String,
    pub scope_kind: String,
    pub scope_id: String,
    pub email: String,
    pub role: String,
    pub status: String,
    pub expires_at: i64,
}

/// What a caller presents to redeem an invite.
pub struct Acceptance {
    pub token_hash: String,
    pub account_id: String,
    pub email: String,
    pub now: i64,
}

/// What redeeming an invite granted.
pub struct Accepted {
    pub scope_kind: String,
    pub scope_id: String,
    pub role: String,
}

/// The kinds of scope an invite can enrol somebody in.
#[derive(Debug, Clone, Copy, PartialEq, Eq, Structural)]
pub enum InviteScope {
    Org,
    Team,
    Group,
}

/// Whether an invite may be redeemed by this acceptance.
pub open spec fn redeemable(invite: InviteRow, acceptance: Acceptance) -> bool {
    invite.status@ == "pending"@ && invite.expires_at > acceptance.now && invite.email@
        == acceptance.email@
}

/// Refuse the invite unless it is redeemable now by this caller: it must still be pending,
/// unexpired, and issued to the caller's own address.
pub fn check_pending(invite: &InviteRow, acceptance: &Acceptance) -> (r: Result<()>)
    ensures
        invite.status@ != "pending"@ ==> (r matches Err(Error::Conflict(m)) && m@
            == "invite already "@ + invite.status@),
        invite.status@ == "pending"@ && invite.expires_at <= acceptance.now ==> (r matches Err(
            Error::Conflict(m),
        ) && m@ == "invite has expired"@),
        invite.status@ == "pending"@ && invite.expires_at > acceptance.now && invite.email@
            != acceptance.email@ ==> (r matches Err(Error::Forbidden)),
        r is Ok <==> redeemable(*invite, *acceptance),
{
    if !str_eq(invite.status.as_str(), "pending") {
        return Err(Error::Conflict(join("invite already ", invite.status.as_str())));
    }
    if invite.expires_at <= acceptance.now {
        return Err(Error::Conflict(owned("invite has expired")));
    }
    if !str_eq(invite.email.as_str(), acceptance.email.as_str()) {
        return Err(Error::Forbidden);
    }
    Ok(())
}

/// The scope kind a stored invite names, if it is one that can be accepted.
pub open spec fn scope_named(kind: Seq<char>) -> Option<InviteScope> {
    if kind == "org"@ {
        Some(InviteScope::Org)
    } else if kind == "team"@ {
        Some(InviteScope::Team)
    } else if kind == "group"@ {
        Some(InviteScope::Group)
    } else {
        None
    }
}

/// Which membership an invite grants, or a refusal for a kind that cannot be accepted yet.
pub fn enrol_scope(kind: &str) -> (r: Result<InviteScope>)
    ensures
        scope_named(kind@) matches Some(scope) ==> (r matches Ok(got) && got == scope),
        scope_named(kind@) is None ==> (r matches Err(Error::BadRequest(m)) && m@ == "invites of kind "@
            + debug_text(kind@) + " cannot be accepted yet"@),
{
    if str_eq(kind, "org") {
        Ok(InviteScope::Org)
    } else if str_eq(kind, "team") {
        Ok(InviteScope::Team)
    } else if str_eq(kind, "group") {
        Ok(InviteScope::Group)
    } else {
        let mut m = join("invites of kind ", debug_of(kind).as_str());
        m.append(" cannot be accepted yet");
        Err(Error::BadRequest(m))
    }
}

/// The refusal for joining a team or group before the organization.
pub fn join_org_first(scope: InviteScope) -> (e: Error)
    requires
        !(scope is Org),
    ensures
        scope is Team ==> (e matches Error::BadRequest(m) && m@
            == "accept the organization invite first; a team member must belong to the organization"@),
        scope is Group ==> (e matches Error::BadRequest(m) && m@
            == "accept the organization invite first; a group member must belong to the organization"@),
{
    match scope {
        InviteScope::Team => Error::BadRequest(
            owned(
                "accept the organization invite first; a team member must belong to the organization",
            ),
        ),
        _ => Error::BadRequest(
            owned(
                "accept the organization invite first; a group member must belong to the organization",
            ),
        ),
    }
}

/// An invite is redeemed at most once: after acceptance its status is no longer pending, so
/// presenting the same token again is refused as already accepted.
pub proof fn an_invite_is_redeemed_once(invite: InviteRow, acceptance: Acceptance, later: Acceptance)
    requires
        invite.status@ == "accepted"@,
    ensures
        !redeemable(invite, later),
{
    reveal_strlit("accepted");
    reveal_strlit("pending");
    assert(invite.status@[0] != "pending"@[0]);
}

} // verus!
