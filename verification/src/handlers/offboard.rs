//! Who may remove whom, and what a removal answers.
//!
//! Removing somebody stops them being re-wrapped; it does not reach the scope keys they
//! already hold, so every removal says that access to existing secrets ends at the next
//! rotation. Leaving is always allowed. Removing somebody else requires administering the
//! organization, and unseating an owner or an admin requires being an owner: otherwise an
//! admin could remove every owner and inherit the organization.

use crate::error::{Error, Result};
use crate::rbac::{administers, OrgRole};
use crate::text::str_eq;
use vstd::prelude::*;

verus! {

/// What a removal achieved, and what it did not.
pub struct RemovedResp {
    pub removed: bool,
    pub rotate_required: bool,
    pub detail: &'static str,
}

/// The warning every removal carries.
pub open spec fn rotation_warning() -> Seq<char> {
    "authorization removed; scope keys already held remain readable until the environment is rotated — run `vault rotate-scope` for each environment"@
}

/// The one honest answer for every removal on this surface.
pub fn removed() -> (r: RemovedResp)
    ensures
        r.removed,
        r.rotate_required,
        r.detail@ == rotation_warning(),
{
    RemovedResp {
        removed: true,
        rotate_required: true,
        detail: "authorization removed; scope keys already held remain readable until the environment is rotated — run `vault rotate-scope` for each environment",
    }
}

/// Whether the caller may remove the target from an organization.
pub open spec fn removal_allowed(
    caller_id: Seq<char>,
    caller_role: OrgRole,
    target_id: Seq<char>,
    target_role: OrgRole,
) -> bool {
    caller_id == target_id || (administers(caller_role) && (!administers(target_role)
        || caller_role is Owner))
}

/// Whether `caller` may remove `target` from an organization, each given as an account id
/// and an organization role.
pub fn may_remove(caller: (&str, OrgRole), target: (&str, OrgRole)) -> (r: Result<()>)
    ensures
        r is Ok <==> removal_allowed(caller.0@, caller.1, target.0@, target.1),
        r is Err ==> (r matches Err(Error::Forbidden)),
{
    if str_eq(caller.0, target.0) {
        return Ok(());
    }
    caller.1.require_admin()?;
    if target.1.can_administer() && !matches!(caller.1, OrgRole::Owner) {
        return Err(Error::Forbidden);
    }
    Ok(())
}

/// Require organization administration unless the caller is removing themselves.
pub fn require_admin_unless_self(caller_id: &str, role: OrgRole, target: &str) -> (r: Result<()>)
    ensures
        r is Ok <==> (caller_id@ == target@ || administers(role)),
        r is Err ==> (r matches Err(Error::Forbidden)),
{
    if str_eq(caller_id, target) {
        return Ok(());
    }
    role.require_admin()?;
    Ok(())
}

/// Leaving is always allowed, at every role, so nobody is trapped in an organization.
pub proof fn leaving_is_always_allowed(me: Seq<char>, role: OrgRole)
    ensures
        removal_allowed(me, role, me, role),
{
}

/// Only an owner unseats an owner or an admin, so no admin can remove every owner and
/// inherit the organization; and a plain member removes nobody but themselves.
pub proof fn only_owners_unseat_administrators(
    caller_id: Seq<char>,
    caller_role: OrgRole,
    target_id: Seq<char>,
    target_role: OrgRole,
)
    requires
        caller_id != target_id,
    ensures
        removal_allowed(caller_id, caller_role, target_id, target_role) && administers(target_role)
            ==> caller_role is Owner,
        caller_role is Member ==> !removal_allowed(caller_id, caller_role, target_id, target_role),
        caller_role is Owner ==> removal_allowed(caller_id, caller_role, target_id, target_role),
{
}

} // verus!
