//! Project groups: a project-scoped set of accounts, each of whom must belong to the
//! project's organization.

use crate::error::{Error, Result};
use crate::text::owned;
use vstd::prelude::*;

verus! {

/// A new group.
pub struct NewGroup {
    pub id: String,
    pub project_id: String,
    pub name: String,
}

/// The refusal for adding somebody outside the organization to a group.
pub open spec fn not_an_org_member() -> Seq<char> {
    "account is not a member of the organization; add them to the organization first"@
}

/// Refuse a group member who does not belong to the organization (`memberships` is how many
/// organization membership rows the account has there).
pub fn require_org_member(memberships: i64) -> (r: Result<()>)
    ensures
        memberships == 0 ==> (r matches Err(Error::BadRequest(m)) && m@ == not_an_org_member()),
        memberships != 0 ==> r is Ok,
{
    if memberships == 0 {
        return Err(
            Error::BadRequest(
                owned(
                    "account is not a member of the organization; add them to the organization first",
                ),
            ),
        );
    }
    Ok(())
}

} // verus!
