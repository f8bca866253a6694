//! The authority's stored records, and every decision the store makes about them.
//!
//! The database itself is reached from the application around this library. What lives
//! here is what each statement decides: whether a row may be written, what a refusal says,
//! and how rows read back are folded into an answer.

pub mod accounts;
pub mod attempts;
pub mod authz;
pub mod environments;
pub mod grants;
pub mod groups;
pub mod invites;
pub mod migrate;
pub mod offboard;
pub mod orgs;
pub mod projects;
pub mod pubkeys;
pub mod secondfactor;
pub mod sessions;
pub mod teams;
pub mod tenants;
pub mod variables;
pub mod wraps;

use crate::error::{Error, Result};
use crate::text::owned;
use vstd::prelude::*;

verus! {

/// A statement that must have touched a row: `NotFound` when it touched none, so a caller
/// can tell "already gone" from "done".
pub fn require_changed(changed: usize) -> (r: Result<()>)
    ensures
        changed == 0 ==> (r matches Err(Error::NotFound)),
        changed > 0 ==> r is Ok,
{
    if changed == 0 {
        return Err(Error::NotFound);
    }
    Ok(())
}

/// How a write failed, as far as the rules here care: a uniqueness or foreign-key constraint
/// refused it, or something else went wrong.
pub enum WriteError {
    Constraint,
    Other(String),
}

/// The constraint a write can run into, by what it means.
#[derive(Debug, Clone, Copy, PartialEq, Eq, Structural)]
pub enum Constraint {
    /// An account already has this address.
    AccountEmail,
    /// An organization already has this slug.
    OrgSlug,
    /// A team of this organization already has this slug.
    TeamSlug,
    /// A project of this organization already has this slug.
    ProjectSlug,
    /// An environment of this project already has this name.
    EnvName,
    /// Keys registered for an account that is not a member.
    PubkeyMember,
    /// A grant naming a grantee or environment that does not exist.
    GrantReference,
    /// Two invites drew the same token.
    InviteToken,
    /// A group membership naming a group that does not exist.
    GroupReference,
}

/// The error a failed write becomes: a constraint refusal is answered by what it means, so a
/// race two requests lose against the database is a client error rather than a 500, and any
/// other failure is internal.
pub fn write_failure(e: WriteError, constraint: Constraint) -> (r: Error)
    ensures
        e matches WriteError::Other(m) ==> (r matches Error::Internal(got) && got@ == m@),
        e is Constraint ==> match constraint {
            Constraint::AccountEmail => r matches Error::Conflict(m) && m@
                == "email already registered"@,
            Constraint::OrgSlug => r matches Error::Conflict(m) && m@
                == "organization slug already taken"@,
            Constraint::TeamSlug => r matches Error::Conflict(m) && m@
                == "team slug already taken in this organization"@,
            Constraint::ProjectSlug => r matches Error::Conflict(m) && m@
                == "project slug already taken in this organization"@,
            Constraint::EnvName => r matches Error::Conflict(m) && m@
                == "environment name already used in this project"@,
            Constraint::PubkeyMember => r matches Error::BadRequest(m) && m@
                == "not a member of this organization"@,
            Constraint::GrantReference => r matches Error::BadRequest(m) && m@
                == "grant references something that does not exist"@,
            Constraint::InviteToken => r matches Error::Internal(m) && m@ == "invite token collision"@,
            Constraint::GroupReference => r is NotFound,
        },
{
    match e {
        WriteError::Other(m) => Error::Internal(m),
        WriteError::Constraint => match constraint {
            Constraint::AccountEmail => Error::Conflict(owned("email already registered")),
            Constraint::OrgSlug => Error::Conflict(owned("organization slug already taken")),
            Constraint::TeamSlug => Error::Conflict(
                owned("team slug already taken in this organization"),
            ),
            Constraint::ProjectSlug => Error::Conflict(
                owned("project slug already taken in this organization"),
            ),
            Constraint::EnvName => Error::Conflict(
                owned("environment name already used in this project"),
            ),
            Constraint::PubkeyMember => Error::BadRequest(owned("not a member of this organization")),
            Constraint::GrantReference => Error::BadRequest(
                owned("grant references something that does not exist"),
            ),
            Constraint::InviteToken => Error::Internal(owned("invite token collision")),
            Constraint::GroupReference => Error::NotFound,
        },
    }
}

} // verus!
