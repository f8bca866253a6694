//! Roles and the permission checks over them.
//!
//! Roles are a closed set, parsed at the boundary rather than carried as opaque strings, so
//! a typo fails loudly instead of being stored and silently never matching. Only `Owner` and
//! `Admin` may administer an organization, and that rule is checked in one place.

use crate::error::{Error, Result};
use crate::text::{debug_of, debug_text, join, str_eq};
use vstd::prelude::*;

verus! {

/// A member's standing in an organization, most privileged first.
#[derive(Clone, Copy, PartialEq, Eq, Debug, Structural)]
pub enum OrgRole {
    Owner,
    Admin,
    Member,
}

/// A member's standing in a team.
#[derive(Clone, Copy, PartialEq, Eq, Debug, Structural)]
pub enum TeamRole {
    Admin,
    Member,
}

/// The level a project grant confers.
#[derive(Clone, Copy, PartialEq, Eq, Debug, Structural)]
pub enum ProjectRole {
    Admin,
    Write,
    Read,
}

/// The stored form of an organization role.
pub open spec fn org_role_text(role: OrgRole) -> Seq<char> {
    match role {
        OrgRole::Owner => "owner"@,
        OrgRole::Admin => "admin"@,
        OrgRole::Member => "member"@,
    }
}

/// The organization role a wire string names, if any. Matching is exact: case counts.
pub open spec fn org_role_named(raw: Seq<char>) -> Option<OrgRole> {
    if raw == "owner"@ {
        Some(OrgRole::Owner)
    } else if raw == "admin"@ {
        Some(OrgRole::Admin)
    } else if raw == "member"@ {
        Some(OrgRole::Member)
    } else {
        None
    }
}

/// The stored form of a team role.
pub open spec fn team_role_text(role: TeamRole) -> Seq<char> {
    match role {
        TeamRole::Admin => "admin"@,
        TeamRole::Member => "member"@,
    }
}

/// The team role a wire string names, if any.
pub open spec fn team_role_named(raw: Seq<char>) -> Option<TeamRole> {
    if raw == "admin"@ {
        Some(TeamRole::Admin)
    } else if raw == "member"@ {
        Some(TeamRole::Member)
    } else {
        None
    }
}

/// The stored form of a project role.
pub open spec fn project_role_text(role: ProjectRole) -> Seq<char> {
    match role {
        ProjectRole::Admin => "admin"@,
        ProjectRole::Write => "write"@,
        ProjectRole::Read => "read"@,
    }
}

/// The project role a wire string names, if any.
pub open spec fn project_role_named(raw: Seq<char>) -> Option<ProjectRole> {
    if raw == "admin"@ {
        Some(ProjectRole::Admin)
    } else if raw == "write"@ {
        Some(ProjectRole::Write)
    } else if raw == "read"@ {
        Some(ProjectRole::Read)
    } else {
        None
    }
}

/// Whether an organization role may invite, add members and create teams.
pub open spec fn administers(role: OrgRole) -> bool {
    role is Owner || role is Admin
}

/// The refusal for an unknown organization role.
pub open spec fn bad_org_role(raw: Seq<char>) -> Seq<char> {
    "role must be owner, admin or member; got "@ + debug_text(raw)
}

/// The refusal for an unknown team role.
pub open spec fn bad_team_role(raw: Seq<char>) -> Seq<char> {
    "team_role must be admin or member; got "@ + debug_text(raw)
}

/// The refusal for an unknown project role.
pub open spec fn bad_project_role(raw: Seq<char>) -> Seq<char> {
    "project_role must be admin, write or read; got "@ + debug_text(raw)
}

/// A bad-request error carrying `prefix` followed by the quoted `raw`.
fn refuse_named(prefix: &str, raw: &str) -> (e: Error)
    ensures
        e matches Error::BadRequest(m) && m@ == prefix@ + debug_text(raw@),
{
    Error::BadRequest(join(prefix, &debug_of(raw)))
}

impl OrgRole {
    /// Parse a wire role, refusing anything outside the closed set.
    pub fn parse(raw: &str) -> (r: Result<OrgRole>)
        ensures
            org_role_named(raw@) matches Some(role) ==> (r matches Ok(got) && got == role),
            org_role_named(raw@) is None ==> (r matches Err(Error::BadRequest(m)) && m@
                == bad_org_role(raw@)),
    {
        if str_eq(raw, "owner") {
            Ok(OrgRole::Owner)
        } else if str_eq(raw, "admin") {
            Ok(OrgRole::Admin)
        } else if str_eq(raw, "member") {
            Ok(OrgRole::Member)
        } else {
            Err(refuse_named("role must be owner, admin or member; got ", raw))
        }
    }

    /// The stored form.
    pub fn as_str(self) -> (s: &'static str)
        ensures
            s@ == org_role_text(self),
    {
        match self {
            OrgRole::Owner => "owner",
            OrgRole::Admin => "admin",
            OrgRole::Member => "member",
        }
    }

    /// True when this role may invite, add members, and create teams.
    pub fn can_administer(self) -> (r: bool)
        ensures
            r == administers(self),
    {
        match self {
            OrgRole::Owner | OrgRole::Admin => true,
            OrgRole::Member => false,
        }
    }

    /// Refuse unless this role may administer the organization.
    pub fn require_admin(self) -> (r: Result<OrgRole>)
        ensures
            administers(self) ==> (r matches Ok(got) && got == self),
            !administers(self) ==> (r matches Err(Error::Forbidden)),
    {
        if self.can_administer() {
            return Ok(self);
        }
        Err(Error::Forbidden)
    }
}

impl TeamRole {
    /// Parse a wire team role, refusing anything outside the closed set.
    pub fn parse(raw: &str) -> (r: Result<TeamRole>)
        ensures
            team_role_named(raw@) matches Some(role) ==> (r matches Ok(got) && got == role),
            team_role_named(raw@) is None ==> (r matches Err(Error::BadRequest(m)) && m@
                == bad_team_role(raw@)),
    {
        if str_eq(raw, "admin") {
            Ok(TeamRole::Admin)
        } else if str_eq(raw, "member") {
            Ok(TeamRole::Member)
        } else {
            Err(refuse_named("team_role must be admin or member; got ", raw))
        }
    }

    /// The stored form.
    pub fn as_str(self) -> (s: &'static str)
        ensures
            s@ == team_role_text(self),
    {
        match self {
            TeamRole::Admin => "admin",
            TeamRole::Member => "member",
        }
    }
}

impl ProjectRole {
    /// Parse a wire project role, refusing anything outside the closed set.
    pub fn parse(raw: &str) -> (r: Result<ProjectRole>)
        ensures
            project_role_named(raw@) matches Some(role) ==> (r matches Ok(got) && got == role),
            project_role_named(raw@) is None ==> (r matches Err(Error::BadRequest(m)) && m@
                == bad_project_role(raw@)),
    {
        if str_eq(raw, "admin") {
            Ok(ProjectRole::Admin)
        } else if str_eq(raw, "write") {
            Ok(ProjectRole::Write)
        } else if str_eq(raw, "read") {
            Ok(ProjectRole::Read)
        } else {
            Err(refuse_named("project_role must be admin, write or read; got ", raw))
        }
    }

    /// The stored form.
    pub fn as_str(self) -> (s: &'static str)
        ensures
            s@ == project_role_text(self),
    {
        match self {
            ProjectRole::Admin => "admin",
            ProjectRole::Write => "write",
            ProjectRole::Read => "read",
        }
    }
}

/// The stored role names are pairwise distinct.
pub(crate) proof fn role_names_distinct()
    ensures
        "owner"@ != "admin"@,
        "owner"@ != "member"@,
        "admin"@ != "member"@,
        "admin"@ != "write"@,
        "admin"@ != "read"@,
        "write"@ != "read"@,
{
    reveal_strlit("owner");
    reveal_strlit("admin");
    reveal_strlit("member");
    reveal_strlit("write");
    reveal_strlit("read");
    assert("owner"@[0] != "admin"@[0]);
    assert("owner"@.len() != "member"@.len());
    assert("admin"@.len() != "member"@.len());
    assert("admin"@[0] != "write"@[0]);
    assert("admin"@.len() != "read"@.len());
    assert("write"@.len() != "read"@.len());
}

/// Every organization role survives being stored and parsed back, and no two roles share a
/// stored form.
pub proof fn org_roles_round_trip(role: OrgRole, other: OrgRole)
    ensures
        org_role_named(org_role_text(role)) == Some(role),
        org_role_text(role) == org_role_text(other) ==> role == other,
{
    role_names_distinct();
}

/// Every team role survives being stored and parsed back, and "owner" is not a team role.
pub proof fn team_roles_round_trip(role: TeamRole)
    ensures
        team_role_named(team_role_text(role)) == Some(role),
        team_role_named("owner"@) is None,
{
    role_names_distinct();
}

/// Every project role survives being stored and parsed back.
pub proof fn project_roles_round_trip(role: ProjectRole)
    ensures
        project_role_named(project_role_text(role)) == Some(role),
{
    role_names_distinct();
}

} // verus!
