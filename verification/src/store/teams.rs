//! Team rows and team membership. A team member must already belong to the organization;
//! the schema's composite foreign key is the guarantee and a membership check the message.

use crate::rbac::TeamRole;
use vstd::prelude::*;

verus! {

/// A new team.
pub struct NewTeam {
    pub id: String,
    pub org_id: String,
    pub slug: String,
    pub name: String,
}

/// A team as the API reports it.
pub struct Team {
    pub id: String,
    pub slug: String,
    pub name: String,
}

/// An account being placed in a team.
pub struct NewTeamMember {
    pub team_id: String,
    pub org_id: String,
    pub account_id: String,
    pub role: TeamRole,
}

} // verus!
