//! Team routes' decisions. Adding someone to a team requires that they already belong to the
//! organization; the schema enforces it, and these checks surface it as a message.

use crate::error::{Error, Result};
use crate::handlers::{check_slug, fresh_id};
use crate::rbac::{bad_team_role, team_role_named, TeamRole};
use crate::store::teams::{NewTeam, NewTeamMember, Team};
use crate::text::owned;
use crate::validate::name_ok;
use vstd::prelude::*;

verus! {

/// Create-team body.
pub struct CreateTeamReq {
    pub slug: String,
    pub name: String,
}

/// Add-team-member body.
pub struct AddMemberReq {
    pub user_id: String,
    pub team_role: Option<String>,
}

/// A team as the client expects it.
pub struct TeamResp {
    pub id: String,
    pub slug: String,
    pub name: String,
}

/// The team a create request makes in `org_id`, and the answer that reports it.
pub fn new_team(org_id: &str, body: &CreateTeamReq) -> (r: Result<(NewTeam, TeamResp)>)
    ensures
        !name_ok(body.slug@) ==> (r matches Err(Error::BadRequest(m)) && m@ == "slug"@
            + " must be 1..=64 characters of [A-Za-z0-9_-]"@),
        name_ok(body.slug@) ==> (r matches Ok((row, resp)) && row.id@ == resp.id@ && row.id@.len()
            == 36 && row.org_id@ == org_id@ && row.slug@ == body.slug@ && resp.slug@ == body.slug@
            && row.name@ == body.name@ && resp.name@ == body.name@),
{
    check_slug(body.slug.as_str(), "slug")?;
    let id = fresh_id();
    let row = NewTeam {
        id: id.clone(),
        org_id: owned(org_id),
        slug: body.slug.clone(),
        name: body.name.clone(),
    };
    Ok((row, TeamResp { id, slug: body.slug.clone(), name: body.name.clone() }))
}

/// Report a stored team.
pub fn team_resp(row: Team) -> (r: TeamResp)
    ensures
        r.id == row.id,
        r.slug == row.slug,
        r.name == row.name,
{
    TeamResp { id: row.id, slug: row.slug, name: row.name }
}

/// The team role an add-member request asks for: member unless it names one.
pub fn requested_team_role(body: &AddMemberReq) -> (r: Result<TeamRole>)
    ensures
        ({
            let raw = match body.team_role {
                Some(x) => x@,
                None => "member"@,
            };
            match team_role_named(raw) {
                Some(role) => r matches Ok(got) && got == role,
                None => r matches Err(Error::BadRequest(m)) && m@ == bad_team_role(raw),
            }
        }),
{
    match &body.team_role {
        Some(x) => TeamRole::parse(x.as_str()),
        None => TeamRole::parse("member"),
    }
}

/// The membership row an add-member request writes, once the team and the member are
/// resolved.
pub fn team_member(team_id: String, org_id: String, account_id: String, role: TeamRole) -> (r:
    NewTeamMember)
    ensures
        r.team_id == team_id,
        r.org_id == org_id,
        r.account_id == account_id,
        r.role == role,
{
    NewTeamMember { team_id, org_id, account_id, role }
}

} // verus!
