//! Organization routes' decisions: creating one, reporting it and its roster, and issuing
//! invites, which the team and group routes share.

use crate::auth::session::{mint, token_digest};
use crate::error::{Error, Result};
use crate::handlers::{check_slug, fresh_id, INVITE_TTL_SECS};
use crate::rbac::{
    bad_org_role, bad_team_role, role_names_distinct, org_role_named, org_role_text, team_role_named, team_role_text,
    OrgRole, TeamRole,
};
use crate::store::invites::{InviteScope, NewInvite};
use crate::store::orgs::{Member, NewOrg, Org};
use crate::text::{owned, trim, trimmed};
use crate::validate::{byte_len, email_verdict, name_ok, normalize_email};
use vstd::prelude::*;

verus! {

/// Create-organization body.
pub struct CreateOrgReq {
    pub slug: String,
    pub name: String,
}

/// Invite body, shared by the organization and team routes.
pub struct InviteReq {
    pub email: String,
    pub role: Option<String>,
}

/// An organization as the client expects it.
pub struct OrgResp {
    pub id: String,
    pub slug: String,
    pub name: String,
}

/// One membership row.
pub struct MemberResp {
    pub user_id: String,
    pub role: String,
    pub created_at: i64,
}

/// A freshly issued invite. The token is returned exactly once, here.
pub struct IssuedInviteResp {
    pub id: String,
    pub token: String,
}

/// Whether a display name is acceptable: not blank, and at most 200 bytes.
pub open spec fn display_name_ok(name: Seq<char>) -> bool {
    trimmed(name).len() > 0 && byte_len(name) <= 200
}

/// Refuse a blank or overlong display name.
pub fn check_display_name(name: &str) -> (r: Result<()>)
    ensures
        display_name_ok(name@) ==> r is Ok,
        !display_name_ok(name@) ==> (r matches Err(Error::BadRequest(m)) && m@
            == "name must be 1..=200 characters"@),
{
    let t = trim(name);
    if t.as_str().is_empty() || name.as_bytes().len() > 200 {
        return Err(Error::BadRequest(owned("name must be 1..=200 characters")));
    }
    Ok(())
}

/// The organization a create request makes, owned by `created_by` from `now`, and the answer
/// that reports it. The slug is checked first, then the name.
pub fn new_org(body: &CreateOrgReq, created_by: &str, now: i64) -> (r: Result<(NewOrg, OrgResp)>)
    ensures
        !name_ok(body.slug@) ==> (r matches Err(Error::BadRequest(m)) && m@ == "slug"@
            + " must be 1..=64 characters of [A-Za-z0-9_-]"@),
        name_ok(body.slug@) && !display_name_ok(body.name@) ==> (r matches Err(Error::BadRequest(m))
            && m@ == "name must be 1..=200 characters"@),
        name_ok(body.slug@) && display_name_ok(body.name@) ==> r is Ok,
        r matches Ok((row, resp)) ==> row.id@ == resp.id@ && row.id@.len() == 36 && row.slug@
            == body.slug@ && resp.slug@ == body.slug@ && row.name@ == body.name@ && resp.name@
            == body.name@ && row.created_by@ == created_by@ && row.created_at == now,
{
    check_slug(body.slug.as_str(), "slug")?;
    check_display_name(body.name.as_str())?;
    let id = fresh_id();
    let row = NewOrg {
        id: id.clone(),
        slug: body.slug.clone(),
        name: body.name.clone(),
        created_by: owned(created_by),
        created_at: now,
    };
    Ok((row, OrgResp { id, slug: body.slug.clone(), name: body.name.clone() }))
}

/// Report a stored organization.
pub fn org_resp(found: Org) -> (r: OrgResp)
    ensures
        r.id == found.id,
        r.slug == found.slug,
        r.name == found.name,
{
    OrgResp { id: found.id, slug: found.slug, name: found.name }
}

/// Report one membership row.
pub fn member_resp(row: Member) -> (r: MemberResp)
    ensures
        r.user_id == row.user_id,
        r.role == row.role,
        r.created_at == row.created_at,
{
    MemberResp { user_id: row.user_id, role: row.role, created_at: row.created_at }
}

/// The stored kind of each invite scope.
pub open spec fn scope_text(scope: InviteScope) -> Seq<char> {
    match scope {
        InviteScope::Org => "org"@,
        InviteScope::Team => "team"@,
        InviteScope::Group => "group"@,
    }
}

/// The role an invite to `scope` confers, from the role requested (the default is member),
/// or why it is refused. A group invite always confers membership.
pub open spec fn invite_role_of(scope: InviteScope, requested: Option<Seq<char>>) -> core::result::Result<
    Seq<char>,
    Seq<char>,
> {
    let raw = match requested {
        Some(r) => r,
        None => "member"@,
    };
    match scope {
        InviteScope::Org => match org_role_named(raw) {
            Some(role) => Ok(org_role_text(role)),
            None => Err(bad_org_role(raw)),
        },
        InviteScope::Team => match team_role_named(raw) {
            Some(role) => Ok(team_role_text(role)),
            None => Err(bad_team_role(raw)),
        },
        InviteScope::Group => Ok("member"@),
    }
}

/// An invite confers exactly the role it names: an organization invite naming `owner`,
/// `admin` or `member`, and a team invite naming `admin` or `member`, store that very text
/// (so it reads back as the requested role); with no role named, both confer `member`; any
/// other text is refused. A group invite always confers `member`.
pub proof fn an_invite_confers_the_role_it_names(raw: Seq<char>)
    ensures
        raw == "owner"@ || raw == "admin"@ || raw == "member"@ ==> invite_role_of(
            InviteScope::Org,
            Some(raw),
        ) == Ok::<Seq<char>, Seq<char>>(raw),
        raw == "admin"@ || raw == "member"@ ==> invite_role_of(InviteScope::Team, Some(raw)) == Ok::<
            Seq<char>,
            Seq<char>,
        >(raw),
        invite_role_of(InviteScope::Org, Some(raw)) is Ok <==> (raw == "owner"@ || raw == "admin"@
            || raw == "member"@),
        invite_role_of(InviteScope::Team, Some(raw)) is Ok <==> (raw == "admin"@ || raw == "member"@),
        invite_role_of(InviteScope::Org, None) == Ok::<Seq<char>, Seq<char>>("member"@),
        invite_role_of(InviteScope::Team, None) == Ok::<Seq<char>, Seq<char>>("member"@),
        invite_role_of(InviteScope::Group, Some(raw)) == Ok::<Seq<char>, Seq<char>>("member"@),
{
    role_names_distinct();
}

/// The requested role of an invite body, if any, as text.
pub open spec fn requested_role(body: InviteReq) -> Option<Seq<char>> {
    match body.role {
        Some(r) => Some(r@),
        None => None,
    }
}

/// The role an invite to `scope` confers.
fn invite_role(scope: InviteScope, requested: Option<&str>) -> (r: Result<&'static str>)
    ensures
        match invite_role_of(
            scope,
            match requested {
                Some(x) => Some(x@),
                None => None,
            },
        ) {
            Ok(role) => r matches Ok(got) && got@ == role,
            Err(why) => r matches Err(Error::BadRequest(m)) && m@ == why,
        },
{
    let raw: &str = match requested {
        Some(x) => x,
        None => "member",
    };
    match scope {
        InviteScope::Org => Ok(OrgRole::parse(raw)?.as_str()),
        InviteScope::Team => Ok(TeamRole::parse(raw)?.as_str()),
        InviteScope::Group => Ok("member"),
    }
}

/// Issue an invite to `scope_id` of kind `scope` for the address in `body`, from
/// `invited_by` at `now`: the row to store and the answer carrying its token, which is
/// returned exactly once and stored only as a digest. The address is checked first, then
/// the role.
pub fn issue_invite(
    scope: InviteScope,
    scope_id: &str,
    body: &InviteReq,
    invited_by: &str,
    now: i64,
) -> (r: Result<(NewInvite, IssuedInviteResp)>)
    requires
        now + INVITE_TTL_SECS <= i64::MAX,
    ensures
        email_verdict(body.email@) matches Err(why) ==> (r matches Err(Error::BadRequest(m)) && m@
            == why),
        email_verdict(body.email@) is Ok ==> match invite_role_of(scope, requested_role(*body)) {
            Err(why) => r matches Err(Error::BadRequest(m)) && m@ == why,
            Ok(role) => r matches Ok((row, resp)) && row.role@ == role && row.email@
                == email_verdict(body.email@)->Ok_0,
        },
        r matches Ok((row, resp)) ==> row.id@ == resp.id@ && row.id@.len() == 36
            && row.token_hash@ == token_digest(resp.token@) && row.scope_kind@ == scope_text(scope)
            && row.scope_id@ == scope_id@ && row.invited_by@ == invited_by@ && row.expires_at
            == now + INVITE_TTL_SECS,
{
    let email = match normalize_email(body.email.as_str()) {
        Ok(e) => e,
        Err(why) => return Err(Error::BadRequest(why)),
    };
    let requested: Option<&str> = match &body.role {
        Some(x) => Some(x.as_str()),
        None => None,
    };
    let role = invite_role(scope, requested)?;
    let issued = mint(now, INVITE_TTL_SECS);
    let id = fresh_id();
    let kind: &str = match scope {
        InviteScope::Org => "org",
        InviteScope::Team => "team",
        InviteScope::Group => "group",
    };
    let row = NewInvite {
        id: id.clone(),
        token_hash: issued.token_hash,
        scope_kind: owned(kind),
        scope_id: owned(scope_id),
        email,
        role: owned(role),
        invited_by: owned(invited_by),
        expires_at: issued.expires_at,
    };
    Ok((row, IssuedInviteResp { id, token: issued.token }))
}

} // verus!
