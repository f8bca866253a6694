//! Project grant routes' checks. A grant with no environment is project-wide and applies to
//! every environment in the project.

use crate::error::{Error, Result};
use crate::handlers::fresh_id;
use crate::rbac::{bad_project_role, project_role_named, project_role_text, ProjectRole};
use crate::store::grants::{grantee_kind, grantee_kind_named, GrantRow, GranteeKind, NewGrant};
use crate::store::wraps::{GrantFulfilment, WrapScope};
use crate::text::{owned, str_eq};
use vstd::prelude::*;

verus! {

/// Create-grant body.
pub struct GrantReq {
    pub grantee_kind: String,
    pub grantee_id: String,
    pub project_role: String,
    pub env_id: Option<String>,
}

/// Add-wrap body: whose wrap, for which environment at which epoch.
pub struct WrapReq {
    pub user_id: String,
    pub env_id: String,
    pub epoch: i64,
}

/// A created grant.
pub struct GrantResp {
    pub id: String,
}

/// A grant as listed. No `env_id` means project-wide.
pub struct ProjectGrantResp {
    pub id: String,
    pub env_id: Option<String>,
    pub project_role: String,
    pub grantee_kind: String,
    pub grantee_id: String,
    pub grantee: String,
}

/// Everyone a grant authorizes, and which of them still need a scope-key wrap.
pub struct FulfilledResp {
    pub members: Vec<String>,
    pub missing: Vec<String>,
}

/// The scope a fulfilment query asks about. A wrap means something only against one
/// environment at one epoch, so a query must name both.
pub fn fulfilment_scope(env_id: Option<String>, epoch: Option<i64>) -> (r: Result<WrapScope>)
    ensures
        match (env_id, epoch) {
            (Some(e), Some(n)) => r matches Ok(scope) && scope.env_id == e && scope.epoch == n,
            _ => r matches Err(Error::BadRequest(m)) && m@ == "env_id and epoch are both required"@,
        },
{
    match (env_id, epoch) {
        (Some(env_id), Some(epoch)) => Ok(WrapScope { env_id, epoch }),
        _ => Err(Error::BadRequest(owned("env_id and epoch are both required"))),
    }
}

/// Report a grant's fulfilment.
pub fn fulfilled_resp(f: GrantFulfilment) -> (r: FulfilledResp)
    ensures
        r.members == f.members,
        r.missing == f.missing,
{
    FulfilledResp { members: f.members, missing: f.missing }
}

/// The account and scope an add-wrap request records.
pub fn wrap_of(body: WrapReq) -> (r: (String, WrapScope))
    ensures
        r.0 == body.user_id,
        r.1.env_id == body.env_id,
        r.1.epoch == body.epoch,
{
    (body.user_id, WrapScope { env_id: body.env_id, epoch: body.epoch })
}

/// Report a live grant as listed.
pub fn listed(row: GrantRow) -> (r: ProjectGrantResp)
    ensures
        r.id == row.id,
        r.env_id == row.env_id,
        r.project_role == row.project_role,
        r.grantee_kind == row.grantee_kind,
        r.grantee_id == row.grantee_id,
        r.grantee == row.grantee,
{
    ProjectGrantResp {
        id: row.id,
        env_id: row.env_id,
        project_role: row.project_role,
        grantee_kind: row.grantee_kind,
        grantee_id: row.grantee_id,
        grantee: row.grantee,
    }
}

/// Check a grant request: the grantee is a user, a team or a group, and the role is one of
/// the project roles. Both are returned.
pub fn check_grant(body: &GrantReq) -> (r: Result<(GranteeKind, ProjectRole)>)
    ensures
        grantee_kind_named(body.grantee_kind@) is None ==> (r matches Err(Error::BadRequest(m)) && m@
            == "grantee_kind must be user, team or group"@),
        grantee_kind_named(body.grantee_kind@) matches Some(kind) ==> match project_role_named(
            body.project_role@,
        ) {
            Some(role) => r matches Ok(got) && got == (kind, role),
            None => r matches Err(Error::BadRequest(m)) && m@ == bad_project_role(
                body.project_role@,
            ),
        },
{
    let kind = match grantee_kind(body.grantee_kind.as_str()) {
        Some(k) => k,
        None => return Err(Error::BadRequest(owned("grantee_kind must be user, team or group"))),
    };
    let role = ProjectRole::parse(body.project_role.as_str())?;
    Ok((kind, role))
}

/// The grant a checked request makes on `project_id`, once its grantee and environment are
/// resolved to ids, recorded as granted by `granted_by`, and the answer that reports it.
pub fn new_grant(
    project_id: &str,
    body: &GrantReq,
    role: ProjectRole,
    resolved: (String, Option<String>),
    granted_by: &str,
) -> (r: (NewGrant, GrantResp))
    ensures
        r.0.id@ == r.1.id@,
        r.0.id@.len() == 36,
        r.0.project_id@ == project_id@,
        r.0.grantee_kind@ == body.grantee_kind@,
        r.0.grantee_id == resolved.0,
        r.0.env_id == resolved.1,
        r.0.project_role@ == project_role_text(role),
        r.0.granted_by@ == granted_by@,
{
    let id = fresh_id();
    let (grantee_id, env_id) = resolved;
    let row = NewGrant {
        id: id.clone(),
        project_id: owned(project_id),
        grantee_kind: body.grantee_kind.clone(),
        grantee_id,
        project_role: owned(role.as_str()),
        env_id,
        granted_by: owned(granted_by),
    };
    (row, GrantResp { id })
}

/// Refuse a grant that belongs to a different project than the path names, or to none:
/// both are answered as not found.
pub fn require_grant_in_project(owner: Option<&str>, project_id: &str) -> (r: Result<()>)
    ensures
        r is Ok <==> (owner matches Some(o) && o@ == project_id@),
        r is Err ==> (r matches Err(Error::NotFound)),
{
    match owner {
        None => Err(Error::NotFound),
        Some(o) => {
            if !str_eq(o, project_id) {
                return Err(Error::NotFound);
            }
            Ok(())
        },
    }
}

} // verus!
