//! Project routes' decisions. A client may choose a project's id, and when it does the id
//! must be a UUID: the client derives each environment's scope from the project's UUID.

use crate::error::{Error, Result};
use crate::handlers::orgs::{check_display_name, display_name_ok};
use crate::handlers::{check_slug, check_uuid, fresh_id, uuid_accepts};
use crate::store::projects::{NewProject, Project};
use crate::text::owned;
use crate::validate::name_ok;
use vstd::prelude::*;

verus! {

/// Create-project body.
pub struct CreateProjectReq {
    pub slug: String,
    pub name: String,
    pub id: Option<String>,
}

/// A project as the client expects it.
pub struct ProjectResp {
    pub id: String,
    pub slug: String,
    pub name: String,
}

/// The project a create request makes in `org_id`, and the answer that reports it: the slug
/// is checked, then the name, then a chosen id; with no id chosen a fresh one is drawn.
pub fn new_project(org_id: &str, body: &CreateProjectReq) -> (r: Result<(NewProject, ProjectResp)>)
    ensures
        !name_ok(body.slug@) ==> (r matches Err(Error::BadRequest(m)) && m@ == "slug"@
            + " must be 1..=64 characters of [A-Za-z0-9_-]"@),
        name_ok(body.slug@) && !display_name_ok(body.name@) ==> (r matches Err(Error::BadRequest(m))
            && m@ == "name must be 1..=200 characters"@),
        name_ok(body.slug@) && display_name_ok(body.name@) ==> match body.id {
            Some(chosen) => if uuid_accepts(chosen@) {
                r matches Ok((row, resp)) && row.id@ == chosen@
            } else {
                r matches Err(Error::BadRequest(m)) && m@ == "id"@ + " must be a UUID"@
            },
            None => r matches Ok((row, resp)) && row.id@.len() == 36,
        },
        r matches Ok((row, resp)) ==> row.id@ == resp.id@ && uuid_accepts(row.id@) && row.org_id@
            == org_id@ && row.slug@ == body.slug@ && resp.slug@ == body.slug@ && row.name@
            == body.name@ && resp.name@ == body.name@,
{
    check_slug(body.slug.as_str(), "slug")?;
    check_display_name(body.name.as_str())?;
    let id = match &body.id {
        Some(chosen) => {
            check_uuid(chosen.as_str(), "id")?;
            chosen.clone()
        },
        None => fresh_id(),
    };
    let row = NewProject {
        id: id.clone(),
        org_id: owned(org_id),
        slug: body.slug.clone(),
        name: body.name.clone(),
    };
    Ok((row, ProjectResp { id, slug: body.slug.clone(), name: body.name.clone() }))
}

/// Report a stored project.
pub fn project_resp(row: Project) -> (r: ProjectResp)
    ensures
        r.id == row.id,
        r.slug == row.slug,
        r.name == row.name,
{
    ProjectResp { id: row.id, slug: row.slug, name: row.name }
}

} // verus!
