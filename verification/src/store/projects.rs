//! Project rows, and resolving a project reference among the caller's organizations.

use crate::error::{Error, Result};
use crate::text::{debug_of, debug_text, join};
use vstd::prelude::*;

verus! {

/// A new project.
pub struct NewProject {
    pub id: String,
    pub org_id: String,
    pub slug: String,
    pub name: String,
}

/// A project as the API reports it.
pub struct Project {
    pub id: String,
    pub slug: String,
    pub name: String,
}

/// The refusal for a slug that names projects in two of the caller's organizations.
pub open spec fn ambiguous_project(reference: Seq<char>) -> Seq<char> {
    "project "@ + debug_text(reference)
        + " names a project in more than one of your organizations; use its id"@
}

/// Settle a project lookup among the caller's organizations: nothing found is `None`, one
/// match is that `(project_id, org_id)`, and more than one is refused rather than resolved
/// to either, because acting on the wrong organization's project is worse than asking for
/// its id.
pub fn single_project(found: Vec<(String, String)>, reference: &str) -> (r: Result<
    Option<(String, String)>,
>)
    ensures
        found@.len() == 0 ==> (r matches Ok(None)),
        found@.len() == 1 ==> (r matches Ok(Some(pair)) && pair == found@[0]),
        found@.len() > 1 ==> (r matches Err(Error::BadRequest(m)) && m@ == ambiguous_project(
            reference@,
        )),
{
    let mut found = found;
    if found.len() == 0 {
        return Ok(None);
    }
    if found.len() == 1 {
        let one = found.pop().unwrap();
        return Ok(Some(one));
    }
    let mut m = join("project ", debug_of(reference).as_str());
    m.append(" names a project in more than one of your organizations; use its id");
    Err(Error::BadRequest(m))
}

} // verus!
