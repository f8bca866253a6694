//! Project group routes' decisions. The client creates a group with an empty body, so a
//! group without a name is named after the start of its id.

use crate::handlers::fresh_id;
use crate::store::groups::NewGroup;
use crate::text::{chars_of, join, owned, slice_chars, string_of, trim, trimmed};
use vstd::prelude::*;

verus! {

/// Create-group body; `name` is optional.
pub struct CreateGroupReq {
    pub name: Option<String>,
}

/// Add-group-member body.
pub struct AddMemberReq {
    pub user_id: String,
}

/// A group as the client expects it.
pub struct GroupResp {
    pub id: String,
    pub name: String,
}

/// The name a group is given: the requested one trimmed, or, when that is absent or blank,
/// `group-` and the first eight characters of its id.
pub open spec fn group_name_of(requested: Option<Seq<char>>, id: Seq<char>) -> Seq<char> {
    match requested {
        Some(given) if trimmed(given).len() > 0 => trimmed(given),
        _ => "group-"@ + id.subrange(0, 8),
    }
}

/// The group a create request makes in `project_id`, and the answer that reports it.
pub fn new_group(project_id: &str, body: &CreateGroupReq) -> (r: (NewGroup, GroupResp))
    ensures
        r.0.id@ == r.1.id@,
        r.0.id@.len() == 36,
        r.0.project_id@ == project_id@,
        r.0.name@ == r.1.name@,
        r.0.name@ == group_name_of(
            match body.name {
                Some(x) => Some(x@),
                None => None,
            },
            r.0.id@,
        ),
{
    let id = fresh_id();
    let given: Option<String> = match &body.name {
        Some(x) => {
            let t = trim(x.as_str());
            if t.as_str().is_empty() {
                None
            } else {
                Some(t)
            }
        },
        None => None,
    };
    let name = match given {
        Some(t) => t,
        None => {
            let v = chars_of(id.as_str());
            let head = slice_chars(&v, 0, 8);
            join("group-", string_of(&head).as_str())
        },
    };
    (NewGroup { id: id.clone(), project_id: owned(project_id), name: name.clone() }, GroupResp { id, name })
}

} // verus!
