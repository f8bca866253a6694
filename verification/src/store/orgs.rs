//! Organization rows and membership. A reference on the wire may be an id or a slug; both
//! are unique, so everything downstream works in ids.

use vstd::prelude::*;

verus! {

/// A new organization.
pub struct NewOrg {
    pub id: String,
    pub slug: String,
    pub name: String,
    pub created_by: String,
    pub created_at: i64,
}

/// An organization as the API reports it.
pub struct Org {
    pub id: String,
    pub slug: String,
    pub name: String,
}

/// One membership row as the API reports it.
pub struct Member {
    pub user_id: String,
    pub role: String,
    pub created_at: i64,
}

} // verus!
