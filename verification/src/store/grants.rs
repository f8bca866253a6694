//! Project grants: who may act on a project, and at what level. A grant names a user, a team
//! or a project group, and a grant with no environment is project-wide: it applies to every
//! environment in the project.
//!
//! A grant is stored against the canonical ids of its grantee and environment, whatever
//! reference the request used: an id stored verbatim where a slug or an address was meant
//! joins on nothing and reaches nobody.

use crate::error::{Error, Result};
use crate::text::{debug_of, debug_text, join, owned, str_eq};
use vstd::prelude::*;

verus! {

/// A grant to create.
pub struct NewGrant {
    pub id: String,
    pub project_id: String,
    pub grantee_kind: String,
    pub grantee_id: String,
    pub project_role: String,
    pub env_id: Option<String>,
    pub granted_by: String,
}

/// A live grant as listed: its role, because a client cannot mint a scope-key wrap without
/// it, and its grantee by kind, id and the name a person reads (an address, a team slug, a
/// group name).
pub struct GrantRow {
    pub id: String,
    pub env_id: Option<String>,
    pub project_role: String,
    pub grantee_kind: String,
    pub grantee_id: String,
    pub grantee: String,
}

/// What a grant can name.
#[derive(Debug, Clone, Copy, PartialEq, Eq, Structural)]
pub enum GranteeKind {
    User,
    Team,
    Group,
}

/// The grantee kind a stored or requested kind names, if any.
pub open spec fn grantee_kind_named(kind: Seq<char>) -> Option<GranteeKind> {
    if kind == "user"@ {
        Some(GranteeKind::User)
    } else if kind == "team"@ {
        Some(GranteeKind::Team)
    } else if kind == "group"@ {
        Some(GranteeKind::Group)
    } else {
        None
    }
}

/// The grantee kind `kind` names, if any.
pub fn grantee_kind(kind: &str) -> (r: Option<GranteeKind>)
    ensures
        r == grantee_kind_named(kind@),
{
    if str_eq(kind, "user") {
        Some(GranteeKind::User)
    } else if str_eq(kind, "team") {
        Some(GranteeKind::Team)
    } else if str_eq(kind, "group") {
        Some(GranteeKind::Group)
    } else {
        None
    }
}

/// Whether a grant names a single user.
pub fn names_a_user(kind: &str) -> (r: bool)
    ensures
        r == (kind@ == "user"@),
{
    str_eq(kind, "user")
}

/// The refusal for a grantee outside the project's organization (or, for a group, outside
/// the project). A registered non-member and a complete stranger get the same answer.
pub open spec fn foreign_grantee(kind: Seq<char>, reference: Seq<char>) -> Seq<char> {
    kind + " "@ + debug_text(reference) + " does not belong to this project's organization"@
}

/// The grantee a grant is stored against: the id `reference` resolved to within the
/// project's organization, or a refusal when it resolved to nothing.
pub fn resolved_grantee(kind: &str, reference: &str, resolved: Option<String>) -> (r: Result<String>)
    ensures
        match resolved {
            Some(id) => r matches Ok(got) && got == id,
            None => r matches Err(Error::BadRequest(m)) && m@ == foreign_grantee(kind@, reference@),
        },
{
    match resolved {
        Some(id) => Ok(id),
        None => {
            let mut m = join(kind, " ");
            m.append(debug_of(reference).as_str());
            m.append(" does not belong to this project's organization");
            Err(Error::BadRequest(m))
        },
    }
}

/// The environment a grant is stored against: none for a project-wide grant, else the id the
/// requested reference (an id or a name) resolved to within the grant's project.
pub fn resolved_env(reference: Option<&str>, resolved: Option<String>) -> (r: Result<Option<String>>)
    ensures
        reference is None ==> (r matches Ok(None)),
        reference is Some ==> match resolved {
            Some(id) => r matches Ok(Some(got)) && got == id,
            None => r matches Err(Error::BadRequest(m)) && m@ == "env_id does not belong to this project"@,
        },
{
    if reference.is_none() {
        return Ok(None);
    }
    match resolved {
        Some(id) => Ok(Some(id)),
        None => Err(Error::BadRequest(owned("env_id does not belong to this project"))),
    }
}

/// The grants table as revocation reads it: each row's grant id and when it was revoked, if
/// it was. Revocation sets the time on the live row and keeps the row.
pub open spec fn revoked_rows(rows: Seq<(Seq<char>, Option<i64>)>, id: Seq<char>, at: i64) -> Seq<
    (Seq<char>, Option<i64>),
> {
    rows.map_values(
        |row: (Seq<char>, Option<i64>)|
            if row.0 == id && row.1 is None {
                (row.0, Some(at))
            } else {
                row
            },
    )
}

/// How many live rows carry `id`: what a revocation of `id` changes, and what
/// `require_changed` then reads (none is `NotFound`).
pub open spec fn live_count(rows: Seq<(Seq<char>, Option<i64>)>, id: Seq<char>) -> nat
    decreases rows.len(),
{
    if rows.len() == 0 {
        0
    } else {
        live_count(rows.drop_last(), id) + if rows.last().0 == id && rows.last().1 is None {
            1nat
        } else {
            0nat
        }
    }
}

/// The ids a project's grant list shows: the live rows, in order.
pub open spec fn listed_ids(rows: Seq<(Seq<char>, Option<i64>)>) -> Seq<Seq<char>>
    decreases rows.len(),
{
    if rows.len() == 0 {
        Seq::empty()
    } else if rows.last().1 is None {
        listed_ids(rows.drop_last()).push(rows.last().0)
    } else {
        listed_ids(rows.drop_last())
    }
}

/// A live row for `id` makes the count positive.
proof fn lemma_live_count_positive(rows: Seq<(Seq<char>, Option<i64>)>, id: Seq<char>, k: int)
    requires
        0 <= k < rows.len(),
        rows[k].0 == id,
        rows[k].1 is None,
    ensures
        live_count(rows, id) > 0,
    decreases rows.len(),
{
    if k < rows.len() - 1 {
        assert(rows.drop_last()[k] == rows[k]);
        lemma_live_count_positive(rows.drop_last(), id, k);
    }
}

/// After revoking `id`, no live row carries it and none is listed with it.
proof fn lemma_revoked_gone(rows: Seq<(Seq<char>, Option<i64>)>, id: Seq<char>, at: i64)
    ensures
        live_count(revoked_rows(rows, id, at), id) == 0,
        !listed_ids(revoked_rows(rows, id, at)).contains(id),
    decreases rows.len(),
{
    if rows.len() > 0 {
        assert(revoked_rows(rows, id, at).drop_last() =~= revoked_rows(rows.drop_last(), id, at));
        lemma_revoked_gone(rows.drop_last(), id, at);
        let shorter = listed_ids(revoked_rows(rows.drop_last(), id, at));
        let last = revoked_rows(rows, id, at).last();
        if last.1 is None {
            assert(last.0 != id);
            if shorter.push(last.0).contains(id) {
                let k = choose|k: int| 0 <= k < shorter.len() + 1 && shorter.push(last.0)[k] == id;
                assert(shorter[k] == id);
            }
        }
    }
}

/// A grant is revoked once: revoking a live grant changes a row (so it succeeds), keeps
/// every row with its id in place, and leaves the grant neither listed nor live, so a second
/// revocation changes nothing and is answered `NotFound`.
pub proof fn a_grant_is_revoked_once(rows: Seq<(Seq<char>, Option<i64>)>, id: Seq<char>, at: i64)
    requires
        exists|k: int| 0 <= k < rows.len() && rows[k].0 == id && rows[k].1 is None,
    ensures
        live_count(rows, id) > 0,
        revoked_rows(rows, id, at).len() == rows.len(),
        forall|k: int| 0 <= k < rows.len() ==> #[trigger] revoked_rows(rows, id, at)[k].0 == rows[k].0,
        live_count(revoked_rows(rows, id, at), id) == 0,
        !listed_ids(revoked_rows(rows, id, at)).contains(id),
{
    let k = choose|k: int| 0 <= k < rows.len() && rows[k].0 == id && rows[k].1 is None;
    lemma_live_count_positive(rows, id, k);
    lemma_revoked_gone(rows, id, at);
}

} // verus!
