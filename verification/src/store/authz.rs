//! The effective-permission fold: the strongest project role a caller holds over a scope,
//! from the grant roles that apply to them directly or through a team.

use crate::error::{Error, Result};
use crate::rbac::{bad_project_role, project_role_named, ProjectRole};
use vstd::prelude::*;

verus! {

/// How strong a project role is, so the strongest wins when several grants apply.
pub open spec fn rank(role: ProjectRole) -> int {
    match role {
        ProjectRole::Admin => 3,
        ProjectRole::Write => 2,
        ProjectRole::Read => 1,
    }
}

/// The rank of an optional role; no role ranks below every role.
pub open spec fn rank_of(role: Option<ProjectRole>) -> int {
    match role {
        Some(r) => rank(r),
        None => 0,
    }
}

/// Order the roles so the strongest wins when several grants apply.
pub fn strength(role: ProjectRole) -> (s: u8)
    ensures
        s as int == rank(role),
{
    match role {
        ProjectRole::Admin => 3,
        ProjectRole::Write => 2,
        ProjectRole::Read => 1,
    }
}

/// The strongest role among `roles`, read in order; the first unknown role name is an error.
pub open spec fn strongest_of(roles: Seq<Seq<char>>) -> core::result::Result<Option<ProjectRole>, Seq<char>>
    decreases roles.len(),
{
    if roles.len() == 0 {
        Ok(None)
    } else {
        match strongest_of(roles.drop_last()) {
            Err(why) => Err(why),
            Ok(best) => match project_role_named(roles.last()) {
                None => Err(bad_project_role(roles.last())),
                Some(role) => if rank(role) > rank_of(best) {
                    Ok(Some(role))
                } else {
                    Ok(best)
                },
            },
        }
    }
}

/// Once a prefix of the role names fails to parse, the whole list fails with the same refusal.
proof fn lemma_refusal_sticks(roles: Seq<Seq<char>>, n: int)
    requires
        0 <= n <= roles.len(),
        strongest_of(roles.take(n)) is Err,
    ensures
        strongest_of(roles) == strongest_of(roles.take(n)),
    decreases roles.len() - n,
{
    if n < roles.len() {
        assert(roles.take(n + 1).drop_last() == roles.take(n));
        lemma_refusal_sticks(roles, n + 1);
    } else {
        assert(roles.take(n) == roles);
    }
}

/// The strongest project role granted, from the role names of every grant that applies.
pub fn strongest(roles: &Vec<String>) -> (r: Result<Option<ProjectRole>>)
    ensures
        match strongest_of(roles@.map_values(|s: String| s@)) {
            Ok(best) => r matches Ok(got) && got == best,
            Err(why) => r matches Err(Error::BadRequest(m)) && m@ == why,
        },
{
    let ghost names = roles@.map_values(|s: String| s@);
    let mut best: Option<ProjectRole> = None;
    let mut i: usize = 0;
    while i < roles.len()
        invariant
            i <= roles.len(),
            names == roles@.map_values(|s: String| s@),
            strongest_of(names.take(i as int)) == core::result::Result::<Option<ProjectRole>, Seq<char>>::Ok(best),
        decreases roles.len() - i,
    {
        assert(names.take(i + 1).drop_last() == names.take(i as int));
        assert(names.take(i + 1).last() == roles@[i as int]@);
        let parsed = match ProjectRole::parse(roles[i].as_str()) {
            Ok(role) => role,
            Err(e) => {
                proof {
                    lemma_refusal_sticks(names, i + 1);
                }
                return Err(e);
            },
        };
        let current = match best {
            Some(b) => strength(b),
            None => 0,
        };
        if strength(parsed) > current {
            best = Some(parsed);
        }
        i += 1;
    }
    assert(names.take(roles.len() as int) == names);
    Ok(best)
}

/// The fold finds the strongest granted role: it outranks or equals every role granted, and
/// it is one of them.
pub proof fn strongest_is_a_maximum(roles: Seq<Seq<char>>)
    requires
        strongest_of(roles) is Ok,
    ensures
        forall|k: int|
            0 <= k < roles.len() ==> project_role_named(#[trigger] roles[k]) is Some && rank(
                project_role_named(roles[k])->0,
            ) <= rank_of(strongest_of(roles)->Ok_0),
        strongest_of(roles)->Ok_0 matches Some(best) ==> exists|k: int|
            0 <= k < roles.len() && project_role_named(roles[k]) == Some(best),
        roles.len() > 0 ==> strongest_of(roles)->Ok_0 is Some,
    decreases roles.len(),
{
    if roles.len() > 0 {
        let shorter = roles.drop_last();
        strongest_is_a_maximum(shorter);
        assert forall|k: int|
            0 <= k < roles.len() implies project_role_named(#[trigger] roles[k]) is Some && rank(
                project_role_named(roles[k])->0,
            ) <= rank_of(strongest_of(roles)->Ok_0) by {
            if k < roles.len() - 1 {
                assert(roles[k] == shorter[k]);
            }
        }
        if let Some(best) = strongest_of(roles)->Ok_0 {
            if strongest_of(shorter)->Ok_0 != Some(best) {
                assert(project_role_named(roles[roles.len() - 1]) == Some(best));
            } else {
                let k = choose|k: int|
                    0 <= k < shorter.len() && project_role_named(shorter[k]) == Some(best);
                assert(roles[k] == shorter[k]);
            }
        }
    }
}

} // verus!
