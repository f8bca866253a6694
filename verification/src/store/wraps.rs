//! Scope-key wrap bookkeeping: who a grant authorizes, and which of them hold the key.
//!
//! A wrap is meaningful only against one environment at one epoch. `missing` is a
//! provisioning worklist and nothing more: it is the authorized members still lacking a
//! wrap, never someone outside them.

use crate::error::{Error, Result};
use crate::text::{owned, str_eq};
use vstd::prelude::*;

verus! {

/// The environment scope a wrap is bound to.
pub struct WrapScope {
    pub env_id: String,
    pub epoch: i64,
}

/// Who a grant authorizes, and which of them still need a wrap for one scope.
pub struct GrantFulfilment {
    pub members: Vec<String>,
    pub missing: Vec<String>,
}

/// Refuse an environment the grant does not cover. `scoped_to` is the environment an
/// env-scoped grant names, or `None` for a project-wide grant; the caller has already
/// checked that the environment belongs to the grant's project.
pub fn check_wrap_env(scoped_to: Option<&str>, env_id: &str) -> (r: Result<()>)
    ensures
        scoped_to matches Some(only) && only@ != env_id@ ==> (r matches Err(Error::NotFound)),
        !(scoped_to matches Some(only) && only@ != env_id@) ==> r is Ok,
{
    match scoped_to {
        Some(only) => {
            if !str_eq(only, env_id) {
                return Err(Error::NotFound);
            }
            Ok(())
        },
        None => Ok(()),
    }
}

/// Who a direct user grant authorizes: the account it names while that account still
/// belongs to the project's organization, and nobody once it has left. Resolving membership
/// here, rather than at removal, means no removal path can forget it, and rejoining later
/// does not resurrect a grant.
pub fn direct_grantee(grantee: String, still_a_member: bool) -> (members: Vec<String>)
    ensures
        still_a_member ==> members@ == seq![grantee],
        !still_a_member ==> members@.len() == 0,
{
    let mut members: Vec<String> = Vec::new();
    if still_a_member {
        members.push(grantee);
    }
    members
}

/// The members, in order, whose wrap flag is unset.
pub open spec fn unwrapped(members: Seq<Seq<char>>, wrapped: Seq<bool>) -> Seq<Seq<char>>
    decreases members.len(),
{
    if members.len() == 0 {
        Seq::empty()
    } else {
        let rest = unwrapped(members.drop_last(), wrapped);
        if wrapped[members.len() - 1] {
            rest
        } else {
            rest.push(members.last())
        }
    }
}

/// The authorized members still lacking a wrap, in the order the members were listed;
/// `wrapped[i]` says whether `members[i]` already holds one.
pub fn missing_wraps(members: &Vec<String>, wrapped: &Vec<bool>) -> (missing: Vec<String>)
    requires
        wrapped@.len() == members@.len(),
    ensures
        missing@.map_values(|s: String| s@) == unwrapped(
            members@.map_values(|s: String| s@),
            wrapped@,
        ),
{
    let ghost names = members@.map_values(|s: String| s@);
    let mut missing: Vec<String> = Vec::new();
    let mut i: usize = 0;
    while i < members.len()
        invariant
            i <= members.len(),
            wrapped@.len() == members@.len(),
            names == members@.map_values(|s: String| s@),
            missing@.map_values(|s: String| s@) == unwrapped(names.take(i as int), wrapped@),
        decreases members.len() - i,
    {
        assert(names.take(i + 1).drop_last() == names.take(i as int));
        if !wrapped[i] {
            missing.push(members[i].clone());
            assert(missing@.map_values(|s: String| s@) =~= unwrapped(
                names.take(i as int),
                wrapped@,
            ).push(members@[i as int]@));
        }
        i += 1;
    }
    assert(names.take(members.len() as int) == names);
    missing
}

/// Everyone a grant authorizes, with those of them still lacking a wrap for one scope;
/// `wrapped[i]` says whether `members[i]` holds one.
pub fn fulfilment(members: Vec<String>, wrapped: &Vec<bool>) -> (f: GrantFulfilment)
    requires
        wrapped@.len() == members@.len(),
    ensures
        f.members == members,
        f.missing@.map_values(|s: String| s@) == unwrapped(
            members@.map_values(|s: String| s@),
            wrapped@,
        ),
{
    let missing = missing_wraps(&members, wrapped);
    GrantFulfilment { members, missing }
}

/// One wrap a grant holds: the account it was sealed to and the scope it is good for.
pub struct HeldWrap {
    pub account_id: String,
    pub env_id: String,
    pub epoch: i64,
}

/// A wrap as plain values: account, environment, epoch.
pub open spec fn wrap_key(w: HeldWrap) -> (Seq<char>, Seq<char>, i64) {
    (w.account_id@, w.env_id@, w.epoch)
}

/// Whether the wraps `held` (as plain values) include one for `account` at `env` and `epoch`.
pub open spec fn holds_wrap(
    held: Seq<(Seq<char>, Seq<char>, i64)>,
    account: Seq<char>,
    env: Seq<char>,
    epoch: i64,
) -> bool {
    held.contains((account, env, epoch))
}

/// For each member, whether `held` includes its wrap for the scope `env` at `epoch`.
pub open spec fn wrap_flags(
    members: Seq<Seq<char>>,
    held: Seq<(Seq<char>, Seq<char>, i64)>,
    env: Seq<char>,
    epoch: i64,
) -> Seq<bool> {
    Seq::new(members.len(), |i: int| holds_wrap(held, members[i], env, epoch))
}

/// For each member, whether the grant's wraps `held` include one for `scope`: a wrap for
/// another environment, or another epoch of the same one, does not count.
pub fn wrapped_flags(members: &Vec<String>, held: &Vec<HeldWrap>, scope: &WrapScope) -> (flags: Vec<
    bool,
>)
    ensures
        flags@ == wrap_flags(
            members@.map_values(|s: String| s@),
            held@.map_values(|w: HeldWrap| wrap_key(w)),
            scope.env_id@,
            scope.epoch,
        ),
{
    let ghost keys = held@.map_values(|w: HeldWrap| wrap_key(w));
    let ghost names = members@.map_values(|s: String| s@);
    let mut flags: Vec<bool> = Vec::new();
    let mut i: usize = 0;
    while i < members.len()
        invariant
            i <= members.len(),
            keys == held@.map_values(|w: HeldWrap| wrap_key(w)),
            names == members@.map_values(|s: String| s@),
            flags@ == wrap_flags(names, keys, scope.env_id@, scope.epoch).take(i as int),
        decreases members.len() - i,
    {
        let mut found = false;
        let mut j: usize = 0;
        while j < held.len()
            invariant
                i < members.len(),
                j <= held.len(),
                keys == held@.map_values(|w: HeldWrap| wrap_key(w)),
                names == members@.map_values(|s: String| s@),
                found == exists|k: int| 0 <= k < j && keys[k] == (names[i as int], scope.env_id@, scope.epoch),
            decreases held.len() - j,
        {
            if str_eq(held[j].account_id.as_str(), members[i].as_str()) && str_eq(
                held[j].env_id.as_str(),
                scope.env_id.as_str(),
            ) && held[j].epoch == scope.epoch {
                found = true;
            }
            proof {
                assert(keys[j as int] == wrap_key(held@[j as int]));
            }
            j += 1;
        }
        proof {
            if found {
                let k = choose|k: int| 0 <= k < held.len() && keys[k] == (names[i as int], scope.env_id@, scope.epoch);
                assert(keys.contains(keys[k]));
            } else {
                if keys.contains((names[i as int], scope.env_id@, scope.epoch)) {
                    let k = choose|k: int| 0 <= k < keys.len() && keys[k] == (names[i as int], scope.env_id@, scope.epoch);
                    assert(false);
                }
            }
        }
        flags.push(found);
        assert(flags@ =~= wrap_flags(names, keys, scope.env_id@, scope.epoch).take(i + 1));
        i += 1;
    }
    assert(wrap_flags(names, keys, scope.env_id@, scope.epoch).take(members.len() as int) =~= wrap_flags(
        names,
        keys,
        scope.env_id@,
        scope.epoch,
    ));
    flags
}

/// A wrap provisions its own scope and no other: recording one for `account` at `env` and
/// `epoch` takes that account off that scope's worklist and leaves the wrap flags of every
/// other environment, and of every other epoch, exactly as they were.
pub proof fn a_wrap_provisions_only_its_scope(
    members: Seq<Seq<char>>,
    held: Seq<(Seq<char>, Seq<char>, i64)>,
    account: Seq<char>,
    env: Seq<char>,
    epoch: i64,
    other_env: Seq<char>,
    other_epoch: i64,
)
    ensures
        (other_env, other_epoch) != (env, epoch) ==> wrap_flags(
            members,
            held.push((account, env, epoch)),
            other_env,
            other_epoch,
        ) == wrap_flags(members, held, other_env, other_epoch),
        !unwrapped(members, wrap_flags(members, held.push((account, env, epoch)), env, epoch)).contains(
            account,
        ),
{
    let after = held.push((account, env, epoch));
    assert(after.contains((account, env, epoch))) by {
        assert(after[held.len() as int] == (account, env, epoch));
    }
    if (other_env, other_epoch) != (env, epoch) {
        assert forall|i: int| 0 <= i < members.len() implies #[trigger] wrap_flags(members, after, other_env, other_epoch)[i]
            == wrap_flags(members, held, other_env, other_epoch)[i] by {
            let key = (members[i], other_env, other_epoch);
            if after.contains(key) {
                let k = choose|k: int| 0 <= k < after.len() && after[k] == key;
                assert(k < held.len());
                assert(held[k] == key);
            }
            if held.contains(key) {
                let k = choose|k: int| 0 <= k < held.len() && held[k] == key;
                assert(after[k] == key);
            }
        }
        assert(wrap_flags(members, after, other_env, other_epoch) =~= wrap_flags(
            members,
            held,
            other_env,
            other_epoch,
        ));
    }
    lemma_unwrapped_skips_flagged(members, wrap_flags(members, after, env, epoch), account);
}

/// A name whose every occurrence among the members is flagged is not on the worklist.
proof fn lemma_unwrapped_skips_flagged(members: Seq<Seq<char>>, wrapped: Seq<bool>, name: Seq<char>)
    requires
        wrapped.len() >= members.len(),
        forall|i: int| 0 <= i < members.len() && members[i] == name ==> wrapped[i],
    ensures
        !unwrapped(members, wrapped).contains(name),
    decreases members.len(),
{
    if members.len() > 0 {
        let shorter = members.drop_last();
        assert forall|i: int| 0 <= i < shorter.len() && shorter[i] == name implies wrapped[i] by {
            assert(members[i] == shorter[i]);
        }
        lemma_unwrapped_skips_flagged(shorter, wrapped, name);
        let rest = unwrapped(shorter, wrapped);
        if !wrapped[members.len() - 1] {
            assert(members.last() != name);
            if rest.push(members.last()).contains(name) {
                let k = choose|k: int| 0 <= k < rest.len() + 1 && rest.push(members.last())[k] == name;
                assert(k < rest.len());
                assert(rest[k] == name);
            }
        }
    }
}

/// Refuse recording a wrap for an account the grant does not authorize, so the bookkeeping
/// never describes access nobody granted.
pub fn require_authorized(members: &Vec<String>, account_id: &str) -> (r: Result<()>)
    ensures
        (exists|k: int| 0 <= k < members@.len() && members@[k]@ == account_id@) ==> r is Ok,
        !(exists|k: int| 0 <= k < members@.len() && members@[k]@ == account_id@) ==> (r matches Err(
            Error::BadRequest(m),
        ) && m@ == "account is not authorized by this grant"@),
{
    let mut i: usize = 0;
    while i < members.len()
        invariant
            i <= members.len(),
            forall|k: int| 0 <= k < i ==> members@[k]@ != account_id@,
        decreases members.len() - i,
    {
        if str_eq(members[i].as_str(), account_id) {
            return Ok(());
        }
        i += 1;
    }
    Err(Error::BadRequest(owned("account is not authorized by this grant")))
}

/// The worklist names only authorized members, and every authorized member either holds a
/// wrap or is on the worklist.
pub proof fn missing_is_exact(members: Seq<Seq<char>>, wrapped: Seq<bool>)
    requires
        wrapped.len() == members.len(),
    ensures
        forall|k: int|
            0 <= k < unwrapped(members, wrapped).len() ==> members.contains(
                #[trigger] unwrapped(members, wrapped)[k],
            ),
        forall|i: int|
            0 <= i < members.len() && !wrapped[i] ==> unwrapped(members, wrapped).contains(
                #[trigger] members[i],
            ),
    decreases members.len(),
{
    if members.len() > 0 {
        let shorter = members.drop_last();
        let w = wrapped.subrange(0, wrapped.len() - 1);
        lemma_unwrapped_prefix(members, wrapped);
        missing_is_exact(shorter, w);
        let rest = unwrapped(shorter, w);
        assert forall|k: int|
            0 <= k < unwrapped(members, wrapped).len() implies members.contains(
            #[trigger] unwrapped(members, wrapped)[k],
        ) by {
            if k < rest.len() {
                assert(unwrapped(members, wrapped)[k] == rest[k]);
                let j = choose|j: int| 0 <= j < shorter.len() && shorter[j] == rest[k];
                assert(members[j] == shorter[j]);
            } else {
                assert(unwrapped(members, wrapped)[k] == members[members.len() - 1]);
            }
        }
        assert forall|i: int|
            0 <= i < members.len() && !wrapped[i] implies unwrapped(members, wrapped).contains(
            #[trigger] members[i],
        ) by {
            if i < members.len() - 1 {
                assert(shorter[i] == members[i]);
                assert(w[i] == wrapped[i]);
                let j = choose|j: int| 0 <= j < rest.len() && rest[j] == shorter[i];
                assert(unwrapped(members, wrapped)[j] == rest[j]);
            } else {
                assert(unwrapped(members, wrapped).last() == members[i]);
            }
        }
    }
}

/// Only the flags of listed members matter.
proof fn lemma_unwrapped_prefix(members: Seq<Seq<char>>, wrapped: Seq<bool>)
    requires
        members.len() > 0,
        wrapped.len() == members.len(),
    ensures
        unwrapped(members.drop_last(), wrapped) == unwrapped(
            members.drop_last(),
            wrapped.subrange(0, wrapped.len() - 1),
        ),
{
    lemma_unwrapped_flags(members.drop_last(), wrapped, wrapped.subrange(0, wrapped.len() - 1));
}

proof fn lemma_unwrapped_flags(members: Seq<Seq<char>>, a: Seq<bool>, b: Seq<bool>)
    requires
        a.len() >= members.len(),
        b.len() >= members.len(),
        forall|i: int| 0 <= i < members.len() ==> a[i] == b[i],
    ensures
        unwrapped(members, a) == unwrapped(members, b),
    decreases members.len(),
{
    if members.len() > 0 {
        lemma_unwrapped_flags(members.drop_last(), a, b);
    }
}

} // verus!
