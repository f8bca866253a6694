//! Configuration variables at three levels of scope. Values are opaque here: the authority
//! never parses one, and a secret's value is a blob sealed against the environment's key.
//!
//! Resolution folds environment over project over organization, so precedence is a property
//! of the data rather than of whichever caller assembles it: a key set at two levels resolves
//! to the narrower one, and the answer names which level won. Keys come back in the order
//! the store's text collation gives them.

use crate::text::chars_of;
use vstd::prelude::*;

verus! {

/// A variable to write.
pub struct UpsertVariable {
    pub scope_kind: String,
    pub scope_id: String,
    pub key: String,
    pub value: String,
    pub is_secret: bool,
    pub updated_by: String,
}

/// A variable as the API reports it. `scope_kind` says which level supplied it.
pub struct Variable {
    pub key: String,
    pub value: String,
    pub is_secret: bool,
    pub scope_kind: String,
    pub updated_at: i64,
}

/// The three scopes a resolution folds together.
pub struct ResolveScopes {
    pub org_id: String,
    pub project_id: String,
    pub env_id: String,
}

/// Whether key `a` sorts before key `b`: by code point, character by character, a proper
/// prefix first. This is the order of the store's binary text collation, since UTF-8 byte
/// order and code-point order agree.
pub open spec fn key_before(a: Seq<char>, b: Seq<char>) -> bool
    decreases a.len(),
{
    if b.len() == 0 {
        false
    } else if a.len() == 0 {
        true
    } else if a[0] != b[0] {
        a[0] < b[0]
    } else {
        key_before(a.drop_first(), b.drop_first())
    }
}

/// No key sorts before itself.
pub proof fn key_before_irreflexive(a: Seq<char>)
    ensures
        !key_before(a, a),
    decreases a.len(),
{
    if a.len() > 0 {
        key_before_irreflexive(a.drop_first());
    }
}

/// The key order is transitive.
pub proof fn key_before_transitive(a: Seq<char>, b: Seq<char>, c: Seq<char>)
    requires
        key_before(a, b),
        key_before(b, c),
    ensures
        key_before(a, c),
    decreases a.len(),
{
    if a.len() > 0 && b.len() > 0 && c.len() > 0 && a[0] == b[0] && b[0] == c[0] {
        key_before_transitive(a.drop_first(), b.drop_first(), c.drop_first());
    }
}

/// Of two different keys, one sorts before the other.
pub proof fn key_before_total(a: Seq<char>, b: Seq<char>)
    requires
        a != b,
    ensures
        key_before(a, b) || key_before(b, a),
    decreases a.len(),
{
    if a.len() > 0 && b.len() > 0 && a[0] == b[0] {
        if a.drop_first() == b.drop_first() {
            assert(a =~= seq![a[0]] + a.drop_first());
            assert(b =~= seq![b[0]] + b.drop_first());
        }
        key_before_total(a.drop_first(), b.drop_first());
    } else if a.len() == 0 && b.len() == 0 {
        assert(a =~= b);
    }
}

/// Compare two keys in the store's collation.
pub fn key_precedes(a: &str, b: &str) -> (r: bool)
    ensures
        r == key_before(a@, b@),
{
    let x = chars_of(a);
    let y = chars_of(b);
    let mut i: usize = 0;
    assert(x@.subrange(0, x@.len() as int) =~= x@);
    assert(y@.subrange(0, y@.len() as int) =~= y@);
    while i < x.len() && i < y.len() && x[i] == y[i]
        invariant
            i <= x.len(),
            i <= y.len(),
            x@ == a@,
            y@ == b@,
            key_before(a@, b@) == key_before(
                x@.subrange(i as int, x@.len() as int),
                y@.subrange(i as int, y@.len() as int),
            ),
        decreases x.len() - i,
    {
        assert(x@.subrange(i as int, x@.len() as int).drop_first() =~= x@.subrange(
            i + 1,
            x@.len() as int,
        ));
        assert(y@.subrange(i as int, y@.len() as int).drop_first() =~= y@.subrange(
            i + 1,
            y@.len() as int,
        ));
        i += 1;
    }
    if i == y.len() {
        false
    } else if i == x.len() {
        true
    } else {
        x[i] < y[i]
    }
}

/// Variables strictly ordered by key, so no key occurs twice.
pub open spec fn sorted_by_key(s: Seq<Variable>) -> bool {
    forall|i: int, j: int| 0 <= i < j < s.len() ==> key_before(#[trigger] s[i].key@, #[trigger] s[j].key@)
}

/// Whether some variable in `s` carries `key`.
pub open spec fn has_key(s: Seq<Variable>, key: Seq<char>) -> bool {
    exists|i: int| 0 <= i < s.len() && #[trigger] s[i].key@ == key
}

/// The first variable in `levels` that carries `key`: with the levels listed narrowest first,
/// the one that wins.
pub open spec fn first_with(levels: Seq<Variable>, key: Seq<char>) -> Option<Variable>
    decreases levels.len(),
{
    if levels.len() == 0 {
        None
    } else if levels[0].key@ == key {
        Some(levels[0])
    } else {
        first_with(levels.drop_first(), key)
    }
}

/// The winner is found exactly for the keys that occur.
proof fn lemma_first_with(levels: Seq<Variable>, key: Seq<char>)
    ensures
        first_with(levels, key) is Some <==> has_key(levels, key),
        first_with(levels, key) matches Some(v) ==> v.key@ == key && levels.contains(v),
    decreases levels.len(),
{
    if levels.len() > 0 {
        let rest = levels.drop_first();
        lemma_first_with(rest, key);
        if has_key(rest, key) {
            let i = choose|i: int| 0 <= i < rest.len() && #[trigger] rest[i].key@ == key;
            assert(levels[i + 1].key@ == key);
        }
        if has_key(levels, key) && levels[0].key@ != key {
            let i = choose|i: int| 0 <= i < levels.len() && #[trigger] levels[i].key@ == key;
            assert(rest[i - 1].key@ == key);
        }
        if let Some(v) = first_with(rest, key) {
            let j = choose|j: int| 0 <= j < rest.len() && rest[j] == v;
            assert(levels[j + 1] == v);
        }
        if levels[0].key@ == key {
            assert(levels[0] == levels[0]);
            assert(levels.contains(levels[0]));
        }
    }
}

/// Put `v` into the key-ordered `out`: it replaces the variable with its key, if there is one,
/// and otherwise goes where its key sorts.
fn upsert(out: &mut Vec<Variable>, v: Variable)
    requires
        sorted_by_key(old(out)@),
    ensures
        sorted_by_key(final(out)@),
        final(out)@.contains(v),
        forall|i: int|
            0 <= i < final(out)@.len() ==> #[trigger] final(out)@[i] == v || (final(out)@[i].key@
                != v.key@ && old(out)@.contains(final(out)@[i])),
        forall|j: int|
            0 <= j < old(out)@.len() && #[trigger] old(out)@[j].key@ != v.key@ ==> final(out)@.contains(
                old(out)@[j],
            ),
{
    let ghost before = out@;
    let mut p: usize = 0;
    while p < out.len() && key_precedes(out[p].key.as_str(), v.key.as_str())
        invariant
            p <= out.len(),
            out@ == before,
            forall|k: int| 0 <= k < p ==> key_before(#[trigger] out@[k].key@, v.key@),
        decreases out.len() - p,
    {
        p += 1;
    }
    proof {
        if p < out.len() {
            assert(!key_before(out@[p as int].key@, v.key@));
        }
    }
    if p < out.len() && crate::text::str_eq(out[p].key.as_str(), v.key.as_str()) {
        out.set(p, v);
        proof {
            assert(out@[p as int] == v);
            assert forall|j: int|
                0 <= j < before.len() && #[trigger] before[j].key@ != v.key@ implies out@.contains(
                before[j],
            ) by {
                assert(j != p);
                assert(out@[j] == before[j]);
            }
            assert forall|i: int| 0 <= i < out@.len() implies #[trigger] out@[i] == v || (
            out@[i].key@ != v.key@ && before.contains(out@[i])) by {
                if i != p {
                    assert(out@[i] == before[i]);
                    if i < p {
                        key_before_irreflexive(v.key@);
                    } else {
                        assert(key_before(before[p as int].key@, before[i].key@));
                        key_before_irreflexive(v.key@);
                    }
                }
            }
        }
    } else {
        proof {
            if p < out.len() {
                key_before_total(out@[p as int].key@, v.key@);
                assert(key_before(v.key@, out@[p as int].key@));
            }
        }
        out.insert(p, v);
        proof {
            assert(out@[p as int] == v);
            assert forall|i: int, j: int| 0 <= i < j < out@.len() implies key_before(
                #[trigger] out@[i].key@,
                #[trigger] out@[j].key@,
            ) by {
                if j < p {
                    assert(out@[i] == before[i] && out@[j] == before[j]);
                } else if j == p {
                    assert(out@[i] == before[i]);
                } else if i > p {
                    assert(out@[i] == before[i - 1] && out@[j] == before[j - 1]);
                } else if i == p {
                    assert(out@[j] == before[j - 1]);
                    if j - 1 > p {
                        key_before_transitive(v.key@, before[p as int].key@, before[j - 1].key@);
                    }
                } else {
                    assert(out@[i] == before[i] && out@[j] == before[j - 1]);
                }
            }
            assert forall|j: int|
                0 <= j < before.len() && #[trigger] before[j].key@ != v.key@ implies out@.contains(
                before[j],
            ) by {
                if j < p {
                    assert(out@[j] == before[j]);
                } else {
                    assert(out@[j + 1] == before[j]);
                }
            }
            assert forall|i: int| 0 <= i < out@.len() implies #[trigger] out@[i] == v || (
            out@[i].key@ != v.key@ && before.contains(out@[i])) by {
                if i < p {
                    assert(out@[i] == before[i]);
                    key_before_irreflexive(v.key@);
                } else if i > p {
                    assert(out@[i] == before[i - 1]);
                    key_before_irreflexive(v.key@);
                    if i - 1 > p {
                        key_before_transitive(v.key@, before[p as int].key@, before[i - 1].key@);
                    }
                }
            }
        }
    }
}

/// The effective variable set for an environment, from the variables set directly on the
/// environment, its project and its organization.
///
/// Every key set at any level appears once; it carries the value of the narrowest level
/// that sets it (the first one, within a level); and the keys come back in key order.
pub fn fold_scopes(env: Vec<Variable>, project: Vec<Variable>, org: Vec<Variable>) -> (out: Vec<
    Variable,
>)
    ensures
        sorted_by_key(out@),
        forall|i: int|
            0 <= i < out@.len() ==> first_with(env@ + project@ + org@, #[trigger] out@[i].key@)
                == Some(out@[i]),
        forall|k: int|
            0 <= k < (env@ + project@ + org@).len() ==> has_key(
                out@,
                #[trigger] (env@ + project@ + org@)[k].key@,
            ),
{
    let ghost levels = env@ + project@ + org@;
    let mut all = env;
    let mut project = project;
    let mut org = org;
    all.append(&mut project);
    all.append(&mut org);
    assert(all@ == levels);
    let mut out: Vec<Variable> = Vec::new();
    while all.len() > 0
        invariant
            all@ == levels.take(all@.len() as int),
            all@.len() <= levels.len(),
            sorted_by_key(out@),
            forall|i: int|
                0 <= i < out@.len() ==> first_with(
                    levels.subrange(all@.len() as int, levels.len() as int),
                    #[trigger] out@[i].key@,
                ) == Some(out@[i]),
            forall|k: int| all@.len() <= k < levels.len() ==> has_key(out@, #[trigger] levels[k].key@),
        decreases all.len(),
    {
        let ghost n = all@.len() as int;
        let ghost done = levels.subrange(n, levels.len() as int);
        let ghost now = levels.subrange(n - 1, levels.len() as int);
        let ghost prior = out@;
        let v = all.pop().unwrap();
        assert(v == levels[n - 1]);
        assert(now.drop_first() =~= done);
        assert(now[0] == v);
        assert(all@ =~= levels.take(n - 1));
        upsert(&mut out, v);
        proof {
            assert forall|i: int| 0 <= i < out@.len() implies first_with(
                now,
                #[trigger] out@[i].key@,
            ) == Some(out@[i]) by {
                if out@[i] != v {
                    let j = choose|j: int| 0 <= j < prior.len() && prior[j] == out@[i];
                    assert(first_with(done, prior[j].key@) == Some(prior[j]));
                }
            }
            assert forall|k: int| n - 1 <= k < levels.len() implies has_key(
                out@,
                #[trigger] levels[k].key@,
            ) by {
                if k == n - 1 {
                    let i = choose|i: int| 0 <= i < out@.len() && out@[i] == v;
                    assert(out@[i].key@ == levels[k].key@);
                } else {
                    let i = choose|i: int| 0 <= i < prior.len() && #[trigger] prior[i].key@
                        == levels[k].key@;
                    if prior[i].key@ == v.key@ {
                        let m = choose|m: int| 0 <= m < out@.len() && out@[m] == v;
                        assert(out@[m].key@ == levels[k].key@);
                    } else {
                        let m = choose|m: int| 0 <= m < out@.len() && out@[m] == prior[i];
                        assert(out@[m].key@ == levels[k].key@);
                    }
                }
            }
        }
    }
    assert(levels.subrange(0, levels.len() as int) =~= levels);
    out
}

/// Precedence: whatever the narrower levels set wins. A key the environment sets resolves
/// to the environment's variable; a key only the project and organization set resolves to
/// the project's.
pub proof fn the_narrowest_level_wins(
    env: Seq<Variable>,
    project: Seq<Variable>,
    org: Seq<Variable>,
    key: Seq<char>,
)
    ensures
        has_key(env, key) ==> first_with(env + project + org, key) == first_with(env, key),
        !has_key(env, key) && has_key(project, key) ==> first_with(env + project + org, key)
            == first_with(project, key),
        !has_key(env, key) && !has_key(project, key) ==> first_with(env + project + org, key)
            == first_with(org, key),
{
    lemma_first_with_concat(env, project + org, key);
    lemma_first_with_concat(project, org, key);
    assert(env + project + org =~= env + (project + org));
}

/// The winner in a concatenation is the first part's when it has one.
proof fn lemma_first_with_concat(a: Seq<Variable>, b: Seq<Variable>, key: Seq<char>)
    ensures
        first_with(a + b, key) == if has_key(a, key) {
            first_with(a, key)
        } else {
            first_with(b, key)
        },
    decreases a.len(),
{
    lemma_first_with(a, key);
    if a.len() > 0 {
        assert((a + b).drop_first() =~= a.drop_first() + b);
        lemma_first_with_concat(a.drop_first(), b, key);
        lemma_first_with(a.drop_first(), key);
        if has_key(a.drop_first(), key) {
            let i = choose|i: int| 0 <= i < a.drop_first().len() && #[trigger] a.drop_first()[i].key@ == key;
            assert(a[i + 1].key@ == key);
        }
        if has_key(a, key) && a[0].key@ != key {
            let i = choose|i: int| 0 <= i < a.len() && #[trigger] a[i].key@ == key;
            assert(a.drop_first()[i - 1].key@ == key);
        }
    } else {
        assert(a + b =~= b);
    }
}

} // verus!
