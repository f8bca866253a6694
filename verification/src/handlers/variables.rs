//! The variable routes' checks: which keys are usable names, how large a value may be, and
//! who may write a scope.
//!
//! Reads need organization membership. Writes need either organization administration or a
//! live project grant of `write` or `admin` covering the scope being written: that is where
//! grants stop being bookkeeping and start deciding something.

use crate::error::{Error, Result};
use crate::rbac::{administers, OrgRole, ProjectRole};
use crate::store::variables::Variable;
use crate::text::{ascii_alnum, chars_of, is_ascii_alnum, owned};
use crate::validate::byte_len;
use vstd::prelude::*;

verus! {

/// The longest key accepted.
pub const MAX_KEY_LEN: usize = 128;

/// The longest value accepted, in bytes. A variable is configuration, not a file.
pub const MAX_VALUE_LEN: usize = 1 << 20;

/// Write-variable body.
pub struct PutVariableReq {
    pub value: String,
    pub is_secret: bool,
}

/// A variable as the API reports it.
pub struct VariableResp {
    pub key: String,
    pub value: String,
    pub is_secret: bool,
    pub scope_kind: String,
    pub updated_at: i64,
}

/// Whether `key` is a usable environment-variable name: 1 to 128 characters of
/// `[A-Za-z0-9_]`, not starting with a digit.
pub open spec fn key_ok(key: Seq<char>) -> bool {
    &&& 1 <= key.len() <= 128
    &&& !('0' <= key[0] && key[0] <= '9')
    &&& forall|k: int| 0 <= k < key.len() ==> is_ascii_alnum(#[trigger] key[k]) || key[k] == '_'
}

/// The refusal for an unusable key.
pub open spec fn bad_key() -> Seq<char> {
    "key must be 1..=128 of [A-Za-z0-9_] and must not start with a digit"@
}

/// Refuse a key that would not be a usable environment-variable name.
pub fn check_key(key: &str) -> (r: Result<()>)
    ensures
        key_ok(key@) ==> r is Ok,
        !key_ok(key@) ==> (r matches Err(Error::BadRequest(m)) && m@ == bad_key()),
{
    let v = chars_of(key);
    let mut ok = v.len() >= 1 && v.len() <= MAX_KEY_LEN && !('0' <= v[0] && v[0] <= '9');
    let mut i: usize = 0;
    while ok && i < v.len()
        invariant
            i <= v.len(),
            v@ == key@,
            ok ==> 1 <= v.len() <= 128 && !('0' <= v@[0] && v@[0] <= '9'),
            ok ==> forall|k: int| 0 <= k < i ==> is_ascii_alnum(#[trigger] v@[k]) || v@[k] == '_',
            !ok ==> !key_ok(key@),
        decreases v.len() - i,
    {
        let c = v[i];
        if !(ascii_alnum(c) || c == '_') {
            ok = false;
        }
        i += 1;
    }
    if ok {
        return Ok(());
    }
    Err(Error::BadRequest(owned("key must be 1..=128 of [A-Za-z0-9_] and must not start with a digit")))
}

/// Validate one write: the key must be usable and the value at most a megabyte.
pub fn check_write(key: &str, body: &PutVariableReq) -> (r: Result<()>)
    ensures
        !key_ok(key@) ==> (r matches Err(Error::BadRequest(m)) && m@ == bad_key()),
        key_ok(key@) && byte_len(body.value@) > MAX_VALUE_LEN ==> (r matches Err(
            Error::BadRequest(m),
        ) && m@ == "value must be at most 1048576 bytes"@),
        key_ok(key@) && byte_len(body.value@) <= MAX_VALUE_LEN ==> r is Ok,
{
    check_key(key)?;
    if body.value.as_str().as_bytes().len() > MAX_VALUE_LEN {
        return Err(Error::BadRequest(owned("value must be at most 1048576 bytes")));
    }
    Ok(())
}

/// Whether a caller may write a scope: organization administrators always may, anyone else
/// needs a live grant of `write` or `admin` covering it.
pub open spec fn write_allowed(org_role: OrgRole, granted: Option<ProjectRole>) -> bool {
    administers(org_role) || granted == Some(ProjectRole::Admin) || granted == Some(
        ProjectRole::Write,
    )
}

/// Refuse unless the caller may write this scope, given their organization role and the
/// strongest project role granted to them over it.
pub fn may_write(org_role: OrgRole, granted: Option<ProjectRole>) -> (r: Result<()>)
    ensures
        r is Ok <==> write_allowed(org_role, granted),
        r is Err ==> (r matches Err(Error::Forbidden)),
{
    if org_role.can_administer() {
        return Ok(());
    }
    match granted {
        Some(ProjectRole::Admin) | Some(ProjectRole::Write) => Ok(()),
        _ => Err(Error::Forbidden),
    }
}

/// Organization owners and administrators always may write, whatever project grant they also
/// hold (a read grant does not narrow them); a write or admin grant lets anyone write; and a
/// plain member writes only through such a grant.
pub proof fn administrators_always_write(granted: Option<ProjectRole>)
    ensures
        write_allowed(OrgRole::Owner, granted),
        write_allowed(OrgRole::Admin, granted),
        write_allowed(OrgRole::Member, Some(ProjectRole::Write)),
        write_allowed(OrgRole::Member, Some(ProjectRole::Admin)),
        write_allowed(OrgRole::Member, granted) <==> (granted == Some(ProjectRole::Write)
            || granted == Some(ProjectRole::Admin)),
{
}

/// A read grant never writes, and a member with no grant never writes.
pub proof fn read_grants_never_write(granted: Option<ProjectRole>)
    requires
        granted == Some(ProjectRole::Read) || granted is None,
    ensures
        !write_allowed(OrgRole::Member, granted),
{
}

/// Project a stored variable onto its wire shape.
pub fn into_resp(row: Variable) -> (r: VariableResp)
    ensures
        r.key == row.key,
        r.value == row.value,
        r.is_secret == row.is_secret,
        r.scope_kind == row.scope_kind,
        r.updated_at == row.updated_at,
{
    VariableResp {
        key: row.key,
        value: row.value,
        is_secret: row.is_secret,
        scope_kind: row.scope_kind,
        updated_at: row.updated_at,
    }
}

} // verus!
