//! Environment routes' checks, including the published scope key. Only the public half of a
//! scope key is ever sent here, and its epoch must advance on every publication.

use crate::error::{Error, Result};
use crate::handlers::fresh_id;
use crate::store::environments::{Environment, NewEnvironment};
use crate::text::{owned, trim, trimmed};
use crate::validate::byte_len;
use vstd::prelude::*;

verus! {

/// Create-environment body.
pub struct CreateEnvReq {
    pub name: String,
}

/// Publish-scope-key body.
pub struct ScopeKeyReq {
    pub scope_pubkey: String,
    pub scope_epoch: i64,
}

/// An environment as the client expects it.
pub struct EnvResp {
    pub id: String,
    pub name: String,
    pub scope_pubkey: Option<String>,
    pub scope_epoch: i64,
}

/// The name an environment is created with: the requested one trimmed, which must hold 1
/// to 64 bytes.
pub fn env_name(body: &CreateEnvReq) -> (r: Result<String>)
    ensures
        match r {
            Ok(name) => name@ == trimmed(body.name@) && 1 <= byte_len(name@) <= 64,
            Err(e) => e matches Error::BadRequest(m) && m@ == "name must be 1..=64 characters"@,
        },
        (1 <= byte_len(trimmed(body.name@)) <= 64) ==> r is Ok,
{
    let name = trim(body.name.as_str());
    let n = name.as_str().as_bytes().len();
    if n == 0 || n > 64 {
        return Err(Error::BadRequest(owned("name must be 1..=64 characters")));
    }
    Ok(name)
}

/// Refuse a scope-key publication with no key or an epoch below one.
pub fn check_scope_key(body: &ScopeKeyReq) -> (r: Result<()>)
    ensures
        trimmed(body.scope_pubkey@).len() == 0 ==> (r matches Err(Error::BadRequest(m)) && m@
            == "scope_pubkey must not be empty"@),
        trimmed(body.scope_pubkey@).len() > 0 && body.scope_epoch < 1 ==> (r matches Err(
            Error::BadRequest(m),
        ) && m@ == "scope_epoch must be at least 1"@),
        trimmed(body.scope_pubkey@).len() > 0 && body.scope_epoch >= 1 ==> r is Ok,
{
    let key = trim(body.scope_pubkey.as_str());
    if key.as_str().is_empty() {
        return Err(Error::BadRequest(owned("scope_pubkey must not be empty")));
    }
    if body.scope_epoch < 1 {
        return Err(Error::BadRequest(owned("scope_epoch must be at least 1")));
    }
    Ok(())
}

/// The environment a create request makes in `project_id`, and the answer that reports it:
/// no scope key yet, at epoch zero.
pub fn new_environment(project_id: &str, body: &CreateEnvReq) -> (r: Result<(NewEnvironment, EnvResp)>)
    ensures
        !(1 <= byte_len(trimmed(body.name@)) <= 64) ==> (r matches Err(Error::BadRequest(m)) && m@
            == "name must be 1..=64 characters"@),
        (1 <= byte_len(trimmed(body.name@)) <= 64) ==> (r matches Ok((row, resp)) && row.id@
            == resp.id@ && row.id@.len() == 36 && row.project_id@ == project_id@ && row.name@
            == trimmed(body.name@) && resp.name@ == trimmed(body.name@) && resp.scope_pubkey is None
            && resp.scope_epoch == 0),
{
    let name = env_name(body)?;
    let id = fresh_id();
    let row = NewEnvironment { id: id.clone(), project_id: owned(project_id), name: name.clone() };
    Ok((row, EnvResp { id, name, scope_pubkey: None, scope_epoch: 0 }))
}

/// Project a stored environment onto its wire shape.
pub fn into_resp(row: Environment) -> (r: EnvResp)
    ensures
        r.id == row.id,
        r.name == row.name,
        r.scope_pubkey == row.scope_pubkey,
        r.scope_epoch == row.scope_epoch,
{
    EnvResp { id: row.id, name: row.name, scope_pubkey: row.scope_pubkey, scope_epoch: row.scope_epoch }
}

} // verus!
