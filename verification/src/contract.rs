//! Contract issuance: which tenant names may be claimed, what a settled claim answers, and
//! the invite-token gate on signup.
//!
//! The contract itself is signed with the authority's key by the contract crate; what lives
//! here is every decision taken before and after the signature.

use crate::digest::{blake3_digest, blake3_of, ct_eq};
use crate::error::{Error, Result};
use crate::store::tenants::Claim;
use crate::text::owned;
use crate::validate::{name_ok, valid_tenant};
use vstd::prelude::*;
use vstd::utf8::encode_utf8;

verus! {

/// Registration request. Authenticated by the caller's session, so it carries no token of its
/// own: `token` is accepted and ignored, purely so an older client's body still parses.
pub struct RegisterReq {
    pub tenant: String,
    pub author_pubkey: String,
    pub token: Option<String>,
}

/// The issued contract.
pub struct RegisterResp {
    pub contract: String,
    pub tenant: String,
    pub expires_at: i64,
}

/// The authority public key, for vault42's `VAULT42_CONTRACT_PUBKEY`.
pub struct KeyResp {
    pub public_key: String,
}

/// The refusal for a tenant name outside the identifier rule.
pub open spec fn bad_tenant() -> Seq<char> {
    "tenant must be 1..=64 of [A-Za-z0-9_-]"@
}

/// Refuse a tenant name outside the identifier rule.
pub fn check_tenant(tenant: &str) -> (r: Result<()>)
    ensures
        name_ok(tenant@) ==> r is Ok,
        !name_ok(tenant@) ==> (r matches Err(Error::BadRequest(m)) && m@ == bad_tenant()),
{
    if !valid_tenant(tenant) {
        return Err(Error::BadRequest(owned("tenant must be 1..=64 of [A-Za-z0-9_-]")));
    }
    Ok(())
}

/// What a settled claim answers: a name held by another account is a conflict, an exhausted
/// quota is forbidden, and only a granted claim goes on to be signed.
pub fn claim_answer(claim: Claim) -> (r: Result<()>)
    ensures
        claim is Granted ==> r is Ok,
        claim is Taken ==> (r matches Err(Error::Conflict(m)) && m@ == "tenant name is taken"@),
        claim is QuotaExceeded ==> (r matches Err(Error::Forbidden)),
{
    match claim {
        Claim::Taken => Err(Error::Conflict(owned("tenant name is taken"))),
        Claim::QuotaExceeded => Err(Error::Forbidden),
        Claim::Granted => Ok(()),
    }
}

/// The text a caller presented for the invite token: nothing presented counts as empty.
pub open spec fn presented_text(presented: Option<&str>) -> Seq<char> {
    match presented {
        Some(p) => p@,
        None => Seq::empty(),
    }
}

/// Check the shared invite token, when one is configured.
///
/// Both sides are hashed before they are compared, and compared in constant time, so
/// neither the token's length nor the position of its first wrong byte shows in the timing.
pub fn check_invite(expected: Option<&str>, presented: Option<&str>) -> (r: Result<()>)
    ensures
        expected is None ==> r is Ok,
        expected matches Some(e) ==> (r is Ok <==> blake3_of(encode_utf8(presented_text(presented)))
            == blake3_of(encode_utf8(e@))),
        r is Err ==> (r matches Err(Error::Unauthorized)),
{
    let expected = match expected {
        None => return Ok(()),
        Some(e) => e,
    };
    let presented: &str = match presented {
        Some(p) => p,
        None => "",
    };
    proof {
        reveal_strlit("");
    }
    let theirs = blake3_digest(presented.as_bytes());
    let ours = blake3_digest(expected.as_bytes());
    if ct_eq(theirs.as_slice(), ours.as_slice()) {
        return Ok(());
    }
    Err(Error::Unauthorized)
}

} // verus!
