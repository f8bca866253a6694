//! Member public-key routes' decisions. The registering account always comes from the
//! session, never the body: taken from the body, a caller could register keys under another
//! account's id and the proof would verify against whatever id they chose.

use crate::error::{Error, Result};
use crate::store::pubkeys::MemberPubkey;
use crate::text::owned;
use vstd::prelude::*;

verus! {

/// Register-keys body. Note the absence of an account id.
pub struct PutPubkeyReq {
    pub x25519_pub: String,
    pub ed25519_pub: String,
    pub v42_address: String,
    pub pubkey_sig: String,
}

/// A member's keys as the client expects them.
pub struct PubkeyResp {
    pub user_id: String,
    pub x25519_pub: String,
    pub ed25519_pub: String,
    pub v42_address: String,
    pub pubkey_sig: String,
}

/// The refusal for a signature that does not prove possession.
pub open spec fn not_a_proof() -> Seq<char> {
    "pubkey_sig is not a valid proof of possession for this account and organization"@
}

/// The keys to store for the calling account, once its proof of possession has been
/// checked (`proven`); they are stored exactly as sent, since any re-encoding would
/// invalidate the signature.
pub fn keys_to_store(caller_id: &str, body: PutPubkeyReq, proven: bool) -> (r: Result<MemberPubkey>)
    ensures
        !proven ==> (r matches Err(Error::BadRequest(m)) && m@ == not_a_proof()),
        proven ==> (r matches Ok(k) && k.user_id@ == caller_id@ && k.x25519_pub == body.x25519_pub
            && k.ed25519_pub == body.ed25519_pub && k.v42_address == body.v42_address
            && k.pubkey_sig == body.pubkey_sig),
{
    if !proven {
        return Err(
            Error::BadRequest(
                owned("pubkey_sig is not a valid proof of possession for this account and organization"),
            ),
        );
    }
    Ok(
        MemberPubkey {
            user_id: owned(caller_id),
            x25519_pub: body.x25519_pub,
            ed25519_pub: body.ed25519_pub,
            v42_address: body.v42_address,
            pubkey_sig: body.pubkey_sig,
        },
    )
}

/// Report a member's keys, or `NotFound` when none are registered.
pub fn read_back(keys: Option<MemberPubkey>) -> (r: Result<PubkeyResp>)
    ensures
        keys is None ==> (r matches Err(Error::NotFound)),
        keys matches Some(k) ==> (r matches Ok(resp) && resp.user_id == k.user_id && resp.x25519_pub
            == k.x25519_pub && resp.ed25519_pub == k.ed25519_pub && resp.v42_address
            == k.v42_address && resp.pubkey_sig == k.pubkey_sig),
{
    match keys {
        None => Err(Error::NotFound),
        Some(k) => Ok(
            PubkeyResp {
                user_id: k.user_id,
                x25519_pub: k.x25519_pub,
                ed25519_pub: k.ed25519_pub,
                v42_address: k.v42_address,
                pubkey_sig: k.pubkey_sig,
            },
        ),
    }
}

} // verus!
