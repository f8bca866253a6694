//! Member public keys, with their proof of possession stored verbatim: any re-encoding would
//! invalidate the signature for every later verifier.

use vstd::prelude::*;

verus! {

/// A member's public keys as registered.
pub struct MemberPubkey {
    pub user_id: String,
    pub x25519_pub: String,
    pub ed25519_pub: String,
    pub v42_address: String,
    pub pubkey_sig: String,
}

} // verus!
