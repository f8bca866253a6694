//! Proof of possession for a member's public keys: the shape a claim must have before its
//! signature is worth checking.
//!
//! A member registers an X25519 encryption key so administrators can wrap scope keys to it,
//! with an Ed25519 signature binding the key to the registering account and organization. A
//! malformed field makes the claim false rather than an error, so a bad registration is
//! refused rather than becoming a server error.

use crate::digest::{base64_std, base64_std_decode, base64_std_injective};
use vstd::prelude::*;

verus! {

/// What a member presents when registering keys.
pub struct Claim<'a> {
    pub account_id: &'a str,
    pub org_id: &'a str,
    pub x25519_pub: &'a str,
    pub ed25519_pub: &'a str,
    pub pubkey_sig: &'a str,
}

/// A claim's signing key and signature, decoded.
pub struct Presented {
    pub ed25519: Vec<u8>,
    pub signature: Vec<u8>,
}

/// Whether `text` is standard base64 for exactly `n` bytes.
pub open spec fn decodes_to_len(text: Seq<char>, n: nat) -> bool {
    exists|bytes: Seq<u8>| bytes.len() == n && text == #[trigger] base64_std(bytes)
}

/// Text that decodes to some bytes decodes to that many and no other number.
proof fn lemma_decoded_len(text: Seq<char>, bytes: Seq<u8>, n: nat)
    requires
        text == base64_std(bytes),
    ensures
        decodes_to_len(text, n) <==> bytes.len() == n,
{
    if decodes_to_len(text, n) {
        let other = choose|other: Seq<u8>| other.len() == n && text == #[trigger] base64_std(other);
        base64_std_injective(bytes, other);
    }
}

/// Whether a claim is well formed: a 32-byte Ed25519 key, a 64-byte signature and a 32-byte
/// X25519 key, each in standard base64.
pub open spec fn well_formed(claim: Claim) -> bool {
    decodes_to_len(claim.ed25519_pub@, 32) && decodes_to_len(claim.pubkey_sig@, 64)
        && decodes_to_len(claim.x25519_pub@, 32)
}

/// The decoded signing key and signature of a well-formed claim, or `None`.
pub fn decoded(claim: &Claim) -> (r: Option<Presented>)
    ensures
        r is Some <==> well_formed(*claim),
        r matches Some(p) ==> claim.ed25519_pub@ == base64_std(p.ed25519@) && claim.pubkey_sig@
            == base64_std(p.signature@) && p.ed25519@.len() == 32 && p.signature@.len() == 64,
{
    let ed = base64_std_decode(claim.ed25519_pub);
    let sig = base64_std_decode(claim.pubkey_sig);
    let (ed, sig) = match (ed, sig) {
        (Some(ed), Some(sig)) => (ed, sig),
        _ => return None,
    };
    proof {
        lemma_decoded_len(claim.ed25519_pub@, ed@, 32);
        lemma_decoded_len(claim.pubkey_sig@, sig@, 64);
    }
    if ed.len() != 32 || sig.len() != 64 {
        return None;
    }
    match base64_std_decode(claim.x25519_pub) {
        Some(x) => {
            proof {
                lemma_decoded_len(claim.x25519_pub@, x@, 32);
            }
            if x.len() != 32 {
                return None;
            }
        },
        None => return None,
    }
    Some(Presented { ed25519: ed, signature: sig })
}

} // verus!
