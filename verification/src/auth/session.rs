//! Session token minting.
//!
//! The token is 32 bytes of OS randomness, so it is unguessable and carries no claims, and
//! revocation is a database update rather than a wait for an expiry. Only its BLAKE3 hash is
//! ever stored.

use crate::digest::{
    base64_url, base64_url_encode, base64_url_len, blake3_digest, blake3_of, hex_encode, hex_lower,
    hex_lower_len, os_bytes_32,
};
use vstd::prelude::*;
use vstd::utf8::encode_utf8;

verus! {

/// Token entropy in bytes.
pub const TOKEN_BYTES: usize = 32;

/// A freshly minted session: the token to hand back, and what to store.
pub struct Issued {
    pub token: String,
    pub token_hash: String,
    pub expires_at: i64,
}

/// The stored form of a bearer token: lowercase hex of its BLAKE3 digest.
pub open spec fn token_digest(token: Seq<char>) -> Seq<char> {
    hex_lower(blake3_of(encode_utf8(token)))
}

/// Mint a session valid for `ttl_secs` from `now`.
pub fn mint(now: i64, ttl_secs: i64) -> (issued: Issued)
    requires
        i64::MIN <= now + ttl_secs <= i64::MAX,
    ensures
        issued.expires_at == now + ttl_secs,
        issued.token_hash@ == token_digest(issued.token@),
        issued.token_hash@.len() == 64,
        exists|raw: Seq<u8>| raw.len() == 32 && issued.token@ == base64_url(raw),
        issued.token@.len() == 43,
{
    let raw = os_bytes_32();
    let token = base64_url_encode(&raw);
    proof {
        base64_url_len(raw@);
    }
    let token_hash = hash_token(token.as_str());
    Issued { token, token_hash, expires_at: now + ttl_secs }
}

/// The stored form of a bearer token.
pub fn hash_token(token: &str) -> (h: String)
    ensures
        h@ == token_digest(token@),
        h@.len() == 64,
{
    let digest = blake3_digest(token.as_bytes());
    proof {
        hex_lower_len(digest@);
    }
    hex_encode(&digest)
}

} // verus!
