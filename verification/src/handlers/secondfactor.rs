//! One-time codes, keystore escrow, and the second-factor gate.
//!
//! Requesting a code always answers the same whether or not the address has an account, and
//! verifying one gives a single answer for every kind of failure, so neither route tells a
//! caller who has an account or whether a live code exists. A correct code earns a proof,
//! never a session.

use crate::error::{Error, Result};
use crate::mail::{code_body, code_message, code_subject, stated_minutes, Message};
use crate::otp::{code_digest, generate_code, hash_code, is_code_shape};
use crate::store::secondfactor::{CodeRejection, NewCode};
use crate::text::owned;
use crate::throttle::{check_spent, LIMIT};
use crate::validate::byte_len;
use vstd::prelude::*;

verus! {

/// The longest escrow blob accepted, in bytes: a passphrase-wrapped keystore, not a file
/// store.
pub const MAX_ESCROW_LEN: usize = 64 * 1024;

/// Request a code for an address.
pub struct RequestReq {
    pub email: String,
}

/// Submit a code for an address.
pub struct VerifyReq {
    pub email: String,
    pub code: String,
}

/// The proof a correct code earns.
pub struct VerifyResp {
    pub proof: String,
}

/// Upload an escrowed keystore.
pub struct EscrowPutReq {
    pub email: String,
    pub proof: String,
    pub blob: String,
}

/// Fetch an escrowed keystore.
pub struct EscrowFetchReq {
    pub email: String,
    pub proof: String,
}

/// The stored ciphertext, exactly as uploaded.
pub struct EscrowFetchResp {
    pub blob: String,
}

/// Turn the second factor on or off for the caller's own account.
pub struct MfaReq {
    pub required: bool,
    pub proof: String,
}

/// What a code request answers, given the attempts the address has spent in the current
/// window (this one included), and whether a code is then issued. The answer depends on the
/// count alone, never on whether an account holds the address; a code is issued only to an
/// account, and only within the limit.
pub fn code_request(spent: i64, has_account: bool) -> (r: (Result<()>, bool))
    ensures
        spent <= LIMIT ==> r.0 is Ok,
        spent > LIMIT ==> (r.0 matches Err(Error::TooManyRequests)),
        r.1 <==> (spent <= LIMIT && has_account),
{
    match check_spent(spent) {
        Ok(()) => (Ok(()), has_account),
        Err(e) => (Err(e), false),
    }
}

/// Refuse an escrow blob that is empty or larger than a keystore.
pub fn check_blob(blob: &str) -> (r: Result<()>)
    ensures
        1 <= byte_len(blob@) <= MAX_ESCROW_LEN ==> r is Ok,
        !(1 <= byte_len(blob@) <= MAX_ESCROW_LEN) ==> (r matches Err(Error::BadRequest(m)) && m@
            == "blob must be 1..=65536 bytes"@),
{
    let n = blob.as_bytes().len();
    if n == 0 || n > MAX_ESCROW_LEN {
        return Err(Error::BadRequest(owned("blob must be 1..=65536 bytes")));
    }
    Ok(())
}

/// A fresh code for `email`, valid for `ttl_secs` from `now`: the row to store, holding only
/// the code's digest bound to the address, and the message that carries the code itself.
pub fn fresh_code(email: &str, now: i64, ttl_secs: i64) -> (r: (NewCode, Message))
    requires
        i64::MIN <= now + ttl_secs <= i64::MAX,
    ensures
        r.0.email@ == email@,
        r.0.expires_at == now + ttl_secs,
        r.1.to@ == email@,
        r.1.subject@ == code_subject(),
        exists|code: Seq<char>|
            is_code_shape(code) && r.0.code_hash@ == code_digest(email@, code) && r.1.body@
                == code_body(code, stated_minutes(ttl_secs as int)),
{
    let code = generate_code();
    let row = NewCode {
        email: owned(email),
        code_hash: hash_code(email, code.as_str()),
        expires_at: now + ttl_secs,
    };
    let message = code_message(email, code.as_str(), ttl_secs);
    (row, message)
}

/// The one answer to a code submission: accepted, or unauthorized whatever the reason, so
/// "expired", "already used" and "wrong" cannot be told apart.
pub fn code_answer(outcome: core::result::Result<(), CodeRejection>) -> (r: Result<()>)
    ensures
        outcome is Ok ==> r is Ok,
        outcome is Err ==> (r matches Err(Error::Unauthorized)),
{
    match outcome {
        Ok(()) => Ok(()),
        Err(_) => Err(Error::Unauthorized),
    }
}

/// Whether a login may mint a session for an account, given whether the account requires a
/// second factor, whether a proof secret is configured, and the verdict on the proof it
/// presented (`None` when it presented none).
///
/// An account that requires a factor on an authority with no secret to verify one refuses:
/// losing the secret must not silently disable the requirement.
pub fn check_second_factor(required: bool, has_secret: bool, proof_ok: Option<bool>) -> (r: Result<
    (),
>)
    ensures
        !required ==> r is Ok,
        required && !has_secret ==> (r matches Err(Error::Internal(m)) && m@
            == "second factor required but unverifiable"@),
        required && has_secret ==> (r is Ok <==> proof_ok == Some(true)),
        required && has_secret && r is Err ==> (r matches Err(Error::Unauthorized)),
{
    if !required {
        return Ok(());
    }
    if !has_secret {
        return Err(Error::Internal(owned("second factor required but unverifiable")));
    }
    match proof_ok {
        Some(true) => Ok(()),
        _ => Err(Error::Unauthorized),
    }
}

} // verus!
