//! Session rows. Only a BLAKE3 hash of the bearer token is stored, so a database leak yields
//! nothing replayable as a login. Every lookup re-checks expiry, revocation and the account's
//! status, so a disabled account cannot keep using a live token.

use crate::auth::Principal;
use crate::text::{owned, str_eq};
use vstd::prelude::*;

verus! {

/// A session row joined with its account, as a lookup by token hash reads it.
pub struct SessionRow {
    pub account_id: String,
    pub email: String,
    pub mfa_required: i64,
    pub revoked: bool,
    pub expires_at: i64,
    pub status: String,
}

/// Whether a session may be used at `now`: not revoked, not yet expired, and its account
/// still active.
pub open spec fn usable(row: SessionRow, now: i64) -> bool {
    !row.revoked && row.expires_at > now && row.status@ == "active"@
}

/// Resolve a looked-up session to its principal, or `None` when it is not usable now.
///
/// "Not usable" covers unknown, expired, revoked, and belonging to a disabled account; the
/// caller cannot tell these apart, which is intentional.
pub fn session_principal(row: Option<SessionRow>, token_hash: &str, now: i64) -> (p: Option<
    Principal,
>)
    ensures
        p is Some <==> (row matches Some(r) && usable(r, now)),
        p matches Some(who) ==> row matches Some(r) && who.account_id@ == r.account_id@
            && who.email@ == r.email@ && who.mfa_required == (r.mfa_required != 0)
            && who.token_hash@ == token_hash@,
{
    let row = match row {
        None => return None,
        Some(row) => row,
    };
    if row.revoked || row.expires_at <= now || !str_eq(row.status.as_str(), "active") {
        return None;
    }
    Some(
        Principal {
            account_id: row.account_id,
            email: row.email,
            mfa_required: row.mfa_required != 0,
            token_hash: owned(token_hash),
        },
    )
}

} // verus!
