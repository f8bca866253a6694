//! Invite routes' decisions. Redemption is bound to the invited address, so an intercepted
//! token is useless to anyone else, and reading an invite back is too.

use crate::auth::session::{hash_token, token_digest};
use crate::error::{Error, Result};
use crate::store::invites::{Acceptance, Accepted, InviteRow};
use crate::text::{owned, str_eq, trim, trimmed};
use vstd::prelude::*;

verus! {

/// Redeem body.
pub struct AcceptReq {
    pub token: String,
}

/// What an accepted invite granted.
pub struct AcceptedResp {
    pub scope_kind: String,
    pub scope_id: String,
    pub role: String,
}

/// An invite as the client expects it. Never carries the token.
pub struct InviteResp {
    pub id: String,
    pub scope_kind: String,
    pub scope_id: String,
    pub email: String,
    pub role: String,
    pub status: String,
    pub expires_at: i64,
}

/// What the calling account presents to redeem an invite: the digest of the trimmed token,
/// its own id and address, and the time.
pub fn acceptance(body: &AcceptReq, account_id: &str, email: &str, now: i64) -> (r: Result<
    Acceptance,
>)
    ensures
        trimmed(body.token@).len() == 0 ==> (r matches Err(Error::BadRequest(m)) && m@
            == "token must not be empty"@),
        trimmed(body.token@).len() > 0 ==> (r matches Ok(a) && a.token_hash@ == token_digest(
            trimmed(body.token@),
        ) && a.account_id@ == account_id@ && a.email@ == email@ && a.now == now),
{
    let token = trim(body.token.as_str());
    if token.as_str().is_empty() {
        return Err(Error::BadRequest(owned("token must not be empty")));
    }
    Ok(
        Acceptance {
            token_hash: hash_token(token.as_str()),
            account_id: owned(account_id),
            email: owned(email),
            now,
        },
    )
}

/// Report what an accepted invite granted.
pub fn accepted_resp(granted: Accepted) -> (r: AcceptedResp)
    ensures
        r.scope_kind == granted.scope_kind,
        r.scope_id == granted.scope_id,
        r.role == granted.role,
{
    AcceptedResp { scope_kind: granted.scope_kind, scope_id: granted.scope_id, role: granted.role }
}

/// Read an invite back for the caller whose address is `email`. Anyone else, like an
/// unknown id, gets `NotFound`: the row names who was invited to what.
pub fn show_to(invite: Option<InviteRow>, email: &str) -> (r: Result<InviteResp>)
    ensures
        r is Ok <==> (invite matches Some(i) && i.email@ == email@),
        r is Err ==> (r matches Err(Error::NotFound)),
        r matches Ok(resp) ==> invite matches Some(i) && resp.id == i.id && resp.scope_kind
            == i.scope_kind && resp.scope_id == i.scope_id && resp.email == i.email && resp.role
            == i.role && resp.status == i.status && resp.expires_at == i.expires_at,
{
    let invite = match invite {
        None => return Err(Error::NotFound),
        Some(i) => i,
    };
    if !str_eq(invite.email.as_str(), email) {
        return Err(Error::NotFound);
    }
    Ok(
        InviteResp {
            id: invite.id,
            scope_kind: invite.scope_kind,
            scope_id: invite.scope_id,
            email: invite.email,
            role: invite.role,
            status: invite.status,
            expires_at: invite.expires_at,
        },
    )
}

} // verus!
