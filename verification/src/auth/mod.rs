//! Account authentication: password hashing, session tokens, and the bearer-token guard.

pub mod guard;
pub mod handlers;
pub mod password;
pub mod session;

use vstd::prelude::*;

verus! {

/// Who is making a request, resolved from a bearer token.
///
/// `account_id` is the canonical user id: it is what the membership listing returns, what a
/// grant names, and what appears in a grant's missing list.
#[derive(Clone)]
pub struct Principal {
    pub account_id: String,
    pub email: String,
    pub mfa_required: bool,
    pub token_hash: String,
}

} // verus!
