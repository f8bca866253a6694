//! Account rows. The stored credential is an Argon2id PHC string, never a password, and
//! lookup is by the normalized email so one address cannot be registered twice.

use vstd::prelude::*;

verus! {

/// The columns a caller reads back for an account.
#[derive(Clone)]
pub struct Account {
    pub id: String,
    pub email: String,
    pub password_hash: String,
    pub status: String,
    pub mfa_required: bool,
}

/// Whether an account may sign in at all: only an active one may.
pub open spec fn is_active(account: Account) -> bool {
    account.status@ == "active"@
}

impl Account {
    /// Whether this account may sign in at all.
    pub fn active(&self) -> (r: bool)
        ensures
            r == is_active(*self),
    {
        crate::text::str_eq(self.status.as_str(), "active")
    }
}

/// The stored flag as the `mfa_required` column holds it: 1 for on, 0 for off.
pub fn mfa_flag(required: bool) -> (v: i64)
    ensures
        v == (if required { 1i64 } else { 0i64 }),
{
    if required {
        1
    } else {
        0
    }
}

} // verus!
