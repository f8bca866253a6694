//! Environment rows and their published scope keys. Rotation is an epoch bump, and the
//! epoch must advance: a stale client must not roll an environment back to a key that
//! removed members still hold.

use crate::error::{Error, Result};
use crate::text::{join, signed_decimal, signed_decimal_text};
use vstd::prelude::*;

verus! {

/// A new environment.
pub struct NewEnvironment {
    pub id: String,
    pub project_id: String,
    pub name: String,
}

/// An environment as the API reports it.
pub struct Environment {
    pub id: String,
    pub name: String,
    pub scope_pubkey: Option<String>,
    pub scope_epoch: i64,
}

/// Refuse a scope epoch that does not advance past the environment's `current` one.
pub fn check_epoch(current: i64, proposed: i64) -> (r: Result<()>)
    ensures
        proposed > current ==> r is Ok,
        proposed <= current ==> (r matches Err(Error::Conflict(m)) && m@
            == "scope_epoch must advance; environment is at "@ + signed_decimal_text(current as int)),
{
    if proposed <= current {
        return Err(
            Error::Conflict(
                join("scope_epoch must advance; environment is at ", signed_decimal(current).as_str()),
            ),
        );
    }
    Ok(())
}

} // verus!
