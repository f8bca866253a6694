//! The tenant registry behind contract issuance.
//!
//! A claim is owned by an account, not merely by a key: the account is the durable identity,
//! the key a device credential that can be lost or rotated. So the same key refreshing its
//! own name is idempotent, the owning account presenting a new key rebinds the name, anyone
//! else is refused, and a quota bounds how many names one account may hold.

use vstd::prelude::*;

verus! {

/// The outcome of a claim attempt.
#[derive(Debug, Clone, Copy, PartialEq, Eq, Structural)]
pub enum Claim {
    /// The name is now bound to this account and key.
    Granted,
    /// Another account holds the name.
    Taken,
    /// This account already holds as many names as it may.
    QuotaExceeded,
}

/// A settled claim: the outcome, and whether the registry row must be written for it.
#[derive(Clone, Copy)]
pub struct Settlement {
    pub claim: Claim,
    pub write: bool,
}

/// How a claim on a name that already exists settles.
pub open spec fn rebind_of(
    held_fp: Seq<char>,
    held_account: Option<Seq<char>>,
    author_fp: Seq<char>,
    account_id: Seq<char>,
) -> (Claim, bool) {
    if held_fp == author_fp {
        (Claim::Granted, false)
    } else if held_account != Some(account_id) {
        (Claim::Taken, false)
    } else {
        (Claim::Granted, true)
    }
}

/// How a claim on a fresh name settles, given how many names the account already holds.
pub open spec fn grant_of(held: i64, max_tenants: usize) -> (Claim, bool) {
    if held as usize >= max_tenants {
        (Claim::QuotaExceeded, false)
    } else {
        (Claim::Granted, true)
    }
}

/// Settle a claim on a name that already exists, held at `held_fp` by `held_account`.
///
/// The write, when there is one, rebinds the name to `author_fp`.
pub fn rebind(held_fp: &str, held_account: Option<&str>, author_fp: &str, account_id: &str) -> (s:
    Settlement)
    ensures
        (s.claim, s.write) == rebind_of(
            held_fp@,
            match held_account {
                Some(a) => Some(a@),
                None => None,
            },
            author_fp@,
            account_id@,
        ),
{
    if crate::text::str_eq(held_fp, author_fp) {
        return Settlement { claim: Claim::Granted, write: false };
    }
    let same_owner = match held_account {
        Some(owner) => crate::text::str_eq(owner, account_id),
        None => false,
    };
    if !same_owner {
        return Settlement { claim: Claim::Taken, write: false };
    }
    Settlement { claim: Claim::Granted, write: true }
}

/// Settle a claim on a fresh name once the account's quota allows another. The write, when
/// there is one, inserts the name for this account and key.
pub fn grant(held: i64, max_tenants: usize) -> (s: Settlement)
    ensures
        (s.claim, s.write) == grant_of(held, max_tenants),
{
    if held as usize >= max_tenants {
        return Settlement { claim: Claim::QuotaExceeded, write: false };
    }
    Settlement { claim: Claim::Granted, write: true }
}

/// A name cannot be stolen: a claim on a name held by another account, with another key, is
/// refused and writes nothing. The only change ever made to a held name is its own account
/// re-keying it, and the same key refreshing its own name is granted without a write.
pub proof fn names_cannot_be_stolen(
    held_fp: Seq<char>,
    held_account: Option<Seq<char>>,
    author_fp: Seq<char>,
    account_id: Seq<char>,
)
    ensures
        held_fp != author_fp && held_account != Some(account_id) ==> rebind_of(
            held_fp,
            held_account,
            author_fp,
            account_id,
        ) == (Claim::Taken, false),
        rebind_of(held_fp, held_account, author_fp, account_id).1 ==> held_account == Some(
            account_id,
        ),
        rebind_of(held_fp, held_account, author_fp, account_id).0 is Granted ==> held_fp
            == author_fp || held_account == Some(account_id),
        held_fp == author_fp ==> rebind_of(held_fp, held_account, author_fp, account_id) == (
            Claim::Granted,
            false,
        ),
{
}

/// The quota holds, and a fresh claim is granted exactly when it is written: while the
/// account holds fewer names than the limit the name is inserted and granted, and from the
/// limit on it is refused as over quota and nothing is written. (A count of rows is never negative, and never more than a `usize` can number.)
pub proof fn the_quota_bounds_claims(held: i64, max_tenants: usize)
    requires
        0 <= held <= usize::MAX,
    ensures
        grant_of(held, max_tenants).1 <==> held < max_tenants,
        grant_of(held, max_tenants).0 is Granted <==> held < max_tenants,
        grant_of(held, max_tenants).0 is QuotaExceeded <==> held >= max_tenants,
        grant_of(held, max_tenants).0 !is Taken,
        grant_of(held, max_tenants).1 <==> grant_of(held, max_tenants).0 is Granted,
{
}

} // verus!
