//! Rate limits, in one place so both callers cannot drift.
//!
//! The limit must not become an oracle: the code-request path answers identically for an
//! address that has an account and one that does not, so the count is taken before anything
//! is looked up, on the address as given.

use crate::error::{Error, Result};
use vstd::prelude::*;

verus! {

/// Password attempts against one address.
pub const LOGIN: &'static str = "login";

/// One-time-code requests for one address.
pub const CODE: &'static str = "code";

/// How many attempts a window tolerates before the answer becomes a refusal. Five is
/// generous for a person and ruinous for a guesser.
pub const LIMIT: i64 = 5;

/// The window, in seconds: an hour, so guessing costs time.
pub const WINDOW_SECS: i64 = 3600;

/// Refuse once the attempts recorded in the current window, this one included, exceed the
/// limit.
pub fn check_spent(spent: i64) -> (r: Result<()>)
    ensures
        spent > LIMIT ==> (r matches Err(Error::TooManyRequests)),
        spent <= LIMIT ==> r is Ok,
{
    if spent > LIMIT {
        return Err(Error::TooManyRequests);
    }
    Ok(())
}

/// Inside one window the first five attempts pass and every later one is refused, whatever
/// the address: the ledger counts attempts one by one and the limit reads that count.
pub proof fn five_attempts_an_hour(times: Seq<i64>)
    requires
        times.len() > 0,
        times.len() <= i64::MAX,
        forall|k: int| 0 <= k < times.len() ==> 0 <= #[trigger] times[k] - times[0] < WINDOW_SECS,
    ensures
        crate::store::attempts::count_after(times, WINDOW_SECS).0 > LIMIT <==> times.len() > 5,
{
    crate::store::attempts::attempts_in_a_window_are_counted(times, WINDOW_SECS);
}

} // verus!
