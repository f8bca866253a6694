//! The attempt ledger behind every rate limit.
//!
//! The window is a fixed span from its first attempt: an attempt inside it adds one to the
//! count, and the first attempt after it starts a new window at one. It backs off rather
//! than locking out: the count decays on its own when the window passes.

use vstd::prelude::*;

verus! {

/// The count and window start after one more attempt at `now`, given the stored pair.
pub open spec fn counted(existing: Option<(i64, i64)>, now: i64, window_secs: i64) -> (int, int) {
    match existing {
        Some((count, started)) if now - started < window_secs => (count + 1, started as int),
        _ => (1, now as int),
    }
}

/// Record one attempt at `now` against the stored `(count, window_start)`, if any, and
/// return the pair to store: the running count and the window it belongs to.
pub fn next_window(existing: Option<(i64, i64)>, now: i64, window_secs: i64) -> (r: (i64, i64))
    requires
        existing matches Some((count, started)) ==> count < i64::MAX && i64::MIN <= now
            - started <= i64::MAX,
    ensures
        (r.0 as int, r.1 as int) == counted(existing, now, window_secs),
{
    match existing {
        Some((count, started)) => {
            if now - started < window_secs {
                (count + 1, started)
            } else {
                (1, now)
            }
        },
        None => (1, now),
    }
}

/// The running count after attempts at each of `times` in turn, from an empty ledger.
pub open spec fn count_after(times: Seq<i64>, window_secs: i64) -> (int, int)
    decreases times.len(),
{
    if times.len() == 0 {
        (0, 0)
    } else if times.len() == 1 {
        counted(None, times[0], window_secs)
    } else {
        let (count, started) = count_after(times.drop_last(), window_secs);
        counted(Some((count as i64, started as i64)), times.last(), window_secs)
    }
}

/// Attempts that all fall inside the window opened by the first are counted one by one, so
/// the `n`-th attempt in a window reads `n`.
pub proof fn attempts_in_a_window_are_counted(times: Seq<i64>, window_secs: i64)
    requires
        times.len() > 0,
        times.len() <= i64::MAX,
        forall|k: int| 0 <= k < times.len() ==> 0 <= #[trigger] times[k] - times[0] < window_secs,
    ensures
        count_after(times, window_secs) == (times.len() as int, times[0] as int),
    decreases times.len(),
{
    if times.len() > 1 {
        let shorter = times.drop_last();
        assert forall|k: int| 0 <= k < shorter.len() implies 0 <= #[trigger] shorter[k]
            - shorter[0] < window_secs by {
            assert(shorter[k] == times[k]);
        }
        attempts_in_a_window_are_counted(shorter, window_secs);
        assert(times.last() == times[times.len() - 1]);
    }
}

} // verus!
