//! One-time codes at rest, and the judgement of one submission against the stored row.
//!
//! A code is consumed as it is verified, its attempt count rises even on a wrong guess, and
//! expiry is compared in the same transaction. The order of the checks is part of the
//! contract: a used code is refused first, then an expired one, then an exhausted one.

use crate::otp::MAX_ATTEMPTS;
use vstd::prelude::*;

verus! {

/// A code to store, replacing whatever that address had before.
pub struct NewCode {
    pub email: String,
    pub code_hash: String,
    pub expires_at: i64,
}

/// Why a submitted code was not accepted. All of these are one message to the caller.
#[derive(Debug, Clone, Copy, PartialEq, Eq, Structural)]
pub enum CodeRejection {
    NoCode,
    Expired,
    AlreadyUsed,
    TooManyAttempts,
    Wrong,
}

/// The stored state of an address's code.
#[derive(Clone, Copy)]
pub struct CodeState {
    pub expires_at: i64,
    pub consumed_at: Option<i64>,
    pub attempts: i64,
}

/// What one submission does: whether it spends an attempt, whether it consumes the code,
/// and the answer.
pub struct Judgement {
    pub charge: bool,
    pub consume: bool,
    pub outcome: Result<(), CodeRejection>,
}

/// Why this code cannot be tried at all, if so.
pub open spec fn refusal(
    expires_at: i64,
    consumed_at: Option<i64>,
    attempts: i64,
    now: i64,
) -> Option<CodeRejection> {
    if consumed_at is Some {
        Some(CodeRejection::AlreadyUsed)
    } else if expires_at <= now {
        Some(CodeRejection::Expired)
    } else if attempts >= 5 {
        Some(CodeRejection::TooManyAttempts)
    } else {
        None
    }
}

/// Why this code cannot be tried at all, if so.
pub fn unusable(expires_at: i64, consumed_at: Option<i64>, attempts: i64, now: i64) -> (r: Option<
    CodeRejection,
>)
    ensures
        r == refusal(expires_at, consumed_at, attempts, now),
{
    if consumed_at.is_some() {
        return Some(CodeRejection::AlreadyUsed);
    }
    if expires_at <= now {
        return Some(CodeRejection::Expired);
    }
    if attempts >= MAX_ATTEMPTS {
        return Some(CodeRejection::TooManyAttempts);
    }
    None
}

/// What one submission against `row` at `now` does, given whether the code matched.
pub open spec fn judged(row: Option<CodeState>, now: i64, matched: bool) -> (bool, bool, Result<
    (),
    CodeRejection,
>) {
    match row {
        None => (false, false, Err(CodeRejection::NoCode)),
        Some(s) => match refusal(s.expires_at, s.consumed_at, s.attempts, now) {
            Some(why) => (false, false, Err(why)),
            None => if matched {
                (true, true, Ok(()))
            } else {
                (true, false, Err(CodeRejection::Wrong))
            },
        },
    }
}

/// Decide one submission: `row` is the stored code, if any, and `matched` whether the
/// submitted code matches its digest.
///
/// An attempt is charged before the guess is judged, so a wrong guess costs the guesser
/// whether or not they see the result; the code is consumed only on a correct guess.
pub fn judge(row: Option<CodeState>, now: i64, matched: bool) -> (j: Judgement)
    ensures
        (j.charge, j.consume, j.outcome) == judged(row, now, matched),
{
    let state = match row {
        None => return Judgement { charge: false, consume: false, outcome: Err(CodeRejection::NoCode) },
        Some(state) => state,
    };
    if let Some(why) = unusable(state.expires_at, state.consumed_at, state.attempts, now) {
        return Judgement { charge: false, consume: false, outcome: Err(why) };
    }
    if !matched {
        return Judgement { charge: true, consume: false, outcome: Err(CodeRejection::Wrong) };
    }
    Judgement { charge: true, consume: true, outcome: Ok(()) }
}

/// Whether a submission against `row` at `now` is worth checking at all: only a code that
/// exists and can still be tried. Any other row is refused whatever was submitted, so the
/// submission is not verified against it.
pub fn needs_check(row: Option<CodeState>, now: i64) -> (r: bool)
    ensures
        r == (row matches Some(s) && refusal(s.expires_at, s.consumed_at, s.attempts, now) is None),
        !r ==> judged(row, now, true) == judged(row, now, false),
{
    match row {
        None => false,
        Some(s) => unusable(s.expires_at, s.consumed_at, s.attempts, now).is_none(),
    }
}

/// The stored state after a submission was judged at `now`.
pub open spec fn after(s: CodeState, now: i64, matched: bool) -> CodeState {
    let (charge, consume, _) = judged(Some(s), now, matched);
    CodeState {
        expires_at: s.expires_at,
        consumed_at: if consume { Some(now) } else { s.consumed_at },
        attempts: if charge { (s.attempts + 1) as i64 } else { s.attempts },
    }
}

/// A correct code works exactly once: after a submission is accepted, every later
/// submission, right or wrong, is refused as already used and spends nothing.
pub proof fn a_code_works_once(s: CodeState, now: i64, later: i64, again: bool)
    requires
        judged(Some(s), now, true).2 is Ok,
    ensures
        judged(Some(after(s, now, true)), later, again) == (false, false, Err::<
            (),
            CodeRejection,
        >(CodeRejection::AlreadyUsed)),
{
}

/// Each submission against a live code spends exactly one attempt, and a code with five
/// spent attempts accepts nothing more and spends nothing more.
pub proof fn the_attempt_bound_holds(s: CodeState, now: i64, matched: bool)
    requires
        s.consumed_at is None,
        s.expires_at > now,
        0 <= s.attempts,
    ensures
        s.attempts < MAX_ATTEMPTS ==> after(s, now, matched).attempts == s.attempts + 1,
        s.attempts >= MAX_ATTEMPTS ==> judged(Some(s), now, matched) == (false, false, Err::<
            (),
            CodeRejection,
        >(CodeRejection::TooManyAttempts)),
{
}

/// The stored state after a run of submissions, each a time and whether it matched, judged
/// in order.
pub open spec fn after_all(s: CodeState, subs: Seq<(i64, bool)>) -> CodeState
    decreases subs.len(),
{
    if subs.len() == 0 {
        s
    } else {
        after_all(after(s, subs[0].0, subs[0].1), subs.drop_first())
    }
}

/// Wrong guesses before expiry each spend one attempt and leave the code unused.
proof fn lemma_wrong_guesses_spend(s: CodeState, subs: Seq<(i64, bool)>)
    requires
        s.consumed_at is None,
        0 <= s.attempts,
        s.attempts + subs.len() <= MAX_ATTEMPTS,
        forall|k: int| 0 <= k < subs.len() ==> (#[trigger] subs[k]).0 < s.expires_at && !subs[k].1,
    ensures
        after_all(s, subs) == (CodeState {
            expires_at: s.expires_at,
            consumed_at: None,
            attempts: (s.attempts + subs.len()) as i64,
        }),
    decreases subs.len(),
{
    if subs.len() > 0 {
        let next = after(s, subs[0].0, subs[0].1);
        assert(next.attempts == s.attempts + 1);
        assert forall|k: int| 0 <= k < subs.drop_first().len() implies (#[trigger] subs.drop_first()[k]).0
            < next.expires_at && !subs.drop_first()[k].1 by {
            assert(subs.drop_first()[k] == subs[k + 1]);
        }
        lemma_wrong_guesses_spend(next, subs.drop_first());
    }
}

/// Guessing is bounded: five wrong guesses at a fresh code close it, so even the right code
/// is then refused, as exhausted, and spends nothing.
pub proof fn five_wrong_guesses_close_the_code(
    s: CodeState,
    subs: Seq<(i64, bool)>,
    now: i64,
    matched: bool,
)
    requires
        s.consumed_at is None,
        s.attempts == 0,
        subs.len() == MAX_ATTEMPTS,
        forall|k: int| 0 <= k < subs.len() ==> (#[trigger] subs[k]).0 < s.expires_at && !subs[k].1,
        now < s.expires_at,
    ensures
        judged(Some(after_all(s, subs)), now, matched) == (false, false, Err::<(), CodeRejection>(
            CodeRejection::TooManyAttempts,
        )),
{
    lemma_wrong_guesses_spend(s, subs);
}

/// Once a code has been accepted, it stays used: whatever is submitted afterwards, right or
/// wrong, at any time, is refused as already used and changes nothing.
pub proof fn an_accepted_code_stays_used(
    s: CodeState,
    now: i64,
    subs: Seq<(i64, bool)>,
    later: i64,
    again: bool,
)
    requires
        judged(Some(s), now, true).2 is Ok,
    ensures
        after_all(after(s, now, true), subs) == after(s, now, true),
        judged(Some(after_all(after(s, now, true), subs)), later, again) == (false, false, Err::<
            (),
            CodeRejection,
        >(CodeRejection::AlreadyUsed)),
{
    lemma_used_stays(after(s, now, true), subs);
}

/// A used code is left exactly as it is by any run of submissions.
proof fn lemma_used_stays(u: CodeState, subs: Seq<(i64, bool)>)
    requires
        u.consumed_at is Some,
    ensures
        after_all(u, subs) == u,
    decreases subs.len(),
{
    if subs.len() > 0 {
        assert(after(u, subs[0].0, subs[0].1) == u);
        lemma_used_stays(u, subs.drop_first());
    }
}

/// The right code is accepted while the code is live: unused, unexpired and with attempts
/// left, whatever typos came before. Accepting spends one attempt and consumes the code at
/// `now`; a wrong guess at the same moment spends one attempt and is refused as wrong.
pub proof fn a_live_code_accepts_the_right_guess(s: CodeState, now: i64)
    requires
        s.consumed_at is None,
        now < s.expires_at,
        0 <= s.attempts < MAX_ATTEMPTS,
    ensures
        judged(Some(s), now, true) == (true, true, Ok::<(), CodeRejection>(())),
        judged(Some(s), now, false) == (true, false, Err::<(), CodeRejection>(CodeRejection::Wrong)),
        after(s, now, true) == (CodeState {
            expires_at: s.expires_at,
            consumed_at: Some(now),
            attempts: (s.attempts + 1) as i64,
        }),
{
}

/// The refusals come in a fixed order and never spend anything: no stored code is `NoCode`; a
/// used code is `AlreadyUsed` even once expired or exhausted; an unused but expired code is
/// `Expired` whatever its attempts; an unused, unexpired code with five attempts spent is
/// `TooManyAttempts`.
pub proof fn refusals_come_in_order(s: CodeState, now: i64, matched: bool)
    ensures
        judged(None, now, matched) == (false, false, Err::<(), CodeRejection>(CodeRejection::NoCode)),
        s.consumed_at is Some ==> judged(Some(s), now, matched) == (false, false, Err::<
            (),
            CodeRejection,
        >(CodeRejection::AlreadyUsed)),
        s.consumed_at is None && s.expires_at <= now ==> judged(Some(s), now, matched) == (
            false,
            false,
            Err::<(), CodeRejection>(CodeRejection::Expired),
        ),
        s.consumed_at is None && now < s.expires_at && s.attempts >= MAX_ATTEMPTS ==> judged(
            Some(s),
            now,
            matched,
        ) == (false, false, Err::<(), CodeRejection>(CodeRejection::TooManyAttempts)),
{
}

/// A typo does not spoil a code: after one wrong guess, the right code typed while the code
/// is still live and has attempts left is accepted.
pub proof fn a_typo_then_the_right_code_is_accepted(s: CodeState, typo_at: i64, now: i64)
    requires
        s.consumed_at is None,
        typo_at < s.expires_at,
        now < s.expires_at,
        0 <= s.attempts,
        s.attempts + 1 < MAX_ATTEMPTS,
    ensures
        judged(Some(after(s, typo_at, false)), now, true).2 is Ok,
        after(s, typo_at, false).attempts == s.attempts + 1,
{
}

/// An accepted submission always met an unused, unexpired, unexhausted code and a matching
/// guess, and it consumes the code.
pub proof fn acceptance_needs_a_live_code(row: Option<CodeState>, now: i64, matched: bool)
    requires
        judged(row, now, matched).2 is Ok,
    ensures
        row matches Some(s) && s.consumed_at is None && s.expires_at > now && s.attempts
            < MAX_ATTEMPTS,
        matched,
        judged(row, now, matched).0,
        judged(row, now, matched).1,
{
}

} // verus!
