use vault42_authority::error::Error;
use vault42_authority::handlers::secondfactor::{check_blob, check_second_factor, code_answer, code_request, fresh_code};
use vault42_authority::otp::{code_matches, MAX_ATTEMPTS};
use vault42_authority::store::secondfactor::{judge, needs_check, unusable, CodeRejection, CodeState};

#[test]
fn a_consumed_code_is_refused_first() {
    assert_eq!(unusable(i64::MAX, Some(1), 0, 100), Some(CodeRejection::AlreadyUsed));
}

#[test]
fn expiry_is_reported_as_expiry() {
    assert_eq!(unusable(100, None, 99, 100), Some(CodeRejection::Expired));
    assert_eq!(unusable(99, None, 0, 100), Some(CodeRejection::Expired));
}

#[test]
fn the_attempt_bound_closes_the_code() {
    let bound = MAX_ATTEMPTS;
    assert_eq!(unusable(i64::MAX, None, bound, 1), Some(CodeRejection::TooManyAttempts));
    assert_eq!(unusable(i64::MAX, None, bound - 1, 1), None);
}

#[test]
fn a_live_code_is_usable() {
    assert_eq!(unusable(i64::MAX, None, 0, 100), None);
}

#[test]
fn a_code_works_once_and_charges_every_guess() {
    let live = CodeState { expires_at: 1_000, consumed_at: None, attempts: 0 };
    let wrong = judge(Some(live), 10, false);
    assert!(wrong.charge && !wrong.consume);
    assert_eq!(wrong.outcome, Err(CodeRejection::Wrong));
    let right = judge(Some(live), 10, true);
    assert!(right.charge && right.consume);
    assert_eq!(right.outcome, Ok(()));
    let used = CodeState { expires_at: 1_000, consumed_at: Some(10), attempts: 1 };
    let again = judge(Some(used), 11, true);
    assert!(!again.charge && !again.consume);
    assert_eq!(again.outcome, Err(CodeRejection::AlreadyUsed));
    let none = judge(None, 11, true);
    assert_eq!(none.outcome, Err(CodeRejection::NoCode));
}

#[test]
fn every_rejection_is_one_answer() {
    for why in [
        CodeRejection::NoCode,
        CodeRejection::Expired,
        CodeRejection::AlreadyUsed,
        CodeRejection::TooManyAttempts,
        CodeRejection::Wrong,
    ] {
        assert!(matches!(code_answer(Err(why)), Err(Error::Unauthorized)));
    }
    assert!(code_answer(Ok(())).is_ok());
}

#[test]
fn the_second_factor_gate() {
    check_second_factor(false, false, None).expect("not required");
    assert!(matches!(
        check_second_factor(true, false, Some(true)),
        Err(Error::Internal(m)) if m == "second factor required but unverifiable"
    ));
    assert!(matches!(check_second_factor(true, true, None), Err(Error::Unauthorized)));
    assert!(matches!(check_second_factor(true, true, Some(false)), Err(Error::Unauthorized)));
    check_second_factor(true, true, Some(true)).expect("a verified proof passes");
}

#[test]
fn escrow_blobs_are_bounded() {
    check_blob("x").expect("one byte");
    check_blob(&"x".repeat(64 * 1024)).expect("the limit itself");
    assert!(matches!(check_blob(""), Err(Error::BadRequest(m)) if m == "blob must be 1..=65536 bytes"));
    assert!(check_blob(&"x".repeat(64 * 1024 + 1)).is_err());
}

#[test]
fn a_fresh_code_is_stored_only_as_its_digest() {
    let (row, message) = fresh_code("dev@archicode.codes", 1_000, 300);
    assert_eq!(row.email, "dev@archicode.codes");
    assert_eq!(row.expires_at, 1_300);
    assert_eq!(message.to, "dev@archicode.codes");
    let code = &message.body["Your vault42 sign-in code is ".len().."Your vault42 sign-in code is ".len() + 6];
    assert!(code.bytes().all(|b| b.is_ascii_digit()));
    assert_ne!(row.code_hash, code);
    assert!(code_matches("dev@archicode.codes", code, &row.code_hash));
}

#[test]
fn the_code_request_limit_answers_the_same_for_a_known_and_an_unknown_address() {
    for spent in 1..=7i64 {
        let (known, issue_known) = code_request(spent, true);
        let (unknown, issue_unknown) = code_request(spent, false);
        assert_eq!(known.is_ok(), unknown.is_ok(), "attempt {spent}");
        assert!(!issue_unknown, "no account, no code");
        assert_eq!(issue_known, spent <= 5);
        if spent > 5 {
            assert!(matches!(known, Err(Error::TooManyRequests)));
        }
    }
}

#[test]
fn only_a_live_code_is_worth_checking() {
    let live = CodeState { expires_at: 100, consumed_at: None, attempts: 0 };
    assert!(needs_check(Some(live), 50));
    assert!(!needs_check(None, 50));
    assert!(!needs_check(Some(live), 100));
    assert!(!needs_check(Some(CodeState { consumed_at: Some(10), ..live }), 50));
    assert!(!needs_check(Some(CodeState { attempts: 5, ..live }), 50));
}
