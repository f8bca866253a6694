use base64::Engine;
use vault42_authority::auth::handlers::{authenticate, enrolment, login_verdict, me_of, rehash, sign_in, Credentials, PasswdReq};
use vault42_authority::auth::password::{hash, verify};
use vault42_authority::auth::Principal;
use vault42_authority::error::Error;
use vault42_authority::pop::{decoded, Claim};
use vault42_authority::store::accounts::Account;

fn account(password: &str, status: &str) -> Account {
    Account {
        id: "a1".into(),
        email: "dev@x.test".into(),
        password_hash: hash(password).unwrap(),
        status: status.into(),
        mfa_required: false,
    }
}

#[test]
fn signup_stores_a_normalized_address_and_a_hash() {
    let (email, phc) = enrolment(&Credentials {
        email: " Dev@X.test".into(),
        password: "correct horse battery".into(),
        otp_proof: None,
    })
    .unwrap();
    assert_eq!(email, "dev@x.test");
    assert!(verify("correct horse battery", &phc));
    assert!(matches!(
        enrolment(&Credentials { email: "nope".into(), password: "short".into(), otp_proof: None }),
        Err(Error::BadRequest(m)) if m == "email must contain '@'"
    ));
    assert!(matches!(
        enrolment(&Credentials { email: "a@b.co".into(), password: "short".into(), otp_proof: None }),
        Err(Error::BadRequest(m)) if m == "password must be at least 12 characters"
    ));
}

#[test]
fn every_bad_login_is_unauthorized() {
    let live = account("correct horse battery", "active");
    assert_eq!(authenticate(Some(&live), "correct horse battery").unwrap(), "a1");
    assert!(matches!(authenticate(Some(&live), "wrong password!"), Err(Error::Unauthorized)));
    assert!(matches!(authenticate(None, "correct horse battery"), Err(Error::Unauthorized)));
    let disabled = account("correct horse battery", "disabled");
    assert!(matches!(authenticate(Some(&disabled), "correct horse battery"), Err(Error::Unauthorized)));
}

#[test]
fn a_required_second_factor_gates_every_login() {
    let mut guarded = account("correct horse battery", "active");
    guarded.mfa_required = true;
    assert!(matches!(sign_in(Some(&guarded), "correct horse battery", true, None), Err(Error::Unauthorized)));
    assert!(matches!(sign_in(Some(&guarded), "correct horse battery", true, Some(false)), Err(Error::Unauthorized)));
    assert_eq!(sign_in(Some(&guarded), "correct horse battery", true, Some(true)).unwrap(), "a1");
    assert!(matches!(sign_in(Some(&guarded), "correct horse battery", false, Some(true)), Err(Error::Internal(_))));
    assert!(matches!(sign_in(Some(&guarded), "wrong password!", true, Some(true)), Err(Error::Unauthorized)));
    let plain = account("correct horse battery", "active");
    assert_eq!(sign_in(Some(&plain), "correct horse battery", false, None).unwrap(), "a1");
    assert!(matches!(sign_in(None, "correct horse battery", true, Some(true)), Err(Error::Unauthorized)));
}

#[test]
fn the_correct_password_is_refused_while_throttled() {
    let live = account("correct horse battery", "active");
    assert_eq!(login_verdict(5, Some(&live), "correct horse battery", false, None).unwrap(), "a1");
    assert!(matches!(
        login_verdict(6, Some(&live), "correct horse battery", false, None),
        Err(Error::TooManyRequests)
    ));
    assert!(matches!(login_verdict(6, None, "anything", false, None), Err(Error::TooManyRequests)));
    assert!(matches!(login_verdict(1, None, "anything", false, None), Err(Error::Unauthorized)));
}

#[test]
fn a_password_change_needs_the_current_password() {
    let live = account("correct horse battery", "active");
    let change = PasswdReq {
        current_password: "correct horse battery".into(),
        new_password: "a brand new passphrase".into(),
    };
    let phc = rehash(Some(&live), &change).unwrap();
    assert!(verify("a brand new passphrase", &phc));
    let wrong = PasswdReq {
        current_password: "guess".into(),
        new_password: "a brand new passphrase".into(),
    };
    assert!(matches!(rehash(Some(&live), &wrong), Err(Error::Unauthorized)));
    assert!(matches!(rehash(None, &change), Err(Error::Unauthorized)));
    let weak = PasswdReq { current_password: "guess".into(), new_password: "short".into() };
    assert!(matches!(rehash(None, &weak), Err(Error::BadRequest(_))), "the new password is checked first");
}

#[test]
fn me_reports_the_caller() {
    let caller = Principal {
        account_id: "a1".into(),
        email: "dev@x.test".into(),
        mfa_required: true,
        token_hash: "h".into(),
    };
    let me = me_of(&caller);
    assert_eq!(me.account_id, "a1");
    assert_eq!(me.email, "dev@x.test");
    assert!(me.mfa_required);
}

#[test]
fn only_well_formed_claims_are_decoded() {
    let standard = base64::engine::general_purpose::STANDARD;
    let x = standard.encode([1u8; 32]);
    let ed = standard.encode([2u8; 32]);
    let sig = standard.encode([3u8; 64]);
    let claim = Claim { account_id: "a", org_id: "o", x25519_pub: &x, ed25519_pub: &ed, pubkey_sig: &sig };
    let keys = decoded(&claim).expect("well formed");
    assert_eq!(keys.ed25519, vec![2u8; 32]);
    assert_eq!(keys.signature, vec![3u8; 64]);
    let short = standard.encode([1u8; 31]);
    for (x, ed, s) in [
        ("not-base64!!", ed.as_str(), sig.as_str()),
        (x.as_str(), "not-base64!!", sig.as_str()),
        (x.as_str(), ed.as_str(), "not-base64!!"),
        ("", ed.as_str(), sig.as_str()),
        (x.as_str(), "", sig.as_str()),
        (short.as_str(), ed.as_str(), sig.as_str()),
        (x.as_str(), short.as_str(), sig.as_str()),
    ] {
        let claim = Claim { account_id: "a", org_id: "o", x25519_pub: x, ed25519_pub: ed, pubkey_sig: s };
        assert!(decoded(&claim).is_none());
    }
}

#[test]
fn errors_render_their_status_and_a_safe_message() {
    assert_eq!(Error::BadRequest("x".into()).status(), 400);
    assert_eq!(Error::Unauthorized.status(), 401);
    assert_eq!(Error::Forbidden.status(), 403);
    assert_eq!(Error::NotFound.status(), 404);
    assert_eq!(Error::Conflict("c".into()).status(), 409);
    assert_eq!(Error::TooManyRequests.status(), 429);
    assert_eq!(Error::Internal("db path /secret".into()).status(), 500);
    assert_eq!(Error::Internal("db path /secret".into()).message(), "internal error");
    assert_eq!(Error::BadRequest("why".into()).message(), "why");
    assert_eq!(Error::TooManyRequests.message(), "too many attempts; try again later");
}

#[test]
fn a_refused_login_is_unauthorized_whichever_way_it_failed() {
    let live = account("correct horse battery", "active");
    let disabled = account("correct horse battery", "disabled");
    for (who, password) in [(Some(&live), "wrong password!"), (None, "correct horse battery"), (Some(&disabled), "correct horse battery")] {
        assert!(matches!(login_verdict(1, who, password, false, None), Err(Error::Unauthorized)));
    }
}

#[test]
fn a_wrong_password_is_unauthorized_even_where_the_factor_cannot_be_checked() {
    let mut guarded = account("correct horse battery", "active");
    guarded.mfa_required = true;
    assert!(matches!(login_verdict(1, Some(&guarded), "wrong password!", false, None), Err(Error::Unauthorized)));
    assert!(matches!(login_verdict(1, None, "wrong password!", false, None), Err(Error::Unauthorized)));
    assert!(matches!(login_verdict(1, Some(&guarded), "correct horse battery", false, None), Err(Error::Internal(_))));
}
