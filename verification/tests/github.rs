use vault42_authority::error::Error;
use vault42_authority::handlers::github::{configured, github_signin, pending_or_refused, signin_account, verified_address, GithubEmail};
use vault42_authority::store::accounts::Account;

#[test]
fn only_a_pending_grant_keeps_the_client_polling() {
    for waiting in ["authorization_pending", "slow_down"] {
        let answer = pending_or_refused(Some(waiting)).expect("pending is not an error");
        assert!(answer.access_token.is_none());
    }
    for over in [Some("expired_token"), Some("access_denied"), Some("incorrect_device_code"), None] {
        assert!(
            pending_or_refused(over).is_err(),
            "{over:?} must end the flow rather than poll forever"
        );
    }
}

fn entry(email: &str, verified: bool, primary: bool) -> GithubEmail {
    GithubEmail { email: email.into(), verified, primary }
}

#[test]
fn the_verified_primary_address_is_preferred() {
    let listed = vec![
        entry("first@x.test", true, false),
        entry("Primary@X.test", true, true),
        entry("unverified@x.test", false, true),
    ];
    assert_eq!(verified_address(&listed).unwrap(), "primary@x.test");
}

#[test]
fn without_a_verified_primary_the_first_verified_address_is_used() {
    let listed = vec![
        entry("claimed@x.test", false, true),
        entry("second@x.test", true, false),
        entry("third@x.test", true, false),
    ];
    assert_eq!(verified_address(&listed).unwrap(), "second@x.test");
}

#[test]
fn unverified_addresses_are_never_trusted() {
    let listed = vec![entry("victim@x.test", false, true)];
    assert!(matches!(
        verified_address(&listed),
        Err(Error::BadRequest(m)) if m == "no verified address on this GitHub account"
    ));
    assert!(verified_address(&Vec::new()).is_err());
    assert!(matches!(
        verified_address(&vec![entry("not an address", true, true)]),
        Err(Error::BadRequest(m)) if m == "email must not contain whitespace or control characters"
    ));
}

#[test]
fn an_unconfigured_deployment_says_so() {
    assert_eq!(configured(Some("abc")).unwrap(), "abc");
    for missing in [None, Some("")] {
        assert!(matches!(
            configured(missing),
            Err(Error::BadRequest(m)) if m == "GitHub sign-in is not configured here"
        ));
    }
}

#[test]
fn only_an_active_account_signs_in() {
    let mut account = Account {
        id: "a1".into(),
        email: "dev@x.test".into(),
        password_hash: String::new(),
        status: "active".into(),
        mfa_required: false,
    };
    signin_account(Some(&account)).expect("active");
    account.status = "disabled".into();
    assert!(matches!(signin_account(Some(&account)), Err(Error::Unauthorized)));
    assert!(matches!(signin_account(None), Err(Error::Unauthorized)));
}

#[test]
fn a_github_sign_in_still_needs_the_second_factor() {
    let mut account = Account {
        id: "a1".into(),
        email: "dev@x.test".into(),
        password_hash: String::new(),
        status: "active".into(),
        mfa_required: false,
    };
    assert_eq!(github_signin(Some(&account), true, None).unwrap(), "a1");
    account.mfa_required = true;
    assert!(matches!(github_signin(Some(&account), true, None), Err(Error::Unauthorized)));
    assert!(matches!(github_signin(Some(&account), true, Some(false)), Err(Error::Unauthorized)));
    assert_eq!(github_signin(Some(&account), true, Some(true)).unwrap(), "a1");
    assert!(matches!(github_signin(Some(&account), false, Some(true)), Err(Error::Internal(_))));
    account.status = "disabled".into();
    assert!(matches!(github_signin(Some(&account), true, Some(true)), Err(Error::Unauthorized)));
    assert!(matches!(github_signin(None, true, Some(true)), Err(Error::Unauthorized)));
}
