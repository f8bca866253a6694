use vault42_authority::auth::password::{hash, lanes_within_limit, verify, verify_absent};

#[test]
fn the_absent_account_path_always_fails_and_does_real_work() {
    assert!(!verify_absent("anything at all"));
}

#[test]
fn a_hash_verifies_only_against_its_own_password() {
    let phc = hash("correct horse battery").unwrap();
    assert!(verify("correct horse battery", &phc));
    assert!(!verify("Correct horse battery", &phc));
    assert!(!verify("", &phc));
}

#[test]
fn the_same_password_hashes_differently_each_time() {
    let a = hash("correct horse battery").unwrap();
    let b = hash("correct horse battery").unwrap();
    assert_ne!(a, b, "salt must be fresh per hash");
    assert!(verify("correct horse battery", &a));
    assert!(verify("correct horse battery", &b));
}

#[test]
fn the_declared_parameters_land_in_the_phc_string() {
    let phc = hash("correct horse battery").unwrap();
    assert!(phc.starts_with("$argon2id$v=19$m=19456,t=2,p=1$"), "got {phc}");
}

#[test]
fn a_malformed_stored_hash_denies_rather_than_panics() {
    assert!(!verify("anything", "not-a-phc-string"));
    assert!(!verify("anything", ""));
}

#[test]
fn absent_and_wrong_password_paths_cost_the_same_order_of_time() {
    let phc = hash("correct horse battery").unwrap();
    let wrong = std::time::Instant::now();
    assert!(!verify("wrong password entirely", &phc));
    let wrong = wrong.elapsed();
    let absent = std::time::Instant::now();
    assert!(!verify_absent("wrong password entirely"));
    let absent = absent.elapsed();
    let (lo, hi) = if absent < wrong { (absent, wrong) } else { (wrong, absent) };
    assert!(
        hi < lo * 8 + std::time::Duration::from_millis(20),
        "absent path {absent:?} must not be trivially cheaper than wrong-password {wrong:?}"
    );
}

#[test]
fn an_absurd_lane_count_is_refused_without_reaching_argon2() {
    let huge = "$argon2id$v=19$m=19456,t=2,p=536870912$c29tZXNhbHQxMjM0NTY$aGFzaGhhc2hoYXNoaGFzaA";
    assert!(!lanes_within_limit(huge));
    assert!(!verify("anything", huge));
    let phc = hash("correct horse battery").unwrap();
    assert!(lanes_within_limit(&phc));
    assert!(lanes_within_limit("$argon2id$v=19$m=19456,t=2,p=99999999$x$y"));
    assert!(!lanes_within_limit("p=123456789"));
}
