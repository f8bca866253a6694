use vault42_authority::validate::{check_password, normalize_email, valid_tenant, MAX_PASSWORD_LEN, MIN_PASSWORD_LEN};

#[test]
fn email_is_normalized_and_bounded() {
    assert_eq!(normalize_email("  Dev@Archicode.Codes ").unwrap(), "dev@archicode.codes");
    assert!(normalize_email("no-at-sign").is_err());
    assert!(normalize_email("@domain.tld").is_err());
    assert!(normalize_email("local@").is_err());
    assert!(normalize_email("local@nodot").is_err());
    assert!(normalize_email("a@b.c\u{7f}").is_err());
    assert!(normalize_email("two@at@signs.tld").is_err());
    assert!(normalize_email(&format!("{}@x.tld", "a".repeat(300))).is_err());
}

#[test]
fn password_length_is_enforced_at_both_ends() {
    assert!(check_password("correct horse battery").is_ok());
    assert!(check_password("short").is_err());
    assert!(check_password(&"a".repeat(MAX_PASSWORD_LEN + 1)).is_err());
    assert!(check_password(&"a".repeat(MIN_PASSWORD_LEN)).is_ok());
}

#[test]
fn each_email_refusal_says_why() {
    assert_eq!(normalize_email("   ").unwrap_err(), "email must be 1..=254 characters");
    assert_eq!(
        normalize_email("a b@c.de").unwrap_err(),
        "email must not contain whitespace or control characters"
    );
    assert_eq!(normalize_email("nope").unwrap_err(), "email must contain '@'");
    assert_eq!(normalize_email("a@b").unwrap_err(), "email must look like local@domain.tld");
    assert_eq!(check_password("short").unwrap_err(), "password must be at least 12 characters");
    assert_eq!(
        check_password(&"a".repeat(1025)).unwrap_err(),
        "password must be at most 1024 characters"
    );
}

#[test]
fn a_password_is_measured_in_bytes() {
    assert!(check_password("éééééé").is_ok(), "six characters, twelve bytes");
    assert!(check_password("éééé1").is_err());
}

#[test]
fn tenant_names_follow_the_identifier_rule() {
    assert!(valid_tenant("acme"));
    assert!(valid_tenant("a-b_C9"));
    assert!(valid_tenant(&"a".repeat(64)));
    assert!(!valid_tenant(&"a".repeat(65)));
    assert!(!valid_tenant(""));
    assert!(!valid_tenant("a b"));
    assert!(!valid_tenant("a.b"));
    assert!(!valid_tenant("é"));
}

#[test]
fn normalizing_a_stored_address_changes_nothing() {
    let stored = normalize_email("  Dev.Ops@Example.COM ").unwrap();
    assert_eq!(stored, "dev.ops@example.com");
    assert_eq!(normalize_email(&stored).unwrap(), stored);
}
