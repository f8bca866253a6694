use vault42_authority::auth::guard::bearer;
use vault42_authority::auth::session::{hash_token, mint};

#[test]
fn tokens_are_unique_and_expire_when_told() {
    let a = mint(1_000, 60);
    let b = mint(1_000, 60);
    assert_ne!(a.token, b.token);
    assert_ne!(a.token_hash, b.token_hash);
    assert_eq!(a.expires_at, 1_060);
}

#[test]
fn the_hash_is_stable_and_not_the_token() {
    let issued = mint(0, 1);
    assert_eq!(issued.token_hash, hash_token(&issued.token));
    assert_ne!(issued.token_hash, issued.token);
    assert_eq!(issued.token_hash.len(), 64);
}

#[test]
fn a_token_hash_is_hex_blake3_of_the_token() {
    assert_eq!(hash_token("abc"), blake3::hash(b"abc").to_hex().to_string());
    let issued = mint(0, 1);
    assert_eq!(issued.token.len(), 43, "32 bytes in unpadded base64");
}

#[test]
fn only_a_bearer_credential_yields_a_token() {
    assert_eq!(bearer(Some("Bearer abc")).as_deref(), Some("abc"));
    assert_eq!(bearer(Some("bEaReR   abc  ")).as_deref(), Some("abc"));
    assert_eq!(bearer(Some("Basic abc")), None);
    assert_eq!(bearer(Some("Bearer ")), None);
    assert_eq!(bearer(Some("Bearer")), None);
    assert_eq!(bearer(None), None);
}
