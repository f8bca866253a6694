use vault42_authority::otp::{check_shape, code_matches, generate_code, hash_code};

#[test]
fn only_six_digits_is_a_candidate() {
    check_shape("000000").expect("six digits");
    for junk in ["12345", "1234567", "12345a", "", "  1234", "١٢٣٤٥٦"] {
        assert!(check_shape(junk).is_err(), "{junk:?} must be refused");
    }
}

#[test]
fn a_code_is_always_six_digits() {
    for _ in 0..500 {
        let code = generate_code();
        assert_eq!(code.len(), 6, "{}", code.as_str());
        assert!(code.bytes().all(|b| b.is_ascii_digit()), "{}", code.as_str());
    }
}

#[test]
fn generated_codes_vary() {
    let drawn: std::collections::HashSet<String> =
        (0..200).map(|_| generate_code().to_string()).collect();
    assert!(drawn.len() > 150, "expected variety, got {}", drawn.len());
}

#[test]
fn a_digest_is_bound_to_its_address() {
    let mine = hash_code("dev@archicode.codes", "123456");
    assert_ne!(mine, hash_code("someone@else.test", "123456"));
    assert_ne!(mine, hash_code("dev@archicode.codes", "123457"));
    assert_eq!(
        mine,
        hash_code("Dev@Archicode.Codes", "123456"),
        "the address is compared case-insensitively, as it is stored"
    );
}

#[test]
fn matching_accepts_only_the_right_code() {
    let stored = hash_code("dev@archicode.codes", "123456");
    assert!(code_matches("dev@archicode.codes", "123456", &stored));
    assert!(!code_matches("dev@archicode.codes", "123457", &stored));
    assert!(!code_matches("other@x.test", "123456", &stored));
    assert!(!code_matches("dev@archicode.codes", "", &stored));
}

#[test]
fn a_digest_is_the_hex_blake3_of_the_framed_code() {
    let mut framed = b"vault42/otp/v1".to_vec();
    framed.extend_from_slice(b"dev@archicode.codes\n123456");
    let expected = blake3::hash(&framed).to_hex().to_string();
    assert_eq!(hash_code("DEV@archicode.codes", "123456"), expected);
    assert_eq!(expected.len(), 64);
}
