use vault42_authority::config::{mail_transport, parse_int, Config, GithubConfig, MailConfig, MailTransport, OtpConfig};

fn usable(transport: MailTransport, password: Option<&str>) -> Config {
    Config {
        bind: "127.0.0.1:0".into(),
        db_path: ":memory:".into(),
        key_path: "/tmp/k".into(),
        seed_hex: None,
        contract_ttl_days: 365,
        session_ttl_secs: 3600,
        register_token: None,
        otp: OtpConfig {
            proof_secret: Some(b"secret".to_vec()),
            ttl_secs: 300,
            proof_ttl_secs: 600,
        },
        mail: MailConfig {
            transport,
            from: "devfast@archicode.codes".into(),
            host: "smtp.titan.email".into(),
            port: 465,
            password: password.map(str::to_string),
        },
        github: GithubConfig {
            client_id: None,
            oauth_base: "https://github.com".into(),
            api_base: "https://api.github.com".into(),
        },
    }
}

#[test]
fn a_usable_transport_starts() {
    usable(MailTransport::Smtp, Some("pw"))
        .check_mail_usable()
        .expect("smtp with a credential");
    usable(MailTransport::File("/tmp/outbox".into()), None)
        .check_mail_usable()
        .expect("file with a directory");
}

#[test]
fn an_unusable_transport_refuses_to_start() {
    assert!(usable(MailTransport::Smtp, None).check_mail_usable().is_err());
    assert!(usable(MailTransport::File(String::new()), None)
        .check_mail_usable()
        .is_err());
}

#[test]
fn an_unnamed_sender_refuses_to_start() {
    let mut cfg = usable(MailTransport::File("/tmp/outbox".into()), None);
    cfg.mail.from = String::new();
    assert!(cfg.check_mail_usable().is_err());
}

#[test]
fn without_second_factors_no_transport_is_needed() {
    let mut cfg = usable(MailTransport::Smtp, None);
    cfg.otp.proof_secret = None;
    assert!(!cfg.second_factors_enabled());
    cfg.check_mail_usable().expect("nothing to deliver");
}

#[test]
fn each_refusal_names_the_missing_setting() {
    assert_eq!(
        usable(MailTransport::Smtp, None).check_mail_usable().unwrap_err(),
        "second factors need MAIL_PASSWORD to authenticate SMTP"
    );
    assert_eq!(
        usable(MailTransport::File(String::new()), None).check_mail_usable().unwrap_err(),
        "MAIL_TRANSPORT=file needs MAIL_OUTBOX to name a directory"
    );
    let mut cfg = usable(MailTransport::Smtp, Some("pw"));
    cfg.mail.from = String::new();
    assert_eq!(
        cfg.check_mail_usable().unwrap_err(),
        "second factors need MAIL_FROM to name the sending address"
    );
}

#[test]
fn only_file_selects_the_outbox() {
    assert!(matches!(mail_transport("file", "/o"), MailTransport::File(d) if d == "/o"));
    assert!(matches!(mail_transport("smtp", "/o"), MailTransport::Smtp));
    assert!(matches!(mail_transport("File", "/o"), MailTransport::Smtp));
    assert!(matches!(mail_transport("", "/o"), MailTransport::Smtp));
}

fn vars(pairs: &[(&str, &str)]) -> Vec<(String, String)> {
    pairs.iter().map(|(k, v)| (k.to_string(), v.to_string())).collect()
}

#[test]
fn an_empty_environment_takes_every_default() {
    let cfg = Config::from_vars(&Vec::new());
    assert_eq!(cfg.bind, "0.0.0.0:8444");
    assert_eq!(cfg.db_path, "/data/authority.db");
    assert_eq!(cfg.key_path, "/data/contract.key");
    assert!(cfg.seed_hex.is_none());
    assert_eq!(cfg.contract_ttl_days, 365);
    assert_eq!(cfg.session_ttl_secs, 86_400);
    assert!(cfg.register_token.is_none());
    assert!(cfg.otp.proof_secret.is_none());
    assert_eq!(cfg.otp.ttl_secs, 300);
    assert_eq!(cfg.otp.proof_ttl_secs, 600);
    assert!(cfg.github.client_id.is_none());
    assert_eq!(cfg.github.oauth_base, "https://github.com");
    assert_eq!(cfg.github.api_base, "https://api.github.com");
    assert!(matches!(cfg.mail.transport, MailTransport::Smtp));
    assert_eq!(cfg.mail.from, "");
    assert_eq!(cfg.mail.host, "smtp.titan.email");
    assert_eq!(cfg.mail.port, 465);
    assert!(cfg.mail.password.is_none());
}

#[test]
fn set_variables_override_and_junk_integers_fall_back() {
    let cfg = Config::from_vars(&vars(&[
        ("VAULT42_AUTHORITY_HOST", "127.0.0.1"),
        ("VAULT42_AUTHORITY_PORT", "9000"),
        ("VAULT42_CONTRACT_TTL_DAYS", "30"),
        ("VAULT42_AUTHORITY_SESSION_TTL_SECS", "12x"),
        ("VAULT42_OTP_TTL_SECS", "-5"),
        ("VAULT42_OTP_PROOF_TTL_SECS", "+42"),
        ("GOTRUE_JWT_SECRET", "legacy"),
        ("GITHUB_CLIENT_ID", ""),
        ("MAIL_TRANSPORT", "file"),
        ("MAIL_OUTBOX", "/tmp/out"),
        ("MAIL_PORT", "70000"),
        ("MAIL_PASSWORD", "pw"),
    ]));
    assert_eq!(cfg.bind, "127.0.0.1:9000");
    assert_eq!(cfg.contract_ttl_days, 30);
    assert_eq!(cfg.session_ttl_secs, 86_400);
    assert_eq!(cfg.otp.ttl_secs, -5);
    assert_eq!(cfg.otp.proof_ttl_secs, 42);
    assert_eq!(cfg.otp.proof_secret.as_deref(), Some(&b"legacy"[..]));
    assert!(cfg.github.client_id.is_none(), "an empty client id is no client id");
    assert!(matches!(cfg.mail.transport, MailTransport::File(ref d) if d == "/tmp/out"));
    assert_eq!(cfg.mail.port, (70000i64 as u16));
    assert_eq!(cfg.mail.password.as_deref(), Some("pw"));
}

#[test]
fn the_named_proof_secret_wins_over_the_legacy_one() {
    let cfg = Config::from_vars(&vars(&[
        ("GOTRUE_JWT_SECRET", "legacy"),
        ("VAULT42_OTP_PROOF_SECRET", "current"),
    ]));
    assert_eq!(cfg.otp.proof_secret.as_deref(), Some(&b"current"[..]));
}

#[test]
fn integers_parse_as_i64_does() {
    for text in ["0", "7", "-7", "+7", "9223372036854775807", "-9223372036854775808", "007"] {
        assert_eq!(parse_int(text), text.parse::<i64>().ok(), "{text:?}");
    }
    for text in ["", "-", "+", " 1", "1 ", "9223372036854775808", "-9223372036854775809", "1e3", "٣"] {
        assert_eq!(parse_int(text), None, "{text:?}");
    }
}
