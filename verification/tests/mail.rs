use vault42_authority::config::{MailConfig, MailTransport};
use vault42_authority::error::Error;
use vault42_authority::mail::{code_message, deliver, safe_name, Delivery};

#[test]
fn the_subject_never_carries_the_code() {
    let message = code_message("dev@archicode.codes", "123456", 300);
    assert!(!message.subject.contains("123456"));
    assert!(message.body.contains("123456"));
    assert!(message.body.contains("5 minutes"));
}

#[test]
fn the_stated_window_is_never_zero() {
    assert!(code_message("a@b.co", "1", 30).body.contains("1 minutes"));
}

#[test]
fn an_address_cannot_steer_the_written_path() {
    assert_eq!(safe_name("../../etc/passwd"), "______etc_passwd");
    assert_eq!(safe_name("dev@archicode.codes"), "dev_archicode_codes");
    assert!(!safe_name("a/b").contains('/'));
}

#[test]
fn the_rendered_message_is_exact() {
    let message = code_message("dev@archicode.codes", "424242", 600);
    assert_eq!(message.to, "dev@archicode.codes");
    assert_eq!(message.subject, "Your vault42 sign-in code");
    assert_eq!(
        message.body,
        "Your vault42 sign-in code is 424242\n\nIt is valid for 10 minutes and can be used once.\nIf you did not try to sign in, you can ignore this message.\n"
    );
    assert!(code_message("a@b.co", "1", 0).body.contains("valid for 1 minutes"));
    assert!(code_message("a@b.co", "1", -300).body.contains("valid for 1 minutes"));
    assert!(code_message("a@b.co", "1", 119).body.contains("valid for 1 minutes"));
}

#[test]
fn the_file_transport_renders_headers_and_a_safe_name() {
    let mail = MailConfig {
        transport: MailTransport::File("/tmp/outbox".into()),
        from: "devfast@archicode.codes".into(),
        host: String::new(),
        port: 0,
        password: None,
    };
    match deliver(&mail, &code_message("dev@archicode.codes", "424242", 300)) {
        Ok(Delivery::Outbox { dir, name, rendered }) => {
            assert_eq!(dir, "/tmp/outbox");
            assert_eq!(name, "dev_archicode_codes");
            assert!(rendered.starts_with(
                "From: devfast@archicode.codes\nTo: dev@archicode.codes\nSubject: Your vault42 sign-in code\n\n"
            ));
            assert!(rendered.contains("424242"));
        }
        _ => panic!("the file transport writes to the outbox"),
    }
}

#[test]
fn smtp_needs_a_credential() {
    let mut mail = MailConfig {
        transport: MailTransport::Smtp,
        from: "devfast@archicode.codes".into(),
        host: "smtp.titan.email".into(),
        port: 465,
        password: None,
    };
    let message = code_message("dev@archicode.codes", "424242", 300);
    assert!(matches!(deliver(&mail, &message), Err(Error::Internal(m)) if m == "no mail credential configured"));
    mail.password = Some("pw".into());
    match deliver(&mail, &message) {
        Ok(Delivery::Smtp { host, port, from, password }) => {
            assert_eq!(host, "smtp.titan.email");
            assert_eq!(port, 465);
            assert_eq!(from, "devfast@archicode.codes");
            assert_eq!(password, "pw");
        }
        _ => panic!("smtp with a credential sends"),
    }
}

#[test]
fn smtp_refuses_what_is_not_an_address() {
    let mail = MailConfig {
        transport: MailTransport::Smtp,
        from: "devfast@archicode.codes".into(),
        host: "smtp.titan.email".into(),
        port: 465,
        password: Some("pw".into()),
    };
    let nowhere = code_message("not an address", "424242", 300);
    assert!(matches!(deliver(&mail, &nowhere), Err(Error::BadRequest(m)) if m == "not a deliverable address"));
    let broken_sender = MailConfig { from: "no-at-sign".into(), ..mail };
    let message = code_message("dev@archicode.codes", "424242", 300);
    assert!(matches!(deliver(&broken_sender, &message), Err(Error::Internal(m)) if m == "MAIL_FROM is not an address"));
    // A bad sender is the configuration's fault, and is reported before the recipient.
    assert!(matches!(deliver(&broken_sender, &nowhere), Err(Error::Internal(_))));
}
