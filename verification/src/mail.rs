//! Rendering a one-time code message, and the filename rule for the file transport.
//!
//! The code is in the body and nowhere else: not the subject, which mail clients show in
//! notifications and previews on a locked screen. Both transports carry the same rendered
//! message, so what a test reads cannot drift from what a person receives.

use crate::config::{MailConfig, MailTransport};
use crate::error::{Error, Result};
use lettre::message::Mailbox;
use crate::text::{ascii_alnum, chars_of, decimal, decimal_text, is_ascii_alnum, join, owned, string_of};
use vstd::prelude::*;

verus! {

/// One rendered message, ready for whichever transport carries it.
pub struct Message {
    pub to: String,
    pub subject: String,
    pub body: String,
}

/// The whole minutes a code is said to last: at least one, so a short window never reads
/// as "0 minutes".
pub open spec fn stated_minutes(ttl_secs: int) -> nat {
    if ttl_secs < 60 {
        1
    } else {
        (ttl_secs / 60) as nat
    }
}

/// The subject every code message carries. It never holds the code.
pub open spec fn code_subject() -> Seq<char> {
    "Your vault42 sign-in code"@
}

/// The body of the message carrying `code`, valid for `minutes`.
pub open spec fn code_body(code: Seq<char>, minutes: nat) -> Seq<char> {
    "Your vault42 sign-in code is "@ + code + "\n\nIt is valid for "@ + decimal_text(minutes)
        + " minutes and can be used once.\nIf you did not try to sign in, you can ignore this message.\n"@
}

/// `address` with every character but an ASCII letter or digit replaced by `_`.
pub open spec fn safe_text(address: Seq<char>) -> Seq<char> {
    address.map_values(|c: char| if is_ascii_alnum(c) { c } else { '_' })
}

/// Render the message that carries `code` to `to`.
pub fn code_message(to: &str, code: &str, ttl_secs: i64) -> (m: Message)
    ensures
        m.to@ == to@,
        m.subject@ == code_subject(),
        m.body@ == code_body(code@, stated_minutes(ttl_secs as int)),
{
    let minutes: u64 = if ttl_secs < 60 {
        1
    } else {
        (ttl_secs / 60) as u64
    };
    let mut body = join("Your vault42 sign-in code is ", code);
    body.append("\n\nIt is valid for ");
    body.append(decimal(minutes).as_str());
    body.append(
        " minutes and can be used once.\nIf you did not try to sign in, you can ignore this message.\n",
    );
    Message { to: owned(to), subject: owned("Your vault42 sign-in code"), body }
}

/// Reduce an address to characters that are safe in a filename on any platform.
pub fn safe_name(address: &str) -> (name: String)
    ensures
        name@ == safe_text(address@),
{
    let v = chars_of(address);
    let mut out: Vec<char> = Vec::new();
    let mut i: usize = 0;
    while i < v.len()
        invariant
            i <= v.len(),
            v@ == address@,
            out@ == safe_text(v@.take(i as int)),
        decreases v.len() - i,
    {
        let c = v[i];
        out.push(if ascii_alnum(c) { c } else { '_' });
        i += 1;
        assert(safe_text(v@.take(i as int)) =~= safe_text(v@.take(i - 1)).push(
            if is_ascii_alnum(c) { c } else { '_' },
        ));
    }
    assert(v@.take(v.len() as int) == v@);
    string_of(&out)
}

/// How a message goes out, once the transport is chosen.
pub enum Delivery {
    /// Write `rendered` into the directory `dir`, as a file whose name starts with `name`.
    Outbox { dir: String, name: String, rendered: String },
    /// Send over implicit TLS to `host` at `port`, authenticated as `from` with `password`.
    Smtp { host: String, port: u16, from: String, password: String },
}

/// The file the outbox transport writes: readable by a person, trivially parsed by a test.
pub open spec fn rendered_text(from: Seq<char>, message: Message) -> Seq<char> {
    "From: "@ + from + "\nTo: "@ + message.to@ + "\nSubject: "@ + message.subject@ + "\n\n"@
        + message.body@
}

/// Whether `text` parses as a mailbox, as the SMTP message builder needs its sender and
/// recipient to.
pub uninterp spec fn mailbox_accepts(text: Seq<char>) -> bool;

/// Whether lettre's `Mailbox` parser (`FromStr for Mailbox`) accepts `text`.
///
/// Claimed: the answer depends on `text` alone. Which texts it accepts is lettre's address
/// grammar, which is not restated here.
#[verifier::external_body]
fn parses_as_mailbox(text: &str) -> (r: bool)
    ensures
        r == mailbox_accepts(text@),
{
    text.parse::<Mailbox>().is_ok()
}

/// Hand `message` to the configured transport: what to write where, or where to send it.
///
/// Both transports carry the same rendered message. SMTP without a credential cannot send,
/// and says so without naming anything a client could learn from; then the sender must be an
/// address (a configuration fault), and then the recipient (the caller's fault).
pub fn deliver(mail: &MailConfig, message: &Message) -> (r: Result<Delivery>)
    ensures
        mail.transport matches MailTransport::File(dir) ==> (r matches Ok(Delivery::Outbox { dir: d, name, rendered }) && d@ == dir@ && name@ == safe_text(message.to@)
            && rendered@ == rendered_text(mail.from@, *message)),
        mail.transport is Smtp ==> match mail.password {
            Some(p) => if !mailbox_accepts(mail.from@) {
                r matches Err(Error::Internal(m)) && m@ == "MAIL_FROM is not an address"@
            } else if !mailbox_accepts(message.to@) {
                r matches Err(Error::BadRequest(m)) && m@ == "not a deliverable address"@
            } else {
                r matches Ok(Delivery::Smtp { host, port, from, password }) && host@ == mail.host@
                    && port == mail.port && from@ == mail.from@ && password@ == p@
            },
            None => r matches Err(Error::Internal(m)) && m@ == "no mail credential configured"@,
        },
{
    match &mail.transport {
        MailTransport::File(dir) => {
            let mut rendered = join("From: ", mail.from.as_str());
            rendered.append("\nTo: ");
            rendered.append(message.to.as_str());
            rendered.append("\nSubject: ");
            rendered.append(message.subject.as_str());
            rendered.append("\n\n");
            rendered.append(message.body.as_str());
            Ok(
                Delivery::Outbox {
                    dir: dir.clone(),
                    name: safe_name(message.to.as_str()),
                    rendered,
                },
            )
        },
        MailTransport::Smtp => match &mail.password {
            None => Err(Error::Internal(owned("no mail credential configured"))),
            Some(_) if !parses_as_mailbox(mail.from.as_str()) => Err(
                Error::Internal(owned("MAIL_FROM is not an address")),
            ),
            Some(_) if !parses_as_mailbox(message.to.as_str()) => Err(
                Error::BadRequest(owned("not a deliverable address")),
            ),
            Some(p) => Ok(
                Delivery::Smtp {
                    host: mail.host.clone(),
                    port: mail.port,
                    from: mail.from.clone(),
                    password: p.clone(),
                },
            ),
        },
    }
}

/// A filename built by `safe_name` never holds a path separator or a dot, so an address
/// cannot steer the written path out of the outbox.
pub proof fn safe_names_cannot_traverse(address: Seq<char>, k: int)
    requires
        0 <= k < address.len(),
    ensures
        safe_text(address)[k] != '/',
        safe_text(address)[k] != '\\',
        safe_text(address)[k] != '.',
{
}

/// The code appears verbatim in the body, right after the opening words, whatever the
/// window; the subject does not depend on the code at all.
pub proof fn code_sits_in_body(code: Seq<char>, ttl: int)
    ensures
        code_body(code, stated_minutes(ttl)).subrange(29, 29 + code.len() as int) == code,
{
    reveal_strlit("Your vault42 sign-in code is ");
    let body = code_body(code, stated_minutes(ttl));
    assert(body.subrange(29, 29 + code.len() as int) =~= code);
}

} // verus!
