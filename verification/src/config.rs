//! The authority's configuration, and the refusal to start with second factors that could
//! never be delivered.

use crate::digest::extend_bytes;
use crate::text::{chars_of, join, owned, str_eq};
use vstd::utf8::encode_utf8;
use vstd::prelude::*;

verus! {

/// The resolved authority configuration.
pub struct Config {
    pub bind: String,
    pub db_path: String,
    pub key_path: String,
    pub seed_hex: Option<String>,
    pub contract_ttl_days: i64,
    pub session_ttl_secs: i64,
    pub register_token: Option<String>,
    pub otp: OtpConfig,
    pub mail: MailConfig,
    pub github: GithubConfig,
}

/// GitHub device-flow settings. The base URLs default to the real hosts.
pub struct GithubConfig {
    pub client_id: Option<String>,
    pub oauth_base: String,
    pub api_base: String,
}

/// One-time-code settings. Second factors exist exactly when `proof_secret` does.
pub struct OtpConfig {
    pub proof_secret: Option<Vec<u8>>,
    pub ttl_secs: i64,
    pub proof_ttl_secs: i64,
}

/// How a one-time code reaches the person it is for. There is deliberately no transport
/// that writes a code to the log.
pub enum MailTransport {
    Smtp,
    File(String),
}

/// The mail envelope and the transport that carries it. `from` and `password` have no
/// defaults on purpose.
pub struct MailConfig {
    pub transport: MailTransport,
    pub from: String,
    pub host: String,
    pub port: u16,
    pub password: Option<String>,
}

/// Whether a configuration can deliver the codes its second factors would demand, and if
/// not, which setting is missing.
pub open spec fn mail_verdict(cfg: Config) -> Result<(), Seq<char>> {
    if cfg.otp.proof_secret is None {
        Ok(())
    } else if cfg.mail.from@.len() == 0 {
        Err("second factors need MAIL_FROM to name the sending address"@)
    } else {
        match cfg.mail.transport {
            MailTransport::File(dir) => if dir@.len() == 0 {
                Err("MAIL_TRANSPORT=file needs MAIL_OUTBOX to name a directory"@)
            } else {
                Ok(())
            },
            MailTransport::Smtp => if cfg.mail.password is None {
                Err("second factors need MAIL_PASSWORD to authenticate SMTP"@)
            } else {
                Ok(())
            },
        }
    }
}

impl Config {
    /// Whether second factors are available at all: they need a proof secret to sign with.
    pub fn second_factors_enabled(&self) -> (r: bool)
        ensures
            r == (self.otp.proof_secret is Some),
    {
        self.otp.proof_secret.is_some()
    }

    /// Refuse to start with second factors enabled but no way to deliver a code.
    pub fn check_mail_usable(&self) -> (r: Result<(), String>)
        ensures
            match mail_verdict(*self) {
                Ok(()) => r is Ok,
                Err(why) => r matches Err(m) && m@ == why,
            },
    {
        if !self.second_factors_enabled() {
            return Ok(());
        }
        if self.mail.from.as_str().is_empty() {
            return Err(owned("second factors need MAIL_FROM to name the sending address"));
        }
        match &self.mail.transport {
            MailTransport::File(dir) => {
                if dir.as_str().is_empty() {
                    Err(owned("MAIL_TRANSPORT=file needs MAIL_OUTBOX to name a directory"))
                } else {
                    Ok(())
                }
            },
            MailTransport::Smtp => {
                if self.mail.password.is_none() {
                    Err(owned("second factors need MAIL_PASSWORD to authenticate SMTP"))
                } else {
                    Ok(())
                }
            },
        }
    }
}

/// The transport a `MAIL_TRANSPORT` value selects: "file" writes into `outbox`, and anything
/// else, a missing or misspelt value included, is SMTP, so real mail is never silently
/// diverted into a directory.
pub fn mail_transport(kind: &str, outbox: &str) -> (t: MailTransport)
    ensures
        kind@ == "file"@ ==> (t matches MailTransport::File(dir) && dir@ == outbox@),
        kind@ != "file"@ ==> t is Smtp,
{
    if str_eq(kind, "file") {
        MailTransport::File(owned(outbox))
    } else {
        MailTransport::Smtp
    }
}

/// The value of the first variable named `key`, if any.
pub open spec fn var_of(vars: Seq<(String, String)>, key: Seq<char>) -> Option<Seq<char>>
    decreases vars.len(),
{
    if vars.len() == 0 {
        None
    } else if vars[0].0@ == key {
        Some(vars[0].1@)
    } else {
        var_of(vars.drop_first(), key)
    }
}

/// A variable's value, or `default` when it is unset.
pub open spec fn or_default(value: Option<Seq<char>>, default: Seq<char>) -> Seq<char> {
    match value {
        Some(v) => v,
        None => default,
    }
}

/// A variable's value when it is set and not empty.
pub open spec fn non_empty(value: Option<Seq<char>>) -> Option<Seq<char>> {
    match value {
        Some(v) if v.len() > 0 => Some(v),
        _ => None,
    }
}

/// Whether `c` is an ASCII decimal digit.
pub open spec fn is_digit(c: char) -> bool {
    '0' <= c && c <= '9'
}

/// The number a run of decimal digits spells.
pub open spec fn digits_value(s: Seq<char>) -> nat
    decreases s.len(),
{
    if s.len() == 0 {
        0
    } else {
        digits_value(s.drop_last()) * 10 + ((s.last() as u32) - 48) as nat
    }
}

/// `text` without a leading sign.
pub open spec fn unsigned_part(text: Seq<char>) -> Seq<char> {
    if text.len() > 0 && (text[0] == '-' || text[0] == '+') {
        text.drop_first()
    } else {
        text
    }
}

/// The `i64` that `text` spells the way `str::parse::<i64>` reads it (an optional `+` or `-`,
/// then one or more decimal digits, the value in range), or `None`.
pub open spec fn parse_i64(text: Seq<char>) -> Option<i64> {
    let negative = text.len() > 0 && text[0] == '-';
    let body = unsigned_part(text);
    let magnitude = digits_value(body) as int;
    let value = if negative {
        -magnitude
    } else {
        magnitude
    };
    if body.len() == 0 || exists|k: int| 0 <= k < body.len() && !is_digit(#[trigger] body[k]) {
        None
    } else if value < i64::MIN || value > i64::MAX {
        None
    } else {
        Some(value as i64)
    }
}

/// An integer variable: its parsed value, or `default` when it is unset or junk.
pub open spec fn int_or(value: Option<Seq<char>>, default: i64) -> i64 {
    match value {
        Some(v) => match parse_i64(v) {
            Some(n) => n,
            None => default,
        },
        None => default,
    }
}

/// A prefix of digits adds up one digit at a time.
proof fn lemma_digits_step(s: Seq<char>, i: int)
    requires
        0 <= i < s.len(),
    ensures
        digits_value(s.take(i + 1)) == digits_value(s.take(i)) * 10 + ((s[i] as u32) - 48) as nat,
{
    assert(s.take(i + 1).drop_last() =~= s.take(i));
}

/// Whether every character of `v[from..]` is a decimal digit.
fn all_digits(v: &Vec<char>, from: usize) -> (r: bool)
    requires
        from <= v@.len(),
    ensures
        r == forall|k: int| from <= k < v@.len() ==> is_digit(#[trigger] v@[k]),
{
    let mut i = from;
    while i < v.len()
        invariant
            from <= i <= v@.len(),
            forall|k: int| from <= k < i ==> is_digit(#[trigger] v@[k]),
        decreases v.len() - i,
    {
        if !('0' <= v[i] && v[i] <= '9') {
            return false;
        }
        i += 1;
    }
    true
}

/// The number the digits `v[from..]` spell, when it is at most `2^63`.
fn magnitude(v: &Vec<char>, from: usize) -> (r: Option<u64>)
    requires
        from <= v@.len(),
        forall|k: int| from <= k < v@.len() ==> is_digit(#[trigger] v@[k]),
    ensures
        ({
            let value = digits_value(v@.subrange(from as int, v@.len() as int));
            match r {
                Some(n) => n as int == value && value <= 9_223_372_036_854_775_808,
                None => value > 9_223_372_036_854_775_808,
            }
        }),
{
    let ghost body = v@.subrange(from as int, v@.len() as int);
    let limit: u64 = 9_223_372_036_854_775_808;
    let mut acc: u64 = 0;
    let mut i: usize = from;
    while i < v.len()
        invariant
            from <= i <= v@.len(),
            limit == 9_223_372_036_854_775_808u64,
            body == v@.subrange(from as int, v@.len() as int),
            forall|k: int| from <= k < v@.len() ==> is_digit(#[trigger] v@[k]),
            acc as int == digits_value(body.take(i - from)),
            acc <= limit,
        decreases v.len() - i,
    {
        proof {
            lemma_digits_step(body, i - from);
            assert(body[i - from] == v@[i as int]);
        }
        let d = ((v[i] as u32) - 48) as u64;
        assert(is_digit(v@[i as int]));
        assert(d <= 9);
        if acc > (limit - d) / 10 {
            assert(acc * 10 + d > limit) by (nonlinear_arith)
                requires
                    acc > (limit - d) / 10,
                    d <= 9,
                    limit == 9_223_372_036_854_775_808u64,
            ;
            proof {
                lemma_digits_grow(body, i - from + 1);
            }
            return None;
        }
        assert(acc * 10 + d <= limit) by (nonlinear_arith)
            requires
                acc <= (limit - d) / 10,
                d <= 9,
                limit == 9_223_372_036_854_775_808u64,
        ;
        acc = acc * 10 + d;
        i += 1;
    }
    assert(body.take(body.len() as int) == body);
    Some(acc)
}

/// A longer run of digits never spells a smaller number.
proof fn lemma_digits_grow(s: Seq<char>, i: int)
    requires
        0 <= i <= s.len(),
    ensures
        digits_value(s.take(i)) <= digits_value(s),
    decreases s.len() - i,
{
    if i < s.len() {
        lemma_digits_grow(s, i + 1);
        lemma_digits_step(s, i);
    } else {
        assert(s.take(i) == s);
    }
}

/// Read an integer the way `str::parse::<i64>` does.
pub fn parse_int(text: &str) -> (r: Option<i64>)
    ensures
        r == parse_i64(text@),
{
    let v = chars_of(text);
    let negative = v.len() > 0 && v[0] == '-';
    let start: usize = if v.len() > 0 && (v[0] == '-' || v[0] == '+') {
        1
    } else {
        0
    };
    let ghost body = v@.subrange(start as int, v@.len() as int);
    assert(body =~= unsigned_part(text@));
    if start == v.len() {
        return None;
    }
    if !all_digits(&v, start) {
        let ghost k = choose|k: int| start <= k < v@.len() && !is_digit(#[trigger] v@[k]);
        assert(!is_digit(unsigned_part(text@)[k - start]));
        return None;
    }
    assert forall|k: int| 0 <= k < body.len() implies is_digit(#[trigger] body[k]) by {
        assert(body[k] == v@[k + start]);
    }
    let limit: u64 = 9_223_372_036_854_775_808;
    match magnitude(&v, start) {
        None => None,
        Some(acc) => {
            if negative {
                if acc == limit {
                    Some(i64::MIN)
                } else {
                    Some(-(acc as i64))
                }
            } else {
                if acc == limit {
                    None
                } else {
                    Some(acc as i64)
                }
            }
        },
    }
}

/// The first value set for `key` among `vars`.
pub fn lookup(vars: &Vec<(String, String)>, key: &str) -> (r: Option<String>)
    ensures
        match var_of(vars@, key@) {
            Some(v) => r matches Some(got) && got@ == v,
            None => r is None,
        },
{
    let mut i: usize = 0;
    assert(vars@.subrange(0, vars@.len() as int) =~= vars@);
    while i < vars.len()
        invariant
            i <= vars@.len(),
            var_of(vars@, key@) == var_of(vars@.subrange(i as int, vars@.len() as int), key@),
        decreases vars.len() - i,
    {
        assert(vars@.subrange(i as int, vars@.len() as int).drop_first() =~= vars@.subrange(
            i + 1,
            vars@.len() as int,
        ));
        if str_eq(vars[i].0.as_str(), key) {
            return Some(vars[i].1.clone());
        }
        i += 1;
    }
    None
}

/// A variable with a default.
fn var_or(vars: &Vec<(String, String)>, key: &str, default: &str) -> (r: String)
    ensures
        r@ == or_default(var_of(vars@, key@), default@),
{
    match lookup(vars, key) {
        Some(v) => v,
        None => owned(default),
    }
}

/// A variable that counts only when it is not empty.
fn var_non_empty(vars: &Vec<(String, String)>, key: &str) -> (r: Option<String>)
    ensures
        match non_empty(var_of(vars@, key@)) {
            Some(v) => r matches Some(got) && got@ == v,
            None => r is None,
        },
{
    match lookup(vars, key) {
        Some(v) => if v.as_str().is_empty() {
            None
        } else {
            Some(v)
        },
        None => None,
    }
}

/// An integer variable, falling back to `default` when unset or junk.
fn int_var(vars: &Vec<(String, String)>, key: &str, default: i64) -> (r: i64)
    ensures
        r == int_or(var_of(vars@, key@), default),
{
    match lookup(vars, key) {
        Some(v) => match parse_int(v.as_str()) {
            Some(n) => n,
            None => default,
        },
        None => default,
    }
}

/// The proof secret's text: `VAULT42_OTP_PROOF_SECRET`, or the legacy `GOTRUE_JWT_SECRET`
/// that deployments set before the authority minted these proofs.
pub open spec fn proof_secret_of(vars: Seq<(String, String)>) -> Option<Seq<char>> {
    match var_of(vars, "VAULT42_OTP_PROOF_SECRET"@) {
        Some(s) => Some(s),
        None => var_of(vars, "GOTRUE_JWT_SECRET"@),
    }
}

impl Config {
    /// The configuration an environment describes, with defaults applied.
    ///
    /// Never fails: a malformed integer falls back to its default rather than refusing to
    /// boot, and a missing `MAIL_TRANSPORT` means SMTP.
    pub fn from_vars(vars: &Vec<(String, String)>) -> (cfg: Config)
        ensures
            cfg.bind@ == or_default(var_of(vars@, "VAULT42_AUTHORITY_HOST"@), "0.0.0.0"@) + ":"@
                + or_default(var_of(vars@, "VAULT42_AUTHORITY_PORT"@), "8444"@),
            cfg.db_path@ == or_default(var_of(vars@, "VAULT42_AUTHORITY_DB"@), "/data/authority.db"@),
            cfg.key_path@ == or_default(var_of(vars@, "VAULT42_AUTHORITY_KEY"@), "/data/contract.key"@),
            match var_of(vars@, "VAULT42_CONTRACT_SEED"@) {
                Some(v) => cfg.seed_hex matches Some(got) && got@ == v,
                None => cfg.seed_hex is None,
            },
            cfg.contract_ttl_days == int_or(var_of(vars@, "VAULT42_CONTRACT_TTL_DAYS"@), 365),
            cfg.session_ttl_secs == int_or(
                var_of(vars@, "VAULT42_AUTHORITY_SESSION_TTL_SECS"@),
                86_400,
            ),
            match var_of(vars@, "VAULT42_REGISTER_TOKEN"@) {
                Some(v) => cfg.register_token matches Some(got) && got@ == v,
                None => cfg.register_token is None,
            },
            match proof_secret_of(vars@) {
                Some(s) => cfg.otp.proof_secret matches Some(bytes) && bytes@ == encode_utf8(s),
                None => cfg.otp.proof_secret is None,
            },
            cfg.otp.ttl_secs == int_or(var_of(vars@, "VAULT42_OTP_TTL_SECS"@), 300),
            cfg.otp.proof_ttl_secs == int_or(var_of(vars@, "VAULT42_OTP_PROOF_TTL_SECS"@), 600),
            match non_empty(var_of(vars@, "GITHUB_CLIENT_ID"@)) {
                Some(v) => cfg.github.client_id matches Some(got) && got@ == v,
                None => cfg.github.client_id is None,
            },
            cfg.github.oauth_base@ == or_default(var_of(vars@, "GITHUB_OAUTH_BASE"@), "https://github.com"@),
            cfg.github.api_base@ == or_default(
                var_of(vars@, "GITHUB_API_BASE"@),
                "https://api.github.com"@,
            ),
            or_default(var_of(vars@, "MAIL_TRANSPORT"@), "smtp"@) == "file"@ ==> (
            cfg.mail.transport matches MailTransport::File(dir) && dir@ == or_default(
                var_of(vars@, "MAIL_OUTBOX"@),
                ""@,
            )),
            or_default(var_of(vars@, "MAIL_TRANSPORT"@), "smtp"@) != "file"@ ==> cfg.mail.transport is Smtp,
            cfg.mail.from@ == or_default(var_of(vars@, "MAIL_FROM"@), ""@),
            cfg.mail.host@ == or_default(var_of(vars@, "MAIL_HOST"@), "smtp.titan.email"@),
            cfg.mail.port == int_or(var_of(vars@, "MAIL_PORT"@), 465) as u16,
            match non_empty(var_of(vars@, "MAIL_PASSWORD"@)) {
                Some(v) => cfg.mail.password matches Some(got) && got@ == v,
                None => cfg.mail.password is None,
            },
    {
        let host = var_or(vars, "VAULT42_AUTHORITY_HOST", "0.0.0.0");
        let port = var_or(vars, "VAULT42_AUTHORITY_PORT", "8444");
        let mut bind = join(host.as_str(), ":");
        bind.append(port.as_str());
        let secret_text = match lookup(vars, "VAULT42_OTP_PROOF_SECRET") {
            Some(s) => Some(s),
            None => lookup(vars, "GOTRUE_JWT_SECRET"),
        };
        let proof_secret = match secret_text {
            Some(s) => {
                let mut bytes: Vec<u8> = Vec::new();
                extend_bytes(&mut bytes, s.as_str().as_bytes());
                Some(bytes)
            },
            None => None,
        };
        let kind = var_or(vars, "MAIL_TRANSPORT", "smtp");
        let outbox = var_or(vars, "MAIL_OUTBOX", "");
        let port_number = int_var(vars, "MAIL_PORT", 465);
        Config {
            bind,
            db_path: var_or(vars, "VAULT42_AUTHORITY_DB", "/data/authority.db"),
            key_path: var_or(vars, "VAULT42_AUTHORITY_KEY", "/data/contract.key"),
            seed_hex: lookup(vars, "VAULT42_CONTRACT_SEED"),
            contract_ttl_days: int_var(vars, "VAULT42_CONTRACT_TTL_DAYS", 365),
            session_ttl_secs: int_var(vars, "VAULT42_AUTHORITY_SESSION_TTL_SECS", 86_400),
            register_token: lookup(vars, "VAULT42_REGISTER_TOKEN"),
            otp: OtpConfig {
                proof_secret,
                ttl_secs: int_var(vars, "VAULT42_OTP_TTL_SECS", 300),
                proof_ttl_secs: int_var(vars, "VAULT42_OTP_PROOF_TTL_SECS", 600),
            },
            github: GithubConfig {
                client_id: var_non_empty(vars, "GITHUB_CLIENT_ID"),
                oauth_base: var_or(vars, "GITHUB_OAUTH_BASE", "https://github.com"),
                api_base: var_or(vars, "GITHUB_API_BASE", "https://api.github.com"),
            },
            mail: MailConfig {
                transport: mail_transport(kind.as_str(), outbox.as_str()),
                from: var_or(vars, "MAIL_FROM", ""),
                host: var_or(vars, "MAIL_HOST", "smtp.titan.email"),
                port: #[verifier::truncate] (port_number as u16),
                password: var_non_empty(vars, "MAIL_PASSWORD"),
            },
        }
    }
}

} // verus!
