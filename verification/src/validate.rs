//! Input validation at the trust boundary.
//!
//! Every value here reaches a database row, a signed contract, or an email transport, so it
//! is checked before it is stored rather than sanitized afterwards.

use crate::text::{
    ascii_fold, ascii_lower, chars_of, contains_from, lemma_ascii_lower, lemma_trimmed_ascii, control, first_index, has_char, is_cc, is_space, lowercased, owned, space, to_lowercase,
    trim, trim_back, trim_front, trimmed,
};
use vstd::prelude::*;
use vstd::utf8::{encode_utf8, is_ascii_chars, is_ascii_chars_encode_utf8};

verus! {

/// The shortest password accepted, in bytes.
pub const MIN_PASSWORD_LEN: usize = 12;

/// The longest password accepted, in bytes, so a huge body cannot turn one signup into a
/// long Argon2id run.
pub const MAX_PASSWORD_LEN: usize = 1024;

/// The longest address an SMTP implementation must accept (RFC 5321), in bytes.
pub const MAX_EMAIL_LEN: usize = 254;

/// The number of bytes `s` takes in UTF-8, which is what `str::len` counts.
pub open spec fn byte_len(s: Seq<char>) -> nat {
    encode_utf8(s).len()
}

/// No `@` anywhere in `t`.
pub open spec fn lacks_at(t: Seq<char>) -> bool {
    forall|k: int| 0 <= k < t.len() ==> t[k] != '@'
}

/// `t` reads `local@domain` with both parts non-empty, exactly one `@`, and a `.` in the
/// domain.
pub open spec fn looks_like_address(t: Seq<char>) -> bool {
    exists|a: int|
        0 < a < t.len() - 1 && t[a] == '@' && (forall|k: int|
            0 <= k < t.len() && k != a ==> t[k] != '@') && has_char(
            #[trigger] t.subrange(a + 1, t.len() as int),
            '.',
        )
}

/// What `normalize_email` makes of `email`: the stored form, or why it is refused.
pub open spec fn email_verdict(email: Seq<char>) -> Result<Seq<char>, Seq<char>> {
    let t = trimmed(email);
    if t.len() == 0 || byte_len(t) > 254 {
        Err("email must be 1..=254 characters"@)
    } else if exists|k: int| 0 <= k < t.len() && (is_space(t[k]) || is_cc(t[k])) {
        Err("email must not contain whitespace or control characters"@)
    } else if lacks_at(t) {
        Err("email must contain '@'"@)
    } else if !looks_like_address(t) {
        Err("email must look like local@domain.tld"@)
    } else {
        Ok(lowercased(t))
    }
}

/// What `check_password` makes of a password.
pub open spec fn password_verdict(password: Seq<char>) -> Result<(), Seq<char>> {
    if byte_len(password) < 12 {
        Err("password must be at least 12 characters"@)
    } else if byte_len(password) > 1024 {
        Err("password must be at most 1024 characters"@)
    } else {
        Ok(())
    }
}

/// Normalize an email for storage and comparison, or say why it is unacceptable.
///
/// Deliberately not a full RFC 5322 parser: it rejects what would break a database unique
/// constraint or an SMTP envelope, and lowercases so one address cannot be registered twice
/// in different cases.
pub fn normalize_email(email: &str) -> (r: Result<String, String>)
    ensures
        match email_verdict(email@) {
            Ok(stored) => r matches Ok(s) && s@ == stored,
            Err(why) => r matches Err(m) && m@ == why,
        },
{
    let t = trim(email);
    let tv = chars_of(t.as_str());
    if tv.len() == 0 || t.as_str().as_bytes().len() > MAX_EMAIL_LEN {
        return Err(owned("email must be 1..=254 characters"));
    }
    assert(byte_len(trimmed(email@)) <= 254);
    let mut i: usize = 0;
    while i < tv.len()
        invariant
            i <= tv.len(),
            tv@ == t@,
            t@ == trimmed(email@),
            byte_len(trimmed(email@)) <= 254,
            forall|k: int| 0 <= k < i ==> !is_space(tv@[k]) && !is_cc(tv@[k]),
        decreases tv.len() - i,
    {
        if space(tv[i]) || control(tv[i]) {
            assert(is_space(trimmed(email@)[i as int]) || is_cc(trimmed(email@)[i as int]));
            assert(exists|k: int|
                0 <= k < trimmed(email@).len() && (is_space(trimmed(email@)[k]) || is_cc(
                    trimmed(email@)[k],
                )));
            return Err(owned("email must not contain whitespace or control characters"));
        }
        i += 1;
    }
    let at = match first_index(&tv, '@') {
        None => return Err(owned("email must contain '@'")),
        Some(at) => at,
    };
    let local_empty = at == 0;
    let domain_empty = at + 1 == tv.len();
    let second_at = contains_from(&tv, at + 1, '@');
    let dotted = contains_from(&tv, at + 1, '.');
    proof {
        let tt = tv@;
        if !local_empty && !domain_empty && !second_at && dotted {
            assert forall|k: int| 0 <= k < tt.len() && k != at implies tt[k] != '@' by {
                if k > at {
                    assert(tt.subrange(at + 1, tt.len() as int)[k - at - 1] == tt[k]);
                }
            }
            assert(looks_like_address(tt));
        } else {
            assert forall|a: int|
                0 < a < tt.len() - 1 && tt[a] == '@' && (forall|k: int|
                    0 <= k < tt.len() && k != a ==> tt[k] != '@') implies !has_char(
                #[trigger] tt.subrange(a + 1, tt.len() as int),
                '.',
            ) by {
                assert(a == at);
                if second_at {
                    let w = choose|w: int|
                        0 <= w < tt.len() - at - 1 && #[trigger] tt.subrange(
                            at + 1,
                            tt.len() as int,
                        )[w] == '@';
                    assert(tt[w + at + 1] == '@');
                }
            }
        }
    }
    if local_empty || domain_empty || second_at || !dotted {
        return Err(owned("email must look like local@domain.tld"));
    }
    Ok(to_lowercase(t.as_str()))
}

/// Accept a password of a credible length, or say why not.
///
/// The password itself is never echoed, so the error names only the rule.
pub fn check_password(password: &str) -> (r: Result<(), String>)
    ensures
        match password_verdict(password@) {
            Ok(()) => r is Ok,
            Err(why) => r matches Err(m) && m@ == why,
        },
{
    let n = password.as_bytes().len();
    if n < MIN_PASSWORD_LEN {
        return Err(owned("password must be at least 12 characters"));
    }
    if n > MAX_PASSWORD_LEN {
        return Err(owned("password must be at most 1024 characters"));
    }
    Ok(())
}

/// A character allowed in a tenant name or a slug: an ASCII letter or digit, `_` or `-`.
pub open spec fn is_name_char(c: char) -> bool {
    crate::text::is_ascii_alnum(c) || c == '_' || c == '-'
}

/// The identifier rule shared by tenant names and slugs: 1 to 64 characters, each an ASCII
/// letter or digit, `_` or `-`.
pub open spec fn name_ok(s: Seq<char>) -> bool {
    1 <= s.len() <= 64 && forall|k: int| 0 <= k < s.len() ==> is_name_char(#[trigger] s[k])
}

/// Whether `name` is usable as a tenant name or slug: they both end up as user-visible
/// identifiers in the same system, so they share one rule.
pub fn valid_tenant(name: &str) -> (r: bool)
    ensures
        r == name_ok(name@),
{
    let v = chars_of(name);
    if v.len() == 0 || v.len() > 64 {
        return false;
    }
    let mut i: usize = 0;
    while i < v.len()
        invariant
            i <= v.len(),
            v@ == name@,
            forall|k: int| 0 <= k < i ==> is_name_char(#[trigger] v@[k]),
        decreases v.len() - i,
    {
        let c = v[i];
        if !(crate::text::ascii_alnum(c) || c == '_' || c == '-') {
            return false;
        }
        i += 1;
    }
    true
}

/// An address without `@` is never accepted, whatever else it holds. This is what keeps an
/// erased account's tombstone address from ever naming a login.
pub proof fn no_at_no_address(email: Seq<char>)
    requires
        lacks_at(email),
    ensures
        email_verdict(email) is Err,
{
    lemma_front_keeps_lacks_at(email);
    lemma_back_keeps_lacks_at(trim_front(email));
}

/// Normalizing is idempotent on ASCII addresses: the stored form of an address is accepted
/// again and stored unchanged, so normalizing what was stored changes nothing.
pub proof fn normalizing_twice_changes_nothing(email: Seq<char>, stored: Seq<char>)
    requires
        is_ascii_chars(email),
        email_verdict(email) == Ok::<Seq<char>, Seq<char>>(stored),
    ensures
        email_verdict(stored) == Ok::<Seq<char>, Seq<char>>(stored),
{
    let t = trimmed(email);
    lemma_trimmed_ascii(email);
    assert(stored == ascii_fold(t));
    let s = stored;
    assert forall|k: int| 0 <= k < t.len() implies {
        &&& s[k] == ascii_lower(t[k])
        &&& '\0' <= #[trigger] s[k] <= '\u{7f}'
        &&& !is_space(s[k]) && !is_cc(s[k])
        &&& (s[k] == '@') == (t[k] == '@')
        &&& (s[k] == '.') == (t[k] == '.')
        &&& ascii_lower(s[k]) == s[k]
    } by {
        lemma_ascii_lower(t[k]);
    }
    // No whitespace at either end, so trimming keeps the stored form whole.
    assert(trim_front(s) == s);
    assert(trim_back(s) == s);
    assert(trimmed(s) == s);
    is_ascii_chars_encode_utf8(s);
    is_ascii_chars_encode_utf8(t);
    assert(byte_len(s) == byte_len(t));
    assert(!(exists|k: int| 0 <= k < s.len() && (is_space(s[k]) || is_cc(s[k]))));
    let a = choose|a: int|
        0 < a < t.len() - 1 && t[a] == '@' && (forall|k: int| 0 <= k < t.len() && k != a ==> t[k] != '@')
            && has_char(#[trigger] t.subrange(a + 1, t.len() as int), '.');
    let tail = t.subrange(a + 1, t.len() as int);
    let d = choose|d: int| 0 <= d < tail.len() && #[trigger] tail[d] == '.';
    assert(t[a + 1 + d] == '.');
    assert(s.subrange(a + 1, s.len() as int)[d] == '.');
    assert(has_char(s.subrange(a + 1, s.len() as int), '.'));
    assert(looks_like_address(s));
    assert(!lacks_at(s));
    assert(ascii_fold(s) =~= s);
}

proof fn lemma_front_keeps_lacks_at(s: Seq<char>)
    requires
        lacks_at(s),
    ensures
        lacks_at(trim_front(s)),
    decreases s.len(),
{
    if s.len() > 0 && is_space(s[0]) {
        assert(lacks_at(s.drop_first())) by {
            assert forall|k: int| 0 <= k < s.drop_first().len() implies s.drop_first()[k] != '@' by {
                assert(s.drop_first()[k] == s[k + 1]);
            }
        }
        lemma_front_keeps_lacks_at(s.drop_first());
    }
}

proof fn lemma_back_keeps_lacks_at(s: Seq<char>)
    requires
        lacks_at(s),
    ensures
        lacks_at(trim_back(s)),
    decreases s.len(),
{
    if s.len() > 0 && is_space(s.last()) {
        assert(lacks_at(s.drop_last())) by {
            assert forall|k: int| 0 <= k < s.drop_last().len() implies s.drop_last()[k] != '@' by {
                assert(s.drop_last()[k] == s[k]);
            }
        }
        lemma_back_keeps_lacks_at(s.drop_last());
    }
}

} // verus!
