//! The six-digit code a person types: generating it without modulo bias, hashing it so the
//! database never holds it, and comparing it without leaking how much of a guess was right.
//!
//! Six digits is a million possibilities, which is only safe because the number of guesses
//! is bounded: a code dies on its fifth wrong attempt, is single-use, expires, and is bound
//! to the address it was mailed to.

use crate::digest::{blake3_digest, blake3_of, ct_eq, extend_bytes, hex_encode, hex_lower, os_u32};
use crate::error::{Error, Result};
use crate::text::{chars_of, lowercased, owned, push_char, to_lowercase};
use vstd::prelude::*;
use vstd::utf8::{encode_utf8, encode_utf8_decode_utf8};

verus! {

/// How many wrong guesses a code survives.
pub const MAX_ATTEMPTS: i64 = 5;

/// The count of codes: six decimal digits.
pub const CODE_SPACE: u32 = 1_000_000;

/// The largest draw accepted: one below the largest multiple of a million a `u32` holds, so
/// every code is equally likely.
pub const DRAW_CEILING: u32 = 4_294_000_000 - 1;

/// Domain separation, so a stored digest means nothing anywhere else.
pub open spec fn domain_tag() -> Seq<u8> {
    encode_utf8("vault42/otp/v1"@)
}

/// The ASCII digit character for `d` in `0..10`.
pub open spec fn digit_char(d: int) -> char {
    (48 + d) as char
}

/// The six-character, zero-padded decimal text of `n` below a million.
pub open spec fn code_text(n: int) -> Seq<char> {
    seq![
        digit_char((n / 100000) % 10),
        digit_char((n / 10000) % 10),
        digit_char((n / 1000) % 10),
        digit_char((n / 100) % 10),
        digit_char((n / 10) % 10),
        digit_char(n % 10),
    ]
}

/// Whether `s` could be a code: exactly six ASCII digits.
pub open spec fn is_code_shape(s: Seq<char>) -> bool {
    s.len() == 6 && forall|k: int| 0 <= k < 6 ==> '0' <= #[trigger] s[k] && s[k] <= '9'
}

/// The bytes hashed for a code: the domain tag, the lowercased address, a newline, the code.
pub open spec fn code_preimage(email: Seq<char>, code: Seq<char>) -> Seq<u8> {
    domain_tag() + encode_utf8(lowercased(email)) + seq![10u8] + encode_utf8(code)
}

/// The stored digest of `code` sent to `email`.
pub open spec fn code_digest(email: Seq<char>, code: Seq<char>) -> Seq<char> {
    hex_lower(blake3_of(code_preimage(email, code)))
}

/// The place value of the `k`-th of six decimal digits, most significant first.
pub open spec fn place_value(k: int) -> u32 {
    if k == 0 {
        100000u32
    } else if k == 1 {
        10000u32
    } else if k == 2 {
        1000u32
    } else if k == 3 {
        100u32
    } else if k == 4 {
        10u32
    } else if k == 5 {
        1u32
    } else {
        0u32
    }
}

/// The zero-padded six-digit text of `n`.
pub fn six_digits(n: u32) -> (s: String)
    requires
        n < CODE_SPACE,
    ensures
        s@ == code_text(n as int),
{
    let mut s = String::new();
    let mut div: u32 = 100000;
    let mut k: usize = 0;
    while k < 6
        invariant
            k <= 6,
            div == place_value(k as int),
            s@ == code_text(n as int).take(k as int),
        decreases 6 - k,
    {
        let d = (n / div) % 10;
        let c = ((48 + d) as u8) as char;
        push_char(&mut s, c);
        assert(code_text(n as int).take(k + 1) == code_text(n as int).take(k as int).push(c));
        div = div / 10;
        k += 1;
    }
    assert(code_text(n as int).take(6) == code_text(n as int));
    s
}

/// Generate a uniform six-digit code.
///
/// Rejection sampling rather than `% 1_000_000`: the modulo of a `u32` is biased towards low
/// values. A draw above the ceiling is thrown away and drawn again; the chance of that is
/// about one in four thousand, so the bound on redraws is never reached in practice.
pub fn generate_code() -> (code: String)
    ensures
        is_code_shape(code@),
        exists|n: int| 0 <= n < 1_000_000 && code@ == code_text(n),
{
    let mut drawn = os_u32();
    let mut redraws: u64 = 0;
    while drawn > DRAW_CEILING && redraws < u64::MAX
        decreases u64::MAX - redraws,
    {
        drawn = os_u32();
        redraws += 1;
    }
    let n = drawn % CODE_SPACE;
    let code = six_digits(n);
    proof {
        generated_codes_pass_the_shape_check(n as int);
    }
    code
}

/// Hash a code for storage, bound to the address it was sent to.
///
/// The address is lowercased first, as it is stored, so a digest is bound to the address
/// rather than to how it was capitalized.
pub fn hash_code(email: &str, code: &str) -> (h: String)
    ensures
        h@ == code_digest(email@, code@),
{
    let mut bytes: Vec<u8> = Vec::new();
    extend_bytes(&mut bytes, "vault42/otp/v1".as_bytes());
    let lower = to_lowercase(email);
    extend_bytes(&mut bytes, lower.as_str().as_bytes());
    bytes.push(10u8);
    extend_bytes(&mut bytes, code.as_bytes());
    assert(bytes@ == code_preimage(email@, code@));
    let digest = blake3_digest(&bytes);
    hex_encode(&digest)
}

/// Whether a submitted code matches a stored digest, compared in constant time.
pub fn code_matches(email: &str, submitted: &str, stored_hash: &str) -> (r: bool)
    ensures
        r == (code_digest(email@, submitted@) == stored_hash@),
{
    let candidate = hash_code(email, submitted);
    let r = ct_eq(candidate.as_str().as_bytes(), stored_hash.as_bytes());
    proof {
        encode_utf8_decode_utf8(candidate@);
        encode_utf8_decode_utf8(stored_hash@);
    }
    r
}

/// Refuse a submission that is not six digits, before any database work, so it cannot spend
/// one of the five attempts.
pub fn check_shape(code: &str) -> (r: Result<()>)
    ensures
        is_code_shape(code@) ==> r is Ok,
        !is_code_shape(code@) ==> (r matches Err(Error::BadRequest(m)) && m@
            == "a code is six digits"@),
{
    let v = chars_of(code);
    let mut valid = v.len() == 6;
    if valid {
        let mut k: usize = 0;
        while k < 6
            invariant
                k <= 6,
                v.len() == 6,
                v@ == code@,
                valid == forall|j: int| 0 <= j < k ==> '0' <= #[trigger] v@[j] && v@[j] <= '9',
            decreases 6 - k,
        {
            valid = valid && '0' <= v[k] && v[k] <= '9';
            k += 1;
        }
    }
    if valid {
        return Ok(());
    }
    Err(Error::BadRequest(owned("a code is six digits")))
}

/// A generated code is always accepted by the shape check.
pub proof fn generated_codes_pass_the_shape_check(n: int)
    requires
        0 <= n < 1_000_000,
    ensures
        is_code_shape(code_text(n)),
{
}

/// A digest is bound to the address as stored: two spellings of an address that lowercase
/// alike produce the same digest for the same code.
pub proof fn digest_ignores_address_case(a: Seq<char>, b: Seq<char>, code: Seq<char>)
    requires
        lowercased(a) == lowercased(b),
    ensures
        code_digest(a, code) == code_digest(b, code),
{
}

} // verus!
