//! Hashing, encoding, randomness and constant-time comparison, as the outside crates
//! provide them.
//!
//! Each item here makes exactly one outside call. What a digest or an encoding is for given
//! bytes is named rather than restated; hex and base64 encoding, whose rules take a few
//! lines, are stated in full.

use base64::Engine;
use rand_core::RngCore;
use subtle::ConstantTimeEq;
use vstd::prelude::*;

verus! {

/// The BLAKE3 digest of `data`.
pub uninterp spec fn blake3_of(data: Seq<u8>) -> Seq<u8>;

/// The URL-safe base64 digit for `v` in `0..64`: `A`..`Z`, `a`..`z`, `0`..`9`, `-`, `_`.
pub open spec fn b64url_digit(v: int) -> char {
    if v < 26 {
        (65 + v) as char
    } else if v < 52 {
        (71 + v) as char
    } else if v < 62 {
        (v - 4) as char
    } else if v == 62 {
        '-'
    } else {
        '_'
    }
}

/// The unpadded URL-safe base64 text of `data` (RFC 4648, section 5): four digits for each
/// three bytes, six bits each, most significant first; two digits for one byte left over and
/// three for two, with the spare low bits zero.
pub open spec fn base64_url(data: Seq<u8>) -> Seq<char>
    decreases data.len(),
{
    if data.len() == 0 {
        Seq::empty()
    } else if data.len() == 1 {
        let a = data[0] as int;
        seq![b64url_digit(a / 4), b64url_digit((a % 4) * 16)]
    } else if data.len() == 2 {
        let a = data[0] as int;
        let b = data[1] as int;
        seq![b64url_digit(a / 4), b64url_digit((a % 4) * 16 + b / 16), b64url_digit((b % 16) * 4)]
    } else {
        let a = data[0] as int;
        let b = data[1] as int;
        let c = data[2] as int;
        seq![
            b64url_digit(a / 4),
            b64url_digit((a % 4) * 16 + b / 16),
            b64url_digit((b % 16) * 4 + c / 64),
            b64url_digit(c % 64),
        ] + base64_url(data.subrange(3, data.len() as int))
    }
}

/// Unpadded base64 of `n` bytes is `4 * (n / 3)` digits, plus two or three for a remainder.
pub proof fn base64_url_len(data: Seq<u8>)
    ensures
        base64_url(data).len() == 4 * (data.len() / 3) + (if data.len() % 3 == 0 {
            0int
        } else {
            (data.len() % 3 + 1) as int
        }),
    decreases data.len(),
{
    if data.len() >= 3 {
        base64_url_len(data.subrange(3, data.len() as int));
    }
}

/// The standard base64 digit for `v` in `0..64`: `A`..`Z`, `a`..`z`, `0`..`9`, `+`, `/`.
pub open spec fn b64std_digit(v: int) -> char {
    if v < 26 {
        (65 + v) as char
    } else if v < 52 {
        (71 + v) as char
    } else if v < 62 {
        (v - 4) as char
    } else if v == 62 {
        '+'
    } else {
        '/'
    }
}

/// The padded standard base64 text of `data` (RFC 4648, section 4): four digits for each
/// three bytes, six bits each, most significant first; one byte left over is two digits and
/// `==`, two bytes are three digits and `=`, with the spare low bits zero.
pub open spec fn base64_std(data: Seq<u8>) -> Seq<char>
    decreases data.len(),
{
    if data.len() == 0 {
        Seq::empty()
    } else if data.len() == 1 {
        let a = data[0] as int;
        seq![b64std_digit(a / 4), b64std_digit((a % 4) * 16), '=', '=']
    } else if data.len() == 2 {
        let a = data[0] as int;
        let b = data[1] as int;
        seq![b64std_digit(a / 4), b64std_digit((a % 4) * 16 + b / 16), b64std_digit((b % 16) * 4), '=']
    } else {
        let a = data[0] as int;
        let b = data[1] as int;
        let c = data[2] as int;
        seq![
            b64std_digit(a / 4),
            b64std_digit((a % 4) * 16 + b / 16),
            b64std_digit((b % 16) * 4 + c / 64),
            b64std_digit(c % 64),
        ] + base64_std(data.subrange(3, data.len() as int))
    }
}

/// Distinct six-bit values have distinct standard digits, and no digit is the pad `=`.
proof fn lemma_b64std_digit(v: int, w: int)
    requires
        0 <= v < 64,
        0 <= w < 64,
    ensures
        b64std_digit(v) == b64std_digit(w) ==> v == w,
        b64std_digit(v) != '=',
{
}

/// Three bytes are recovered from their four six-bit groups.
proof fn lemma_b64_group(a: int, b: int, c: int, x: int, y: int, z: int)
    requires
        0 <= a < 256,
        0 <= b < 256,
        0 <= c < 256,
        0 <= x < 256,
        0 <= y < 256,
        0 <= z < 256,
        a / 4 == x / 4,
        (a % 4) * 16 + b / 16 == (x % 4) * 16 + y / 16,
        (b % 16) * 4 + c / 64 == (y % 16) * 4 + z / 64,
        c % 64 == z % 64,
    ensures
        a == x,
        b == y,
        c == z,
{
}

/// Standard base64 is one-to-one: two byte strings with the same text are the same.
pub proof fn base64_std_injective(p: Seq<u8>, q: Seq<u8>)
    requires
        base64_std(p) == base64_std(q),
    ensures
        p == q,
    decreases p.len(),
{
    let (ep, eq) = (base64_std(p), base64_std(q));
    if p.len() == 0 || q.len() == 0 {
        assert(p.len() == 0 && q.len() == 0) by {
            if p.len() != 0 {
                assert(ep.len() >= 4);
            }
            if q.len() != 0 {
                assert(eq.len() >= 4);
            }
        }
        assert(p =~= q);
        return;
    }
    let (a, b, c) = (p[0] as int, if p.len() > 1 { p[1] as int } else { 0 }, if p.len() > 2 { p[2] as int } else { 0 });
    let (x, y, z) = (q[0] as int, if q.len() > 1 { q[1] as int } else { 0 }, if q.len() > 2 { q[2] as int } else { 0 });
    assert(ep[0] == eq[0] && ep[1] == eq[1] && ep[2] == eq[2] && ep[3] == eq[3]);
    lemma_b64std_digit(a / 4, x / 4);
    lemma_b64std_digit((a % 4) * 16 + b / 16, (x % 4) * 16 + y / 16);
    lemma_b64std_digit((b % 16) * 4 + c / 64, (y % 16) * 4 + z / 64);
    lemma_b64std_digit((b % 16) * 4, (y % 16) * 4);
    lemma_b64std_digit((b % 16) * 4, (y % 16) * 4 + z / 64);
    lemma_b64std_digit((b % 16) * 4 + c / 64, (y % 16) * 4);
    lemma_b64std_digit(c % 64, z % 64);
    lemma_b64std_digit((a % 4) * 16, (x % 4) * 16);
    lemma_b64std_digit((a % 4) * 16, (x % 4) * 16 + y / 16);
    lemma_b64std_digit((a % 4) * 16 + b / 16, (x % 4) * 16);
    // The pads tell how many bytes the last group holds.
    assert(p.len() >= 3 <==> q.len() >= 3);
    assert(p.len() == 1 <==> q.len() == 1);
    if p.len() >= 3 {
        lemma_b64_group(a, b, c, x, y, z);
        let (rp, rq) = (p.subrange(3, p.len() as int), q.subrange(3, q.len() as int));
        assert(base64_std(rp) =~= ep.subrange(4, ep.len() as int));
        assert(base64_std(rq) =~= eq.subrange(4, eq.len() as int));
        base64_std_injective(rp, rq);
        assert(p =~= seq![p[0], p[1], p[2]] + rp);
        assert(q =~= seq![q[0], q[1], q[2]] + rq);
    } else if p.len() == 1 {
        assert(a == x);
        assert(p =~= q);
    } else {
        assert(a == x && b == y) by {
            lemma_b64_group(a, b, 0, x, y, 0);
        }
        assert(p =~= q);
    }
}

/// The lowercase hex digit for `d` in `0..16`.
pub open spec fn hex_digit(d: int) -> char {
    if d < 10 {
        (48 + d) as char
    } else {
        (87 + d) as char
    }
}

/// Two lowercase hex digits per byte, most significant nibble first.
pub open spec fn hex_lower(data: Seq<u8>) -> Seq<char>
    decreases data.len(),
{
    if data.len() == 0 {
        Seq::empty()
    } else {
        seq![hex_digit(data[0] as int / 16), hex_digit(data[0] as int % 16)] + hex_lower(data.drop_first())
    }
}

/// Hex text is exactly twice as long as the bytes it encodes.
pub proof fn hex_lower_len(data: Seq<u8>)
    ensures
        hex_lower(data).len() == 2 * data.len(),
    decreases data.len(),
{
    if data.len() > 0 {
        hex_lower_len(data.drop_first());
    }
}

/// `blake3::hash`: the 32-byte BLAKE3 digest of `data`.
#[verifier::external_body]
pub(crate) fn blake3_digest(data: &[u8]) -> (h: Vec<u8>)
    ensures
        h@ == blake3_of(data@),
        h@.len() == 32,
{
    blake3::hash(data).as_bytes().to_vec()
}

/// `hex::encode`: two lowercase hex digits per byte.
#[verifier::external_body]
pub(crate) fn hex_encode(data: &[u8]) -> (s: String)
    ensures
        s@ == hex_lower(data@),
{
    hex::encode(data)
}

/// `base64`'s URL-safe, unpadded engine (`URL_SAFE_NO_PAD.encode`).
#[verifier::external_body]
pub(crate) fn base64_url_encode(data: &[u8]) -> (s: String)
    ensures
        s@ == base64_url(data@),
{
    base64::engine::general_purpose::URL_SAFE_NO_PAD.encode(data)
}

/// `base64`'s standard engine, decoding (`STANDARD.decode`): the bytes whose canonical padded
/// text `text` is, or `None` for any other text. The engine requires canonical padding and
/// refuses trailing bits that are not zero, so it accepts exactly the texts it would write.
#[verifier::external_body]
pub(crate) fn base64_std_decode(text: &str) -> (r: Option<Vec<u8>>)
    ensures
        match r {
            Some(bytes) => text@ == base64_std(bytes@),
            None => forall|b: Seq<u8>| text@ != #[trigger] base64_std(b),
        },
{
    base64::engine::general_purpose::STANDARD.decode(text).ok()
}

/// `subtle::ConstantTimeEq` over byte slices: equal contents, compared without a
/// content-dependent early exit.
#[verifier::external_body]
pub(crate) fn ct_eq(a: &[u8], b: &[u8]) -> (r: bool)
    ensures
        r == (a@ == b@),
{
    bool::from(a.ct_eq(b))
}

/// One `u32` from the operating system's generator (`rand_core::OsRng`).
///
/// Nothing is claimed of the value. The generator panics if the operating system cannot
/// supply randomness.
#[verifier::external_body]
pub(crate) fn os_u32() -> u32 {
    rand_core::OsRng.next_u32()
}

/// Thirty-two bytes from the operating system's generator (`rand_core::OsRng`).
///
/// Only the length is claimed. The generator panics if the operating system cannot supply
/// randomness.
#[verifier::external_body]
pub(crate) fn os_bytes_32() -> (v: Vec<u8>)
    ensures
        v@.len() == 32,
{
    let mut raw = [0u8; 32];
    rand_core::OsRng.fill_bytes(&mut raw);
    raw.to_vec()
}

/// `data` followed by `more`.
pub fn extend_bytes(data: &mut Vec<u8>, more: &[u8])
    ensures
        final(data)@ == old(data)@ + more@,
{
    let mut i: usize = 0;
    while i < more.len()
        invariant
            i <= more.len(),
            data@ == old(data)@ + more@.take(i as int),
        decreases more.len() - i,
    {
        data.push(more[i]);
        i += 1;
        assert(more@.take(i as int) == more@.take(i - 1).push(more@[i - 1]));
    }
    assert(more@.take(more.len() as int) == more@);
}

} // verus!
