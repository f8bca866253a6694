//! Account password hashing with Argon2id.
//!
//! Parameters are set explicitly rather than taken from a default, so a dependency bump
//! cannot silently change the cost of every stored hash. 19 MiB with 2 passes is the OWASP
//! Argon2id recommendation and keeps offline guessing expensive without handing anyone a
//! cheap denial of service on a small server.

use crate::error::{Error, Result};
use crate::validate::byte_len;
use crate::text::chars_of;
use argon2::password_hash::rand_core::OsRng;
use argon2::password_hash::{PasswordHash, PasswordHasher, PasswordVerifier, SaltString};
use argon2::{Algorithm, Argon2, Params, Version};
use vstd::prelude::*;

verus! {

/// Memory cost in KiB.
pub const M_COST: u32 = 19_456;

/// Number of passes.
pub const T_COST: u32 = 2;

/// Degree of parallelism.
pub const P_COST: u32 = 1;

/// Whether `password` verifies against the PHC string `stored`.
pub uninterp spec fn phc_accepts(password: Seq<char>, stored: Seq<char>) -> bool;

/// The Argon2id PHC string for `password` under `salt` and the given costs.
pub uninterp spec fn argon2id_phc(
    password: Seq<char>,
    salt: Seq<char>,
    costs: (u32, u32, u32),
) -> Seq<char>;

/// An ASCII decimal digit.
pub open spec fn is_digit(c: char) -> bool {
    '0' <= c && c <= '9'
}

/// Nine digits in a row start at `from` in `s`.
pub open spec fn nine_digits_at(s: Seq<char>, from: int) -> bool {
    from + 9 <= s.len() && forall|k: int| from <= k < from + 9 ==> is_digit(#[trigger] s[k])
}

/// No `p=` in `stored` is followed by nine digits or more. A PHC decimal has no leading
/// zero, so the lane count such a string names stays below 10^8, well under the 2^29 at which
/// Argon2's parameter check would overflow (and well over the 2^24 - 1 lanes it accepts).
pub open spec fn lanes_below_limit(stored: Seq<char>) -> bool {
    forall|i: int|
        0 <= i && i + 1 < stored.len() && #[trigger] stored[i] == 'p' && stored[i + 1] == '='
            ==> !nine_digits_at(stored, i + 2)
}

/// Whether `password` verifies against the stored PHC string, as `verify` decides it.
pub open spec fn password_matches(password: Seq<char>, stored: Seq<char>) -> bool {
    lanes_below_limit(stored) && phc_accepts(password, stored)
}

/// A character of the B64 alphabet (standard base64 without padding).
pub open spec fn b64_char(c: char) -> bool {
    ('A' <= c && c <= 'Z') || ('a' <= c && c <= 'z') || ('0' <= c && c <= '9') || c == '+' || c
        == '/'
}

/// `s` is the unpadded B64 text of some 16 bytes: 22 characters of the alphabet, the last of
/// which carries only the two bits left over (so its low four bits are zero).
pub open spec fn sixteen_byte_b64(s: Seq<char>) -> bool {
    &&& s.len() == 22
    &&& forall|k: int| 0 <= k < 22 ==> b64_char(#[trigger] s[k])
    &&& (s[21] == 'A' || s[21] == 'Q' || s[21] == 'g' || s[21] == 'w')
}

/// A fresh random salt in PHC B64 (`SaltString::generate` over `OsRng`): sixteen random
/// bytes, encoded. Claimed: it is the B64 text of sixteen bytes; which bytes is left open.
#[verifier::external_body]
fn fresh_salt() -> (r: String)
    ensures
        sixteen_byte_b64(r@),
{
    SaltString::generate(&mut OsRng).as_str().to_string()
}

/// Argon2id (version 0x13) over `password` with `salt` at the given costs, as a PHC string
/// (`Params::new`, `SaltString::from_b64`, then `PasswordHasher::hash_password`).
///
/// Claimed: the result is determined by its arguments, and a PHC string it produces verifies
/// against the same password. The string reads `$argon2id$v=19$m=..,t=..,p=..$salt$hash`
/// with B64 salt and hash, so its only `p=` is followed by the lane count's decimal digits
/// and then `$`. It succeeds whenever the costs are within `Params::new`'s
/// bounds (memory at least eight blocks per lane, at least one pass, one to 2^24 - 1 lanes),
/// the salt is the B64 text of sixteen bytes (so it decodes to at least the eight bytes
/// Argon2 needs), and the password is at most 2^32 - 1 bytes. Which error comes otherwise is
/// left unsaid.
#[verifier::external_body]
fn argon2id_hash(password: &str, salt: &str, m_cost: u32, t_cost: u32, p_cost: u32) -> (r:
    core::result::Result<String, String>)
    requires
        p_cost < 0x2000_0000,
    ensures
        r matches Ok(phc) ==> phc@ == argon2id_phc(password@, salt@, (m_cost, t_cost, p_cost))
            && phc_accepts(password@, phc@),
        r matches Ok(phc) ==> (p_cost < 100_000_000 ==> lanes_below_limit(phc@)),
        sixteen_byte_b64(salt@) && byte_len(password@) <= 0xFFFF_FFFF && 8 * p_cost <= m_cost
            && 1 <= t_cost && 1 <= p_cost <= 0xFF_FFFF ==> r is Ok,
{
    let params = Params::new(m_cost, t_cost, p_cost, None).map_err(|e| e.to_string())?;
    let salt = SaltString::from_b64(salt).map_err(|e| e.to_string())?;
    Argon2::new(Algorithm::Argon2id, Version::V0x13, params)
        .hash_password(password.as_bytes(), &salt)
        .map(|phc| phc.to_string())
        .map_err(|e| e.to_string())
}

/// Parse `stored` as a PHC string and verify `password` against it
/// (`PasswordHash::new` then `PasswordVerifier::verify_password`); a parse failure is a
/// refusal. A PHC string starts with `$`: text that is empty or starts otherwise never parses.
///
/// A lane count of 2^29 or more with enough memory makes `Params::new` overflow `p * 8`,
/// which panics where overflow is checked, so such strings are excluded. Not claimed: how
/// long verification runs or how much memory it takes, which the costs the string names
/// decide.
#[verifier::external_body]
fn argon2_verify(password: &str, stored: &str) -> (r: bool)
    requires
        lanes_below_limit(stored@),
    ensures
        r == phc_accepts(password@, stored@),
        stored@.len() == 0 || stored@[0] != '$' ==> !r,
{
    match PasswordHash::new(stored) {
        Ok(parsed) => Argon2::default().verify_password(password.as_bytes(), &parsed).is_ok(),
        Err(_) => false,
    }
}

/// Hash `password` into a PHC string with a fresh random salt.
///
/// It fails only on a password of more than 2^32 - 1 bytes, which Argon2 refuses.
pub fn hash(password: &str) -> (r: Result<String>)
    ensures
        r matches Ok(phc) ==> password_matches(password@, phc@) && exists|salt: Seq<char>|
            sixteen_byte_b64(salt) && phc@ == argon2id_phc(password@, salt, (M_COST, T_COST, P_COST)),
        r matches Err(e) ==> e is Internal,
        byte_len(password@) <= 0xFFFF_FFFF ==> r is Ok,
{
    let salt = fresh_salt();
    match argon2id_hash(password, salt.as_str(), M_COST, T_COST, P_COST) {
        Ok(phc) => Ok(phc),
        Err(why) => Err(Error::Internal(why)),
    }
}

/// True when `password` matches the PHC string `stored`.
///
/// False for a malformed `stored` rather than an error, so a corrupted row denies access
/// instead of leaking a parse failure to the caller. A string naming 10^8 lanes or more is
/// refused before Argon2 sees it: Argon2 accepts at most 2^24 - 1, and from 2^29 its own
/// check would overflow.
pub fn verify(password: &str, stored: &str) -> (r: bool)
    ensures
        r == password_matches(password@, stored@),
        stored@.len() == 0 || stored@[0] != '$' ==> !r,
{
    if !lanes_within_limit(stored) {
        return false;
    }
    argon2_verify(password, stored)
}

/// Whether no `p=` in `stored` is followed by nine digits or more.
pub fn lanes_within_limit(stored: &str) -> (r: bool)
    ensures
        r == lanes_below_limit(stored@),
{
    let v = chars_of(stored);
    let n = v.len();
    let mut i: usize = 0;
    while i < n
        invariant
            i <= n,
            n == v.len(),
            v@ == stored@,
            forall|i2: int|
                0 <= i2 < i && i2 + 1 < n && #[trigger] v@[i2] == 'p' && v@[i2 + 1] == '=' ==> !nine_digits_at(
                    v@,
                    i2 + 2,
                ),
        decreases n - i,
    {
        if i + 1 < n && v[i] == 'p' && v[i + 1] == '=' {
            let mut j: usize = i + 2;
            while j < n && j - i < 11 && '0' <= v[j] && v[j] <= '9'
                invariant
                    i < n,
                    i + 2 <= j <= n,
                    j <= i + 11,
                    n == v.len(),
                    forall|k: int| i + 2 <= k < j ==> is_digit(#[trigger] v@[k]),
                decreases n - j,
            {
                j += 1;
            }
            if j - i == 11 {
                assert(nine_digits_at(v@, i + 2));
                return false;
            }
            assert(!nine_digits_at(v@, i + 2)) by {
                if j < n {
                    assert(!is_digit(v@[j as int]));
                }
            }
        }
        i += 1;
    }
    true
}

/// Do the same Argon2id work a real verification costs, then fail.
///
/// Called when no account exists for the submitted email, so that path takes as long as a
/// wrong-password path and response time does not reveal whether an email is registered.
pub fn verify_absent(password: &str) -> (r: bool)
    ensures
        !r,
{
    let _ = hash(password);
    false
}

} // verus!
