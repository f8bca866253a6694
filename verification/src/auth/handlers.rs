//! The account routes' decisions: signup, login, me and password change.
//!
//! A password is never echoed or returned, and no answer reveals whether an email is
//! registered: a bad login is 401 whether the account is absent, disabled, or the password
//! simply wrong.

use crate::auth::password::{hash, password_matches, verify, verify_absent};
use crate::auth::Principal;
use crate::error::{Error, Result};
use crate::handlers::secondfactor::check_second_factor;
use crate::throttle::{check_spent, LIMIT};
use crate::store::accounts::{is_active, Account};
use crate::validate::{check_password, email_verdict, normalize_email, password_verdict};
use vstd::prelude::*;

verus! {

/// Signup and login request body. `otp_proof` is the second-factor proof a login presents
/// for an account that requires one.
pub struct Credentials {
    pub email: String,
    pub password: String,
    pub otp_proof: Option<String>,
}

/// Password-change request body.
pub struct PasswdReq {
    pub current_password: String,
    pub new_password: String,
}

/// The account identity returned by signup.
pub struct AccountResp {
    pub account_id: String,
}

/// A minted session.
pub struct LoginResp {
    pub token: String,
    pub account_id: String,
    pub expires_at: i64,
}

/// The caller's own account.
pub struct MeResp {
    pub account_id: String,
    pub email: String,
    pub mfa_required: bool,
}

/// What signup stores for a new account: the normalized address and a PHC hash of the
/// password. The address is checked first, then the password, then the password is hashed.
pub fn enrolment(body: &Credentials) -> (r: Result<(String, String)>)
    ensures
        email_verdict(body.email@) matches Err(why) ==> (r matches Err(Error::BadRequest(m)) && m@
            == why),
        password_verdict(body.password@) matches Err(why) ==> (email_verdict(body.email@) is Ok ==> (
        r matches Err(Error::BadRequest(m)) && m@ == why)),
        r matches Ok((email, phc)) ==> email_verdict(body.email@) == Ok::<Seq<char>, Seq<char>>(
            email@,
        ) && password_verdict(body.password@) is Ok && password_matches(body.password@, phc@),
        email_verdict(body.email@) is Ok && password_verdict(body.password@) is Ok ==> r is Ok,
{
    let email = match normalize_email(body.email.as_str()) {
        Ok(e) => e,
        Err(why) => return Err(Error::BadRequest(why)),
    };
    match check_password(body.password.as_str()) {
        Ok(()) => {},
        Err(why) => return Err(Error::BadRequest(why)),
    }
    let phc = hash(body.password.as_str())?;
    Ok((email, phc))
}

/// Check a login against the account its address names, if any, and say whose it is.
///
/// With no account the same Argon2id work is done anyway, so the response time does not
/// reveal whether the address is registered; a disabled account is refused without
/// verifying.
pub fn authenticate(account: Option<&Account>, password: &str) -> (r: Result<String>)
    ensures
        r is Err ==> (r matches Err(Error::Unauthorized)),
        r matches Ok(id) ==> account matches Some(a) && id@ == a.id@,
        account is None ==> r is Err,
        account matches Some(a) ==> (r is Ok <==> is_active(*a) && password_matches(
            password@,
            a.password_hash@,
        )),
{
    let account = match account {
        None => {
            verify_absent(password);
            return Err(Error::Unauthorized);
        },
        Some(a) => a,
    };
    if !account.active() || !verify(password, account.password_hash.as_str()) {
        return Err(Error::Unauthorized);
    }
    Ok(account.id.clone())
}

/// Whether a login may mint a session, and for which account: the password must verify for
/// an active account, and then an account that requires a second factor needs a proof that
/// verifies (`proof_ok`, `None` when none was presented) on an authority that can check one.
pub fn sign_in(account: Option<&Account>, password: &str, has_secret: bool, proof_ok: Option<bool>) -> (r: Result<String>)
    ensures
        r matches Ok(id) ==> account matches Some(a) && id@ == a.id@,
        r is Ok <==> (account matches Some(a) && is_active(*a) && password_matches(password@, a.password_hash@)
            && (!a.mfa_required || (has_secret && proof_ok == Some(true)))),
        r is Err ==> (r matches Err(Error::Unauthorized) || r matches Err(Error::Internal(_))),
        r matches Err(Error::Internal(_)) ==> account matches Some(a) && a.mfa_required && !has_secret,
        !(account matches Some(a) && is_active(*a) && password_matches(password@, a.password_hash@))
            ==> (r matches Err(Error::Unauthorized)),
{
    let id = authenticate(account, password)?;
    let required = match account {
        Some(a) => a.mfa_required,
        None => false,
    };
    check_second_factor(required, has_secret, proof_ok)?;
    Ok(id)
}

/// The answer to a login, given how many attempts the address has spent in the current
/// window, this one included. A throttled address is refused before anything is verified,
/// so even the right password does not walk through the limit, and the refusal is the same
/// whether or not an account holds the address.
pub fn login_verdict(
    spent: i64,
    account: Option<&Account>,
    password: &str,
    has_secret: bool,
    proof_ok: Option<bool>,
) -> (r: Result<String>)
    ensures
        spent > LIMIT ==> (r matches Err(Error::TooManyRequests)),
        spent <= LIMIT ==> (r is Ok <==> (account matches Some(a) && is_active(*a) && password_matches(
            password@,
            a.password_hash@,
        ) && (!a.mfa_required || (has_secret && proof_ok == Some(true))))),
        r matches Ok(id) ==> account matches Some(a) && id@ == a.id@,
        spent <= LIMIT && !(account matches Some(a) && is_active(*a) && password_matches(
            password@,
            a.password_hash@,
        )) ==> (r matches Err(Error::Unauthorized)),
        spent <= LIMIT && r is Err ==> (r matches Err(Error::Unauthorized) || (r matches Err(
            Error::Internal(_),
        ) && account matches Some(a) && a.mfa_required && !has_secret)),
{
    check_spent(spent)?;
    sign_in(account, password, has_secret, proof_ok)
}

/// The caller's own account, as `me` reports it.
pub fn me_of(caller: &Principal) -> (m: MeResp)
    ensures
        m.account_id@ == caller.account_id@,
        m.email@ == caller.email@,
        m.mfa_required == caller.mfa_required,
{
    MeResp {
        account_id: caller.account_id.clone(),
        email: caller.email.clone(),
        mfa_required: caller.mfa_required,
    }
}

/// The new hash for a password change: the new password must be acceptable, the caller's
/// account must still exist, and the current password must verify against it.
pub fn rehash(account: Option<&Account>, body: &PasswdReq) -> (r: Result<String>)
    ensures
        password_verdict(body.new_password@) matches Err(why) ==> (r matches Err(
            Error::BadRequest(m),
        ) && m@ == why),
        password_verdict(body.new_password@) is Ok && account is None ==> (r matches Err(
            Error::Unauthorized,
        )),
        account matches Some(a) ==> (password_verdict(body.new_password@) is Ok && !password_matches(
            body.current_password@,
            a.password_hash@,
        ) ==> (r matches Err(Error::Unauthorized))),
        r matches Ok(phc) ==> account matches Some(a) && password_matches(
            body.current_password@,
            a.password_hash@,
        ) && password_verdict(body.new_password@) is Ok && password_matches(body.new_password@, phc@),
        account matches Some(a) ==> (password_verdict(body.new_password@) is Ok && password_matches(
            body.current_password@,
            a.password_hash@,
        ) ==> r is Ok),
{
    match check_password(body.new_password.as_str()) {
        Ok(()) => {},
        Err(why) => return Err(Error::BadRequest(why)),
    }
    let account = match account {
        None => return Err(Error::Unauthorized),
        Some(a) => a,
    };
    if !verify(body.current_password.as_str(), account.password_hash.as_str()) {
        return Err(Error::Unauthorized);
    }
    hash(body.new_password.as_str())
}

} // verus!
