//! GitHub device-flow sign-in: what a poll answers, and which address a GitHub account is
//! trusted for.
//!
//! The address must be one GitHub says is verified: an unverified address is one anybody can
//! claim, so trusting it would hand somebody another person's vault. Only verified addresses
//! are considered, and the primary one is preferred over the rest. Signing in this way never
//! creates an account.

use crate::error::{Error, Result};
use crate::handlers::secondfactor::check_second_factor;
use crate::store::accounts::{is_active, Account};
use crate::text::{owned, str_eq};
use crate::validate::{email_verdict, normalize_email};
use vstd::prelude::*;

verus! {

/// The scope needed to read the signer's addresses, and nothing more.
pub const SCOPE: &'static str = "read:user user:email";

/// How long the authority waits on GitHub for one call, in seconds.
pub const GITHUB_TIMEOUT_SECS: u64 = 10;

/// Poll request body.
pub struct PollReq {
    pub device_code: String,
}

/// The device grant, passed through to the caller as GitHub issued it.
pub struct DeviceStart {
    pub device_code: String,
    pub user_code: String,
    pub verification_uri: String,
    pub expires_in: i64,
    pub interval: i64,
}

/// A poll answer: no token while the person has not approved yet. The token is a session
/// token for this authority; the GitHub one never leaves the exchange.
pub struct PollResp {
    pub access_token: Option<String>,
}

/// One address on a GitHub account.
pub struct GithubEmail {
    pub email: String,
    pub verified: bool,
    pub primary: bool,
}

/// Whether a token-exchange error means "keep polling".
pub open spec fn still_pending(error: Option<&str>) -> bool {
    error matches Some(e) && (e@ == "authorization_pending"@ || e@ == "slow_down"@)
}

/// Report a still-pending grant as pending, and anything else as a refusal, so the client
/// never polls a grant that will never come.
pub fn pending_or_refused(error: Option<&str>) -> (r: Result<PollResp>)
    ensures
        still_pending(error) ==> (r matches Ok(p) && p.access_token is None),
        !still_pending(error) ==> (r matches Err(Error::Unauthorized)),
{
    match error {
        Some(e) => {
            if str_eq(e, "authorization_pending") || str_eq(e, "slow_down") {
                return Ok(PollResp { access_token: None });
            }
            Err(Error::Unauthorized)
        },
        None => Err(Error::Unauthorized),
    }
}

/// Whether an entry counts in a search: verified, and primary when a primary is wanted.
pub open spec fn eligible(entry: GithubEmail, need_primary: bool) -> bool {
    entry.verified && (!need_primary || entry.primary)
}

/// The address of the first eligible entry, in the order GitHub lists them.
pub open spec fn first_eligible(addresses: Seq<GithubEmail>, need_primary: bool) -> Option<Seq<char>>
    decreases addresses.len(),
{
    if addresses.len() == 0 {
        None
    } else if eligible(addresses[0], need_primary) {
        Some(addresses[0].email@)
    } else {
        first_eligible(addresses.drop_first(), need_primary)
    }
}

/// The address a GitHub account is trusted for: its first verified primary address if there
/// is one, else its first verified address, else none.
pub open spec fn chosen_address(addresses: Seq<GithubEmail>) -> Option<Seq<char>> {
    match first_eligible(addresses, true) {
        Some(a) => Some(a),
        None => first_eligible(addresses, false),
    }
}

/// The first eligible entry found by a scan is the one the search names, and a scan that
/// finds none means the search finds none.
proof fn lemma_first_eligible(addresses: Seq<GithubEmail>, need_primary: bool, k: int)
    requires
        0 <= k <= addresses.len(),
        forall|j: int| 0 <= j < k ==> !eligible(#[trigger] addresses[j], need_primary),
        k < addresses.len() ==> eligible(addresses[k], need_primary),
    ensures
        k < addresses.len() ==> first_eligible(addresses, need_primary) == Some(addresses[k].email@),
        k == addresses.len() ==> first_eligible(addresses, need_primary) is None,
    decreases k,
{
    if k > 0 {
        let rest = addresses.drop_first();
        assert forall|j: int| 0 <= j < k - 1 implies !eligible(#[trigger] rest[j], need_primary) by {
            assert(rest[j] == addresses[j + 1]);
        }
        lemma_first_eligible(rest, need_primary, k - 1);
    }
}

/// Whatever the search names is the address of an eligible entry.
proof fn lemma_first_eligible_is_listed(addresses: Seq<GithubEmail>, need_primary: bool)
    ensures
        first_eligible(addresses, need_primary) matches Some(a) ==> exists|k: int|
            0 <= k < addresses.len() && eligible(addresses[k], need_primary) && addresses[k].email@ == a,
    decreases addresses.len(),
{
    if addresses.len() > 0 && !eligible(addresses[0], need_primary) {
        let rest = addresses.drop_first();
        lemma_first_eligible_is_listed(rest, need_primary);
        if let Some(a) = first_eligible(rest, need_primary) {
            let k = choose|k: int|
                0 <= k < rest.len() && eligible(rest[k], need_primary) && rest[k].email@ == a;
            assert(addresses[k + 1] == rest[k]);
        }
    }
}

/// The index of the first eligible entry, searched in order.
fn first_matching(addresses: &Vec<GithubEmail>, need_primary: bool) -> (r: Option<usize>)
    ensures
        match r {
            Some(k) => k < addresses@.len() && first_eligible(addresses@, need_primary) == Some(
                addresses@[k as int].email@,
            ),
            None => first_eligible(addresses@, need_primary) is None,
        },
{
    let mut i: usize = 0;
    while i < addresses.len()
        invariant
            i <= addresses@.len(),
            forall|j: int| 0 <= j < i ==> !eligible(#[trigger] addresses@[j], need_primary),
        decreases addresses.len() - i,
    {
        if addresses[i].verified && (!need_primary || addresses[i].primary) {
            proof {
                lemma_first_eligible(addresses@, need_primary, i as int);
            }
            return Some(i);
        }
        i += 1;
    }
    proof {
        lemma_first_eligible(addresses@, need_primary, i as int);
    }
    None
}

/// The address GitHub confirms belongs to the signer, normalized as accounts store it.
pub fn verified_address(addresses: &Vec<GithubEmail>) -> (r: Result<String>)
    ensures
        chosen_address(addresses@) is None ==> (r matches Err(Error::BadRequest(m)) && m@
            == "no verified address on this GitHub account"@),
        chosen_address(addresses@) matches Some(chosen) ==> match email_verdict(chosen) {
            Ok(stored) => r matches Ok(got) && got@ == stored,
            Err(why) => r matches Err(Error::BadRequest(m)) && m@ == why,
        },
{
    let k = match first_matching(addresses, true) {
        Some(k) => k,
        None => match first_matching(addresses, false) {
            Some(k) => k,
            None => {
                return Err(Error::BadRequest(owned("no verified address on this GitHub account")));
            },
        },
    };
    match normalize_email(addresses[k].email.as_str()) {
        Ok(e) => Ok(e),
        Err(why) => Err(Error::BadRequest(why)),
    }
}

/// An unverified address is never trusted, whatever else the account lists.
pub proof fn unverified_addresses_are_ignored(addresses: Seq<GithubEmail>)
    ensures
        chosen_address(addresses) matches Some(a) ==> exists|k: int|
            0 <= k < addresses.len() && addresses[k].verified && addresses[k].email@ == a,
        (forall|k: int| 0 <= k < addresses.len() ==> !addresses[k].verified) ==> chosen_address(
            addresses,
        ) is None,
{
    lemma_first_eligible_is_listed(addresses, true);
    lemma_first_eligible_is_listed(addresses, false);
    if forall|k: int| 0 <= k < addresses.len() ==> !addresses[k].verified {
        assert forall|j: int| 0 <= j < addresses.len() implies !eligible(#[trigger] addresses[j], true) by {}
        assert forall|j: int| 0 <= j < addresses.len() implies !eligible(#[trigger] addresses[j], false) by {}
        lemma_first_eligible(addresses, true, addresses.len() as int);
        lemma_first_eligible(addresses, false, addresses.len() as int);
    }
}

/// The configured client id, or a named refusal: a deployment with no GitHub app says so
/// rather than answering "not found".
pub fn configured(client_id: Option<&str>) -> (r: Result<&str>)
    ensures
        client_id matches Some(id) ==> (id@.len() > 0 ==> (r matches Ok(got) && got@ == id@)),
        !(client_id matches Some(id) && id@.len() > 0) ==> (r matches Err(Error::BadRequest(m))
            && m@ == "GitHub sign-in is not configured here"@),
{
    match client_id {
        Some(id) => {
            if id.is_empty() {
                return Err(Error::BadRequest(owned("GitHub sign-in is not configured here")));
            }
            Ok(id)
        },
        None => Err(Error::BadRequest(owned("GitHub sign-in is not configured here"))),
    }
}

/// The account a GitHub address signs in to: it must exist and be active.
pub fn signin_account(account: Option<&Account>) -> (r: Result<()>)
    ensures
        r is Ok <==> (account matches Some(a) && is_active(*a)),
        r is Err ==> (r matches Err(Error::Unauthorized)),
{
    match account {
        None => Err(Error::Unauthorized),
        Some(a) => {
            if !a.active() {
                return Err(Error::Unauthorized);
            }
            Ok(())
        },
    }
}

/// Whether a GitHub sign-in may mint a session, and for which account: the verified address
/// must name an active account, and an account that requires a second factor still needs a
/// proof that verifies (`proof_ok`, `None` when none was presented) on an authority that can
/// check one. GitHub vouches for the address, never for the second factor.
pub fn github_signin(account: Option<&Account>, has_secret: bool, proof_ok: Option<bool>) -> (r:
    Result<String>)
    ensures
        r is Ok <==> (account matches Some(a) && is_active(*a) && (!a.mfa_required || (has_secret
            && proof_ok == Some(true)))),
        r matches Ok(id) ==> account matches Some(a) && id@ == a.id@,
        !(account matches Some(a) && is_active(*a)) ==> (r matches Err(Error::Unauthorized)),
        r matches Err(Error::Internal(_)) ==> account matches Some(a) && a.mfa_required && !has_secret,
        r is Err ==> (r matches Err(Error::Unauthorized) || r matches Err(Error::Internal(_))),
{
    signin_account(account)?;
    match account {
        None => Err(Error::Unauthorized),
        Some(a) => {
            check_second_factor(a.mfa_required, has_secret, proof_ok)?;
            Ok(a.id.clone())
        },
    }
}

} // verus!
