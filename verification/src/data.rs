//! The decisions of the database accessor: when an access token is still
//! valid, whether it is bound to a profile, when old tokens are evicted, and
//! which TOTP secret a user has.

use crate::text::has_prefix;
use vstd::prelude::*;

pub mod migrations;

verus! {

/// How long an access token stays valid (24 h), in seconds.
pub const TOKEN_TTL_SECS: i64 = 24 * 3600;

/// How many access tokens a user keeps; issuing one more evicts the oldest.
pub const MAX_TOKENS_PER_USER: u64 = 10;

/// Whether a token created at `created_at` (seconds) has expired at `now`.
pub open spec fn token_expired(created_at: i64, now: i64) -> bool {
    created_at + TOKEN_TTL_SECS < now
}

/// The verdict on an access token.
#[derive(Clone, Copy, PartialEq, Eq, Debug)]
pub enum TokenCheck {
    /// The token is valid (and the client token, if given, matches).
    Valid,
    /// The token has expired; it is to be deleted.
    Expired,
    /// The client token given does not match the one the token was issued to.
    ClientMismatch,
}

/// The verdict on an access token created at `created_at` and issued to
/// `stored_client`, checked at `now` against the client token `given` (if any).
pub open spec fn spec_check_token(
    created_at: i64,
    now: i64,
    stored_client: Seq<char>,
    given: Option<Seq<char>>,
) -> TokenCheck {
    if token_expired(created_at, now) {
        TokenCheck::Expired
    } else {
        match given {
            None => TokenCheck::Valid,
            Some(g) => if g == stored_client {
                TokenCheck::Valid
            } else {
                TokenCheck::ClientMismatch
            },
        }
    }
}

/// The verdict on an access token.
pub fn check_token(created_at: i64, now: i64, stored_client: &str, given: Option<&str>) -> (r: TokenCheck)
    requires
        created_at <= i64::MAX - TOKEN_TTL_SECS,
    ensures
        r == spec_check_token(
            created_at,
            now,
            stored_client@,
            match given {
                Some(g) => Some(g@),
                None => None,
            },
        ),
{
    if created_at + TOKEN_TTL_SECS < now {
        return TokenCheck::Expired;
    }
    match given {
        None => TokenCheck::Valid,
        Some(g) => {
            let a = g.to_owned();
            let b = stored_client.to_owned();
            if a == b {
                TokenCheck::Valid
            } else {
                TokenCheck::ClientMismatch
            }
        },
    }
}

/// The verdict on a token presented together with a profile.
#[derive(Clone, Copy, PartialEq, Eq, Debug)]
pub enum ProfileMatch {
    /// The token is bound to this profile.
    Match,
    /// The token has expired; it is to be deleted.
    Expired,
    /// The token is bound to no profile, or to another one.
    Mismatch,
}

/// The verdict on a token created at `created_at`, bound to `token_profile`
/// (which `bound_profile_exists` tells whether it still exists), presented at
/// `now` for `profile_id`.
pub open spec fn spec_match_profile(
    created_at: i64,
    now: i64,
    token_profile: Option<u128>,
    bound_profile_exists: bool,
    profile_id: u128,
) -> ProfileMatch {
    if token_expired(created_at, now) {
        ProfileMatch::Expired
    } else if token_profile == Some(profile_id) && bound_profile_exists {
        ProfileMatch::Match
    } else {
        ProfileMatch::Mismatch
    }
}

/// The verdict on a token presented together with a profile.
pub fn match_profile(
    created_at: i64,
    now: i64,
    token_profile: Option<u128>,
    bound_profile_exists: bool,
    profile_id: u128,
) -> (r: ProfileMatch)
    requires
        created_at <= i64::MAX - TOKEN_TTL_SECS,
    ensures
        r == spec_match_profile(created_at, now, token_profile, bound_profile_exists, profile_id),
{
    if created_at + TOKEN_TTL_SECS < now {
        return ProfileMatch::Expired;
    }
    match token_profile {
        Some(p) => if p == profile_id && bound_profile_exists {
            ProfileMatch::Match
        } else {
            ProfileMatch::Mismatch
        },
        None => ProfileMatch::Mismatch,
    }
}

/// Whether issuing a token to a user who holds `count` tokens first evicts
/// that user's oldest token.
pub fn must_evict_oldest_token(count: u64) -> (r: bool)
    ensures
        r == (count >= MAX_TOKENS_PER_USER),
{
    count >= MAX_TOKENS_PER_USER
}

/// The token to delete before a user with the access tokens `tokens` (each
/// an id and its creation time) gets one more: none while the user has fewer
/// than `MAX_TOKENS_PER_USER`, else one created first.
pub fn token_to_evict(tokens: &Vec<(u128, i64)>) -> (r: Option<u128>)
    ensures
        r is Some <==> tokens@.len() >= MAX_TOKENS_PER_USER,
        r matches Some(id) ==> exists|i: int|
            0 <= i < tokens@.len() && tokens@[i].0 == id
                && forall|j: int| 0 <= j < tokens@.len() ==> tokens@[i].1 <= #[trigger] tokens@[j].1,
{
    if !must_evict_oldest_token(tokens.len() as u64) {
        return None;
    }
    let mut best: usize = 0;
    let mut k: usize = 1;
    while k < tokens.len()
        invariant
            1 <= k <= tokens.len(),
            best < k,
            forall|j: int| 0 <= j < k ==> tokens@[best as int].1 <= #[trigger] tokens@[j].1,
        decreases tokens.len() - k,
    {
        if tokens[k].1 < tokens[best].1 {
            best = k;
        }
        k += 1;
    }
    Some(tokens[best].0)
}

/// A user holds at most `MAX_TOKENS_PER_USER` access tokens: from a user with
/// no more than that, issuing one more token, after deleting the one that
/// `token_to_evict` picks when it picks one, leaves no more than that.
pub proof fn law_token_cap(tokens: Seq<(u128, i64)>, evicted: Option<u128>)
    requires
        tokens.len() <= MAX_TOKENS_PER_USER,
        evicted is Some <==> tokens.len() >= MAX_TOKENS_PER_USER,
    ensures
        tokens.len() - (if evicted is Some { 1int } else { 0int }) + 1 <= MAX_TOKENS_PER_USER,
{
}

/// The TOTP secret used to verify a user: the stored secret, once TOTP is active.
pub fn active_totp_secret(totp_active: bool, totp_secret: Option<String>) -> (r: Option<String>)
    ensures
        totp_active ==> r == totp_secret,
        !totp_active ==> r is None,
{
    if totp_active {
        totp_secret
    } else {
        None
    }
}

/// A token stays valid for its whole lifetime and is expired from then on: if
/// it is expired at some moment, it is expired at every later moment.
pub proof fn law_token_expiry_is_final(created_at: i64, now: i64, later: i64)
    requires
        token_expired(created_at, now),
        now <= later,
    ensures
        token_expired(created_at, later),
{
}

/// Whether Argon2 accepts a password against a PHC hash string (the hash's
/// own algorithm, parameters and salt are used); false for a text that is no
/// such hash.
pub uninterp spec fn argon2_accepts(password: Seq<char>, phc: Seq<char>) -> bool;

/// Checks a password against a stored PHC hash string
/// (`argon2::Argon2::default().verify_password`).
///
/// Verification is a function of the password and the hash; it is named.
#[verifier::external_body]
fn argon2_verify(password: &str, phc: &str) -> (r: bool)
    ensures
        r == argon2_accepts(password@, phc@),
{
    argon2::PasswordVerifier::verify_password(&argon2::Argon2::default(), password.as_bytes(), phc).is_ok()
}

/// Hashes a password with Argon2 (default parameters) and a fresh random salt
/// (`argon2::PasswordHasher::hash_password`), giving the PHC string, or the
/// error's text.
///
/// The salt is random, so the hash is not named; the contract states what the
/// hasher is for: the password is accepted against its hash.
#[verifier::external_body]
fn argon2_hash(password: &str) -> (r: Result<String, String>)
    ensures
        r matches Ok(h) ==> argon2_accepts(password@, h@),
{
    match argon2::PasswordHasher::hash_password(&argon2::Argon2::default(), password.as_bytes()) {
        Ok(h) => Ok(h.to_string()),
        Err(e) => Err(e.to_string()),
    }
}

/// Checks the password of a login against the stored hash of the user with
/// that email (`None` when there is no such user).
pub fn verify_user_password(stored_hash: Option<&str>, password: &str) -> (r: bool)
    ensures
        r == (stored_hash matches Some(h) && argon2_accepts(password@, h@)),
{
    match stored_hash {
        Some(h) => argon2_verify(password, h),
        None => false,
    }
}

/// The hash to store for a new password. Hashing failures are reported as
/// `Password hashing failed: ...`.
pub fn hash_new_password(password: &str) -> (r: Result<String, String>)
    ensures
        r matches Ok(h) ==> argon2_accepts(password@, h@),
        r matches Err(m) ==> has_prefix(m@, "Password hashing failed: "@),
{
    match argon2_hash(password) {
        Ok(h) => Ok(h),
        Err(e) => {
            let mut m = String::from_str("Password hashing failed: ");
            let ghost head = m@;
            m.append(e.as_str());
            proof {
                reveal_strlit("Password hashing failed: ");
                assert(m@.subrange(0, head.len() as int) =~= head);
            }
            Err(m)
        },
    }
}

} // verus!
