//! "Aphanite General" API endpoints: the checks and decisions taken by the
//! authentication, user, registration and profile endpoints.

use super::validation::{validate_nickname, validate_password, nickname_length_reason, password_too_long_reason, password_too_short_reason};
use super::Error;
use crate::data::{argon2_accepts, hash_new_password, TokenCheck};
use crate::text::{strip_prefix, strip_prefix_string};
use crate::types::{has_permission, is_manager, Permission};
use crate::utils::{is_lower_hex_char, parse_uuid, random_hex, uuid_parse_result};
use vstd::prelude::*;

verus! {

/// The `500 Internal server error` answer given when a storage operation fails.
pub fn internal_error() -> (e: Error)
    ensures
        e@ == (500u16, "Internal server error"@),
{
    Error::error(500, "Internal server error")
}

/// The access token carried by an `Authorization` header value (`None` when the
/// header is missing or unreadable): it must read `Bearer <uuid>`.
pub fn parse_authorization(header: Option<&str>) -> (r: Result<u128, Error>)
    ensures
        match header {
            None => r matches Err(e) && e@ == (401u16, "Unauthorized"@),
            Some(h) => match strip_prefix(h@, "Bearer "@) {
                None => r matches Err(e) && e@ == (401u16, "Unauthorized"@),
                Some(t) => match uuid_parse_result(t) {
                    None => r matches Err(e) && e@ == (401u16, "Invalid token"@),
                    Some(id) => r matches Ok(v) && v == id,
                },
            },
        },
{
    let h = match header {
        None => return Err(Error::error(401, "Unauthorized")),
        Some(h) => h,
    };
    let token = match strip_prefix_string(h, "Bearer ") {
        None => return Err(Error::error(401, "Unauthorized")),
        Some(t) => t,
    };
    match parse_uuid(token.as_str()) {
        None => Err(Error::error(401, "Invalid token")),
        Some(id) => Ok(id),
    }
}

/// The outcome of authenticating a request once its token was looked up
/// (`None` when no such token exists): only a valid token is accepted.
pub fn authentication_outcome(check: Option<TokenCheck>) -> (r: Result<(), Error>)
    ensures
        check == Some(TokenCheck::Valid) ==> r is Ok,
        check != Some(TokenCheck::Valid) ==> (r matches Err(e) && e@ == (401u16, "Invalid or expired token"@)),
{
    match check {
        Some(TokenCheck::Valid) => Ok(()),
        _ => Err(Error::error(401, "Invalid or expired token")),
    }
}

/// How a login is authenticated.
pub enum LoginMethod {
    Password(String),
    OtpToken(u128),
}

/// The first step of a login: a rate-limited user is turned away; otherwise the
/// password is checked if given, else the OTP token, else the request is refused.
pub fn login_plan(allowed: bool, password: Option<String>, otp_token: Option<u128>) -> (r: Result<LoginMethod, Error>)
    ensures
        !allowed ==> (r matches Err(e) && e@ == (429u16, "Too many requests"@)),
        allowed && password is Some ==> (r matches Ok(LoginMethod::Password(p)) && p@ == password->0@),
        allowed && password is None && otp_token is Some ==> (r matches Ok(LoginMethod::OtpToken(t)) && t == otp_token->0),
        allowed && password is None && otp_token is None ==> (r matches Err(e) && e@ == (400u16, "password or otp is required"@)),
{
    if !allowed {
        return Err(Error::error(429, "Too many requests"));
    }
    match password {
        Some(p) => Ok(LoginMethod::Password(p)),
        None => match otp_token {
            Some(t) => Ok(LoginMethod::OtpToken(t)),
            None => Err(Error::error(400, "password or otp is required")),
        },
    }
}

/// The outcome of checking login credentials: failures are answered with 403.
pub fn credentials_outcome(verified: bool) -> (r: Result<(), Error>)
    ensures
        verified ==> r is Ok,
        !verified ==> (r matches Err(e) && e@ == (403u16, "Invalid credentials"@)),
{
    if verified {
        Ok(())
    } else {
        Err(Error::error(403, "Invalid credentials"))
    }
}

/// The user an endpoint acts on: the user named in the path (`id`), who must be
/// the current user unless the current user holds the management permission,
/// or else the current user.
pub fn resolve_target_id(current_id: u128, current_permission: u32, id: Option<u128>) -> (r: Result<u128, Error>)
    ensures
        match id {
            None => r == Ok::<u128, Error>(current_id),
            Some(t) => if t != current_id && !has_permission(current_permission, Permission::Management) {
                r matches Err(e) && e@ == (403u16, "Forbidden"@)
            } else {
                r matches Ok(v) && v == t
            },
        },
{
    match id {
        Some(target) => {
            if target != current_id && !is_manager(current_permission) {
                Err(Error::error(403, "Forbidden"))
            } else {
                Ok(target)
            }
        },
        None => Ok(current_id),
    }
}

/// Whether a profile (owned by `owner_id`) may be changed by the current user:
/// its owner, or a user holding the management permission.
pub fn check_profile_access(owner_id: u128, current_id: u128, current_permission: u32) -> (r: Result<(), Error>)
    ensures
        (owner_id == current_id || has_permission(current_permission, Permission::Management)) ==> r is Ok,
        !(owner_id == current_id || has_permission(current_permission, Permission::Management)) ==> (r matches Err(e) && e@ == (403u16, "Forbidden"@)),
{
    if owner_id != current_id && !is_manager(current_permission) {
        Err(Error::error(403, "Forbidden"))
    } else {
        Ok(())
    }
}

/// Whether the current user holds the management permission (required to
/// create users and registration tokens).
pub fn require_management(current_permission: u32) -> (r: Result<(), Error>)
    ensures
        has_permission(current_permission, Permission::Management) ==> r is Ok,
        !has_permission(current_permission, Permission::Management) ==> (r matches Err(e) && e@ == (403u16, "Forbidden"@)),
{
    if is_manager(current_permission) {
        Ok(())
    } else {
        Err(Error::error(403, "Forbidden"))
    }
}

/// Whether a user may change their email to `new_email`: refused when another
/// account already uses it (`email_taken`), unless it is the user's own email.
pub fn check_email_change(email_taken: bool, new_email: &str, current_email: &str) -> (r: Result<(), Error>)
    ensures
        (email_taken && new_email@ != current_email@) ==> (r matches Err(e) && e@ == (409u16, "Email already in use"@)),
        !(email_taken && new_email@ != current_email@) ==> r is Ok,
{
    let a = new_email.to_owned();
    let b = current_email.to_owned();
    if email_taken && !(a == b) {
        Err(Error::error(409, "Email already in use"))
    } else {
        Ok(())
    }
}

/// Whether an email is free for a new account.
pub fn check_email_available(email_taken: bool) -> (r: Result<(), Error>)
    ensures
        email_taken ==> (r matches Err(e) && e@ == (409u16, "Email already in use"@)),
        !email_taken ==> r is Ok,
{
    if email_taken {
        Err(Error::error(409, "Email already in use"))
    } else {
        Ok(())
    }
}

/// Whose password a password change acts on.
pub enum PasswordTarget {
    /// An authenticated request: the user is known.
    Direct(u128),
    /// An unauthenticated request for this user: the old password or an OTP token
    /// must prove the right to change it.
    NeedsProof(u128),
}

/// The first step of a password change, from the authenticated user (id and
/// permission flags, if the request authenticated) and the user named in the path.
pub fn password_target(auth: Option<(u128, u32)>, id: Option<u128>) -> (r: Result<PasswordTarget, Error>)
    ensures
        match auth {
            Some((uid, perm)) => match id {
                Some(t) => if uid != t && !has_permission(perm, Permission::Management) {
                    r matches Err(e) && e@ == (403u16, "Forbidden"@)
                } else {
                    r matches Ok(PasswordTarget::Direct(v)) && v == t
                },
                None => r matches Ok(PasswordTarget::Direct(v)) && v == uid,
            },
            None => match id {
                Some(t) => r matches Ok(PasswordTarget::NeedsProof(v)) && v == t,
                None => r matches Err(e) && e@ == (401u16, "Unauthorized: authenticate or provide old_password"@),
            },
        },
{
    match auth {
        Some((uid, perm)) => match id {
            Some(t) => {
                if uid != t && !is_manager(perm) {
                    Err(Error::error(403, "Forbidden"))
                } else {
                    Ok(PasswordTarget::Direct(t))
                }
            },
            None => Ok(PasswordTarget::Direct(uid)),
        },
        None => match id {
            Some(t) => Ok(PasswordTarget::NeedsProof(t)),
            None => Err(Error::error(401, "Unauthorized: authenticate or provide old_password")),
        },
    }
}

/// How an unauthenticated password change proves the right to change it.
pub enum PasswordProof {
    OldPassword(String),
    OtpToken(u128),
}

/// The proof an unauthenticated password change offers: the old password if
/// given, else an OTP token, else the request is refused.
pub fn password_proof(old_password: Option<String>, otp_token: Option<u128>) -> (r: Result<PasswordProof, Error>)
    ensures
        old_password is Some ==> (r matches Ok(PasswordProof::OldPassword(p)) && p@ == old_password->0@),
        old_password is None && otp_token is Some ==> (r matches Ok(PasswordProof::OtpToken(t)) && t == otp_token->0),
        old_password is None && otp_token is None ==> (r matches Err(e) && e@ == (401u16, "Unauthorized: provide old_password or otp_token"@)),
{
    match old_password {
        Some(p) => Ok(PasswordProof::OldPassword(p)),
        None => match otp_token {
            Some(t) => Ok(PasswordProof::OtpToken(t)),
            None => Err(Error::error(401, "Unauthorized: provide old_password or otp_token")),
        },
    }
}

/// The outcome of checking the offered proof: failures are answered with 403.
pub fn password_proof_outcome(offered: &PasswordProof, verified: bool) -> (r: Result<(), Error>)
    ensures
        verified ==> r is Ok,
        !verified && offered is OldPassword ==> (r matches Err(e) && e@ == (403u16, "Invalid old password"@)),
        !verified && offered is OtpToken ==> (r matches Err(e) && e@ == (403u16, "Invalid otp token"@)),
{
    if verified {
        Ok(())
    } else {
        match offered {
            PasswordProof::OldPassword(_) => Err(Error::error(403, "Invalid old password")),
            PasswordProof::OtpToken(_) => Err(Error::error(403, "Invalid otp token")),
        }
    }
}

/// The answer to a request for a user that does not exist.
pub fn user_not_found() -> (e: Error)
    ensures
        e@ == (404u16, "User not found"@),
{
    Error::error(404, "User not found")
}

/// The answer to a request for a profile that does not exist.
pub fn profile_not_found() -> (e: Error)
    ensures
        e@ == (404u16, "Profile not found"@),
{
    Error::error(404, "Profile not found")
}

/// The Turnstile site key, given only by public servers with Turnstile enabled.
pub fn turnstile_site_key(public: bool, enabled: bool, site_key: &str) -> (r: Result<String, Error>)
    ensures
        !public ==> (r matches Err(e) && e@ == (403u16, "This server is not public"@)),
        public && !enabled ==> (r matches Err(e) && e@ == (404u16, "Turnstile is not enabled"@)),
        public && enabled ==> (r matches Ok(k) && k@ == site_key@),
{
    if !public {
        return Err(Error::error(403, "This server is not public"));
    }
    if !enabled {
        return Err(Error::error(404, "Turnstile is not enabled"));
    }
    Ok(site_key.to_owned())
}

/// The longest lifetime of a registration token, in minutes (7 days).
pub const REGISTER_TOKEN_MAX_MINUTES: u64 = 10080;

/// The expiry (seconds) of a registration token created at `now` to last
/// `expires_after` minutes, capped at 7 days.
pub fn register_token_expiry(now: i64, expires_after: u64) -> (r: i64)
    requires
        now <= i64::MAX - 604800,
    ensures
        r == now + 60 * (if expires_after < REGISTER_TOKEN_MAX_MINUTES {
            expires_after
        } else {
            REGISTER_TOKEN_MAX_MINUTES
        }),
{
    let minutes = if expires_after < REGISTER_TOKEN_MAX_MINUTES {
        expires_after
    } else {
        REGISTER_TOKEN_MAX_MINUTES
    };
    now + 60 * (minutes as i64)
}

/// Whether a registration token expiring at `expires_at` (`None` when there is
/// no such token) can be used at `now`. Using a token does not consume it: it
/// stays usable until it expires.
pub fn register_token_usable(expires_at: Option<i64>, now: i64) -> (r: bool)
    ensures
        r == (expires_at matches Some(t) && t > now),
{
    match expires_at {
        Some(t) => t > now,
        None => false,
    }
}

/// Which outside checks a registration needs.
pub struct RegisterChecks {
    /// The Turnstile token is to be verified.
    pub verify_turnstile: bool,
    /// The registration token is to be verified (it is not consumed).
    pub verify_register_token: bool,
}

/// The checks a registration needs: a private server requires a registration
/// token; a public server with Turnstile requires a registration token or a
/// Turnstile token and checks those given; a public server without Turnstile
/// checks nothing.
pub fn register_checks(public: bool, turnstile_enabled: bool, has_register_token: bool, has_turnstile_token: bool) -> (r: Result<RegisterChecks, Error>)
    ensures
        public && turnstile_enabled && !has_register_token && !has_turnstile_token ==> (r matches Err(e) && e@ == (400u16, "Either register_token or turnstile_token is required"@)),
        public && turnstile_enabled && (has_register_token || has_turnstile_token) ==> (r matches Ok(c) && c.verify_turnstile == has_turnstile_token && c.verify_register_token == has_register_token),
        public && !turnstile_enabled ==> (r matches Ok(c) && !c.verify_turnstile && !c.verify_register_token),
        !public && !has_register_token ==> (r matches Err(e) && e@ == (400u16, "register_token is required on private instances"@)),
        !public && has_register_token ==> (r matches Ok(c) && !c.verify_turnstile && c.verify_register_token),
{
    if public {
        if turnstile_enabled {
            if !has_register_token && !has_turnstile_token {
                return Err(Error::error(400, "Either register_token or turnstile_token is required"));
            }
            Ok(RegisterChecks { verify_turnstile: has_turnstile_token, verify_register_token: has_register_token })
        } else {
            Ok(RegisterChecks { verify_turnstile: false, verify_register_token: false })
        }
    } else {
        if !has_register_token {
            return Err(Error::error(400, "register_token is required on private instances"));
        }
        Ok(RegisterChecks { verify_turnstile: false, verify_register_token: true })
    }
}

/// The outcome of the registration checks: a failed Turnstile check is answered
/// with 422, then a failed registration token with 403.
pub fn register_checks_outcome(checks: &RegisterChecks, turnstile_ok: bool, register_token_ok: bool) -> (r: Result<(), Error>)
    ensures
        checks.verify_turnstile && !turnstile_ok ==> (r matches Err(e) && e@ == (422u16, "Turnstile verification failed"@)),
        !(checks.verify_turnstile && !turnstile_ok) && checks.verify_register_token && !register_token_ok ==> (r matches Err(e) && e@ == (403u16, "Invalid or expired register token"@)),
        !(checks.verify_turnstile && !turnstile_ok) && !(checks.verify_register_token && !register_token_ok) ==> r is Ok,
{
    if checks.verify_turnstile && !turnstile_ok {
        return Err(Error::error(422, "Turnstile verification failed"));
    }
    if checks.verify_register_token && !register_token_ok {
        return Err(Error::error(403, "Invalid or expired register token"));
    }
    Ok(())
}

/// The nickname a new account gets (the name given, else the email), once the
/// password and the nickname pass validation (password first).
pub fn registration_nickname(password: &str, name: Option<&str>, email: &str) -> (r: Result<String, Error>)
    ensures
        ({
            let nick = match name {
                Some(n) => n@,
                None => email@,
            };
            if password@.len() < 8 {
                r matches Err(e) && e@ == (422u16, password_too_short_reason(password@.len()))
            } else if password@.len() > 128 {
                r matches Err(e) && e@ == (422u16, password_too_long_reason(password@.len()))
            } else if nick.len() > 20 {
                r matches Err(e) && e@ == (418u16, nickname_length_reason(nick.len()))
            } else {
                r matches Ok(n) && n@ == nick
            }
        }),
{
    validate_password(password)?;
    let nickname = match name {
        Some(n) => n,
        None => email,
    };
    validate_nickname(nickname)?;
    Ok(nickname.to_owned())
}

/// The hash stored for an account's password; a hashing failure is answered
/// with `500 Internal server error`.
pub fn hash_account_password(password: &str) -> (r: Result<String, Error>)
    ensures
        r matches Ok(h) ==> argon2_accepts(password@, h@),
        r matches Err(e) ==> e@ == (500u16, "Internal server error"@),
{
    match hash_new_password(password) {
        Ok(h) => Ok(h),
        Err(_) => Err(internal_error()),
    }
}

/// The credentials of an account created by a manager.
pub struct NewAccount {
    /// The generated password, given once to the manager.
    pub password: String,
    /// Its hash, as stored.
    pub password_hash: String,
    /// The account's nickname.
    pub nickname: String,
}

/// The credentials of a new account once its password `password` was hashed
/// (`hashed`, or the error the hashing was answered with): a failed hashing
/// is answered with its error; then the nickname (the name given, else the
/// email) and the password must pass validation.
pub fn finish_new_account(password: String, hashed: Result<String, Error>, name: Option<&str>, email: &str) -> (r: Result<NewAccount, Error>)
    ensures
        ({
            let nick = match name {
                Some(n) => n@,
                None => email@,
            };
            match hashed {
                Err(e) => r matches Err(e2) && e2@ == e@,
                Ok(h) => if nick.len() > 20 {
                    r matches Err(e) && e@ == (418u16, nickname_length_reason(nick.len()))
                } else if password@.len() < 8 {
                    r matches Err(e) && e@ == (422u16, password_too_short_reason(password@.len()))
                } else if password@.len() > 128 {
                    r matches Err(e) && e@ == (422u16, password_too_long_reason(password@.len()))
                } else {
                    r matches Ok(a) && a.password_hash@ == h@ && a.password@ == password@ && a.nickname@ == nick
                },
            }
        }),
{
    let password_hash = hashed?;
    let nickname = match name {
        Some(n) => n,
        None => email,
    };
    validate_nickname(nickname)?;
    validate_password(password.as_str())?;
    Ok(NewAccount { password, password_hash, nickname: nickname.to_owned() })
}

/// The credentials of an account that a manager creates for `email`: a random
/// password of 24 bytes in lowercase hexadecimal, its hash, and the nickname
/// (the name given, else the email), which must pass validation. A hashing
/// failure is answered with 500 before the nickname is checked.
pub fn new_account(name: Option<&str>, email: &str) -> (r: Result<NewAccount, Error>)
    ensures
        ({
            let nick = match name {
                Some(n) => n@,
                None => email@,
            };
            &&& r matches Ok(a) ==> {
                &&& a.password@.len() == 48
                &&& forall|i: int| 0 <= i < 48 ==> is_lower_hex_char(#[trigger] a.password@[i])
                &&& argon2_accepts(a.password@, a.password_hash@)
                &&& a.nickname@ == nick
            }
            &&& r matches Err(e) ==> e@ == (500u16, "Internal server error"@) || (nick.len() > 20
                && e@ == (418u16, nickname_length_reason(nick.len())))
            &&& nick.len() > 20 ==> r is Err
        }),
{
    let password = random_hex(24);
    let hashed = hash_account_password(password.as_str());
    finish_new_account(password, hashed, name, email)
}

} // verus!
