use aphanite::data::{hash_new_password, verify_user_password, TokenCheck};
use aphanite::service::Error;
use aphanite::service::api::{
    authentication_outcome, check_email_available, check_email_change, check_profile_access, credentials_outcome,
    finish_new_account, hash_account_password, login_plan, new_account, parse_authorization, password_proof, password_proof_outcome,
    password_target, register_checks, register_checks_outcome, register_token_expiry, register_token_usable,
    registration_nickname, require_management, resolve_target_id, turnstile_site_key, LoginMethod, PasswordProof,
    PasswordTarget,
};

const ID: u128 = 0x0123456789abcdef0123456789abcdef;

#[test]
fn authorization_header() {
    assert_eq!(parse_authorization(Some("Bearer 01234567-89ab-cdef-0123-456789abcdef")).ok(), Some(ID));
    let e = parse_authorization(None).err().unwrap();
    assert_eq!((e.status(), e.reason()), (401, "Unauthorized"));
    let e = parse_authorization(Some("Token abc")).err().unwrap();
    assert_eq!((e.status(), e.reason()), (401, "Unauthorized"));
    let e = parse_authorization(Some("Bearer garbage-token")).err().unwrap();
    assert_eq!((e.status(), e.reason()), (401, "Invalid token"));
    assert!(authentication_outcome(Some(TokenCheck::Valid)).is_ok());
    let e = authentication_outcome(Some(TokenCheck::Expired)).err().unwrap();
    assert_eq!((e.status(), e.reason()), (401, "Invalid or expired token"));
    assert!(authentication_outcome(None).is_err());
}

#[test]
fn login_steps() {
    assert!(matches!(login_plan(true, Some("pw".to_string()), Some(1)), Ok(LoginMethod::Password(p)) if p == "pw"));
    assert!(matches!(login_plan(true, None, Some(1)), Ok(LoginMethod::OtpToken(1))));
    assert!(login_plan(true, None, None).is_err());
    assert!(login_plan(false, Some("pw".to_string()), None).is_err());
    assert!(credentials_outcome(true).is_ok());
    assert_eq!(credentials_outcome(false).err().unwrap().status(), 403);
}

#[test]
fn acting_on_users_and_profiles() {
    assert_eq!(resolve_target_id(1, 0, None).ok(), Some(1));
    assert_eq!(resolve_target_id(1, 0, Some(1)).ok(), Some(1));
    assert_eq!(resolve_target_id(1, 0, Some(2)).err().unwrap().status(), 403);
    assert_eq!(resolve_target_id(1, 1, Some(2)).ok(), Some(2));
    assert!(check_profile_access(1, 1, 0).is_ok());
    assert!(check_profile_access(1, 2, 1).is_ok());
    let e = check_profile_access(1, 2, 0).err().unwrap();
    assert_eq!((e.status(), e.reason()), (403, "Forbidden"));
    assert!(require_management(1).is_ok());
    assert_eq!(require_management(0).err().unwrap().status(), 403);
}

#[test]
fn email_checks() {
    assert!(check_email_change(true, "me@x", "me@x").is_ok());
    assert!(check_email_change(false, "new@x", "me@x").is_ok());
    assert_eq!(check_email_change(true, "other@x", "me@x").err().unwrap().status(), 409);
    assert!(check_email_available(false).is_ok());
    let e = check_email_available(true).err().unwrap();
    assert_eq!((e.status(), e.reason()), (409, "Email already in use"));
}

#[test]
fn password_change_steps() {
    assert!(matches!(password_target(Some((1, 0)), None), Ok(PasswordTarget::Direct(1))));
    assert!(matches!(password_target(None, Some(3)), Ok(PasswordTarget::NeedsProof(3))));
    assert!(matches!(password_proof(Some("old".to_string()), None), Ok(PasswordProof::OldPassword(_))));
    assert!(matches!(password_proof(None, Some(5)), Ok(PasswordProof::OtpToken(5))));
    assert!(password_proof(None, None).is_err());
    let offered = PasswordProof::OtpToken(5);
    assert!(password_proof_outcome(&offered, true).is_ok());
    assert_eq!(password_proof_outcome(&offered, false).err().unwrap().status(), 403);
}

#[test]
fn registration_rules() {
    let c = register_checks(false, false, true, false).ok().unwrap();
    assert!(c.verify_register_token && !c.verify_turnstile);
    let e = register_checks(false, true, false, true).err().unwrap();
    assert_eq!((e.status(), e.reason()), (400, "register_token is required on private instances"));
    let e = register_checks(true, true, false, false).err().unwrap();
    assert_eq!((e.status(), e.reason()), (400, "Either register_token or turnstile_token is required"));
    let c = register_checks(true, false, false, false).ok().unwrap();
    assert!(!c.verify_register_token && !c.verify_turnstile);
    let c = register_checks(true, true, true, true).ok().unwrap();
    let e = register_checks_outcome(&c, false, true).err().unwrap();
    assert_eq!((e.status(), e.reason()), (422, "Turnstile verification failed"));
    let e = register_checks_outcome(&c, true, false).err().unwrap();
    assert_eq!((e.status(), e.reason()), (403, "Invalid or expired register token"));
    assert!(register_checks_outcome(&c, true, true).is_ok());
    assert_eq!(registration_nickname("password1", None, "a@b.c").ok().unwrap(), "a@b.c");
    assert_eq!(registration_nickname("password1", Some("Neo"), "a@b.c").ok().unwrap(), "Neo");
    assert_eq!(registration_nickname("short", Some(""), "a@b.c").err().unwrap().status(), 422);
    assert_eq!(registration_nickname("password1", Some(""), "a@b.c").ok().unwrap(), "");
    assert_eq!(registration_nickname("password1", Some("abcdefghijklmnopqrstu"), "a@b.c").err().unwrap().status(), 418);
    assert_eq!(registration_nickname("éééé", None, "a@b.c").err().unwrap().status(), 422);
}

#[test]
fn registration_tokens() {
    assert_eq!(register_token_expiry(1000, 10), 1000 + 600);
    assert_eq!(register_token_expiry(1000, 1_000_000), 1000 + 10080 * 60);
    assert!(register_token_usable(Some(2000), 1999));
    assert!(!register_token_usable(Some(2000), 2000));
    assert!(!register_token_usable(None, 0));
}

#[test]
fn turnstile_key() {
    assert_eq!(turnstile_site_key(true, true, "k").ok().unwrap(), "k");
    let e = turnstile_site_key(false, true, "k").err().unwrap();
    assert_eq!((e.status(), e.reason()), (403, "This server is not public"));
    let e = turnstile_site_key(true, false, "k").err().unwrap();
    assert_eq!((e.status(), e.reason()), (404, "Turnstile is not enabled"));
}

#[test]
fn password_hash_verifies() {
    let h = hash_new_password("correct horse").ok().unwrap();
    assert!(h.starts_with("$argon2"));
    assert!(verify_user_password(Some(&h), "correct horse"));
    assert!(!verify_user_password(Some(&h), "wrong horse"));
    assert!(!verify_user_password(None, "correct horse"));
    assert!(!verify_user_password(Some("not a hash"), "correct horse"));
}

#[test]
fn created_account() {
    let a = new_account(Some("Neo"), "neo@x").ok().unwrap();
    assert_eq!(a.nickname, "Neo");
    assert_eq!(a.password.len(), 48);
    assert!(a.password.chars().all(|c| c.is_ascii_digit() || ('a'..='f').contains(&c)));
    assert!(verify_user_password(Some(&a.password_hash), &a.password));
}

#[test]
fn created_account_nickname_is_checked() {
    let e = new_account(None, "an-email-much-longer-than-twenty@x").err().unwrap();
    assert_eq!(e.status(), 418);
}

#[test]
fn account_password_hash_verifies() {
    let h = hash_account_password("pw").ok().unwrap();
    assert!(verify_user_password(Some(&h), "pw"));
}

#[test]
fn finished_account_takes_the_hash() {
    let a = finish_new_account("0123456789abcdef".to_string(), Ok("$argon2id$h".to_string()), None, "neo@x")
        .ok()
        .unwrap();
    assert_eq!(a.password, "0123456789abcdef");
    assert_eq!(a.password_hash, "$argon2id$h");
    assert_eq!(a.nickname, "neo@x");
}

#[test]
fn finished_account_passes_a_hashing_failure_on() {
    let e = finish_new_account("0123456789abcdef".to_string(), Err(Error::error(500, "Internal server error")), Some("Neo"), "neo@x")
        .err()
        .unwrap();
    assert_eq!((e.status(), e.reason()), (500, "Internal server error"));
}

#[test]
fn finished_account_checks_nickname_then_password() {
    let e = finish_new_account("short".to_string(), Ok("h".to_string()), Some("a-name-longer-than-twenty"), "x@y")
        .err()
        .unwrap();
    assert_eq!(e.status(), 418);
    let e = finish_new_account("short".to_string(), Ok("h".to_string()), Some("Neo"), "x@y").err().unwrap();
    assert_eq!(e.status(), 422);
}
