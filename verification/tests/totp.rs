use aphanite::kv_cache::{KVCache, VerificationMethod};
use aphanite::service::api::parse_authorization;
use aphanite::service::phenocryst::totp::{
    complete_verification, complete_verification_at, create_totp, create_totp_authenticated, create_verification,
    totp_check_outcome, account_totp_settings,
};

const SECOND: u64 = 1_000_000_000;

fn current_code(secret: &str, account: &str) -> String {
    let totp = totp_rs::Builder::new()
        .with_algorithm(totp_rs::Algorithm::SHA1)
        .with_digits(6)
        .with_skew(1)
        .with_step_duration(30)
        .with_secret(totp_rs::Secret::try_from_base32(secret).unwrap())
        .with_issuer(Some("Aphanite"))
        .with_account_name(account)
        .build()
        .unwrap();
    totp.generate_current().to_string()
}

#[test]
fn totp_enrolment() {
    let e = create_totp("test@aphanite.example.com");
    assert_eq!(e.secret.len(), 32);
    assert!(e.secret.chars().all(|c| c.is_ascii_uppercase() || ('2'..='7').contains(&c)));
    let resp = e.response.ok().unwrap();
    assert_eq!(resp.secret, e.secret);
    assert!(resp.otpauth_url.starts_with("otpauth://totp/"));
    assert!(resp.otpauth_url.contains("Aphanite"));
    assert!(resp.otpauth_url.contains(&format!("secret={}", e.secret)));
}

#[test]
fn totp_enrolment_refuses_colon_in_account() {
    let e = create_totp("a:b@example.com");
    let err = e.response.err().unwrap();
    assert_eq!(err.status(), 500);
}

#[test]
fn verification_needs_a_secret() {
    let mut kv = KVCache::new();
    let e = create_verification(&mut kv, VerificationMethod::Totp, "no-totp@aphanite.example.com".to_string(), None, 0)
        .err()
        .unwrap();
    assert_eq!(e.status(), 400);
    assert_eq!(e.reason(), "No TOTP secret available.");
}

#[test]
fn unknown_verification_session() {
    let mut kv = KVCache::new();
    let e = complete_verification(&mut kv, 42, "123456", 0).err().unwrap();
    assert_eq!(e.status(), 404);
    assert_eq!(e.reason(), "Failed to find an OTP session with this ID.");
}

#[test]
fn wrong_code_is_refused() {
    let mut kv = KVCache::new();
    let email = "test@aphanite.example.com";
    let secret = create_totp(email).secret;
    let right = current_code(&secret, email);
    let wrong = if right == "000000" { "111111" } else { "000000" };
    let id = create_verification(&mut kv, VerificationMethod::Totp, email.to_string(), Some(secret), 0)
        .ok()
        .unwrap();
    let e = complete_verification(&mut kv, id, wrong, SECOND).err().unwrap();
    assert_eq!(e.status(), 401);
    assert_eq!(e.reason(), "TOTP verification code error");
}

#[test]
fn right_code_earns_an_otp_token() {
    let mut kv = KVCache::new();
    let email = "test@aphanite.example.com";
    let secret = create_totp(email).secret;
    let id = create_verification(&mut kv, VerificationMethod::Totp, email.to_string(), Some(secret.clone()), 0)
        .ok()
        .unwrap();
    let code = current_code(&secret, email);
    let token = complete_verification(&mut kv, id, &code, SECOND).ok().unwrap();
    assert!(kv.verify_opt_token(token, email, 2 * SECOND));
    assert!(!kv.verify_opt_token(token, email, 2 * SECOND));
}

#[test]
fn expired_verification_session() {
    let mut kv = KVCache::new();
    let email = "test@aphanite.example.com";
    let secret = create_totp(email).secret;
    let id = create_verification(&mut kv, VerificationMethod::Totp, email.to_string(), Some(secret.clone()), 0)
        .ok()
        .unwrap();
    let code = current_code(&secret, email);
    let e = complete_verification(&mut kv, id, &code, 601 * SECOND).err().unwrap();
    assert_eq!(e.status(), 404);
}

#[test]
fn check_outcomes() {
    assert!(totp_check_outcome(Some(true)).is_ok());
    assert_eq!(totp_check_outcome(Some(false)).err().unwrap().status(), 401);
    assert_eq!(totp_check_outcome(None).err().unwrap().status(), 500);
}

fn code_at(secret: &str, account: &str, time: u64) -> String {
    let totp = totp_rs::Builder::new()
        .with_algorithm(totp_rs::Algorithm::SHA1)
        .with_digits(6)
        .with_skew(1)
        .with_step_duration(30)
        .with_secret(totp_rs::Secret::try_from_base32(secret).unwrap())
        .with_issuer(Some("Aphanite"))
        .with_account_name(account)
        .build()
        .unwrap();
    totp.generate(time).to_string()
}

#[test]
fn code_checked_at_a_given_time() {
    let mut kv = KVCache::new();
    let email = "test@aphanite.example.com";
    let secret = create_totp(email).secret;
    let time = 1_700_000_000;
    let id = create_verification(&mut kv, VerificationMethod::Totp, email.to_string(), Some(secret.clone()), 0)
        .ok()
        .unwrap();
    // a code of a step two steps away is refused
    let stale = code_at(&secret, email, time - 90);
    let window = [code_at(&secret, email, time - 30), code_at(&secret, email, time), code_at(&secret, email, time + 30)];
    if !window.contains(&stale) {
        let e = complete_verification_at(&mut kv, id, &stale, SECOND, time).err().unwrap();
        assert_eq!(e.status(), 401);
    }
    // a code of the previous step is accepted (one step of skew)
    let previous = code_at(&secret, email, time - 30);
    let token = complete_verification_at(&mut kv, id, &previous, SECOND, time).ok().unwrap();
    assert!(kv.verify_opt_token(token, email, 2 * SECOND));
}

#[test]
fn malformed_code_is_refused() {
    let mut kv = KVCache::new();
    let email = "test@aphanite.example.com";
    let secret = create_totp(email).secret;
    let id = create_verification(&mut kv, VerificationMethod::Totp, email.to_string(), Some(secret), 0)
        .ok()
        .unwrap();
    let e = complete_verification_at(&mut kv, id, "12a456", SECOND, 1_700_000_000).err().unwrap();
    assert_eq!(e.status(), 401);
}

#[test]
fn totp_requires_auth() {
    let auth = parse_authorization(None).map(|_| "test@aphanite.example.com".to_string());
    let e = create_totp_authenticated(auth).err().unwrap();
    assert_eq!(e.status(), 401);
    assert_eq!(e.reason(), "Unauthorized");
}

#[test]
fn totp_enrolment_of_authenticated_user() {
    let e = create_totp_authenticated(Ok("test@aphanite.example.com".to_string())).ok().unwrap();
    let resp = e.response.ok().unwrap();
    assert_eq!(resp.secret, e.secret);
    assert!(resp.otpauth_url.contains("issuer=Aphanite"));
}

#[test]
fn code_checked_at_the_last_time_the_check_takes() {
    let mut kv = KVCache::new();
    let email = "test@aphanite.example.com";
    let secret = create_totp(email).secret;
    let id = create_verification(&mut kv, VerificationMethod::Totp, email.to_string(), Some(secret), 0)
        .ok()
        .unwrap();
    match complete_verification_at(&mut kv, id, "000000", SECOND, u64::MAX - 30) {
        Ok(_) => {},
        Err(e) => assert_eq!(e.status(), 401),
    }
}

#[test]
fn account_totp_settings_values() {
    let s = account_totp_settings();
    assert_eq!((s.digits, s.skew, s.step_secs, s.issuer.as_str()), (6, 1, 30, "Aphanite"));
}
