use aphanite::cli::{admin_email_available, Command};
use aphanite::data::{active_totp_secret, check_token, match_profile, must_evict_oldest_token, token_to_evict, ProfileMatch, TokenCheck, TOKEN_TTL_SECS};
use aphanite::expired_register_tokens;
use aphanite::service::types::UserPayload;
use aphanite::storage::{LocalStorageConfiguration, StorageConfiguration, StorageType};
use aphanite::types::{is_manager, Permission};
use aphanite::utils::{random_hex, random_string, uuid_simple};
use aphanite::text::{replace_all_string, trim_start_matches_string};

#[test]
fn token_checks() {
    assert_eq!(check_token(0, TOKEN_TTL_SECS, "c", None), TokenCheck::Valid);
    assert_eq!(check_token(0, TOKEN_TTL_SECS + 1, "c", None), TokenCheck::Expired);
    assert_eq!(check_token(0, 10, "c", Some("c")), TokenCheck::Valid);
    assert_eq!(check_token(0, 10, "c", Some("d")), TokenCheck::ClientMismatch);
    assert_eq!(check_token(0, TOKEN_TTL_SECS + 1, "c", Some("d")), TokenCheck::Expired);
}

#[test]
fn profile_binding() {
    assert!(matches!(match_profile(0, 10, Some(3), true, 3), ProfileMatch::Match));
    assert!(matches!(match_profile(0, 10, Some(3), true, 4), ProfileMatch::Mismatch));
    assert!(matches!(match_profile(0, 10, None, true, 3), ProfileMatch::Mismatch));
    assert!(matches!(match_profile(0, 10, Some(3), false, 3), ProfileMatch::Mismatch));
    assert!(matches!(match_profile(0, TOKEN_TTL_SECS + 1, Some(3), true, 3), ProfileMatch::Expired));
}

#[test]
fn token_eviction_and_totp_secret() {
    assert!(!must_evict_oldest_token(9));
    assert!(must_evict_oldest_token(10));
    assert_eq!(active_totp_secret(true, Some("S".to_string())), Some("S".to_string()));
    assert_eq!(active_totp_secret(false, Some("S".to_string())), None);
    assert_eq!(active_totp_secret(true, None), None);
}

#[test]
fn expired_registration_tokens() {
    let batch = vec![(1u128, 100i64), (2, 300), (3, 200)];
    assert_eq!(expired_register_tokens(&batch, 200), vec![1, 3]);
    assert_eq!(expired_register_tokens(&batch, 50), Vec::<u128>::new());
}

#[test]
fn permission_flags() {
    assert_eq!(Permission::construct_number(&vec![Permission::Management]), 1);
    assert_eq!(Permission::construct_number(&vec![]), 0);
    assert_eq!(Permission::from_u32(1).len(), 1);
    assert_eq!(Permission::from_u32(0).len(), 0);
    assert_eq!(Permission::parse_flags(3).len(), 1);
    assert!(is_manager(1));
    assert!(!is_manager(2));
    assert_eq!(Permission::Management.bit(), 1);
}

#[test]
fn random_texts() {
    let s = random_string(16);
    assert_eq!(s.len(), 16);
    assert!(s.chars().all(|c| c.is_ascii_alphanumeric()));
    assert_eq!(random_string(0), "");
    let h = random_hex(24);
    assert_eq!(h.len(), 48);
    assert!(h.chars().all(|c| c.is_ascii_digit() || ('a'..='f').contains(&c)));
    assert_eq!(uuid_simple(255), "000000000000000000000000000000ff");
}

#[test]
fn admin_nickname_defaults_to_email() {
    let c = Command::CreateAdmin { email: "a@b".to_string(), nickname: None, password: "p".to_string() };
    assert_eq!(c.admin_nickname(), Some("a@b".to_string()));
    let c = Command::CreateAdmin { email: "a@b".to_string(), nickname: Some("Root".to_string()), password: "p".to_string() };
    assert_eq!(c.admin_nickname(), Some("Root".to_string()));
    assert_eq!(Command::Init.admin_nickname(), None);
}

#[test]
fn storage_settings() {
    let c = StorageConfiguration::Local(LocalStorageConfiguration { path: "data/assets".to_string() });
    assert!(matches!(c, StorageConfiguration::Local(ref l) if l.path == "data/assets"));
    assert_ne!(StorageType::Local, StorageType::S3);
}

#[test]
fn user_payload_lists_permissions() {
    let u = UserPayload::from_user(7, "Neo".to_string(), "neo@x".to_string(), 1);
    assert_eq!(u.id, 7);
    assert_eq!(u.name, "Neo");
    assert_eq!(u.email, "neo@x");
    assert_eq!(u.permissions, vec![Permission::Management]);
    let u = UserPayload::from_user(7, "Neo".to_string(), "neo@x".to_string(), 0);
    assert!(u.permissions.is_empty());
}

#[test]
fn empty_patterns() {
    assert_eq!(replace_all_string("abc", "", "x"), "abc".replace("", "x"));
    assert_eq!(replace_all_string("", "", "x"), "x");
    assert_eq!(replace_all_string("a-b-c", "-", "+"), "a+b+c");
    assert_eq!(trim_start_matches_string("//a", ""), "//a");
    assert_eq!(trim_start_matches_string("//a", "/"), "a");
}

#[test]
fn oldest_token_evicted_at_the_cap() {
    let mut tokens: Vec<(u128, i64)> = (0..9).map(|i| (100 + i as u128, 1_000 + i as i64)).collect();
    assert_eq!(token_to_evict(&tokens), None);
    tokens.push((7, 500));
    assert_eq!(token_to_evict(&tokens), Some(7));
    tokens.push((8, 400));
    assert_eq!(token_to_evict(&tokens), Some(8));
    assert_eq!(token_to_evict(&Vec::new()), None);
}

#[test]
fn admin_email_must_be_free() {
    assert!(admin_email_available("root@x", false).is_ok());
    assert_eq!(
        admin_email_available("root@x", true).err().unwrap(),
        "A user with email 'root@x' already exists"
    );
}
