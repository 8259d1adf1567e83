use aphanite::kv_cache::{KVCache, OtpSession, Session, LOGIN_CAPACITY};

const SECOND: u64 = 1_000_000_000;

#[test]
fn test_burst_then_limit() {
    let mut cache = KVCache::new();
    let user = "0b6f3f3e-7f7a-4c1b-9a55-3c0c7b6f2a10";
    let start = 100 * SECOND;

    let mut success = 0;
    for _ in 0..20 {
        if cache.try_consume(user, start) {
            success += 1;
        }
    }
    println!("burst success = {}", success);
    assert!(success <= LOGIN_CAPACITY);

    let mut second = 0;
    for _ in 0..5 {
        if cache.try_consume(user, start + 2 * SECOND) {
            second += 1;
        }
    }
    println!("after refill success = {}", second);
    assert!(second > 0);
}

#[test]
fn burst_allows_exactly_the_capacity() {
    let mut cache = KVCache::new();
    let mut success = 0;
    for _ in 0..20 {
        if cache.try_consume("alice", 5 * SECOND) {
            success += 1;
        }
    }
    assert_eq!(success, LOGIN_CAPACITY);
    // another user has a bucket of their own
    assert!(cache.try_consume("bob", 5 * SECOND));
}

#[test]
fn join_session_is_found_then_expires() {
    let mut cache = KVCache::new();
    let now = 1000 * SECOND;
    cache.record_session(
        Session { profile_id: 7, server_id: "srv".to_string(), access_token: 9, ip: "127.0.0.1".to_string() },
        now,
    );
    let s = cache.query_session("srv", now + 10 * SECOND).unwrap();
    assert_eq!(s.profile_id, 7);
    assert_eq!(s.access_token, 9);
    assert_eq!(s.server_id, "srv");
    assert!(cache.query_session("other", now).is_none());
    assert!(cache.query_session("srv", now + 31 * SECOND).is_none());
}

#[test]
fn otp_session_is_kept_until_expiry() {
    let mut cache = KVCache::new();
    let now = 50 * SECOND;
    let id = cache.insert_otp_session(OtpSession::new("a@b.c".to_string(), "SECRET".to_string(), now));
    let s = cache.query_otp_session(id, now + SECOND).unwrap();
    assert_eq!(s.user_email, "a@b.c");
    assert_eq!(s.secret, "SECRET");
    assert!(cache.query_otp_session(id, now + 601 * SECOND).is_none());
    assert!(cache.query_otp_session(id, now + SECOND).is_none());
}

#[test]
fn otp_token_is_single_use() {
    let mut cache = KVCache::new();
    let now = 10 * SECOND;
    let token = cache.sign_otp_token("a@b.c".to_string(), now);
    assert!(!cache.verify_opt_token(token, "x@y.z", now));
    assert!(cache.verify_opt_token(token, "a@b.c", now + SECOND));
    assert!(!cache.verify_opt_token(token, "a@b.c", now + SECOND));
}

#[test]
fn otp_token_expires() {
    let mut cache = KVCache::new();
    let token = cache.sign_otp_token("a@b.c".to_string(), 0);
    assert!(!cache.verify_opt_token(token, "a@b.c", 601 * SECOND));
}

#[test]
fn cleanup_keeps_live_entries() {
    let mut cache = KVCache::new();
    let now = 100 * SECOND;
    cache.record_session(
        Session { profile_id: 1, server_id: "s".to_string(), access_token: 2, ip: "::1".to_string() },
        now,
    );
    let token = cache.sign_otp_token("a@b.c".to_string(), now);
    cache.cleanup(now + SECOND);
    assert!(cache.query_session("s", now + SECOND).is_some());
    assert!(cache.verify_opt_token(token, "a@b.c", now + SECOND));
}
