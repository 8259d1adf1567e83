//! In-memory key-value state of the service: the per-user login rate limiter,
//! the `join` sessions of the session server, the pending OTP verification
//! sessions and the signed OTP tokens.
//!
//! Time is given to every operation as `now`, a reading of a monotonic clock
//! in nanoseconds. The entries live in concurrent `scc` hash maps.

use crate::utils::new_v7_id;
use vstd::prelude::*;

verus! {

broadcast use vstd::map::group_map_axioms, vstd::set::group_set_axioms;

/// How often expired entries are swept away (30 s).
pub const CLEAN_INTERVAL_NS: u64 = 30_000_000_000;

/// Number of login attempts a user can make in a burst.
pub const LOGIN_CAPACITY: u64 = 10;

/// Login attempts regained per second.
pub const LOGIN_REFILL_PER_SEC: u64 = 1;

/// How long a `join` session stays valid (30 s).
pub const SESSION_TTL_NS: u64 = 30_000_000_000;

/// How long a signed OTP token stays valid (10 min).
pub const OTP_TOKEN_TTL_NS: u64 = 600_000_000_000;

/// How long a pending OTP verification session stays valid (10 min).
pub const TOTP_SESSION_TTL_NS: u64 = 600_000_000_000;

/// The amount of bucket credit that one login attempt costs: the bucket holds
/// credit in nanoseconds of refill, so one attempt is one second of refill.
pub const ATTEMPT_COST: u64 = 1_000_000_000;

/// The credit of a full bucket.
pub const BUCKET_FULL: u64 = 10_000_000_000;

#[verifier::external_type_specification]
#[verifier::external_body]
#[verifier::reject_recursive_types(K)]
#[verifier::reject_recursive_types(V)]
#[verifier::reject_recursive_types(H)]
pub struct ExSccHashMap<K, V, H: std::hash::BuildHasher>(scc::HashMap<K, V, H>);

/// A login rate-limit bucket: the remaining credit and the time it was last updated.
pub type BucketMap = scc::HashMap<String, (u64, u64)>;

/// A join session record: profile id, access token, client address and creation time.
pub type SessionMap = scc::HashMap<String, (u128, u128, String, u64)>;

/// A pending OTP verification: user email, TOTP secret and expiry time.
pub type OtpSessionMap = scc::HashMap<u128, (String, String, u64)>;

/// A signed OTP token: user email and creation time.
pub type OtpTokenMap = scc::HashMap<u128, (String, u64)>;

/// The entries of the login rate-limit map, keyed by user name.
pub uninterp spec fn bucket_entries(m: scc::HashMap<String, (u64, u64)>) -> Map<Seq<char>, (u64, u64)>;

/// The entries of the join session map, keyed by server id.
pub uninterp spec fn session_entries(m: scc::HashMap<String, (u128, u128, String, u64)>) -> Map<
    Seq<char>,
    (u128, u128, Seq<char>, u64),
>;

/// The entries of the pending OTP session map, keyed by session id.
pub uninterp spec fn otp_session_entries(m: scc::HashMap<u128, (String, String, u64)>) -> Map<
    u128,
    (Seq<char>, Seq<char>, u64),
>;

/// The entries of the OTP token map, keyed by token.
pub uninterp spec fn otp_token_entries(m: scc::HashMap<u128, (String, u64)>) -> Map<u128, (Seq<char>, u64)>;

// ---- trusted access to the scc maps ----

/// An empty map (`scc::HashMap::new`).
#[verifier::external_body]
fn bucket_map_new() -> (fresh: BucketMap)
    ensures
        bucket_entries(fresh).dom().is_empty(),
{
    scc::HashMap::new()
}

/// The bucket stored under `key`, if any (`scc::HashMap::read_sync`, copying the value out).
#[verifier::external_body]
fn bucket_map_get(m: &BucketMap, key: &str) -> (r: Option<(u64, u64)>)
    ensures
        r == (if bucket_entries(*m).dom().contains(key@) {
            Some(bucket_entries(*m)[key@])
        } else {
            None
        }),
{
    m.read_sync(key, |_, v| *v)
}

/// Stores `val` under `key`, replacing any previous value (`scc::HashMap::upsert_sync`).
#[verifier::external_body]
fn bucket_map_upsert(m: &mut BucketMap, key: String, val: (u64, u64))
    ensures
        bucket_entries(*final(m)) == bucket_entries(*old(m)).insert(key@, val),
{
    let _ = m.upsert_sync(key, val);
}

/// Keeps the buckets updated less than one clean interval before `now`
/// (`scc::HashMap::retain_sync` with [`bucket_is_recent`]).
#[verifier::external_body]
fn bucket_map_retain_recent(m: &mut BucketMap, now: u64)
    ensures
        bucket_entries(*final(m)) == bucket_entries(*old(m)).restrict(
            Set::new(|k: Seq<char>| spec_bucket_is_recent(bucket_entries(*old(m))[k], now)),
        ),
{
    m.retain_sync(|_, v| bucket_is_recent(v, now));
}

/// An empty map (`scc::HashMap::new`).
#[verifier::external_body]
fn session_map_new() -> (fresh: SessionMap)
    ensures
        session_entries(fresh).dom().is_empty(),
{
    scc::HashMap::new()
}

/// The record stored under `key`, if any (`scc::HashMap::read_sync`, cloning the value out).
#[verifier::external_body]
fn session_map_get(m: &SessionMap, key: &str) -> (r: Option<(u128, u128, String, u64)>)
    ensures
        r is Some == session_entries(*m).dom().contains(key@),
        r matches Some(v) ==> (v.0, v.1, v.2@, v.3) == session_entries(*m)[key@],
{
    m.read_sync(key, |_, v| v.clone())
}

/// Stores `val` under `key` unless the key is already present, in which case
/// nothing changes (`scc::HashMap::insert_sync`).
#[verifier::external_body]
fn session_map_insert(m: &mut SessionMap, key: String, val: (u128, u128, String, u64))
    ensures
        session_entries(*final(m)) == (if session_entries(*old(m)).dom().contains(key@) {
            session_entries(*old(m))
        } else {
            session_entries(*old(m)).insert(key@, (val.0, val.1, val.2@, val.3))
        }),
{
    let _ = m.insert_sync(key, val);
}

/// Removes the entry under `key`, if any (`scc::HashMap::remove_sync`).
#[verifier::external_body]
fn session_map_remove(m: &mut SessionMap, key: &str)
    ensures
        session_entries(*final(m)) == session_entries(*old(m)).remove(key@),
{
    let _ = m.remove_sync(key);
}

/// Keeps the sessions created less than the session lifetime before `now`
/// (`scc::HashMap::retain_sync` with [`session_is_live`]).
#[verifier::external_body]
fn session_map_retain_live(m: &mut SessionMap, now: u64)
    ensures
        session_entries(*final(m)) == session_entries(*old(m)).restrict(
            Set::new(|k: Seq<char>| spec_session_is_live(session_entries(*old(m))[k].3, now)),
        ),
{
    m.retain_sync(|_, v| session_is_live(v.3, now));
}

/// An empty map (`scc::HashMap::new`).
#[verifier::external_body]
fn otp_session_map_new() -> (fresh: OtpSessionMap)
    ensures
        otp_session_entries(fresh).dom().is_empty(),
{
    scc::HashMap::new()
}

/// The pending session stored under `key`, if any (`scc::HashMap::read_sync`, cloning the value out).
#[verifier::external_body]
fn otp_session_map_get(m: &OtpSessionMap, key: u128) -> (r: Option<(String, String, u64)>)
    ensures
        r is Some == otp_session_entries(*m).dom().contains(key),
        r matches Some(v) ==> (v.0@, v.1@, v.2) == otp_session_entries(*m)[key],
{
    m.read_sync(&key, |_, v| v.clone())
}

/// Stores `val` under `key` unless the key is already present
/// (`scc::HashMap::insert_sync`).
#[verifier::external_body]
fn otp_session_map_insert(m: &mut OtpSessionMap, key: u128, val: (String, String, u64))
    ensures
        otp_session_entries(*final(m)) == (if otp_session_entries(*old(m)).dom().contains(key) {
            otp_session_entries(*old(m))
        } else {
            otp_session_entries(*old(m)).insert(key, (val.0@, val.1@, val.2))
        }),
{
    let _ = m.insert_sync(key, val);
}

/// Removes the entry under `key`, if any (`scc::HashMap::remove_sync`).
#[verifier::external_body]
fn otp_session_map_remove(m: &mut OtpSessionMap, key: u128)
    ensures
        otp_session_entries(*final(m)) == otp_session_entries(*old(m)).remove(key),
{
    let _ = m.remove_sync(&key);
}

/// Keeps the pending sessions that expire after `now`
/// (`scc::HashMap::retain_sync` with [`otp_session_is_live`]).
#[verifier::external_body]
fn otp_session_map_retain_live(m: &mut OtpSessionMap, now: u64)
    ensures
        otp_session_entries(*final(m)) == otp_session_entries(*old(m)).restrict(
            Set::new(|k: u128| now < otp_session_entries(*old(m))[k].2),
        ),
{
    m.retain_sync(|_, v| otp_session_is_live(v.2, now));
}

/// An empty map (`scc::HashMap::new`).
#[verifier::external_body]
fn otp_token_map_new() -> (fresh: OtpTokenMap)
    ensures
        otp_token_entries(fresh).dom().is_empty(),
{
    scc::HashMap::new()
}

/// The token record stored under `key`, if any (`scc::HashMap::read_sync`, cloning the value out).
#[verifier::external_body]
fn otp_token_map_get(m: &OtpTokenMap, key: u128) -> (r: Option<(String, u64)>)
    ensures
        r is Some == otp_token_entries(*m).dom().contains(key),
        r matches Some(v) ==> (v.0@, v.1) == otp_token_entries(*m)[key],
{
    m.read_sync(&key, |_, v| v.clone())
}

/// Stores `val` under `key` unless the key is already present
/// (`scc::HashMap::insert_sync`).
#[verifier::external_body]
fn otp_token_map_insert(m: &mut OtpTokenMap, key: u128, val: (String, u64))
    ensures
        otp_token_entries(*final(m)) == (if otp_token_entries(*old(m)).dom().contains(key) {
            otp_token_entries(*old(m))
        } else {
            otp_token_entries(*old(m)).insert(key, (val.0@, val.1))
        }),
{
    let _ = m.insert_sync(key, val);
}

/// Removes the entry under `key`, if any (`scc::HashMap::remove_sync`).
#[verifier::external_body]
fn otp_token_map_remove(m: &mut OtpTokenMap, key: u128)
    ensures
        otp_token_entries(*final(m)) == otp_token_entries(*old(m)).remove(key),
{
    let _ = m.remove_sync(&key);
}

/// Keeps the tokens created less than the token lifetime before `now`
/// (`scc::HashMap::retain_sync` with [`otp_token_is_live`]).
#[verifier::external_body]
fn otp_token_map_retain_live(m: &mut OtpTokenMap, now: u64)
    ensures
        otp_token_entries(*final(m)) == otp_token_entries(*old(m)).restrict(
            Set::new(|k: u128| spec_otp_token_is_live(otp_token_entries(*old(m))[k].1, now)),
        ),
{
    m.retain_sync(|_, v| otp_token_is_live(v.1, now));
}

// ---- the model ----

/// Time elapsed from `from` to `now`, zero if `now` is earlier (as `Instant::duration_since` saturates).
pub open spec fn elapsed(from: u64, now: u64) -> nat {
    if now >= from {
        (now - from) as nat
    } else {
        0
    }
}

/// Whether a bucket was touched less than one clean interval before `now`.
pub open spec fn spec_bucket_is_recent(b: (u64, u64), now: u64) -> bool {
    elapsed(b.1, now) < CLEAN_INTERVAL_NS
}

/// Whether a join session created at `created` is still kept at `now`.
pub open spec fn spec_session_is_live(created: u64, now: u64) -> bool {
    elapsed(created, now) < SESSION_TTL_NS
}

/// Whether an OTP token created at `created` is still valid at `now`.
pub open spec fn spec_otp_token_is_live(created: u64, now: u64) -> bool {
    elapsed(created, now) < OTP_TOKEN_TTL_NS
}

/// The abstract state of the cache.
pub struct CacheState {
    pub buckets: Map<Seq<char>, (u64, u64)>,
    pub sessions: Map<Seq<char>, (u128, u128, Seq<char>, u64)>,
    pub otp_sessions: Map<u128, (Seq<char>, Seq<char>, u64)>,
    pub otp_tokens: Map<u128, (Seq<char>, u64)>,
}

impl CacheState {
    /// Every bucket holds at most a full bucket of credit.
    pub open spec fn wf(self) -> bool {
        forall|k: Seq<char>| #[trigger] self.buckets.dom().contains(k) ==> self.buckets[k].0 <= BUCKET_FULL
    }
}

/// The credit of a bucket after refilling it up to `now`, capped at a full bucket.
pub open spec fn refilled(b: (u64, u64), now: u64) -> nat {
    let credit = b.0 + elapsed(b.1, now) * LOGIN_REFILL_PER_SEC;
    if credit > BUCKET_FULL {
        BUCKET_FULL as nat
    } else {
        credit as nat
    }
}

/// One login attempt against a bucket (a new user starts with a full bucket):
/// the bucket afterwards and whether the attempt is allowed.
pub open spec fn consume_step(b: Option<(u64, u64)>, now: u64) -> ((u64, u64), bool) {
    let start = match b {
        Some(v) => v,
        None => (BUCKET_FULL, now),
    };
    let credit = refilled(start, now);
    if credit >= ATTEMPT_COST {
        (((credit - ATTEMPT_COST) as u64, now), true)
    } else {
        ((credit as u64, now), false)
    }
}

/// A login attempt of `user` at `now`: the new state and whether it is allowed.
pub open spec fn try_consume_spec(s: CacheState, user: Seq<char>, now: u64) -> (CacheState, bool) {
    let b = if s.buckets.dom().contains(user) {
        Some(s.buckets[user])
    } else {
        None
    };
    let (nb, ok) = consume_step(b, now);
    (CacheState { buckets: s.buckets.insert(user, nb), ..s }, ok)
}

/// Recording a join session: kept only if no session with this server id is stored.
pub open spec fn record_session_spec(
    s: CacheState,
    server_id: Seq<char>,
    rec: (u128, u128, Seq<char>, u64),
) -> CacheState {
    if s.sessions.dom().contains(server_id) {
        s
    } else {
        CacheState { sessions: s.sessions.insert(server_id, rec), ..s }
    }
}

/// Looking up a join session: a session older than its lifetime is removed and not returned.
pub open spec fn query_session_spec(s: CacheState, server_id: Seq<char>, now: u64) -> (
    CacheState,
    Option<(u128, u128, Seq<char>, u64)>,
) {
    if !s.sessions.dom().contains(server_id) {
        (s, None)
    } else if elapsed(s.sessions[server_id].3, now) > SESSION_TTL_NS {
        (CacheState { sessions: s.sessions.remove(server_id), ..s }, None)
    } else {
        (s, Some(s.sessions[server_id]))
    }
}

/// Storing a pending OTP session under `id` (kept only if the id is new).
pub open spec fn insert_otp_session_spec(
    s: CacheState,
    id: u128,
    sess: (Seq<char>, Seq<char>, u64),
) -> CacheState {
    if s.otp_sessions.dom().contains(id) {
        s
    } else {
        CacheState { otp_sessions: s.otp_sessions.insert(id, sess), ..s }
    }
}

/// Looking up a pending OTP session: one whose expiry is reached is removed and not returned.
pub open spec fn query_otp_session_spec(s: CacheState, id: u128, now: u64) -> (
    CacheState,
    Option<(Seq<char>, Seq<char>, u64)>,
) {
    if !s.otp_sessions.dom().contains(id) {
        (s, None)
    } else if now >= s.otp_sessions[id].2 {
        (CacheState { otp_sessions: s.otp_sessions.remove(id), ..s }, None)
    } else {
        (s, Some(s.otp_sessions[id]))
    }
}

/// Signing an OTP token `token` for `email` at `now` (kept only if the token is new).
pub open spec fn sign_otp_token_spec(s: CacheState, token: u128, email: Seq<char>, now: u64) -> CacheState {
    if s.otp_tokens.dom().contains(token) {
        s
    } else {
        CacheState { otp_tokens: s.otp_tokens.insert(token, (email, now)), ..s }
    }
}

/// Whether `token` is a live token for `email` at `now`.
pub open spec fn otp_token_accepts(s: CacheState, token: u128, email: Seq<char>, now: u64) -> bool {
    s.otp_tokens.dom().contains(token) && s.otp_tokens[token].0 == email
        && spec_otp_token_is_live(s.otp_tokens[token].1, now)
}

/// Verifying an OTP token: an accepted token is consumed.
pub open spec fn verify_otp_token_spec(s: CacheState, token: u128, email: Seq<char>, now: u64) -> (
    CacheState,
    bool,
) {
    if otp_token_accepts(s, token, email, now) {
        (CacheState { otp_tokens: s.otp_tokens.remove(token), ..s }, true)
    } else {
        (s, false)
    }
}

/// The sweep of expired entries.
pub open spec fn cleanup_spec(s: CacheState, now: u64) -> CacheState {
    CacheState {
        buckets: s.buckets.restrict(Set::new(|k: Seq<char>| spec_bucket_is_recent(s.buckets[k], now))),
        sessions: s.sessions.restrict(
            Set::new(|k: Seq<char>| spec_session_is_live(s.sessions[k].3, now)),
        ),
        otp_sessions: s.otp_sessions.restrict(Set::new(|k: u128| now < s.otp_sessions[k].2)),
        otp_tokens: s.otp_tokens.restrict(
            Set::new(|k: u128| spec_otp_token_is_live(s.otp_tokens[k].1, now)),
        ),
    }
}

// ---- predicates used by the sweep ----

/// Whether a bucket was touched less than one clean interval before `now`.
pub fn bucket_is_recent(b: &(u64, u64), now: u64) -> (r: bool)
    ensures
        r == spec_bucket_is_recent(*b, now),
{
    now.saturating_sub(b.1) < CLEAN_INTERVAL_NS
}

/// Whether a join session created at `created` is still kept at `now`.
pub fn session_is_live(created: u64, now: u64) -> (r: bool)
    ensures
        r == spec_session_is_live(created, now),
{
    now.saturating_sub(created) < SESSION_TTL_NS
}

/// Whether a pending OTP session expiring at `expired_at` is still live at `now`.
pub fn otp_session_is_live(expired_at: u64, now: u64) -> (r: bool)
    ensures
        r == (now < expired_at),
{
    now < expired_at
}

/// Whether an OTP token created at `created` is still valid at `now`.
pub fn otp_token_is_live(created: u64, now: u64) -> (r: bool)
    ensures
        r == spec_otp_token_is_live(created, now),
{
    now.saturating_sub(created) < OTP_TOKEN_TTL_NS
}

// ---- the cache ----

/// The session record produced by a `join` request.
pub struct Session {
    pub profile_id: u128,
    pub server_id: String,
    pub access_token: u128,
    pub ip: String,
}

/// How a pending verification is to be completed.
#[derive(Clone, Copy, PartialEq, Eq, Debug)]
pub enum VerificationMethod {
    Totp,
}

/// A pending OTP verification of a user.
#[derive(Clone)]
pub struct OtpSession {
    pub method: VerificationMethod,
    pub user_email: String,
    pub secret: String,
    pub expired_at: u64,
}

impl OtpSession {
    /// A TOTP verification of `user_email` with `secret`, started at `now`;
    /// it expires after the verification session lifetime.
    pub fn new(user_email: String, secret: String, now: u64) -> (s: Self)
        requires
            now + TOTP_SESSION_TTL_NS <= u64::MAX,
        ensures
            s.method == VerificationMethod::Totp,
            s.user_email@ == user_email@,
            s.secret@ == secret@,
            s.expired_at == now + TOTP_SESSION_TTL_NS,
    {
        OtpSession { method: VerificationMethod::Totp, user_email, secret, expired_at: now + TOTP_SESSION_TTL_NS }
    }
}

/// The cache itself.
pub struct KVCache {
    login_rate_limit: BucketMap,
    session_status: SessionMap,
    otp_sessions: OtpSessionMap,
    otp_tokens: OtpTokenMap,
}

impl View for KVCache {
    type V = CacheState;

    closed spec fn view(&self) -> CacheState {
        CacheState {
            buckets: bucket_entries(self.login_rate_limit),
            sessions: session_entries(self.session_status),
            otp_sessions: otp_session_entries(self.otp_sessions),
            otp_tokens: otp_token_entries(self.otp_tokens),
        }
    }
}

impl KVCache {
    /// An empty cache.
    pub fn new() -> (c: Self)
        ensures
            c@.buckets == Map::<Seq<char>, (u64, u64)>::empty(),
            c@.sessions == Map::<Seq<char>, (u128, u128, Seq<char>, u64)>::empty(),
            c@.otp_sessions == Map::<u128, (Seq<char>, Seq<char>, u64)>::empty(),
            c@.otp_tokens == Map::<u128, (Seq<char>, u64)>::empty(),
            c@.wf(),
    {
        KVCache {
            login_rate_limit: bucket_map_new(),
            session_status: session_map_new(),
            otp_sessions: otp_session_map_new(),
            otp_tokens: otp_token_map_new(),
        }
    }

    /// Takes one login attempt from `user`'s bucket at `now`; false when the
    /// user has made too many attempts recently.
    pub fn try_consume(&mut self, user: &str, now: u64) -> (ok: bool)
        ensures
            old(self)@.wf() ==> final(self)@.wf(),
            (final(self)@, ok) == try_consume_spec(old(self)@, user@, now),
    {
        let b = match bucket_map_get(&self.login_rate_limit, user) {
            Some(v) => v,
            None => (BUCKET_FULL, now),
        };
        let gained = now.saturating_sub(b.1);
        let credit = if b.0 > BUCKET_FULL || gained >= BUCKET_FULL - b.0 {
            BUCKET_FULL
        } else {
            b.0 + gained
        };
        let ok = credit >= ATTEMPT_COST;
        let left = if ok {
            credit - ATTEMPT_COST
        } else {
            credit
        };
        bucket_map_upsert(&mut self.login_rate_limit, user.to_owned(), (left, now));
        assert(old(self)@.wf() ==> self@.wf()) by {
            if old(self)@.wf() {
                assert forall|k: Seq<char>| #[trigger] self@.buckets.dom().contains(k) implies self@.buckets[k].0
                    <= BUCKET_FULL by {
                    if k != user@ {
                        assert(old(self)@.buckets.dom().contains(k));
                    }
                }
            }
        }
        ok
    }

    /// Records a join session at `now`; a session already stored under the same
    /// server id is kept instead.
    pub fn record_session(&mut self, session: Session, now: u64)
        ensures
            final(self)@ == record_session_spec(
                old(self)@,
                session.server_id@,
                (session.profile_id, session.access_token, session.ip@, now),
            ),
            old(self)@.wf() ==> final(self)@.wf(),
    {
        let record = (session.profile_id, session.access_token, session.ip, now);
        session_map_insert(&mut self.session_status, session.server_id, record);
        assert(self@.buckets == old(self)@.buckets);
    }

    /// The join session recorded under `session_id`, unless it is older than
    /// the session lifetime (in which case it is dropped).
    pub fn query_session(&mut self, session_id: &str, now: u64) -> (r: Option<Session>)
        ensures
            old(self)@.wf() ==> final(self)@.wf(),
            final(self)@ == query_session_spec(old(self)@, session_id@, now).0,
            match query_session_spec(old(self)@, session_id@, now).1 {
                None => r is None,
                Some(rec) => r matches Some(s) && s.profile_id == rec.0 && s.access_token == rec.1
                    && s.ip@ == rec.2 && s.server_id@ == session_id@,
            },
    {
        match session_map_get(&self.session_status, session_id) {
            None => None,
            Some(rec) => {
                if now.saturating_sub(rec.3) > SESSION_TTL_NS {
                    session_map_remove(&mut self.session_status, session_id);
                    None
                } else {
                    Some(
                        Session {
                            profile_id: rec.0,
                            server_id: session_id.to_owned(),
                            access_token: rec.1,
                            ip: rec.2,
                        },
                    )
                }
            },
        }
    }

    /// Stores a pending OTP session under a fresh version-7 id and returns the id.
    pub fn insert_otp_session(&mut self, session: OtpSession) -> (id: u128)
        ensures
            old(self)@.wf() ==> final(self)@.wf(),
            final(self)@ == insert_otp_session_spec(
                old(self)@,
                id,
                (session.user_email@, session.secret@, session.expired_at),
            ),
    {
        let id = new_v7_id();
        otp_session_map_insert(
            &mut self.otp_sessions,
            id,
            (session.user_email, session.secret, session.expired_at),
        );
        id
    }

    /// The pending OTP session `id`, unless it has expired (in which case it is dropped).
    pub fn query_otp_session(&mut self, id: u128, now: u64) -> (r: Option<OtpSession>)
        ensures
            old(self)@.wf() ==> final(self)@.wf(),
            final(self)@ == query_otp_session_spec(old(self)@, id, now).0,
            match query_otp_session_spec(old(self)@, id, now).1 {
                None => r is None,
                Some(v) => r matches Some(s) && s.method == VerificationMethod::Totp
                    && s.user_email@ == v.0 && s.secret@ == v.1 && s.expired_at == v.2,
            },
    {
        match otp_session_map_get(&self.otp_sessions, id) {
            None => None,
            Some(v) => {
                if now >= v.2 {
                    otp_session_map_remove(&mut self.otp_sessions, id);
                    None
                } else {
                    Some(
                        OtpSession {
                            method: VerificationMethod::Totp,
                            user_email: v.0,
                            secret: v.1,
                            expired_at: v.2,
                        },
                    )
                }
            },
        }
    }

    /// Signs a fresh OTP token for `user_email` at `now` and returns it.
    pub fn sign_otp_token(&mut self, user_email: String, now: u64) -> (token: u128)
        ensures
            old(self)@.wf() ==> final(self)@.wf(),
            final(self)@ == sign_otp_token_spec(old(self)@, token, user_email@, now),
    {
        let token = new_v7_id();
        otp_token_map_insert(&mut self.otp_tokens, token, (user_email, now));
        token
    }

    /// Whether `token` is a live OTP token of `user_email`; an accepted token is
    /// consumed and cannot be used again.
    pub fn verify_opt_token(&mut self, token: u128, user_email: &str, now: u64) -> (ok: bool)
        ensures
            old(self)@.wf() ==> final(self)@.wf(),
            (final(self)@, ok) == verify_otp_token_spec(old(self)@, token, user_email@, now),
    {
        match otp_token_map_get(&self.otp_tokens, token) {
            None => false,
            Some(v) => {
                let email = user_email.to_owned();
                if v.0 == email && otp_token_is_live(v.1, now) {
                    otp_token_map_remove(&mut self.otp_tokens, token);
                    assert(self@.buckets == old(self)@.buckets);
                    true
                } else {
                    false
                }
            },
        }
    }

    /// Sweeps away the buckets idle for a clean interval, the expired join
    /// sessions, the expired pending OTP sessions and the expired OTP tokens.
    pub fn cleanup(&mut self, now: u64)
        ensures
            old(self)@.wf() ==> final(self)@.wf(),
            final(self)@ == cleanup_spec(old(self)@, now),
    {
        bucket_map_retain_recent(&mut self.login_rate_limit, now);
        session_map_retain_live(&mut self.session_status, now);
        otp_session_map_retain_live(&mut self.otp_sessions, now);
        otp_token_map_retain_live(&mut self.otp_tokens, now);
        proof {
            if old(self)@.wf() {
                assert forall|k: Seq<char>| #[trigger] self@.buckets.dom().contains(k) implies self@.buckets[k].0
                    <= BUCKET_FULL by {
                    assert(old(self)@.buckets.dom().contains(k));
                }
            }
        }
    }
}

// ---- laws ----

/// The number of allowed attempts among `n` attempts of `user`, all made at `now`.
pub open spec fn allowed_in_burst(s: CacheState, user: Seq<char>, now: u64, n: nat) -> nat
    decreases n,
{
    if n == 0 {
        0
    } else {
        let (next, ok) = try_consume_spec(s, user, now);
        (if ok {
            1nat
        } else {
            0nat
        }) + allowed_in_burst(next, user, now, (n - 1) as nat)
    }
}

/// The credit `user` has at `now`, before attempting.
pub open spec fn credit_at(s: CacheState, user: Seq<char>, now: u64) -> nat {
    let start = if s.buckets.dom().contains(user) {
        s.buckets[user]
    } else {
        (BUCKET_FULL, now)
    };
    refilled(start, now)
}

proof fn lemma_burst_within_credit(s: CacheState, user: Seq<char>, now: u64, n: nat)
    requires
        s.wf(),
    ensures
        allowed_in_burst(s, user, now, n) * ATTEMPT_COST <= credit_at(s, user, now),
    decreases n,
{
    if n > 0 {
        let (next, ok) = try_consume_spec(s, user, now);
        assert(next.buckets.dom().contains(user));
        assert(next.wf()) by {
            assert forall|k: Seq<char>| #[trigger] next.buckets.dom().contains(k) implies next.buckets[k].0
                <= BUCKET_FULL by {
                if k != user {
                    assert(s.buckets.dom().contains(k));
                }
            }
        }
        lemma_burst_within_credit(next, user, now, (n - 1) as nat);
    }
}

/// A burst of login attempts by one user, all at the same moment, is allowed
/// at most `LOGIN_CAPACITY` times, however long the burst.
pub proof fn law_burst_is_bounded(s: CacheState, user: Seq<char>, now: u64, n: nat)
    requires
        s.wf(),
    ensures
        allowed_in_burst(s, user, now, n) <= LOGIN_CAPACITY,
{
    lemma_burst_within_credit(s, user, now, n);
}

/// A user's first login attempt is allowed, and so is any attempt made at least
/// one second after that user's previous attempt.
pub proof fn law_attempt_allowed_after_refill(s: CacheState, user: Seq<char>, now: u64)
    requires
        s.wf(),
        s.buckets.dom().contains(user) ==> elapsed(s.buckets[user].1, now) >= ATTEMPT_COST,
    ensures
        try_consume_spec(s, user, now).1,
{
}

/// The bucket refills in proportion to the time since the user's last
/// attempt, one attempt's worth per second, up to a full bucket: an attempt
/// finds the stored credit plus the nanoseconds elapsed (capped at a full
/// bucket); it is allowed when that covers one attempt, which it then takes,
/// and the bucket is stamped with the attempt's time.
pub proof fn law_refill_proportional_to_pause(s: CacheState, user: Seq<char>, now: u64)
    requires
        s.buckets.dom().contains(user),
    ensures
        ({
            let (c, t) = s.buckets[user];
            let found = if c + elapsed(t, now) > BUCKET_FULL {
                BUCKET_FULL as int
            } else {
                c + elapsed(t, now)
            };
            let (next, ok) = try_consume_spec(s, user, now);
            &&& ok <==> found >= ATTEMPT_COST
            &&& next.buckets[user].0 == (if ok {
                found - ATTEMPT_COST
            } else {
                found
            })
            &&& next.buckets[user].1 == now
        }),
{
}

/// Within any window, a user's attempts are paid for by the credit the bucket
/// held at its start and the refill since: however many attempts are made at
/// `now`, the allowed ones cost at most the stored credit plus the time
/// elapsed since the last attempt. From an empty bucket, a burst one second
/// later is allowed at most once.
pub proof fn law_burst_paid_by_refill(s: CacheState, user: Seq<char>, now: u64, n: nat)
    requires
        s.wf(),
        s.buckets.dom().contains(user),
    ensures
        allowed_in_burst(s, user, now, n) * ATTEMPT_COST <= s.buckets[user].0 + elapsed(s.buckets[user].1, now),
{
    lemma_burst_within_credit(s, user, now, n);
}

/// A verified OTP token is consumed: verifying it again fails, whatever the
/// email and the time.
pub proof fn law_otp_token_single_use(
    s: CacheState,
    token: u128,
    email: Seq<char>,
    now: u64,
    other_email: Seq<char>,
    later: u64,
)
    requires
        verify_otp_token_spec(s, token, email, now).1,
    ensures
        !verify_otp_token_spec(verify_otp_token_spec(s, token, email, now).0, token, other_email, later).1,
{
}

/// A refused OTP token check changes nothing: a token that is live for
/// `email` and offered for another email is refused and stays stored, so it
/// is still accepted for `email` afterwards.
pub proof fn law_refused_otp_token_kept(
    s: CacheState,
    token: u128,
    email: Seq<char>,
    other_email: Seq<char>,
    now: u64,
    later: u64,
)
    requires
        otp_token_accepts(s, token, email, later),
        other_email != email,
    ensures
        verify_otp_token_spec(s, token, other_email, now) == (s, false),
        verify_otp_token_spec(verify_otp_token_spec(s, token, other_email, now).0, token, email, later).1,
{
}

/// A freshly signed OTP token is accepted for its email while it is younger than
/// the token lifetime, and refused for any other email.
pub proof fn law_signed_otp_token_accepted(
    s: CacheState,
    token: u128,
    email: Seq<char>,
    signed_at: u64,
    other_email: Seq<char>,
    now: u64,
)
    requires
        !s.otp_tokens.dom().contains(token),
        elapsed(signed_at, now) < OTP_TOKEN_TTL_NS,
        other_email != email,
    ensures
        verify_otp_token_spec(sign_otp_token_spec(s, token, email, signed_at), token, email, now).1,
        !verify_otp_token_spec(sign_otp_token_spec(s, token, email, signed_at), token, other_email, now).1,
{
}

/// A join session recorded under a new server id is found again, unchanged,
/// while it is no older than the session lifetime.
pub proof fn law_recorded_session_found(
    s: CacheState,
    server_id: Seq<char>,
    rec: (u128, u128, Seq<char>, u64),
    now: u64,
)
    requires
        !s.sessions.dom().contains(server_id),
        elapsed(rec.3, now) <= SESSION_TTL_NS,
    ensures
        query_session_spec(record_session_spec(s, server_id, rec), server_id, now).1 == Some(rec),
{
}

/// A pending OTP verification stored under a new id is found again, unchanged,
/// until its expiry time.
pub proof fn law_otp_session_found(s: CacheState, id: u128, sess: (Seq<char>, Seq<char>, u64), now: u64)
    requires
        !s.otp_sessions.dom().contains(id),
        now < sess.2,
    ensures
        query_otp_session_spec(insert_otp_session_spec(s, id, sess), id, now).1 == Some(sess),
{
}

/// Sweeping the cache at `now` changes no answer given at `now`: the login
/// attempt, the pending OTP session lookup and the OTP token check answer as
/// without the sweep, and so does the join session lookup, except for a
/// session exactly as old as the session lifetime (the sweep drops it while
/// a lookup still returns it).
pub proof fn law_cleanup_is_unobservable(
    s: CacheState,
    now: u64,
    user: Seq<char>,
    server_id: Seq<char>,
    otp_id: u128,
    token: u128,
    email: Seq<char>,
)
    requires
        s.wf(),
        s.sessions.dom().contains(server_id) ==> elapsed(s.sessions[server_id].3, now)
            != SESSION_TTL_NS,
    ensures
        try_consume_spec(cleanup_spec(s, now), user, now).1 == try_consume_spec(s, user, now).1,
        try_consume_spec(cleanup_spec(s, now), user, now).0.buckets[user] == try_consume_spec(
            s,
            user,
            now,
        ).0.buckets[user],
        query_session_spec(cleanup_spec(s, now), server_id, now).1 == query_session_spec(
            s,
            server_id,
            now,
        ).1,
        query_otp_session_spec(cleanup_spec(s, now), otp_id, now).1 == query_otp_session_spec(
            s,
            otp_id,
            now,
        ).1,
        verify_otp_token_spec(cleanup_spec(s, now), token, email, now).1 == verify_otp_token_spec(
            s,
            token,
            email,
            now,
        ).1,
{
    let c = cleanup_spec(s, now);
    if s.buckets.dom().contains(user) {
        if !c.buckets.dom().contains(user) {
            assert(!spec_bucket_is_recent(s.buckets[user], now));
        }
    }
}

} // verus!
