//! TOTP credentials and OTP verification sessions.
//!
//! A user enrols a TOTP secret; later, a verification session started for
//! their email is completed with a code from their authenticator, which
//! earns an OTP token that login and password changes accept.

use crate::kv_cache::{
    insert_otp_session_spec, query_otp_session_spec, sign_otp_token_spec, CacheState, KVCache, OtpSession,
    elapsed, verify_otp_token_spec, VerificationMethod, OTP_TOKEN_TTL_NS, TOTP_SESSION_TTL_NS,
};
use crate::service::Error;
use crate::text::{has_prefix, is_digit};
use vstd::prelude::*;

verus! {

/// The digits of the RFC 4648 base32 alphabet: `A`-`Z` and `2`-`7`.
pub open spec fn is_base32_char(c: char) -> bool {
    ('A' <= c <= 'Z') || ('2' <= c <= '7')
}

/// An unpadded base32 text of a 20-byte TOTP secret: 32 base32 digits.
pub open spec fn is_totp_secret_text(s: Seq<char>) -> bool {
    s.len() == 32 && forall|i: int| 0 <= i < s.len() ==> is_base32_char(#[trigger] s[i])
}

/// An account name that an `otpauth` URL can carry: not empty, without `:`.
pub open spec fn is_totp_account(s: Seq<char>) -> bool {
    s.len() > 0 && !s.contains(':')
}

/// A fresh random TOTP secret (`totp_rs::Secret::generate`, 20 random
/// bytes), written in unpadded RFC 4648 base32 (`Secret::to_base32`).
///
/// The bytes are random; the contract states the shape of the text.
#[verifier::external_body]
fn generate_totp_secret() -> (r: String)
    ensures
        is_totp_secret_text(r@),
{
    totp_rs::Secret::generate().to_base32()
}

/// The parameters of a TOTP besides its secret and account: the number of
/// digits of a code, the steps of skew accepted each way, the length of a
/// step in seconds, and the issuer named in its URL. The hash is SHA-1, the
/// builder's default.
pub struct TotpSettings {
    pub digits: u8,
    pub skew: u16,
    pub step_secs: u64,
    pub issuer: String,
}

impl View for TotpSettings {
    type V = (u8, u16, u64, Seq<char>);

    open spec fn view(&self) -> (u8, u16, u64, Seq<char>) {
        (self.digits, self.skew, self.step_secs, self.issuer@)
    }
}

/// The TOTP of every account: six digits, one step of skew each way, steps of
/// 30 seconds, issuer `Aphanite`.
pub open spec fn account_totp() -> (u8, u16, u64, Seq<char>) {
    (6u8, 1u16, 30u64, "Aphanite"@)
}

/// The settings of the TOTP of every account.
pub fn account_totp_settings() -> (r: TotpSettings)
    ensures
        r@ == account_totp(),
{
    TotpSettings { digits: 6, skew: 1, step_secs: 30, issuer: "Aphanite".to_owned() }
}

/// Settings that the TOTP builder accepts: an RFC digit count (6 to 8), a
/// step of at least a second, and an issuer without `:`.
pub open spec fn buildable_settings(settings: (u8, u16, u64, Seq<char>)) -> bool {
    6 <= settings.0 <= 8 && settings.2 > 0 && !settings.3.contains(':')
}

/// The `otpauth://` URL of the TOTP of `account` with a base32 `secret` and
/// `settings`; `None` when no such TOTP can be built or written as a URL.
pub uninterp spec fn totp_otpauth_url(secret: Seq<char>, account: Seq<char>, settings: (u8, u16, u64, Seq<char>)) -> Option<Seq<char>>;

/// Builds the TOTP of `account` (`totp_rs::Builder` with `settings`, the
/// secret read from base32) and writes its URL (`Totp::to_url`), or gives the
/// error's text.
///
/// The URL is named. The contract states what the builder's and `to_url`'s
/// checks imply: an account that is empty or holds `:` is refused, and a
/// generated secret with a valid account and buildable settings is accepted.
/// A URL that is written starts with `otpauth://totp/` (the `steam` feature,
/// the only other host, is not enabled).
#[verifier::external_body]
fn totp_url(secret: &str, account: &str, settings: &TotpSettings) -> (r: Result<String, String>)
    ensures
        r is Ok == totp_otpauth_url(secret@, account@, settings@) is Some,
        r matches Ok(u) ==> u@ == totp_otpauth_url(secret@, account@, settings@)->0,
        r matches Ok(u) ==> has_prefix(u@, "otpauth://totp/"@),
        !is_totp_account(account@) ==> r is Err,
        is_totp_secret_text(secret@) && is_totp_account(account@) && buildable_settings(settings@) ==> r is Ok,
{
    let secret = totp_rs::Secret::try_from_base32(secret).map_err(|e| e.to_string())?;
    let totp = totp_rs::Builder::new()
        .with_digits(settings.digits)
        .with_skew(settings.skew)
        .with_step_duration(settings.step_secs)
        .with_secret(secret)
        .with_issuer(Some(settings.issuer.as_str()))
        .with_account_name(account)
        .build()
        .map_err(|e| e.to_string())?;
    totp.to_url().map_err(|e| e.to_string())
}

/// The current system time in whole seconds since the Unix epoch
/// (`SystemTime::now` then `duration_since(UNIX_EPOCH)`), 0 for a clock set
/// before the epoch.
///
/// The clock is read, so nothing is stated of the result.
#[verifier::external_body]
fn unix_time_secs() -> (t: u64) {
    match std::time::SystemTime::now().duration_since(std::time::UNIX_EPOCH) {
        Ok(d) => d.as_secs(),
        Err(_) => 0,
    }
}

/// The verdict of the TOTP of `account` with a base32 `secret` and
/// `settings` on `code` at Unix time `time` (seconds); `None` when the secret
/// cannot be read or the TOTP cannot be built.
pub uninterp spec fn totp_check_result(
    secret: Seq<char>,
    account: Seq<char>,
    code: Seq<char>,
    time: u64,
    settings: (u8, u16, u64, Seq<char>),
) -> Option<bool>;

/// Checks a code against the TOTP of `account` with a base32 `secret` and
/// `settings` at Unix time `time` (`Secret::try_from_base32`,
/// `Builder::build`, then `Totp::check`, which accepts the codes of the step
/// of `time` and of the `skew` steps before and after it).
///
/// The verdict is a function of its arguments and is named. The contract
/// states what the source shows besides: an accepted code is made of as many
/// ASCII digits as the settings say, and a generated secret with an account
/// without `:` and buildable settings always builds. The check multiplies the
/// last step it tries by the step length, so `time` plus `skew` steps fits in
/// a `u64`.
#[verifier::external_body]
fn totp_check(secret: &str, account: &str, code: &str, time: u64, settings: &TotpSettings) -> (r: Option<bool>)
    requires
        time + settings.skew * settings.step_secs <= u64::MAX,
    ensures
        r == totp_check_result(secret@, account@, code@, time, settings@),
        r == Some(true) ==> is_totp_code(code@, settings.digits as nat),
        is_totp_secret_text(secret@) && !account@.contains(':') && buildable_settings(settings@) ==> r is Some,
{
    let secret = totp_rs::Secret::try_from_base32(secret).ok()?;
    let totp = totp_rs::Builder::new()
        .with_digits(settings.digits)
        .with_skew(settings.skew)
        .with_step_duration(settings.step_secs)
        .with_secret(secret)
        .with_issuer(Some(settings.issuer.as_str()))
        .with_account_name(account)
        .build()
        .ok()?;
    Some(totp.check(code, time).is_some())
}

/// A TOTP code as the check reads it: `digits` ASCII digits.
pub open spec fn is_totp_code(code: Seq<char>, digits: nat) -> bool {
    code.len() == digits && forall|i: int| 0 <= i < digits ==> is_digit(#[trigger] code[i])
}

/// The answer to a TOTP enrolment: the secret and its `otpauth://` URL.
pub struct ResponseTotp {
    pub secret: String,
    pub otpauth_url: String,
}

/// A TOTP enrolment: the new secret, to be stored for the user, and the
/// answer (which fails if no URL can be written for it).
pub struct TotpEnrolment {
    pub secret: String,
    pub response: Result<ResponseTotp, Error>,
}

/// `r` enrols a TOTP for the user with `email`: a base32 secret, and either
/// its URL or, where none can be written (the email is empty or holds `:`),
/// a 500 answer.
pub open spec fn is_enrolment_for(r: TotpEnrolment, email: Seq<char>) -> bool {
    &&& is_totp_secret_text(r.secret@)
    &&& r.response matches Ok(resp) ==> resp.secret@ == r.secret@
        && Some(resp.otpauth_url@) == totp_otpauth_url(r.secret@, email, account_totp())
        && has_prefix(resp.otpauth_url@, "otpauth://totp/"@)
    &&& r.response matches Err(e) ==> e@.0 == 500
    &&& r.response is Ok <==> is_totp_account(email)
}

/// Enrols a TOTP for the user with `email`: a fresh secret, then its URL. A
/// URL that cannot be written is answered with 500 and the builder's message.
pub fn create_totp(email: &str) -> (r: TotpEnrolment)
    ensures
        is_enrolment_for(r, email@),
{
    let secret = generate_totp_secret();
    let settings = account_totp_settings();
    proof {
        reveal_strlit("Aphanite");
    }
    let response = match totp_url(secret.as_str(), email, &settings) {
        Ok(url) => Ok(ResponseTotp { secret: secret.clone(), otpauth_url: url }),
        Err(msg) => Err(Error::with_reason(500, msg)),
    };
    TotpEnrolment { secret, response }
}

/// Enrols a TOTP for the user that the request authenticated as, given the
/// outcome of the authentication (the user's email, or the error it was
/// refused with): a refused request, such as one without a valid token (401),
/// is answered with that error and nothing is enrolled.
pub fn create_totp_authenticated(auth: Result<String, Error>) -> (r: Result<TotpEnrolment, Error>)
    ensures
        match auth {
            Err(e) => r matches Err(e2) && e2@ == e@,
            Ok(email) => r matches Ok(en) && is_enrolment_for(en, email@),
        },
{
    match auth {
        Err(e) => Err(e),
        Ok(email) => Ok(create_totp(email.as_str())),
    }
}

/// Starts a verification of the user with `email` by `method`, given the
/// user's active TOTP secret (`None` when the user has none): the session is
/// kept for ten minutes and its id returned.
pub fn create_verification(
    kv: &mut KVCache,
    method: VerificationMethod,
    email: String,
    secret: Option<String>,
    now: u64,
) -> (r: Result<u128, Error>)
    requires
        now + TOTP_SESSION_TTL_NS <= u64::MAX,
    ensures
        old(kv)@.wf() ==> final(kv)@.wf(),
        match secret {
            None => r matches Err(e) && e@ == (400u16, "No TOTP secret available."@) && final(kv)@ == old(kv)@,
            Some(s) => r matches Ok(id) && final(kv)@ == insert_otp_session_spec(
                old(kv)@,
                id,
                (email@, s@, (now + TOTP_SESSION_TTL_NS) as u64),
            ),
        },
{
    match method {
        VerificationMethod::Totp => {
            match secret {
                None => Err(Error::error(400, "No TOTP secret available.")),
                Some(s) => {
                    let id = kv.insert_otp_session(OtpSession::new(email, s, now));
                    Ok(id)
                },
            }
        },
    }
}

/// The answer to a TOTP code once it was checked: `None` when the stored
/// secret could not be used (500), `Some(false)` when the code is wrong (401).
pub fn totp_check_outcome(check: Option<bool>) -> (r: Result<(), Error>)
    ensures
        match check {
            Some(true) => r is Ok,
            Some(false) => r matches Err(e) && e@ == (401u16, "TOTP verification code error"@),
            None => r matches Err(e) && e@ == (500u16, "Internal server error"@),
        },
{
    match check {
        Some(true) => Ok(()),
        Some(false) => Err(Error::error(401, "TOTP verification code error")),
        None => Err(Error::error(500, "Internal server error")),
    }
}

/// An error as its status and reason.
pub open spec fn error_result(r: Result<u128, Error>) -> Result<u128, (u16, Seq<char>)> {
    match r {
        Ok(t) => Ok(t),
        Err(e) => Err(e@),
    }
}

/// What completing the verification session `id` with `code` at `now`
/// (monotonic nanoseconds) and Unix time `time` does, taking the cache from
/// `before` to `after` and answering `r`: a missing or expired session is
/// answered with 404; otherwise the session's secret, email and the code are
/// checked at `time`, and a code the TOTP accepts earns an OTP token signed
/// for the session's email, a wrong code 401 and an unusable secret 500.
pub open spec fn verification_completed(
    before: CacheState,
    after: CacheState,
    r: Result<u128, (u16, Seq<char>)>,
    id: u128,
    code: Seq<char>,
    now: u64,
    time: u64,
) -> bool {
    let (looked_up, found) = query_otp_session_spec(before, id, now);
    match found {
        None => r == Err::<u128, (u16, Seq<char>)>((404u16, "Failed to find an OTP session with this ID."@))
            && after == looked_up,
        Some(sess) => match totp_check_result(sess.1, sess.0, code, time, account_totp()) {
            Some(true) => r matches Ok(token) && after == sign_otp_token_spec(looked_up, token, sess.0, now),
            Some(false) => r == Err::<u128, (u16, Seq<char>)>((401u16, "TOTP verification code error"@))
                && after == looked_up,
            None => r == Err::<u128, (u16, Seq<char>)>((500u16, "Internal server error"@)) && after == looked_up,
        },
    }
}

/// Completes the verification session `id` with a code, the TOTP being
/// checked at Unix time `time`.
pub fn complete_verification_at(kv: &mut KVCache, id: u128, code: &str, now: u64, time: u64) -> (r: Result<u128, Error>)
    requires
        time <= u64::MAX - 30,
    ensures
        old(kv)@.wf() ==> final(kv)@.wf(),
        verification_completed(old(kv)@, final(kv)@, error_result(r), id, code@, now, time),
        r is Ok ==> is_totp_code(code@, 6),
{
    let session = match kv.query_otp_session(id, now) {
        None => {
            return Err(Error::error(404, "Failed to find an OTP session with this ID."));
        },
        Some(s) => s,
    };
    match session.method {
        VerificationMethod::Totp => {
            let settings = account_totp_settings();
            let check = totp_check(session.secret.as_str(), session.user_email.as_str(), code, time, &settings);
            totp_check_outcome(check)?;
            let token = kv.sign_otp_token(session.user_email, now);
            Ok(token)
        },
    }
}

/// Completes the verification session `id` with a code, checked against the
/// session's TOTP at the current system time: a session that is missing or
/// expired is answered with 404; a code that the session's TOTP accepts earns
/// an OTP token for the session's user. A system clock past the last time
/// the check can take is answered with 500, the cache left as it was.
pub fn complete_verification(kv: &mut KVCache, id: u128, code: &str, now: u64) -> (r: Result<u128, Error>)
    ensures
        old(kv)@.wf() ==> final(kv)@.wf(),
        (final(kv)@ == old(kv)@ && error_result(r) == Err::<u128, (u16, Seq<char>)>((500u16, "Internal server error"@)))
            || exists|time: u64| time <= u64::MAX - 30
                && #[trigger] verification_completed(old(kv)@, final(kv)@, error_result(r), id, code@, now, time),
        r is Ok ==> is_totp_code(code@, 6),
{
    let time = unix_time_secs();
    if time > u64::MAX - 30 {
        return Err(Error::error(500, "Internal server error"));
    }
    let r = complete_verification_at(kv, id, code, now, time);
    assert(verification_completed(old(kv)@, kv@, error_result(r), id, code@, now, time));
    r
}

/// The OTP token earned by completing a verification logs its user in once:
/// it is accepted for the session's email while it is younger than the token
/// lifetime, and refused afterwards, at any time and for any email. (The
/// token must be new to the cache; a random token that collides with a stored
/// one is not stored.)
pub proof fn law_verification_token_logs_in_once(
    before: CacheState,
    after: CacheState,
    token: u128,
    id: u128,
    code: Seq<char>,
    now: u64,
    time: u64,
    login_at: u64,
    other_email: Seq<char>,
    later: u64,
)
    requires
        verification_completed(before, after, Ok(token), id, code, now, time),
        !query_otp_session_spec(before, id, now).0.otp_tokens.dom().contains(token),
        elapsed(now, login_at) < OTP_TOKEN_TTL_NS,
    ensures
        query_otp_session_spec(before, id, now).1 is Some,
        ({
            let sess = query_otp_session_spec(before, id, now).1->0;
            let email = sess.0;
            &&& verify_otp_token_spec(after, token, email, login_at).1
            &&& !verify_otp_token_spec(verify_otp_token_spec(after, token, email, login_at).0, token, other_email, later).1
        }),
{
}

} // verus!
