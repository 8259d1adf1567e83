//! Specific API endpoints implementation: error reporting, request checks and
//! the decisions of the authentication, session and texture endpoints.

use crate::text::{strip_prefix, strip_prefix_string, trim, trim_string};
use crate::utils::{parse_uuid, uuid_parse_result, uuid_simple_text, uuid_version};
use crate::service::yggdrasil::types::{exchange_signing_fails, is_exchanged_profile, public_key_pem, rsa_public_key_pem, ExchangeableGameProfile, GameProfile};
use vstd::prelude::*;

verus! {

/// At most this many names can be looked up by one profile query.
pub const QUERY_PROFILE_LIMIT: usize = 50;

/// Error type defined by the authlib-injector Yggdrasil doc
pub enum YggdrasilError {
    /// General HTTP error
    HttpError(u16),
    /// Invalid token or trying to join a server with a wrong profile
    InvalidToken,
    /// Invalid username or password
    InvalidCredentials,
    /// Attempt to assign profile to a profile-assigned token
    IllegalArgument,
    /// Attempt to assign unrelated profile or other general forbidden operations
    ForbiddenOperation,
    /// General error that is not covered by the doc
    Other(String),
}

/// The reason phrase that the HTTP standard gives a status code, if it gives one.
pub uninterp spec fn canonical_reason_text(code: u16) -> Option<Seq<char>>;

/// The spec view of a [`YggdrasilError`], with its text as a sequence.
pub enum YggdrasilErrorView {
    HttpError(u16),
    InvalidToken,
    InvalidCredentials,
    IllegalArgument,
    ForbiddenOperation,
    Other(Seq<char>),
}

impl View for YggdrasilError {
    type V = YggdrasilErrorView;

    open spec fn view(&self) -> YggdrasilErrorView {
        match self {
            YggdrasilError::HttpError(s) => YggdrasilErrorView::HttpError(*s),
            YggdrasilError::InvalidToken => YggdrasilErrorView::InvalidToken,
            YggdrasilError::InvalidCredentials => YggdrasilErrorView::InvalidCredentials,
            YggdrasilError::IllegalArgument => YggdrasilErrorView::IllegalArgument,
            YggdrasilError::ForbiddenOperation => YggdrasilErrorView::ForbiddenOperation,
            YggdrasilError::Other(m) => YggdrasilErrorView::Other(m@),
        }
    }
}

/// The standard reason phrase of a status code
/// (`http::StatusCode::from_u16` then `StatusCode::canonical_reason`).
///
/// The phrase table is named, not spelled out: the contract ties the result to
/// the code and says nothing of which codes have a phrase.
#[verifier::external_body]
pub(crate) fn canonical_reason(code: u16) -> (r: Option<String>)
    ensures
        r is Some == canonical_reason_text(code) is Some,
        r matches Some(t) ==> t@ == canonical_reason_text(code)->0,
{
    axum::http::StatusCode::from_u16(code).ok().and_then(|s| s.canonical_reason()).map(|t| t.to_string())
}

/// The reason phrase of `code`, or `Error` when it has none.
pub open spec fn reason_or_error(code: u16) -> Seq<char> {
    match canonical_reason_text(code) {
        Some(t) => t,
        None => "Error"@,
    }
}

fn exec_reason_or_error(code: u16) -> (r: String)
    ensures
        r@ == reason_or_error(code),
{
    match canonical_reason(code) {
        Some(t) => t,
        None => String::from_str("Error"),
    }
}

impl YggdrasilError {
    /// The "error message" of the error, as shown to clients.
    pub open spec fn spec_message(&self) -> Seq<char> {
        match self {
            YggdrasilError::HttpError(s) => reason_or_error(*s),
            YggdrasilError::InvalidToken => "Invalid token."@,
            YggdrasilError::InvalidCredentials => "Invalid credentials. Invalid username or password."@,
            YggdrasilError::IllegalArgument => "Access token already has a profile assigned."@,
            YggdrasilError::ForbiddenOperation => "An error has occurred."@,
            YggdrasilError::Other(msg) => "An error has occurred: "@ + msg@,
        }
    }

    /// The "error message" of the error, as shown to clients.
    pub fn message(&self) -> (r: String)
        ensures
            r@ == self.spec_message(),
    {
        match self {
            YggdrasilError::HttpError(s) => exec_reason_or_error(*s),
            YggdrasilError::InvalidToken => String::from_str("Invalid token."),
            YggdrasilError::InvalidCredentials => String::from_str(
                "Invalid credentials. Invalid username or password.",
            ),
            YggdrasilError::IllegalArgument => String::from_str(
                "Access token already has a profile assigned.",
            ),
            YggdrasilError::ForbiddenOperation => String::from_str("An error has occurred."),
            YggdrasilError::Other(msg) => {
                let mut r = String::from_str("An error has occurred: ");
                r.append(msg.as_str());
                r
            },
        }
    }

    /// A general HTTP error with the given status code.
    pub fn http(status: u16) -> (e: Self)
        ensures
            e == YggdrasilError::HttpError(status),
    {
        YggdrasilError::HttpError(status)
    }

    /// The status code of the response that reports this error.
    pub open spec fn spec_status(&self) -> u16 {
        match self {
            YggdrasilError::HttpError(s) => *s,
            YggdrasilError::InvalidToken => 403,
            YggdrasilError::InvalidCredentials => 403,
            YggdrasilError::IllegalArgument => 400,
            YggdrasilError::ForbiddenOperation => 403,
            YggdrasilError::Other(_) => 500,
        }
    }

    /// The `error` field of the response that reports this error.
    pub open spec fn spec_error_id(&self) -> Seq<char> {
        match self {
            YggdrasilError::HttpError(s) => reason_or_error(*s),
            YggdrasilError::IllegalArgument => "IllegalArgumentException"@,
            YggdrasilError::Other(_) => "Internal Server Error"@,
            _ => "ForbiddenOperationException"@,
        }
    }

    /// The status code and body of the response that reports this error.
    pub fn into_response_parts(self) -> (r: (u16, ErrorResponse))
        ensures
            r.0 == self.spec_status(),
            r.1.error@ == self.spec_error_id(),
            r.1.error_message@ == self.spec_message(),
            match self {
                YggdrasilError::Other(msg) => r.1.cause matches Some(c) && c@ == msg@,
                _ => r.1.cause is None,
            },
    {
        match self {
            YggdrasilError::HttpError(status) => {
                let id = exec_reason_or_error(status);
                let body = ErrorResponse::new(&self, id);
                (status, body)
            },
            YggdrasilError::InvalidToken => {
                let body = ErrorResponse::new(&self, String::from_str("ForbiddenOperationException"));
                (403, body)
            },
            YggdrasilError::InvalidCredentials => {
                let body = ErrorResponse::new(&self, String::from_str("ForbiddenOperationException"));
                (403, body)
            },
            YggdrasilError::IllegalArgument => {
                let body = ErrorResponse::new(&self, String::from_str("IllegalArgumentException"));
                (400, body)
            },
            YggdrasilError::ForbiddenOperation => {
                let body = ErrorResponse::new(&self, String::from_str("ForbiddenOperationException"));
                (403, body)
            },
            YggdrasilError::Other(msg) => {
                let mut message = String::from_str("An error has occurred: ");
                message.append(msg.as_str());
                (
                    500,
                    ErrorResponse {
                        error: String::from_str("Internal Server Error"),
                        error_message: message,
                        cause: Some(msg),
                    },
                )
            },
        }
    }
}

/// The JSON body of an error response.
pub struct ErrorResponse {
    pub error: String,
    pub error_message: String,
    pub cause: Option<String>,
}

impl ErrorResponse {
    /// A response body for `error`, identified by `error_id`.
    pub fn new(error: &YggdrasilError, error_id: String) -> (r: Self)
        ensures
            r.error@ == error_id@,
            r.error_message@ == error.spec_message(),
            r.cause is None,
    {
        ErrorResponse { error: error_id, error_message: error.message(), cause: None }
    }
}

/// The token carried by an `Authorization` header value: the trimmed text
/// after the word `Bearer`, or nothing when the header does not start with it.
pub open spec fn bearer_token_text(header: Seq<char>) -> Seq<char> {
    trim(
        match strip_prefix(trim(header), "Bearer"@) {
            Some(rest) => rest,
            None => ""@,
        },
    )
}

/// The bearer token of an `Authorization` header value (empty when the header
/// is missing, unreadable or of another scheme).
pub fn bearer_token(header: &str) -> (r: String)
    ensures
        r@ == bearer_token_text(header@),
{
    let trimmed = trim_string(header);
    match strip_prefix_string(trimmed.as_str(), "Bearer") {
        Some(rest) => trim_string(rest.as_str()),
        None => trim_string(""),
    }
}

/// The access token named by an `Authorization` header value; a token that is
/// not a UUID is answered with 401.
pub fn access_token_of(header: &str) -> (r: Result<u128, YggdrasilError>)
    ensures
        match uuid_parse_result(bearer_token_text(header@)) {
            Some(id) => r == Ok::<u128, YggdrasilError>(id),
            None => r == Err::<u128, YggdrasilError>(YggdrasilError::HttpError(401)),
        },
{
    let token = bearer_token(header);
    match parse_uuid(token.as_str()) {
        Some(id) => Ok(id),
        None => Err(YggdrasilError::HttpError(401)),
    }
}

/// The profile a new token is bound to: the one requested, or else the only
/// profile of the user (none when the user has several or none).
pub open spec fn spec_selected_profile(requested: Option<u128>, available: Seq<u128>) -> Option<u128> {
    match requested {
        Some(p) => Some(p),
        None => if available.len() == 1 {
            Some(available[0])
        } else {
            None
        },
    }
}

/// The ids of some profiles, in order.
pub open spec fn profile_ids(profiles: Seq<ExchangeableGameProfile>) -> Seq<u128> {
    profiles.map_values(|p: ExchangeableGameProfile| p.id.0)
}

/// The profile a new token is bound to and the profile the answer names as
/// selected, given the profile the client selected (if any) and the user's
/// profiles: the client's choice, else the user's only profile, else none.
/// The token is bound to the id of the profile named.
pub fn pick_selected_profile(
    selected: Option<ExchangeableGameProfile>,
    available: Vec<ExchangeableGameProfile>,
) -> (r: (Option<u128>, Option<ExchangeableGameProfile>))
    ensures
        r.0 == spec_selected_profile(
            match selected {
                Some(s) => Some(s.id.0),
                None => None,
            },
            profile_ids(available@),
        ),
        match selected {
            Some(s) => r.1 == Some(s),
            None => if available@.len() == 1 {
                r.1 == Some(available@[0])
            } else {
                r.1 is None
            },
        },
        r.1 matches Some(p) ==> r.0 == Some(p.id.0),
        r.1 is None ==> r.0 is None,
{
    let mut ids: Vec<u128> = Vec::new();
    let mut i: usize = 0;
    while i < available.len()
        invariant
            i <= available.len(),
            ids@ == profile_ids(available@).take(i as int),
        decreases available.len() - i,
    {
        ids.push(available[i].id.0);
        assert(profile_ids(available@).take(i + 1) =~= profile_ids(available@).take(i as int).push(available@[i as int].id.0));
        i += 1;
    }
    assert(profile_ids(available@).take(i as int) =~= profile_ids(available@));
    let requested = match &selected {
        Some(s) => Some(s.id.0),
        None => None,
    };
    let chosen = selected_profile(requested, &ids);
    match selected {
        Some(s) => (chosen, Some(s)),
        None => {
            if available.len() == 1 {
                let mut available = available;
                let only = available.remove(0);
                (chosen, Some(only))
            } else {
                (chosen, None)
            }
        },
    }
}

/// The profile a new token is bound to.
pub fn selected_profile(requested: Option<u128>, available: &Vec<u128>) -> (r: Option<u128>)
    ensures
        r == spec_selected_profile(requested, available@),
{
    match requested {
        Some(p) => Some(p),
        None => if available.len() > 1 {
            None
        } else if available.len() == 1 {
            Some(available[0])
        } else {
            None
        },
    }
}

/// The client token of an authentication: the one the client sent, or else a
/// new random one (the simple text of a version-7 UUID).
pub fn resolve_client_token(given: Option<String>) -> (r: String)
    ensures
        given matches Some(g) ==> r@ == g@,
        given is None ==> exists|id: u128| uuid_version(id) == 7 && r@ == #[trigger] uuid_simple_text(id),
        given is None ==> r@.len() == 32,
{
    match given {
        Some(g) => g,
        None => {
            let id = crate::utils::new_v7_id();
            proof {
                crate::utils::law_uuid_simple_text_roundtrip(id);
            }
            crate::utils::uuid_simple(id)
        },
    }
}

/// A property of the user object returned by authentication.
pub struct UserProperty {
    pub name: String,
    pub value: String,
}

/// The user object returned by authentication.
pub struct UserProfile {
    pub id: u128,
    pub properties: Vec<UserProperty>,
}

/// The user object of an authentication response: present only when the client
/// asked for it, holding the user's preferred language.
pub fn user_profile(request_user: bool, user_id: u128, prefer_language: String) -> (r: Option<
    UserProfile,
>)
    ensures
        request_user <==> r is Some,
        r matches Some(u) ==> u.id == user_id && u.properties@.len() == 1 && u.properties@[0].name@
            == "preferredLanguage"@ && u.properties@[0].value@ == prefer_language@,
{
    if request_user {
        let mut properties = Vec::new();
        properties.push(UserProperty { name: String::from_str("preferredLanguage"), value: prefer_language });
        Some(UserProfile { id: user_id, properties })
    } else {
        None
    }
}

/// Whether a profile query names too many profiles (it is then refused as a
/// forbidden operation).
pub fn check_profile_query(names: &Vec<String>) -> (r: Result<(), YggdrasilError>)
    ensures
        names@.len() > QUERY_PROFILE_LIMIT ==> r == Err::<(), YggdrasilError>(
            YggdrasilError::ForbiddenOperation,
        ),
        names@.len() <= QUERY_PROFILE_LIMIT ==> r is Ok,
{
    if names.len() > QUERY_PROFILE_LIMIT {
        Err(YggdrasilError::ForbiddenOperation)
    } else {
        Ok(())
    }
}

/// The answer to `hasJoined`: given the session recorded for the server id
/// (its access token and profile), whether that token still checks out, and the
/// name of the profile found, the profile id to answer with, or 204 when any
/// step fails or the name differs from the one asked for.
pub fn has_joined_outcome(
    session_profile: Option<u128>,
    token_valid: bool,
    profile_name: Option<&str>,
    username: &str,
) -> (r: Result<u128, YggdrasilError>)
    ensures
        (session_profile is Some && token_valid && profile_name is Some && profile_name->0@
            == username@) ==> r == Ok::<u128, YggdrasilError>(session_profile->0),
        !(session_profile is Some && token_valid && profile_name is Some && profile_name->0@
            == username@) ==> r == Err::<u128, YggdrasilError>(YggdrasilError::HttpError(204)),
{
    match session_profile {
        Some(p) => {
            if !token_valid {
                return Err(YggdrasilError::HttpError(204));
            }
            match profile_name {
                Some(n) => {
                    let a = n.to_owned();
                    let b = username.to_owned();
                    if a == b {
                        Ok(p)
                    } else {
                        Err(YggdrasilError::HttpError(204))
                    }
                },
                None => Err(YggdrasilError::HttpError(204)),
            }
        },
        None => Err(YggdrasilError::HttpError(204)),
    }
}

/// Links shown by launchers: the server's homepage and registration page.
pub struct LinksInfo {
    pub homepage: Option<String>,
    pub register: Option<String>,
}

/// The `meta` part of the API metadata.
pub struct MetaInfo {
    pub server_name: Option<String>,
    pub implementation_name: String,
    pub implementation_version: String,
    pub links: Option<LinksInfo>,
}

/// The API metadata (`GET /`): server information, the domains that textures
/// are served from, and the public key that property signatures verify with.
pub struct ResponseMeta {
    pub meta: MetaInfo,
    pub skin_domains: Vec<String>,
    pub signature_publickey: String,
}

/// The API metadata. The links are given when a homepage is configured; the
/// skin domains are the service's domain, then the storage's own domain if it
/// has one; the public key is that of the signing key (PKCS#8 PEM), and a key
/// that cannot be read fails the request.
pub fn meta(
    server_name: Option<String>,
    homepage: Option<String>,
    register_page: Option<String>,
    domain: &str,
    storage_domain: Option<String>,
    private_key_pem: &str,
    implementation_version: &str,
) -> (r: Result<ResponseMeta, YggdrasilError>)
    ensures
        r is Ok == rsa_public_key_pem(private_key_pem@) is Some,
        r matches Err(e) ==> e is Other,
        r matches Ok(m) ==> {
            &&& m.signature_publickey@ == rsa_public_key_pem(private_key_pem@)->0
            &&& m.meta.server_name == server_name
            &&& m.meta.implementation_name@ == "Aphanite"@
            &&& m.meta.implementation_version@ == implementation_version@
            &&& (m.meta.links is None <==> homepage is None)
            &&& (m.meta.links matches Some(l) ==> l.homepage == homepage && l.register == register_page)
            &&& m.skin_domains@.len() == (if storage_domain is Some { 2int } else { 1int })
            &&& m.skin_domains@[0]@ == domain@
            &&& (storage_domain matches Some(d) ==> m.skin_domains@[1] == d)
        },
{
    let signature_publickey = match public_key_pem(private_key_pem) {
        Some(p) => p,
        None => {
            return Err(YggdrasilError::Other(String::from_str("the signing key cannot be read")));
        },
    };
    let links = if homepage.is_none() {
        None
    } else {
        Some(LinksInfo { homepage, register: register_page })
    };
    let mut skin_domains: Vec<String> = Vec::new();
    skin_domains.push(domain.to_owned());
    match storage_domain {
        Some(d) => skin_domains.push(d),
        None => {},
    }
    Ok(ResponseMeta {
        meta: MetaInfo {
            server_name,
            implementation_name: String::from_str("Aphanite"),
            implementation_version: implementation_version.to_owned(),
            links,
        },
        skin_domains,
        signature_publickey,
    })
}

/// Whether a profile query asked for signed properties (`unsigned=false`).
pub open spec fn wants_signature(unsigned: Option<bool>) -> bool {
    unsigned == Some(false)
}

/// The answer to a profile query (`GET .../profile/{uuid}`), given the
/// profile found (if any) and the JSON text of its textures payload: no
/// profile is answered with `None` (204); otherwise the profile with its
/// properties, signed with the key when `unsigned=false` was asked.
pub fn profile_response(
    profile: Option<&GameProfile>,
    payload_json: &str,
    unsigned: Option<bool>,
    private_key_pem: &str,
) -> (r: Result<Option<ExchangeableGameProfile>, YggdrasilError>)
    ensures
        ({
            let key = if wants_signature(unsigned) {
                Some(private_key_pem@)
            } else {
                None
            };
            match profile {
                None => r matches Ok(None),
                Some(gp) => {
                    &&& key is None ==> r is Ok
                    &&& exchange_signing_fails(payload_json@, key) ==> r is Err
                    &&& r matches Err(e) ==> e is Other
                    &&& r matches Ok(o) ==> (o matches Some(p) && is_exchanged_profile(p, *gp, payload_json@, true, key))
                },
            }
        }),
{
    match profile {
        None => Ok(None),
        Some(gp) => {
            let key = if unsigned == Some(false) {
                Some(private_key_pem)
            } else {
                None
            };
            let p = ExchangeableGameProfile::new(gp, payload_json, true, key)?;
            Ok(Some(p))
        },
    }
}

/// The launcher that asks to authenticate.
pub struct AuthenticateAgent {
    pub name: String,
    pub version: isize,
}

/// A sign-in request (`POST /authserver/authenticate`).
pub struct RequestAuthenticate {
    pub username: String,
    pub password: String,
    pub client_token: Option<String>,
    pub request_user: bool,
    pub agent: AuthenticateAgent,
}

/// A sign-out request (`POST /authserver/signout`): the user's credentials.
pub struct RequestSignout {
    pub username: String,
    pub password: String,
}

/// The query of `hasJoined`: the player's name, the server's id and the
/// client address the server saw (if it gives one).
pub struct HasJoinedParams {
    pub username: String,
    pub server_id: String,
    pub ip: Option<String>,
}

/// The outcome of a sign-in or sign-out: a user that the rate limiter turns
/// away, or whose password does not match, gets `InvalidCredentials`.
pub fn sign_in_outcome(allowed: bool, verified: bool) -> (r: Result<(), YggdrasilError>)
    ensures
        r is Ok <==> allowed && verified,
        r matches Err(e) ==> e is InvalidCredentials,
{
    if !allowed || !verified {
        return Err(YggdrasilError::InvalidCredentials);
    }
    Ok(())
}

} // verus!
