//! Configuration: the settings read from the TOML file, their checks, and the
//! generation of a default configuration file from its template.

use crate::text::{push_decimal, decimal, replace_all, replace_all_string, trim_start_matches, trim_start_matches_string};
use crate::service::yggdrasil::types::{public_key_pem, rsa_public_key_pem};
use vstd::prelude::*;

verus! {

/// How the client address of a request is found when behind a reverse proxy.
#[derive(Clone, Copy, PartialEq, Eq, Debug)]
pub enum ReverseProxyType {
    CfConnectingIp,
    CloudFrontViewerAddress,
    FlyClientIp,
    Forwarded,
    XForwardedFor,
    TrueClientIp,
    XEnvoyExternalAddress,
    XRealIp,
    /// Disables IP address examine completely
    Disabled,
}

/// The header a client address is taken from.
#[derive(Clone, Copy, PartialEq, Eq, Debug)]
pub enum ClientIpSource {
    CfConnectingIp,
    CloudFrontViewerAddress,
    FlyClientIp,
    RightmostForwarded,
    RightmostXForwardedFor,
    TrueClientIp,
    XEnvoyExternalAddress,
    XRealIp,
}

impl ReverseProxyType {
    /// Whether client address examination is disabled.
    pub fn is_disabled(&self) -> (r: bool)
        ensures
            r == (*self == ReverseProxyType::Disabled),
    {
        match self {
            ReverseProxyType::Disabled => true,
            _ => false,
        }
    }

    /// The source of client addresses for this setting; a disabled setting has none.
    pub fn client_ip_source(self) -> (r: Result<ClientIpSource, ReverseProxyType>)
        ensures
            self == ReverseProxyType::Disabled <==> r == Err::<ClientIpSource, ReverseProxyType>(ReverseProxyType::Disabled),
            self == ReverseProxyType::Forwarded ==> r == Ok::<ClientIpSource, ReverseProxyType>(ClientIpSource::RightmostForwarded),
            self == ReverseProxyType::XForwardedFor ==> r == Ok::<ClientIpSource, ReverseProxyType>(ClientIpSource::RightmostXForwardedFor),
            self == ReverseProxyType::CfConnectingIp ==> r == Ok::<ClientIpSource, ReverseProxyType>(ClientIpSource::CfConnectingIp),
            self == ReverseProxyType::CloudFrontViewerAddress ==> r == Ok::<ClientIpSource, ReverseProxyType>(ClientIpSource::CloudFrontViewerAddress),
            self == ReverseProxyType::FlyClientIp ==> r == Ok::<ClientIpSource, ReverseProxyType>(ClientIpSource::FlyClientIp),
            self == ReverseProxyType::TrueClientIp ==> r == Ok::<ClientIpSource, ReverseProxyType>(ClientIpSource::TrueClientIp),
            self == ReverseProxyType::XEnvoyExternalAddress ==> r == Ok::<ClientIpSource, ReverseProxyType>(ClientIpSource::XEnvoyExternalAddress),
            self == ReverseProxyType::XRealIp ==> r == Ok::<ClientIpSource, ReverseProxyType>(ClientIpSource::XRealIp),
    {
        match self {
            ReverseProxyType::CfConnectingIp => Ok(ClientIpSource::CfConnectingIp),
            ReverseProxyType::CloudFrontViewerAddress => Ok(ClientIpSource::CloudFrontViewerAddress),
            ReverseProxyType::FlyClientIp => Ok(ClientIpSource::FlyClientIp),
            ReverseProxyType::Forwarded => Ok(ClientIpSource::RightmostForwarded),
            ReverseProxyType::XForwardedFor => Ok(ClientIpSource::RightmostXForwardedFor),
            ReverseProxyType::TrueClientIp => Ok(ClientIpSource::TrueClientIp),
            ReverseProxyType::XEnvoyExternalAddress => Ok(ClientIpSource::XEnvoyExternalAddress),
            ReverseProxyType::XRealIp => Ok(ClientIpSource::XRealIp),
            ReverseProxyType::Disabled => Err(ReverseProxyType::Disabled),
        }
    }
}

/// Cloudflare Turnstile settings.
pub struct TurnstileSettings {
    pub enabled: bool,
    pub site_key: String,
    pub secret_key: String,
}

/// The web service settings.
pub struct ServiceConfig {
    /// The address to listen on, as text.
    pub listen: String,
    pub port: u16,
    pub path: Option<String>,
    pub domain: String,
    pub data_path: String,
    pub tls: bool,
    pub client_ip: ReverseProxyType,
    pub public: bool,
    pub turnstile: TurnstileSettings,
}

/// Where uploaded files are stored.
#[derive(Clone, Copy, PartialEq, Eq, Debug)]
pub enum StorageType {
    Local,
    S3,
}

/// Local file storage settings.
pub struct LocalStorageConfig {
    pub path: String,
}

/// S3 file storage settings.
pub struct S3StorageConfig {
    pub bucket_name: String,
    pub endpoint: String,
    pub region: String,
    pub access_key: String,
    pub secret_key: String,
    pub domains: Vec<String>,
}

/// File storage settings.
pub struct StorageConfig {
    pub storage_type: StorageType,
    pub local: LocalStorageConfig,
    pub s3: S3StorageConfig,
}

/// The database engine.
#[derive(Clone, Copy, PartialEq, Eq, Debug)]
pub enum DatabaseBackend {
    Sqlite,
    Postgres,
}

/// Database settings.
pub struct DatabaseConfig {
    pub backend: DatabaseBackend,
    pub postgres_url: String,
}

/// Yggdrasil settings.
pub struct YggdrasilConfig {
    /// The PKCS#8 PEM text of the RSA key that signs profile properties.
    pub private_key: String,
    pub server_name: Option<String>,
    pub homepage: Option<String>,
    pub register_page: Option<String>,
}

/// The whole configuration.
pub struct AppConfig {
    pub service: ServiceConfig,
    pub storage: StorageConfig,
    pub database: DatabaseConfig,
    pub yggdrasil: YggdrasilConfig,
}

/// The URL that `service.domain` and `service.path` describe:
/// `http://<domain>/<path without leading slashes>`.
pub open spec fn spec_service_url(domain: Seq<char>, path: Option<Seq<char>>) -> Seq<char> {
    "http://"@ + domain + "/"@ + trim_start_matches(
        match path {
            Some(p) => p,
            None => ""@,
        },
        "/"@,
    )
}

/// The URL that `service.domain` and `service.path` describe.
pub fn service_url(domain: &str, path: Option<&str>) -> (r: String)
    ensures
        r@ == spec_service_url(domain@, match path {
            Some(p) => Some(p@),
            None => None,
        }),
{
    proof {
        reveal_strlit("/");
    }
    let p = match path {
        Some(p) => trim_start_matches_string(p, "/"),
        None => trim_start_matches_string("", "/"),
    };
    let mut r = String::from_str("http://");
    r.append(domain);
    r.append("/");
    r.append(p.as_str());
    r
}

/// What parsing a text as an absolute URL (`url::Url::parse`) reports: `None`
/// when it parses, else the error text.
pub uninterp spec fn url_parse_error(s: Seq<char>) -> Option<Seq<char>>;

/// Parses an absolute URL (`url::Url::parse`), keeping only whether it failed
/// and the error text.
#[verifier::external_body]
fn check_url(s: &str) -> (r: Result<(), String>)
    ensures
        r is Ok == url_parse_error(s@) is None,
        r matches Err(e) ==> url_parse_error(s@) == Some(e@),
{
    match url::Url::parse(s) {
        Ok(_) => Ok(()),
        Err(e) => Err(e.to_string()),
    }
}

/// Checks that `service.domain` and `service.path` make a valid URL; the error
/// text of the URL parser is given back otherwise.
pub fn check_service_url(domain: &str, path: Option<&str>) -> (r: Result<(), String>)
    ensures
        ({
            let u = spec_service_url(domain@, match path {
                Some(p) => Some(p@),
                None => None,
            });
            &&& r is Ok == url_parse_error(u) is None
            &&& r matches Err(e) ==> url_parse_error(u) == Some(e@)
        }),
{
    let u = service_url(domain, path);
    check_url(u.as_str())
}

/// The `X-Authlib-Injector-API-Location` value: the Yggdrasil API root of the
/// service, over HTTPS when TLS is on.
pub fn api_location(tls: bool, domain: &str) -> (r: String)
    ensures
        r@ == (if tls {
            "https://"@
        } else {
            "http://"@
        }) + domain@ + "/api/yggdrasil/"@,
{
    let mut r = if tls {
        String::from_str("https://")
    } else {
        String::from_str("http://")
    };
    r.append(domain);
    r.append("/api/yggdrasil/");
    r
}

/// The text of a boolean (as `bool::to_string`).
pub open spec fn bool_text(b: bool) -> Seq<char> {
    if b {
        "true"@
    } else {
        "false"@
    }
}

/// The default configuration filled in from `template`: the version, the
/// listen address and port, the private key and the TLS switch (on in release
/// builds); debug builds also disable client address examination and set the
/// domain to the listen address.
pub open spec fn spec_fill_config(
    template: Seq<char>,
    version: Seq<char>,
    listen: Seq<char>,
    port: u16,
    private_key: Seq<char>,
    debug: bool,
) -> Seq<char> {
    let a = replace_all(template, "{APHANITE_VERSION}"@, version);
    let b = replace_all(a, "{APHANITE_CONFIG_LISTEN}"@, listen);
    let c = replace_all(b, "{APHANITE_CONFIG_PORT}"@, decimal(port as nat));
    let d = replace_all(c, "{APHANITE_CONFIG_PRIVATE_KEY}"@, private_key);
    let e = replace_all(d, "{APHANITE_CONFIG_TLS_ENABLED}"@, bool_text(!debug));
    if debug {
        let f = replace_all(e, "client_ip = \"X-Forwarded-For\""@, "client_ip = \"disabled\""@);
        replace_all(
            f,
            "domain = \"aphanite.example.com\""@,
            "domain = \""@ + listen + ":"@ + decimal(port as nat) + "\""@,
        )
    } else {
        e
    }
}

/// The default configuration filled in from `template`.
pub fn fill_config_template(
    template: &str,
    version: &str,
    listen: &str,
    port: u16,
    private_key: &str,
    debug: bool,
) -> (r: String)
    ensures
        r@ == spec_fill_config(template@, version@, listen@, port, private_key@, debug),
{
    proof {
        reveal_strlit("{APHANITE_VERSION}");
        reveal_strlit("{APHANITE_CONFIG_LISTEN}");
        reveal_strlit("{APHANITE_CONFIG_PORT}");
        reveal_strlit("{APHANITE_CONFIG_PRIVATE_KEY}");
        reveal_strlit("{APHANITE_CONFIG_TLS_ENABLED}");
        reveal_strlit("client_ip = \"X-Forwarded-For\"");
        reveal_strlit("domain = \"aphanite.example.com\"");
    }
    let mut port_text = String::new();
    push_decimal(&mut port_text, port as u64);
    let tls = if debug {
        String::from_str("false")
    } else {
        String::from_str("true")
    };
    let a = replace_all_string(template, "{APHANITE_VERSION}", version);
    let b = replace_all_string(a.as_str(), "{APHANITE_CONFIG_LISTEN}", listen);
    let c = replace_all_string(b.as_str(), "{APHANITE_CONFIG_PORT}", port_text.as_str());
    let d = replace_all_string(c.as_str(), "{APHANITE_CONFIG_PRIVATE_KEY}", private_key);
    let e = replace_all_string(d.as_str(), "{APHANITE_CONFIG_TLS_ENABLED}", tls.as_str());
    if debug {
        let f = replace_all_string(e.as_str(), "client_ip = \"X-Forwarded-For\"", "client_ip = \"disabled\"");
        let mut domain_line = String::from_str("domain = \"");
        domain_line.append(listen);
        domain_line.append(":");
        domain_line.append(port_text.as_str());
        domain_line.append("\"");
        replace_all_string(f.as_str(), "domain = \"aphanite.example.com\"", domain_line.as_str())
    } else {
        e
    }
}

/// The size in bits of the modulus of the RSA private key that a PKCS#8 PEM
/// text holds; `None` when it holds no such key.
pub uninterp spec fn rsa_key_bits(private_key_pem: Seq<char>) -> Option<usize>;

/// Generates an RSA private key of `bits` bits (`rsa::RsaPrivateKey::new`
/// with `rand::rng()`) and writes it as PKCS#8 PEM
/// (`EncodePrivateKey::to_pkcs8_pem`, default line ending), or gives the
/// error's text.
///
/// The key is random. The contract states that sizes under 1024 bits are
/// refused, that the PEM written reads back as a key, and that the key's
/// modulus has exactly `bits` bits (the generator retries until it has).
#[verifier::external_body]
fn generate_private_key_pem(bits: usize) -> (r: Result<String, String>)
    ensures
        bits < 1024 ==> r is Err,
        r matches Ok(p) ==> rsa_public_key_pem(p@) is Some,
        r matches Ok(p) ==> rsa_key_bits(p@) == Some(bits),
{
    let key = rsa::RsaPrivateKey::new(&mut rand::rng(), bits).map_err(|e| e.to_string())?;
    match rsa::pkcs8::EncodePrivateKey::to_pkcs8_pem(&key, rsa::pkcs8::LineEnding::default()) {
        Ok(p) => Ok(p.to_string()),
        Err(e) => Err(e.to_string()),
    }
}

/// The size of the signing key generated for a new configuration.
pub const GENERATED_KEY_BITS: usize = 4096;

/// The bundled configuration filled for a new installation: a fresh 4096-bit
/// signing key is generated and the template's placeholders are replaced.
pub fn generate_config(template: &str, version: &str, listen: &str, port: u16, debug: bool) -> (r: Result<String, String>)
    ensures
        r matches Ok(c) ==> exists|k: Seq<char>|
            rsa_public_key_pem(k) is Some && rsa_key_bits(k) == Some(GENERATED_KEY_BITS)
                && c@ == #[trigger] spec_fill_config(template@, version@, listen@, port, k, debug),
{
    let key = generate_private_key_pem(GENERATED_KEY_BITS)?;
    let c = fill_config_template(template, version, listen, port, key.as_str(), debug);
    assert(rsa_public_key_pem(key@) is Some && rsa_key_bits(key@) == Some(GENERATED_KEY_BITS) && c@
        == spec_fill_config(template@, version@, listen@, port, key@, debug));
    Ok(c)
}

/// Checks the signing key of a configuration: a PKCS#8 PEM-encoded RSA
/// private key.
pub fn check_private_key(pem: &str) -> (r: Result<(), String>)
    ensures
        r is Ok <==> rsa_public_key_pem(pem@) is Some,
{
    match public_key_pem(pem) {
        Some(_) => Ok(()),
        None => Err(String::from_str("invalid value: expected a PKCS#8 PEM-encoded RSA private key string")),
    }
}

} // verus!
