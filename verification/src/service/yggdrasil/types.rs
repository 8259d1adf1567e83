//! Core data model used by the Yggdrasil service: profile identifiers,
//! profiles as exchanged with clients, their properties and textures.

use crate::utils::{hyphenated_digits, is_hyphenated_uuid_text, is_simple_uuid_text, parse_uuid, uuid_parse_result, uuid_simple, uuid_simple_text};
use crate::service::yggdrasil::api::YggdrasilError;
use crate::text::hex_value;
use vstd::prelude::*;
use vstd::utf8::encode_utf8;

verus! {

/// A UUID that is written without hyphens (32 lowercase hexadecimal digits)
/// and read in any form that UUIDs are written in.
#[derive(Clone, Copy, PartialEq, Eq, Debug)]
pub struct UnhyphenatedUuid(pub u128);

impl UnhyphenatedUuid {
    /// The text of this UUID: its 32 lowercase hexadecimal digits.
    pub fn to_simple_string(&self) -> (r: String)
        ensures
            r@ == uuid_simple_text(self.0),
    {
        uuid_simple(self.0)
    }

    /// Reads a UUID from text.
    pub fn parse(s: &str) -> (r: Option<UnhyphenatedUuid>)
        ensures
            r is Some == uuid_parse_result(s@) is Some,
            r matches Some(u) ==> Some(u.0) == uuid_parse_result(s@),
            is_simple_uuid_text(s@) ==> r == Some(UnhyphenatedUuid(hex_value(s@) as u128)),
            is_hyphenated_uuid_text(s@) ==> r == Some(UnhyphenatedUuid(hex_value(hyphenated_digits(s@)) as u128)),
    {
        match parse_uuid(s) {
            Some(v) => Some(UnhyphenatedUuid(v)),
            None => None,
        }
    }
}

/// The skin model (arm width) of a skin.
#[derive(Clone, Copy, PartialEq, Eq, Debug)]
pub enum SkinModel {
    Default,
    Slim,
}

/// A Minecraft player profile as stored: its id, its player name and the user owning it.
#[derive(Clone, Debug)]
pub struct GameProfile {
    pub id: u128,
    pub name: String,
    pub owner_id: u128,
}

/// A property of a game profile: a key-value pair with an optional signature.
#[derive(Clone, Debug)]
pub struct ProfileProperty {
    /// The key of the property
    pub name: String,
    /// The value of the property
    pub value: String,
    /// The signature of the property
    pub signature: Option<String>,
}

impl ProfileProperty {
    /// The `uploadableTextures` property: skins and capes can be uploaded.
    pub fn get_uploadable_textures(signature: Option<String>) -> (r: Self)
        ensures
            r.name@ == "uploadableTextures"@,
            r.value@ == "skin,cape"@,
            r.signature == signature,
    {
        ProfileProperty {
            name: String::from_str("uploadableTextures"),
            value: String::from_str("skin,cape"),
            signature,
        }
    }
}

/// A profile as exchanged with Yggdrasil clients.
#[derive(Clone, Debug)]
pub struct ExchangeableGameProfile {
    pub id: UnhyphenatedUuid,
    pub name: String,
    pub properties: Option<Vec<ProfileProperty>>,
}

/// The base64 digit (standard alphabet) of a 6-bit value.
pub open spec fn base64_digit(v: int) -> char {
    if v < 26 {
        (65 + v) as char
    } else if v < 52 {
        (97 + v - 26) as char
    } else if v < 62 {
        (48 + v - 52) as char
    } else if v == 62 {
        '+'
    } else {
        '/'
    }
}

/// The standard base64 encoding (RFC 4648, with `=` padding) of some bytes:
/// each group of three bytes becomes four digits.
pub open spec fn base64_encoding(b: Seq<u8>) -> Seq<char>
    decreases b.len(),
{
    if b.len() == 0 {
        Seq::empty()
    } else if b.len() == 1 {
        seq![base64_digit(b[0] as int / 4), base64_digit((b[0] as int % 4) * 16), '=', '=']
    } else if b.len() == 2 {
        seq![
            base64_digit(b[0] as int / 4),
            base64_digit((b[0] as int % 4) * 16 + b[1] as int / 16),
            base64_digit((b[1] as int % 16) * 4),
            '=',
        ]
    } else {
        seq![
            base64_digit(b[0] as int / 4),
            base64_digit((b[0] as int % 4) * 16 + b[1] as int / 16),
            base64_digit((b[1] as int % 16) * 4 + b[2] as int / 64),
            base64_digit(b[2] as int % 64),
        ] + base64_encoding(b.subrange(3, b.len() as int))
    }
}

proof fn lemma_base64_digit_value(v: int)
    requires
        0 <= v < 64,
    ensures
        base64_digit(v) != '=',
        base64_digit_value(base64_digit(v)) == v,
{
}

/// The 6-bit value of a standard base64 digit.
pub open spec fn base64_digit_value(c: char) -> int {
    if 'A' <= c <= 'Z' {
        c as int - 65
    } else if 'a' <= c <= 'z' {
        c as int - 97 + 26
    } else if '0' <= c <= '9' {
        c as int - 48 + 52
    } else if c == '+' {
        62
    } else {
        63
    }
}

/// Different bytes have different base64 encodings.
pub proof fn lemma_base64_injective(a: Seq<u8>, b: Seq<u8>)
    requires
        base64_encoding(a) == base64_encoding(b),
    ensures
        a == b,
    decreases a.len(),
{
    let ea = base64_encoding(a);
    let eb = base64_encoding(b);
    if a.len() == 0 {
        if b.len() != 0 {
            assert(eb.len() > 0);
        }
        assert(a =~= b);
    } else {
        assert(b.len() != 0) by {
            if b.len() == 0 {
                assert(ea.len() > 0);
            }
        };
        // the first group decides how many bytes each side has
        assert(ea[0] == eb[0]);
        assert(ea[1] == eb[1]);
        assert(ea[2] == eb[2]);
        assert(ea[3] == eb[3]);
        let a0 = a[0] as int;
        let b0 = b[0] as int;
        lemma_base64_digit_value(a0 / 4);
        lemma_base64_digit_value(b0 / 4);
        assert(a0 / 4 == b0 / 4);
        if a.len() == 1 {
            lemma_base64_digit_value((a0 % 4) * 16);
            if b.len() == 1 {
                lemma_base64_digit_value((b0 % 4) * 16);
                assert(a0 == b0);
                assert(a =~= b);
            } else if b.len() == 2 {
                lemma_base64_digit_value((b[1] as int % 16) * 4);
                assert(false);
            } else {
                lemma_base64_digit_value((b[1] as int % 16) * 4 + b[2] as int / 64);
                assert(false);
            }
        } else if a.len() == 2 {
            let a1 = a[1] as int;
            lemma_base64_digit_value((a0 % 4) * 16 + a1 / 16);
            lemma_base64_digit_value((a1 % 16) * 4);
            if b.len() == 1 {
                assert(false);
            } else if b.len() == 2 {
                let b1 = b[1] as int;
                lemma_base64_digit_value((b0 % 4) * 16 + b1 / 16);
                lemma_base64_digit_value((b1 % 16) * 4);
                assert(a0 == b0 && a1 == b1);
                assert(a =~= b);
            } else {
                lemma_base64_digit_value(b[2] as int % 64);
                assert(false);
            }
        } else {
            let a1 = a[1] as int;
            let a2 = a[2] as int;
            lemma_base64_digit_value((a0 % 4) * 16 + a1 / 16);
            lemma_base64_digit_value((a1 % 16) * 4 + a2 / 64);
            lemma_base64_digit_value(a2 % 64);
            if b.len() == 1 {
                assert(false);
            } else if b.len() == 2 {
                lemma_base64_digit_value((b[1] as int % 16) * 4);
                assert(false);
            } else {
                let b1 = b[1] as int;
                let b2 = b[2] as int;
                lemma_base64_digit_value((b0 % 4) * 16 + b1 / 16);
                lemma_base64_digit_value((b1 % 16) * 4 + b2 / 64);
                lemma_base64_digit_value(b2 % 64);
                assert(a0 == b0 && a1 == b1 && a2 == b2);
                let ra = a.subrange(3, a.len() as int);
                let rb = b.subrange(3, b.len() as int);
                assert(base64_encoding(ra) =~= ea.subrange(4, ea.len() as int));
                assert(base64_encoding(rb) =~= eb.subrange(4, eb.len() as int));
                lemma_base64_injective(ra, rb);
                assert(a =~= seq![a[0], a[1], a[2]] + ra);
                assert(b =~= seq![b[0], b[1], b[2]] + rb);
            }
        }
    }
}

/// The JSON text of a textures payload is carried intact by its property
/// value: reading the value back gives the text's bytes.
pub proof fn law_payload_string_roundtrip(payload_json: Seq<char>, decoded: Seq<u8>)
    requires
        base64_encoding(decoded) == textures_value(payload_json),
    ensures
        decoded == encode_utf8(payload_json),
{
    lemma_base64_injective(decoded, encode_utf8(payload_json));
}

/// Encodes bytes in standard base64 (`base64::prelude::BASE64_STANDARD`).
///
/// The contract states the encoding in full: RFC 4648, standard alphabet,
/// padded with `=`.
#[verifier::external_body]
pub(crate) fn base64_encode(bytes: &[u8]) -> (r: String)
    ensures
        r@ == base64_encoding(bytes@),
{
    base64::Engine::encode(&base64::prelude::BASE64_STANDARD, bytes)
}

/// Decodes standard base64 (`base64::prelude::BASE64_STANDARD`), which only
/// accepts canonical padded text.
///
/// The contract states that what comes out encodes back to the text, and that
/// every text that is the encoding of some bytes is accepted.
#[verifier::external_body]
pub(crate) fn base64_decode(text: &str) -> (r: Option<Vec<u8>>)
    ensures
        r matches Some(v) ==> base64_encoding(v@) == text@,
        (exists|b: Seq<u8>| base64_encoding(b) == text@) ==> r is Some,
{
    base64::Engine::decode(&base64::prelude::BASE64_STANDARD, text).ok()
}

/// The SHA-1 hash of some bytes.
pub uninterp spec fn sha1_hash(data: Seq<u8>) -> Seq<u8>;

/// Hashes bytes with SHA-1 (`sha1::Sha1`, through `Digest::digest`).
///
/// The hash is named; the contract adds only that it is 20 bytes long.
#[verifier::external_body]
pub(crate) fn sha1_digest(data: &[u8]) -> (r: Vec<u8>)
    ensures
        r@ == sha1_hash(data@),
        r@.len() == 20,
{
    <sha1::Sha1 as sha1::Digest>::digest(data).to_vec()
}

/// The PKCS#1 v1.5 signature (SHA-1 digest info) made with the private key
/// that a PKCS#8 PEM text holds, over a SHA-1 digest; `None` when the text
/// holds no such key or the key cannot sign that digest.
pub uninterp spec fn rsa_sha1_signature(private_key_pem: Seq<char>, digest: Seq<u8>) -> Option<Seq<u8>>;

/// Signs a SHA-1 digest with RSA PKCS#1 v1.5 (`rsa::RsaPrivateKey::sign` with
/// `Pkcs1v15Sign::new::<sha1::Sha1>()`), the key being read from its PKCS#8
/// PEM text (`DecodePrivateKey::from_pkcs8_pem`).
///
/// Such a signature is a function of the key and the digest; it is named. The
/// signing also draws on the operating system's random source (to blind the
/// key), and fails when that source fails, so the contract states the
/// signature when one comes back and that a key that cannot sign gives none,
/// not when a signature is sure to come back.
#[verifier::external_body]
pub(crate) fn sign_sha1_digest(private_key_pem: &str, digest: &[u8]) -> (r: Option<Vec<u8>>)
    ensures
        rsa_sha1_signature(private_key_pem@, digest@) is None ==> r is None,
        r matches Some(s) ==> s@ == rsa_sha1_signature(private_key_pem@, digest@)->0,
{
    let key = <rsa::RsaPrivateKey as rsa::pkcs8::DecodePrivateKey>::from_pkcs8_pem(private_key_pem).ok()?;
    key.sign(rsa::pkcs1v15::Pkcs1v15Sign::new::<sha1::Sha1>(), digest).ok()
}

/// The public half of the private key that a PKCS#8 PEM text holds, as a
/// SubjectPublicKeyInfo PEM text; `None` when the text holds no such key.
pub uninterp spec fn rsa_public_key_pem(private_key_pem: Seq<char>) -> Option<Seq<char>>;

/// Reads an RSA private key from its PKCS#8 PEM text
/// (`DecodePrivateKey::from_pkcs8_pem`) and writes its public key as PEM
/// (`EncodePublicKey::to_public_key_pem`, default line ending).
///
/// The result is a function of the text; it is named.
#[verifier::external_body]
pub(crate) fn public_key_pem(private_key_pem: &str) -> (r: Option<String>)
    ensures
        r is Some == rsa_public_key_pem(private_key_pem@) is Some,
        r matches Some(p) ==> p@ == rsa_public_key_pem(private_key_pem@)->0,
{
    let key = <rsa::RsaPrivateKey as rsa::pkcs8::DecodePrivateKey>::from_pkcs8_pem(private_key_pem).ok()?;
    rsa::pkcs8::EncodePublicKey::to_public_key_pem(key.as_public_key(), rsa::pkcs8::LineEnding::default()).ok()
}

/// The value of the `textures` property for a payload written as JSON text:
/// the base64 encoding of its UTF-8 bytes.
pub open spec fn textures_value(payload_json: Seq<char>) -> Seq<char> {
    base64_encoding(encode_utf8(payload_json))
}

/// The signature of a property value: SHA-1 with RSA over its UTF-8 bytes,
/// written in base64; `None` when the key cannot sign.
pub open spec fn property_signature(private_key_pem: Seq<char>, value: Seq<char>) -> Option<Seq<char>> {
    match rsa_sha1_signature(private_key_pem, sha1_hash(encode_utf8(value))) {
        Some(s) => Some(base64_encoding(s)),
        None => None,
    }
}

/// An optional text as a sequence.
pub open spec fn opt_text(o: Option<String>) -> Option<Seq<char>> {
    match o {
        Some(s) => Some(s@),
        None => None,
    }
}

/// Whether a property has this name, value and signature.
pub open spec fn property_is(p: ProfileProperty, name: Seq<char>, value: Seq<char>, signature: Option<Seq<char>>) -> bool {
    p.name@ == name && p.value@ == value && opt_text(p.signature) == signature
}

/// A signing key given as text, as a sequence.
pub open spec fn key_text(k: Option<&str>) -> Option<Seq<char>> {
    match k {
        Some(t) => Some(t@),
        None => None,
    }
}

/// The signature of `value` with `key`, if there is a key.
pub open spec fn signature_with(key: Option<Seq<char>>, value: Seq<char>) -> Option<Seq<char>> {
    match key {
        Some(k) => property_signature(k, value),
        None => None,
    }
}

/// The properties of a profile exchanged with its textures: `uploadableTextures`
/// (`skin,cape`) then `textures` (the payload in base64), each signed with the
/// key if there is one.
pub open spec fn signed_properties(props: Seq<ProfileProperty>, payload_json: Seq<char>, key: Option<Seq<char>>) -> bool {
    properties_signed_with(
        props,
        payload_json,
        signature_with(key, "skin,cape"@),
        signature_with(key, textures_value(payload_json)),
    )
}

/// Whether a key is given and cannot sign the properties of a profile whose
/// textures payload is `payload_json`.
pub open spec fn exchange_signing_fails(payload_json: Seq<char>, key: Option<Seq<char>>) -> bool {
    key matches Some(k) && (property_signature(k, textures_value(payload_json)) is None || property_signature(
        k,
        "skin,cape"@,
    ) is None)
}

/// The properties of a profile exchanged with its textures, carrying the
/// signatures given: `uploadableTextures` (`skin,cape`) then `textures` (the
/// payload in base64).
pub open spec fn properties_signed_with(
    props: Seq<ProfileProperty>,
    payload_json: Seq<char>,
    uploadable_signature: Option<Seq<char>>,
    textures_signature: Option<Seq<char>>,
) -> bool {
    &&& props.len() == 2
    &&& property_is(props[0], "uploadableTextures"@, "skin,cape"@, uploadable_signature)
    &&& property_is(props[1], "textures"@, textures_value(payload_json), textures_signature)
}

/// Whether `p` is `profile` as exchanged with clients, its properties
/// carrying the signatures given: its id and name, and, with
/// `properties_included`, its properties.
pub open spec fn is_exchanged_profile_with(
    p: ExchangeableGameProfile,
    profile: GameProfile,
    payload_json: Seq<char>,
    properties_included: bool,
    uploadable_signature: Option<Seq<char>>,
    textures_signature: Option<Seq<char>>,
) -> bool {
    &&& p.id == UnhyphenatedUuid(profile.id)
    &&& p.name@ == profile.name@
    &&& !properties_included ==> p.properties is None
    &&& properties_included ==> (p.properties matches Some(props) && properties_signed_with(
        props@,
        payload_json,
        uploadable_signature,
        textures_signature,
    ))
}

/// Whether `p` is `profile` as exchanged with clients: its id and name, and,
/// with `properties_included`, its signed properties.
pub open spec fn is_exchanged_profile(
    p: ExchangeableGameProfile,
    profile: GameProfile,
    payload_json: Seq<char>,
    properties_included: bool,
    key: Option<Seq<char>>,
) -> bool {
    &&& p.id == UnhyphenatedUuid(profile.id)
    &&& p.name@ == profile.name@
    &&& !properties_included ==> p.properties is None
    &&& properties_included ==> (p.properties matches Some(props) && signed_properties(props@, payload_json, key))
}

/// Signs a property value, giving the signature in base64 (none when the
/// signing fails).
fn sign_property(private_key_pem: &str, value: &str) -> (r: Option<String>)
    ensures
        r matches Some(sig) ==> property_signature(private_key_pem@, value@) == Some(sig@),
        property_signature(private_key_pem@, value@) is None ==> r is None,
{
    let digest = sha1_digest(value.as_bytes());
    match sign_sha1_digest(private_key_pem, digest.as_slice()) {
        Some(sig) => Some(base64_encode(sig.as_slice())),
        None => None,
    }
}

impl ExchangeableGameProfile {
    /// The profile as exchanged with clients, given the JSON text of its
    /// textures payload and the outcome of signing its properties: `None`
    /// when there is no signing key, else the signatures of the
    /// `uploadableTextures` and the `textures` values (each `None` when that
    /// signing failed). A failed signing is answered with an error; otherwise,
    /// with `properties_included`, the profile carries both properties with
    /// those signatures.
    pub fn from_signatures(
        profile: &GameProfile,
        payload_json: &str,
        properties_included: bool,
        signatures: Option<(Option<String>, Option<String>)>,
    ) -> (r: Result<Self, YggdrasilError>)
        ensures
            match signatures {
                None => r matches Ok(p) && is_exchanged_profile_with(p, *profile, payload_json@, properties_included, None, None),
                Some((u, t)) => if u is None || t is None {
                    r matches Err(e) && e is Other
                } else {
                    r matches Ok(p) && is_exchanged_profile_with(
                        p,
                        *profile,
                        payload_json@,
                        properties_included,
                        opt_text(u),
                        opt_text(t),
                    )
                },
            },
    {
        let (uploadable_signature, textures_signature) = match signatures {
            Some((u, t)) => {
                if u.is_none() || t.is_none() {
                    return Err(YggdrasilError::Other(String::from_str("Failed to sign the profile properties")));
                }
                (u, t)
            },
            None => (None, None),
        };
        let properties = if properties_included {
            let textures = TexturesPayload::to_payload_string(payload_json);
            let mut props: Vec<ProfileProperty> = Vec::new();
            props.push(ProfileProperty::get_uploadable_textures(uploadable_signature));
            props.push(ProfileProperty { name: String::from_str("textures"), value: textures, signature: textures_signature });
            Some(props)
        } else {
            None
        };
        Ok(ExchangeableGameProfile { id: UnhyphenatedUuid(profile.id), name: profile.name.clone(), properties })
    }

    /// The profile as exchanged with clients, given the JSON text of its
    /// textures payload. With `properties_included`, it carries the
    /// `uploadableTextures` property (`skin,cape`) and the `textures` property
    /// (the payload in base64); with a signing key (PKCS#8 PEM), both are
    /// signed. Fails only when there is a key and the signing fails, which it
    /// does when the key cannot sign.
    pub fn new(
        profile: &GameProfile,
        payload_json: &str,
        properties_included: bool,
        signing_key: Option<&str>,
    ) -> (r: Result<Self, YggdrasilError>)
        ensures
            signing_key is None ==> r is Ok,
            exchange_signing_fails(payload_json@, key_text(signing_key)) ==> r is Err,
            r matches Err(e) ==> e is Other,
            r matches Ok(p) ==> is_exchanged_profile(p, *profile, payload_json@, properties_included, key_text(signing_key)),
    {
        let signatures = match signing_key {
            Some(key) => {
                let textures = TexturesPayload::to_payload_string(payload_json);
                let t = sign_property(key, textures.as_str());
                let u = sign_property(key, "skin,cape");
                proof {
                    reveal_strlit("skin,cape");
                }
                Some((u, t))
            },
            None => None,
        };
        Self::from_signatures(profile, payload_json, properties_included, signatures)
    }
}

/// The texture slots of a profile as stored: when they were created, the skin
/// model and the files of the skin and of the cape.
#[derive(Clone, Copy, PartialEq, Eq, Debug)]
pub struct ProfileTextures {
    pub id: u128,
    pub created_at_ms: i64,
    pub profile_id: u128,
    pub skin_model: SkinModel,
    pub skin_file: Option<u128>,
    pub cape_file: Option<u128>,
}

/// The kind of a texture.
#[derive(Clone, Copy, PartialEq, Eq, Debug)]
pub enum TextureType {
    Skin,
    Cape,
}

/// Skin metadata: its model.
#[derive(Clone, Copy, PartialEq, Eq, Debug)]
pub struct SkinMetadata {
    pub model: SkinModel,
}

/// A texture served to clients: where to fetch it and, for skins, its metadata.
#[derive(Clone, Debug)]
pub struct Texture {
    pub url: String,
    pub metadata: Option<SkinMetadata>,
}

/// The textures of a profile, by kind (at most one of each).
#[derive(Clone, Debug)]
pub struct TextureMap {
    pub skin: Option<Texture>,
    pub cape: Option<Texture>,
}

/// The textures payload of a profile, as carried (base64-encoded JSON) by its
/// `textures` property.
#[derive(Clone, Debug)]
pub struct TexturesPayload {
    pub timestamp: i64,
    pub profile_id: UnhyphenatedUuid,
    pub profile_name: String,
    pub textures: TextureMap,
}

impl TexturesPayload {
    /// The payload of `profile`, given its stored textures (if any) and the
    /// URLs at which the storage serves its skin and cape files (if it does).
    /// A texture is listed when its slot holds a file that has a URL; the
    /// timestamp is the creation time of the textures, or 0 without them.
    pub fn new(
        profile: &GameProfile,
        textures: Option<ProfileTextures>,
        skin_url: Option<String>,
        cape_url: Option<String>,
    ) -> (r: Self)
        ensures
            r.profile_id == UnhyphenatedUuid(profile.id),
            r.profile_name@ == profile.name@,
            r.timestamp == match textures {
                Some(t) => t.created_at_ms,
                None => 0,
            },
            r.textures.skin is Some <==> (textures matches Some(t) && t.skin_file is Some
                && skin_url is Some),
            r.textures.skin matches Some(s) ==> s.url@ == skin_url->0@ && s.metadata == Some(
                SkinMetadata { model: textures->0.skin_model },
            ),
            r.textures.cape is Some <==> (textures matches Some(t) && t.cape_file is Some
                && cape_url is Some),
            r.textures.cape matches Some(c) ==> c.url@ == cape_url->0@ && c.metadata is None,
    {
        let mut map = TextureMap { skin: None, cape: None };
        let timestamp = match textures {
            Some(t) => {
                if t.skin_file.is_some() {
                    match skin_url {
                        Some(url) => {
                            map.skin = Some(
                                Texture { url, metadata: Some(SkinMetadata { model: t.skin_model }) },
                            );
                        },
                        None => {},
                    }
                }
                if t.cape_file.is_some() {
                    match cape_url {
                        Some(url) => {
                            map.cape = Some(Texture { url, metadata: None });
                        },
                        None => {},
                    }
                }
                t.created_at_ms
            },
            None => 0,
        };
        TexturesPayload {
            timestamp,
            profile_id: UnhyphenatedUuid(profile.id),
            profile_name: profile.name.clone(),
            textures: map,
        }
    }
    /// The `textures` property value of a payload given as its JSON text: the
    /// text's UTF-8 bytes in base64.
    pub fn to_payload_string(payload_json: &str) -> (r: String)
        ensures
            r@ == textures_value(payload_json@),
    {
        base64_encode(payload_json.as_bytes())
    }

    /// The JSON bytes carried by a `textures` property value, if it is base64.
    pub fn from_payload_string(payload: &str) -> (r: Option<Vec<u8>>)
        ensures
            r matches Some(v) ==> base64_encoding(v@) == payload@,
            (exists|b: Seq<u8>| base64_encoding(b) == payload@) ==> r is Some,
    {
        base64_decode(payload)
    }
}

} // verus!
