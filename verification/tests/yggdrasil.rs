use aphanite::service::yggdrasil::api::{
    access_token_of, bearer_token, check_profile_query, has_joined_outcome, meta, profile_response,
    pick_selected_profile, resolve_client_token, selected_profile, sign_in_outcome, user_profile, YggdrasilError,
};
use aphanite::service::yggdrasil::types::{
    ExchangeableGameProfile, GameProfile, ProfileProperty, ProfileTextures, SkinModel, TexturesPayload,
    UnhyphenatedUuid,
};
use base64::Engine;
use rsa::pkcs8::{DecodePrivateKey, EncodePrivateKey, EncodePublicKey, LineEnding};
use sha1::Digest;

const ID: u128 = 0x0123456789abcdef0123456789abcdef;

fn test_key() -> (String, rsa::RsaPrivateKey) {
    let key = rsa::RsaPrivateKey::new(&mut rand::rng(), 1024).unwrap();
    let pem = key.to_pkcs8_pem(LineEnding::default()).unwrap().to_string();
    (pem, key)
}

fn verifies(key: &rsa::RsaPrivateKey, value: &str, sig_b64: &str) -> bool {
    let sig = base64::prelude::BASE64_STANDARD.decode(sig_b64).unwrap();
    let digest = sha1::Sha1::digest(value.as_bytes());
    key.as_public_key()
        .verify(rsa::pkcs1v15::Pkcs1v15Sign::new::<sha1::Sha1>(), &digest, &sig)
        .is_ok()
}

fn profile() -> GameProfile {
    GameProfile { id: ID, name: "TestPlayer".to_string(), owner_id: 5 }
}

#[test]
fn error_responses() {
    let (s, body) = YggdrasilError::InvalidToken.into_response_parts();
    assert_eq!(s, 403);
    assert_eq!(body.error, "ForbiddenOperationException");
    assert_eq!(body.error_message, "Invalid token.");
    let (s, body) = YggdrasilError::InvalidCredentials.into_response_parts();
    assert_eq!(s, 403);
    assert_eq!(body.error_message, "Invalid credentials. Invalid username or password.");
    let (s, body) = YggdrasilError::IllegalArgument.into_response_parts();
    assert_eq!(s, 400);
    assert_eq!(body.error, "IllegalArgumentException");
    let (s, body) = YggdrasilError::Other("boom".to_string()).into_response_parts();
    assert_eq!(s, 500);
    assert_eq!(body.error, "Internal Server Error");
    assert_eq!(body.cause.as_deref(), Some("boom"));
    let (s, body) = YggdrasilError::http(404).into_response_parts();
    assert_eq!(s, 404);
    assert_eq!(body.error, "Not Found");
    assert_eq!(YggdrasilError::ForbiddenOperation.message(), "An error has occurred.");
    assert_eq!(YggdrasilError::Other("x".to_string()).message(), "An error has occurred: x");
}

#[test]
fn bearer_tokens() {
    assert_eq!(bearer_token("Bearer abc"), "abc");
    assert_eq!(bearer_token("  Bearer   abc  "), "abc");
    assert_eq!(bearer_token("Basic abc"), "");
    let t = access_token_of("Bearer 0123456789abcdef0123456789abcdef").ok().unwrap();
    assert_eq!(t, ID);
    let t = access_token_of("Bearer 01234567-89ab-cdef-0123-456789abcdef").ok().unwrap();
    assert_eq!(t, ID);
    match access_token_of("Bearer nope") {
        Err(YggdrasilError::HttpError(401)) => {}
        _ => panic!("expected 401"),
    }
}

#[test]
fn authentication_choices() {
    assert_eq!(selected_profile(Some(3), &vec![1, 2]), Some(3));
    assert_eq!(selected_profile(None, &vec![1]), Some(1));
    assert_eq!(selected_profile(None, &vec![1, 2]), None);
    assert_eq!(selected_profile(None, &vec![]), None);
    assert_eq!(resolve_client_token(Some("client-abc".to_string())), "client-abc");
    let fresh = resolve_client_token(None);
    assert_eq!(fresh.len(), 32);
    assert!(UnhyphenatedUuid::parse(&fresh).is_some());
    let u = user_profile(true, 9, "zh_CN".to_string()).unwrap();
    assert_eq!(u.id, 9);
    assert_eq!(u.properties[0].name, "preferredLanguage");
    assert_eq!(u.properties[0].value, "zh_CN");
    assert!(user_profile(false, 9, "zh_CN".to_string()).is_none());
    assert!(sign_in_outcome(true, true).is_ok());
    assert!(matches!(sign_in_outcome(false, true), Err(YggdrasilError::InvalidCredentials)));
    assert!(matches!(sign_in_outcome(true, false), Err(YggdrasilError::InvalidCredentials)));
}

#[test]
fn profile_queries_are_limited() {
    let names: Vec<String> = (0..50).map(|i| format!("p{}", i)).collect();
    assert!(check_profile_query(&names).is_ok());
    let names: Vec<String> = (0..51).map(|i| format!("p{}", i)).collect();
    assert!(matches!(check_profile_query(&names), Err(YggdrasilError::ForbiddenOperation)));
}

#[test]
fn has_joined_answers() {
    assert_eq!(has_joined_outcome(Some(4), true, Some("TestPlayer"), "TestPlayer").ok(), Some(4));
    assert!(matches!(
        has_joined_outcome(Some(4), true, Some("TestPlayer"), "Other"),
        Err(YggdrasilError::HttpError(204))
    ));
    assert!(matches!(has_joined_outcome(Some(4), false, Some("A"), "A"), Err(YggdrasilError::HttpError(204))));
    assert!(matches!(has_joined_outcome(None, true, Some("A"), "A"), Err(YggdrasilError::HttpError(204))));
}

#[test]
fn uuid_text_roundtrip() {
    let u = UnhyphenatedUuid(ID);
    assert_eq!(u.to_simple_string(), "0123456789abcdef0123456789abcdef");
    assert_eq!(UnhyphenatedUuid::parse(&u.to_simple_string()), Some(u));
    assert_eq!(UnhyphenatedUuid::parse("not-a-uuid"), None);
}

#[test]
fn uploadable_textures_property() {
    let p = ProfileProperty::get_uploadable_textures(None);
    assert_eq!(p.name, "uploadableTextures");
    assert_eq!(p.value, "skin,cape");
    assert!(p.signature.is_none());
}

#[test]
fn payload_string_roundtrip() {
    let json = r#"{"timestamp":0,"profileId":"0123","profileName":"Steve","textures":{}}"#;
    let value = TexturesPayload::to_payload_string(json);
    assert_eq!(value, base64::prelude::BASE64_STANDARD.encode(json));
    let back = TexturesPayload::from_payload_string(&value).unwrap();
    assert_eq!(back, json.as_bytes());
    assert!(TexturesPayload::from_payload_string("!!!").is_none());
}

#[test]
fn textures_payload_lists_present_files() {
    let t = ProfileTextures {
        id: 1,
        created_at_ms: 1234,
        profile_id: ID,
        skin_model: SkinModel::Slim,
        skin_file: Some(2),
        cape_file: None,
    };
    let p = TexturesPayload::new(&profile(), Some(t), Some("http://x/skin".to_string()), Some("http://x/cape".to_string()));
    assert_eq!(p.timestamp, 1234);
    assert_eq!(p.profile_name, "TestPlayer");
    let skin = p.textures.skin.unwrap();
    assert_eq!(skin.url, "http://x/skin");
    assert_eq!(skin.metadata.unwrap().model, SkinModel::Slim);
    assert!(p.textures.cape.is_none());
    let empty = TexturesPayload::new(&profile(), None, None, None);
    assert_eq!(empty.timestamp, 0);
    assert!(empty.textures.skin.is_none());
}

#[test]
fn exchanged_profile_without_properties() {
    let p = ExchangeableGameProfile::new(&profile(), "{}", false, None).ok().unwrap();
    assert_eq!(p.id, UnhyphenatedUuid(ID));
    assert_eq!(p.name, "TestPlayer");
    assert!(p.properties.is_none());
}

#[test]
fn exchanged_profile_signed_properties_verify() {
    let (pem, key) = test_key();
    let json = r#"{"textures":{}}"#;
    let p = ExchangeableGameProfile::new(&profile(), json, true, Some(&pem)).ok().unwrap();
    let props = p.properties.unwrap();
    assert_eq!(props.len(), 2);
    assert_eq!(props[0].name, "uploadableTextures");
    assert_eq!(props[0].value, "skin,cape");
    assert!(verifies(&key, "skin,cape", props[0].signature.as_ref().unwrap()));
    assert_eq!(props[1].name, "textures");
    assert_eq!(props[1].value, base64::prelude::BASE64_STANDARD.encode(json));
    assert!(verifies(&key, &props[1].value, props[1].signature.as_ref().unwrap()));
}

#[test]
fn exchanged_profile_with_unreadable_key_fails() {
    let r = ExchangeableGameProfile::new(&profile(), "{}", true, Some("not a key"));
    assert!(matches!(r, Err(YggdrasilError::Other(_))));
}

#[test]
fn profile_query_signs_only_when_asked() {
    let (pem, _key) = test_key();
    assert!(profile_response(None, "{}", Some(false), &pem).ok().unwrap().is_none());
    let gp = profile();
    let unsigned = profile_response(Some(&gp), "{}", None, &pem).ok().unwrap().unwrap();
    let props = unsigned.properties.unwrap();
    assert!(props.iter().all(|p| p.signature.is_none()));
    let signed = profile_response(Some(&gp), "{}", Some(false), &pem).ok().unwrap().unwrap();
    let props = signed.properties.unwrap();
    assert!(props.iter().all(|p| p.signature.is_some()));
}

#[test]
fn meta_document() {
    let (pem, key) = test_key();
    let m = meta(
        Some("My Server".to_string()),
        Some("https://home".to_string()),
        Some("https://register".to_string()),
        "aphanite.example.com",
        None,
        &pem,
        "0.1.0",
    )
    .ok()
    .unwrap();
    assert_eq!(m.meta.server_name.as_deref(), Some("My Server"));
    assert_eq!(m.meta.implementation_name, "Aphanite");
    assert_eq!(m.meta.implementation_version, "0.1.0");
    let links = m.meta.links.unwrap();
    assert_eq!(links.register.as_deref(), Some("https://register"));
    assert_eq!(m.skin_domains, vec!["aphanite.example.com".to_string()]);
    let expected = key.as_public_key().to_public_key_pem(LineEnding::default()).unwrap();
    assert_eq!(m.signature_publickey, expected);
    let again = rsa::RsaPrivateKey::from_pkcs8_pem(&pem).unwrap();
    assert_eq!(again, key);

    let m = meta(None, None, Some("r".to_string()), "d", Some("cdn".to_string()), &pem, "v").ok().unwrap();
    assert!(m.meta.links.is_none());
    assert_eq!(m.skin_domains, vec!["d".to_string(), "cdn".to_string()]);
    assert!(matches!(meta(None, None, None, "d", None, "bad", "v"), Err(YggdrasilError::Other(_))));
}

fn named(id: u128, name: &str) -> ExchangeableGameProfile {
    ExchangeableGameProfile { id: UnhyphenatedUuid(id), name: name.to_string(), properties: None }
}

#[test]
fn selected_profile_object_and_token_binding() {
    let (id, p) = pick_selected_profile(None, vec![named(1, "Only")]);
    assert_eq!(id, Some(1));
    assert_eq!(p.unwrap().name, "Only");
    let (id, p) = pick_selected_profile(None, vec![named(1, "A"), named(2, "B")]);
    assert_eq!(id, None);
    assert!(p.is_none());
    let (id, p) = pick_selected_profile(Some(named(9, "Chosen")), vec![named(1, "A")]);
    assert_eq!(id, Some(9));
    assert_eq!(p.unwrap().name, "Chosen");
    let (id, p) = pick_selected_profile(None, vec![]);
    assert_eq!(id, None);
    assert!(p.is_none());
}

#[test]
fn exchanged_profile_from_signatures() {
    let p = ExchangeableGameProfile::from_signatures(
        &profile(),
        "{}",
        true,
        Some((Some("dXA=".to_string()), Some("dGV4".to_string()))),
    )
    .ok()
    .unwrap();
    let props = p.properties.unwrap();
    assert_eq!(props[0].signature.as_deref(), Some("dXA="));
    assert_eq!(props[1].signature.as_deref(), Some("dGV4"));
    assert_eq!(props[1].value, base64::prelude::BASE64_STANDARD.encode("{}"));
    let r = ExchangeableGameProfile::from_signatures(&profile(), "{}", true, Some((Some("dXA=".to_string()), None)));
    assert!(matches!(r, Err(YggdrasilError::Other(_))));
    let p = ExchangeableGameProfile::from_signatures(&profile(), "{}", true, None).ok().unwrap();
    assert!(p.properties.unwrap().iter().all(|q| q.signature.is_none()));
}
