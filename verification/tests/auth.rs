use argon2::PasswordHasher;
use base64::Engine;
use uxum::auth::config::{
    AuthConfig, ConfiguredExtractor, ExtractorConfig, HashedPassword, ProviderConfig, RoleConfig,
    UserConfig, UserPassword,
};
use uxum::auth::errors::AuthError;
use uxum::auth::jwt::{decode_outcome, subject_claim, ClaimValue, JwtFailure, outcome_result, AuthSetupError, JwtAlgorithm, JwtAuthExtractor, JwtDecodeOutcome, JwtKey, JwtValidation, SubjectClaim};
use uxum::auth::extractor::{AuthExtractor, BasicAuthExtractor, HeaderAuthExtractor, NoOpAuthExtractor};
use uxum::auth::layer::{AuthDecision, AuthLayer};
use uxum::auth::provider::{AuthProvider, ConfigAuthProvider, ConfiguredProvider, NoOpAuthProvider};
use uxum::auth::token::AuthToken;
use uxum::auth::user::UserId;
use uxum::errors::IoError;
use uxum::headers::RequestHeaders;

fn headers(pairs: &[(&str, &str)]) -> RequestHeaders {
    let mut h = RequestHeaders::new();
    for (k, v) in pairs {
        h.append(k.to_string(), v.as_bytes().to_vec());
    }
    h
}

fn sample_config() -> AuthConfig {
    let mut cfg = AuthConfig::new();
    let mut admin = UserConfig::new(Some(UserPassword::Plaintext("adminpass".to_string())));
    admin.grant_role("root".to_string());
    cfg.set_user("admin".to_string(), admin);
    let mut reader = UserConfig::new(Some(UserPassword::Plaintext("readerpass".to_string())));
    reader.grant_role("readers".to_string());
    cfg.set_user("reader".to_string(), reader);
    cfg.set_user("nopass".to_string(), UserConfig::new(None));
    cfg.set_role("root".to_string(), RoleConfig::new(true));
    let mut readers = RoleConfig::new(false);
    readers.grant_permission("read".to_string());
    cfg.set_role("readers".to_string(), readers);
    cfg.provider = ProviderConfig::Config;
    cfg
}

fn provider() -> ConfigAuthProvider {
    ConfigAuthProvider::new(sample_config())
}

#[test]
fn basic_parse_header_ok() {
    // "user:pa:ss" in base64
    let (u, p) = BasicAuthExtractor::parse_header(b"Basic dXNlcjpwYTpzcw==").unwrap();
    assert_eq!(u, "user");
    assert_eq!(p, "pa:ss");
}

#[test]
fn basic_parse_header_scheme_case_insensitive() {
    let (u, p) = BasicAuthExtractor::parse_header(b"bAsIc dXNlcjpwYXNz").unwrap();
    assert_eq!(u, "user");
    assert_eq!(p, "pass");
}

#[test]
fn basic_parse_header_errors() {
    assert!(matches!(BasicAuthExtractor::parse_header(b"Basic"), Err(AuthError::InvalidAuthHeader)));
    assert!(matches!(BasicAuthExtractor::parse_header(b"Basic \x01abc"), Err(AuthError::InvalidAuthHeader)));
    match BasicAuthExtractor::parse_header(b"Bearer abc") {
        Err(AuthError::UnknownAuthScheme(s)) => assert_eq!(s, "Bearer"),
        other => panic!("unexpected {other:?}"),
    }
    assert!(matches!(BasicAuthExtractor::parse_header(b"Basic !!!"), Err(AuthError::PayloadDecode(_))));
    // base64 of bytes 0xff 0xfe: not UTF-8
    assert!(matches!(BasicAuthExtractor::parse_header(b"Basic //4="), Err(AuthError::NonPrintablePayload(_))));
    // base64 of "nocolon"
    assert!(matches!(BasicAuthExtractor::parse_header(b"Basic bm9jb2xvbg=="), Err(AuthError::InvalidAuthPayload)));
}

#[test]
fn basic_new_and_realm() {
    let e = BasicAuthExtractor::new(None);
    assert_eq!(e.www_auth, "Basic realm=\"auth\", charset=\"UTF-8\"");
    let mut e = BasicAuthExtractor::new(Some("api"));
    assert_eq!(e.www_auth, "Basic realm=\"api\", charset=\"UTF-8\"");
    e.set_realm("other");
    assert_eq!(e.www_auth, "Basic realm=\"other\", charset=\"UTF-8\"");
}

#[test]
fn basic_extract_and_responses() {
    let e = BasicAuthExtractor::new(None);
    assert!(matches!(e.extract_auth(&headers(&[])), Err(AuthError::NoAuthProvided)));
    let (u, t) = e.extract_auth(&headers(&[("authorization", "Basic dXNlcjpwYXNz")])).unwrap();
    assert_eq!(u.unwrap().as_str(), "user");
    assert!(matches!(t, AuthToken::PlainPassword(ref p) if p == "pass"));
    let r = e.error_response(&AuthError::NoAuthProvided);
    assert_eq!(r.status, 401);
    assert_eq!(r.www_authenticate.as_deref(), Some("Basic realm=\"auth\", charset=\"UTF-8\""));
    assert_eq!(r.title, "No authentication data provided");
    let r = e.error_response(&AuthError::NoPermission("write".to_string()));
    assert_eq!(r.status, 403);
    assert_eq!(r.title, "User does not have permission: write");
    assert!(r.www_authenticate.is_none());
    let r = e.error_response(&AuthError::InvalidAuthHeader);
    assert_eq!(r.status, 400);
    let mut bad = BasicAuthExtractor::new(None);
    bad.www_auth = "bad\u{1}value".to_string();
    let r = bad.error_response(&AuthError::AuthFailed);
    assert_eq!(r.status, 500);
    assert_eq!(r.title, "Invalid HTTP Basic realm value");
}

#[test]
fn header_extractor() {
    let mut e = HeaderAuthExtractor::new(None, None);
    assert_eq!(e.user_header, "X-API-Name");
    assert_eq!(e.token_header, "X-API-Key");
    let (u, t) = e
        .extract_auth(&headers(&[("x-api-name", "bob"), ("x-api-key", "k3y")]))
        .unwrap();
    assert_eq!(u.unwrap().as_str(), "bob");
    assert!(matches!(t, AuthToken::PlainPassword(ref p) if p == "k3y"));
    assert!(matches!(e.extract_auth(&headers(&[("x-api-name", "bob")])), Err(AuthError::NoAuthProvided)));
    e.set_user_header("X-User");
    e.set_token_header("X-Token");
    assert_eq!(e.user_header, "X-User");
    assert_eq!(e.token_header, "X-Token");
    let r = e.error_response(&AuthError::AuthFailed);
    assert_eq!(r.status, 403);
    let r = e.error_response(&AuthError::InvalidAuthPayload);
    assert_eq!(r.status, 400);
}

#[test]
fn noop_extractor() {
    let e = NoOpAuthExtractor;
    let (u, t) = e.extract_auth(&headers(&[])).unwrap();
    assert!(u.is_none());
    assert!(matches!(t, AuthToken::Absent));
    assert_eq!(e.error_response(&AuthError::AuthFailed).status, 500);
}

#[test]
fn config_user_lookup() {
    let cfg = sample_config();
    assert!(cfg.user(Some("admin")).is_some());
    assert!(cfg.user(Some("ghost")).is_none());
    assert!(cfg.user(None).is_none());
}

#[test]
fn provider_authenticate() {
    let p = provider();
    let admin = UserId::from_str("admin");
    let ghost = UserId::from_str("ghost");
    assert!(p.authenticate(Some(&admin), &AuthToken::PlainPassword("adminpass".into())).is_ok());
    assert!(matches!(p.authenticate(Some(&admin), &AuthToken::PlainPassword("wrong".into())), Err(AuthError::AuthFailed)));
    assert!(matches!(p.authenticate(Some(&admin), &AuthToken::Absent), Err(AuthError::AuthFailed)));
    assert!(p.authenticate(Some(&admin), &AuthToken::ExternallyVerified).is_ok());
    assert!(matches!(p.authenticate(Some(&ghost), &AuthToken::ExternallyVerified), Err(AuthError::UserNotFound)));
    assert!(matches!(p.authenticate(None, &AuthToken::ExternallyVerified), Err(AuthError::UserNotFound)));
    let nopass = UserId::from_str("nopass");
    assert!(matches!(p.authenticate(Some(&nopass), &AuthToken::PlainPassword("".into())), Err(AuthError::AuthFailed)));
}

#[test]
fn provider_authorize() {
    let p = provider();
    let admin = UserId::from_str("admin");
    let reader = UserId::from_str("reader");
    assert!(p.authorize(Some(&admin), "anything").is_ok());
    assert!(p.authorize(Some(&reader), "read").is_ok());
    match p.authorize(Some(&reader), "write") {
        Err(AuthError::NoPermission(perm)) => assert_eq!(perm, "write"),
        other => panic!("unexpected {other:?}"),
    }
    assert!(matches!(p.authorize(Some(&UserId::from_str("ghost")), "read"), Err(AuthError::UserNotFound)));
}

#[test]
fn noop_provider() {
    let p = NoOpAuthProvider;
    assert!(p.authenticate(None, &AuthToken::Absent).is_ok());
    assert!(p.authorize(None, "x").is_ok());
}

#[test]
fn hashed_password() {
    let salt = password_hash::SaltString::from_b64("c29tZXNhbHRzb21lc2FsdA").unwrap();
    let hash = argon2::Argon2::default().hash_password(b"hunter2", &salt).unwrap().to_string();
    let h = HashedPassword::parse(&hash).expect("valid PHC string");
    assert_eq!(h.as_str(), hash);
    let pw = UserPassword::Hashed(h);
    assert!(pw.matches_password("hunter2"));
    assert!(!pw.matches_password("hunter3"));
    assert!(HashedPassword::parse("not a hash").is_none());
    let plain = UserPassword::Plaintext("abc".to_string());
    assert!(plain.matches_password("abc"));
    assert!(!plain.matches_password("abcd"));
    assert!(!plain.matches_password("ab"));
}

#[test]
fn make_extractor_and_provider() {
    let cfg = ExtractorConfig::Basic { realm: Some("zone".to_string()) };
    match cfg.make_extractor(&vec![]) {
        Ok(ConfiguredExtractor::Basic(e)) => assert_eq!(e.www_auth, "Basic realm=\"zone\", charset=\"UTF-8\""),
        _ => panic!("expected a Basic extractor"),
    }
    let cfg = ExtractorConfig::Header { user_header: None, token_header: Some("X-T".to_string()) };
    match cfg.make_extractor(&vec![]) {
        Ok(ConfiguredExtractor::Header(e)) => {
            assert_eq!(e.user_header, "X-API-Name");
            assert_eq!(e.token_header, "X-T");
        }
        _ => panic!("expected a header extractor"),
    }
    assert!(matches!(ExtractorConfig::NoOp.make_extractor(&vec![]), Ok(ConfiguredExtractor::NoOp(_))));
    let stacked = ExtractorConfig::Stacked {
        extractors: vec![ExtractorConfig::Basic { realm: None }, ExtractorConfig::Header { user_header: None, token_header: None }],
    };
    let ex = stacked.make_extractor(&vec![]).unwrap();
    // Basic fails (no Authorization header), the header extractor succeeds.
    let (user, _) = ex.extract_auth(&headers(&[("x-api-name", "joe"), ("x-api-key", "t")])).unwrap();
    assert_eq!(user.unwrap().as_str(), "joe");
    // Basic succeeds first.
    let basic = base64::engine::general_purpose::STANDARD.encode("ann:pw");
    let (user, _) = ex.extract_auth(&headers(&[("authorization", &format!("Basic {basic}")), ("x-api-name", "joe")])).unwrap();
    assert_eq!(user.unwrap().as_str(), "ann");
    // Every extractor fails: the first one's error, and its challenge.
    assert!(matches!(ex.extract_auth(&headers(&[("authorization", "Bogus x")])), Err(AuthError::UnknownAuthScheme(s)) if s == "Bogus"));
    let resp = ex.error_response(&AuthError::NoAuthProvided);
    assert_eq!(resp.status, 401);
    assert!(resp.www_authenticate.unwrap().starts_with("Basic"));
    let empty = ExtractorConfig::Stacked { extractors: vec![] }.make_extractor(&vec![]).unwrap();
    assert!(matches!(empty.extract_auth(&headers(&[])), Err(AuthError::NoAuthProvided)));
    assert!(matches!(sample_config().make_provider(), ConfiguredProvider::Config(_)));
    assert!(matches!(AuthConfig::new().make_provider(), ConfiguredProvider::NoOp(_)));
}

fn basic(user: &str, pass: &str) -> String {
    format!("Basic {}", base64::engine::general_purpose::STANDARD.encode(format!("{user}:{pass}")))
}

#[test]
fn layer_pipeline() {
    let layer = AuthLayer::new(
        vec!["read".to_string()],
        ConfiguredProvider::Config(provider()),
        ConfiguredExtractor::Basic(BasicAuthExtractor::new(None)),
    );
    match layer.check(&headers(&[("authorization", &basic("reader", "readerpass"))])) {
        AuthDecision::Allow(Some(u)) => assert_eq!(u.as_str(), "reader"),
        other => panic!("unexpected {other:?}"),
    }
    match layer.check(&headers(&[])) {
        AuthDecision::Deny(r) => assert_eq!(r.status, 401),
        other => panic!("unexpected {other:?}"),
    }
    let strict = AuthLayer::new(
        vec!["read".to_string(), "write".to_string()],
        ConfiguredProvider::Config(provider()),
        ConfiguredExtractor::Basic(BasicAuthExtractor::new(None)),
    );
    match strict.check(&headers(&[("authorization", &basic("reader", "readerpass"))])) {
        AuthDecision::Deny(r) => {
            assert_eq!(r.status, 403);
            assert_eq!(r.title, "User does not have permission: write");
        }
        other => panic!("unexpected {other:?}"),
    }
    match strict.check(&headers(&[("authorization", &basic("admin", "adminpass"))])) {
        AuthDecision::Allow(Some(u)) => assert_eq!(u.as_str(), "admin"),
        other => panic!("unexpected {other:?}"),
    }
}

#[test]
fn law_unknown_user_same_answer_as_wrong_password() {
    let layer = AuthLayer::new(
        vec![],
        ConfiguredProvider::Config(provider()),
        ConfiguredExtractor::Basic(BasicAuthExtractor::new(Some("r"))),
    );
    let a = match layer.check(&headers(&[("authorization", &basic("ghost", "x"))])) {
        AuthDecision::Deny(r) => r,
        other => panic!("unexpected {other:?}"),
    };
    let b = match layer.check(&headers(&[("authorization", &basic("admin", "x"))])) {
        AuthDecision::Deny(r) => r,
        other => panic!("unexpected {other:?}"),
    };
    assert_eq!(a.status, b.status);
    assert_eq!(a.title, b.title);
    assert_eq!(a.www_authenticate, b.www_authenticate);
    assert_eq!(a.type_tag, b.type_tag);
    assert_eq!(a.detail, b.detail);
}

#[test]
fn law_super_user_granted_everything() {
    let p = provider();
    let admin = UserId::from_str("admin");
    for perm in ["a", "b", "maintenance", ""] {
        assert!(p.authorize(Some(&admin), perm).is_ok());
    }
}

#[test]
fn set_user_replaces() {
    let mut cfg = sample_config();
    cfg.set_user("admin".to_string(), UserConfig::new(Some(UserPassword::Plaintext("new".into()))));
    assert_eq!(cfg.users.len(), 3);
    let p = ConfigAuthProvider::new(cfg);
    let admin = UserId::from_str("admin");
    assert!(p.authenticate(Some(&admin), &AuthToken::PlainPassword("new".into())).is_ok());
    assert!(p.authenticate(Some(&admin), &AuthToken::PlainPassword("adminpass".into())).is_err());
}

#[test]
fn error_messages() {
    assert_eq!(AuthError::UserNotFound.message(), AuthError::AuthFailed.message());
    assert_eq!(AuthError::UnknownAuthScheme("X".into()).message(), "Unknown authentication scheme: X");
    assert_eq!(AuthError::InvalidAuthHeader.message(), "Invalid format for Authorization header");
}

fn jwt_token(claims: &[(&str, serde_json::Value)], secret: &[u8]) -> String {
    let mut map = serde_json::Map::new();
    for (k, v) in claims {
        map.insert(k.to_string(), v.clone());
    }
    jsonwebtoken::encode(
        &jsonwebtoken::Header::default(),
        &serde_json::Value::Object(map),
        &jsonwebtoken::EncodingKey::from_secret(secret),
    )
    .unwrap()
}

fn far_future() -> serde_json::Value {
    let now = std::time::SystemTime::now().duration_since(std::time::UNIX_EPOCH).unwrap().as_secs();
    serde_json::Value::from(now + 3600)
}

#[test]
fn jwt_validation_settings() {
    let mut cfg = JwtValidation::default();
    assert_eq!(cfg.required_claims, vec!["exp".to_string()]);
    let v = cfg.to_validation(JwtAlgorithm::Hs256);
    assert_eq!(v.leeway, 60);
    assert!(v.validate_exp && !v.validate_nbf && v.validate_aud);
    assert!(v.aud.is_none() && v.iss.is_none());
    assert_eq!(v.algorithms, vec![jsonwebtoken::Algorithm::HS256]);
    assert!(v.required_spec_claims.contains("exp"));
    cfg.audience = vec!["svc".into()];
    cfg.issuer = vec!["idp".into()];
    cfg.reject_expiring_in = Some(uxum::duration::Duration::from_secs(30));
    let v = cfg.to_validation(JwtAlgorithm::Es384);
    assert!(v.aud.as_ref().unwrap().contains("svc"));
    assert!(v.iss.as_ref().unwrap().contains("idp"));
    assert_eq!(v.reject_tokens_expiring_in_less_than, 30);
    assert_eq!(v.algorithms, vec![jsonwebtoken::Algorithm::ES384]);
}

#[test]
fn jwt_keys() {
    assert!(JwtKey::HmacSecret("c2VjcmV0".into()).to_key(&[]).is_ok());
    let expected = jsonwebtoken::DecodingKey::from_base64_secret("not base64!").err().unwrap().to_string();
    assert!(matches!(JwtKey::HmacSecret("not base64!".into()).to_key(&[]), Err(AuthSetupError::Jwt(m)) if m == expected));
    assert!(JwtKey::RsaPem("k.pem".into()).to_key(b"garbage").is_err());
    assert!(JwtKey::RsaDer("k.der".into()).to_key(b"anything").is_ok());
    assert_eq!(JwtKey::EcdsaPem("ec.pem".into()).key_file(), Some("ec.pem"));
    assert_eq!(JwtKey::HmacSecret("x".into()).key_file(), None);
}

#[test]
fn jwt_extraction() {
    let key = JwtKey::HmacSecret("c2VjcmV0".into()).to_key(&[]).unwrap();
    let validation = JwtValidation::default().to_validation(JwtAlgorithm::Hs256);
    let ex = JwtAuthExtractor::new(None, key, validation);
    assert_eq!(ex.www_auth, "Bearer realm=\"auth\", charset=\"UTF-8\"");
    let good = jwt_token(&[("sub", "alice".into()), ("exp", far_future())], b"secret");
    let (user, token) = ex.extract_auth(&headers(&[("authorization", &format!("Bearer {good}"))])).unwrap();
    assert_eq!(user.unwrap().as_str(), "alice");
    assert!(matches!(token, AuthToken::ExternallyVerified));
    let numeric = jwt_token(&[("sub", 42.into()), ("exp", far_future())], b"secret");
    let (user, _) = ex.extract_auth(&headers(&[("authorization", &format!("bearer {numeric}"))])).unwrap();
    assert_eq!(user.unwrap().as_str(), "42");
    let forged = jwt_token(&[("sub", "alice".into()), ("exp", far_future())], b"other");
    assert!(matches!(ex.extract_auth(&headers(&[("authorization", &format!("Bearer {forged}"))])), Err(AuthError::AuthFailed)));
    let expired = jwt_token(&[("sub", "alice".into()), ("exp", 1_000.into())], b"secret");
    assert!(matches!(ex.extract_auth(&headers(&[("authorization", &format!("Bearer {expired}"))])), Err(AuthError::AuthFailed)));
    let no_exp = jwt_token(&[("sub", "alice".into())], b"secret");
    assert!(matches!(ex.extract_auth(&headers(&[("authorization", &format!("Bearer {no_exp}"))])), Err(AuthError::InvalidAuthPayload)));
    assert!(matches!(ex.extract_auth(&headers(&[])), Err(AuthError::NoAuthProvided)));
    assert!(matches!(ex.extract_auth(&headers(&[("authorization", "Basic abc")])), Err(AuthError::UnknownAuthScheme(s)) if s == "Basic"));
    assert!(matches!(ex.extract_auth(&headers(&[("authorization", "Bearer")])), Err(AuthError::InvalidAuthHeader)));
    assert!(matches!(JwtAuthExtractor::parse_header(b"Bearer tok"), Ok(t) if t == "tok"));
    let resp = ex.error_response(&AuthError::AuthFailed);
    assert_eq!(resp.status, 401);
    assert!(matches!(outcome_result(JwtDecodeOutcome::Valid(SubjectClaim::Missing)), Ok((None, AuthToken::ExternallyVerified))));
    assert!(matches!(outcome_result(JwtDecodeOutcome::Expired), Err(AuthError::AuthFailed)));
    assert!(matches!(outcome_result(JwtDecodeOutcome::Invalid), Err(AuthError::InvalidAuthPayload)));
}

#[test]
fn jwt_claims_and_outcomes() {
    let claims = vec![("exp".to_string(), ClaimValue::Number("5".into())), ("sub".to_string(), ClaimValue::Text("bob".into()))];
    assert_eq!(subject_claim(&claims), SubjectClaim::Text("bob".into()));
    let numeric = vec![("sub".to_string(), ClaimValue::Number("12".into()))];
    assert_eq!(subject_claim(&numeric), SubjectClaim::Number("12".into()));
    assert_eq!(subject_claim(&vec![("sub".to_string(), ClaimValue::Bool(true))]), SubjectClaim::Missing);
    assert_eq!(subject_claim(&vec![]), SubjectClaim::Missing);
    assert_eq!(decode_outcome(Ok(claims)), JwtDecodeOutcome::Valid(SubjectClaim::Text("bob".into())));
    assert_eq!(decode_outcome(Err(JwtFailure::Expired)), JwtDecodeOutcome::Expired);
    assert_eq!(decode_outcome(Err(JwtFailure::InvalidSignature)), JwtDecodeOutcome::InvalidSignature);
    assert_eq!(decode_outcome(Err(JwtFailure::Other)), JwtDecodeOutcome::Invalid);
}

#[test]
fn error_messages_carry_outside_text() {
    match BasicAuthExtractor::parse_header(b"Basic !!!") {
        Err(e @ AuthError::PayloadDecode(_)) => {
            let expected = base64::engine::general_purpose::STANDARD.decode("!!!").unwrap_err().to_string();
            assert_eq!(e.message(), format!("Authentication payload decoding error: {expected}"));
        }
        _ => panic!("expected a decoding error"),
    }
}

#[test]
fn jwt_extractor_from_config() {
    let cfg = ExtractorConfig::Jwt {
        realm: Some("api".into()),
        algo: JwtAlgorithm::Hs256,
        key: JwtKey::HmacSecret("c2VjcmV0".into()),
        validate: JwtValidation::default(),
    };
    let ex = match cfg.make_extractor(&vec![]) {
        Ok(ConfiguredExtractor::Jwt(ex)) => ex,
        _ => panic!("expected a JWT extractor"),
    };
    assert_eq!(ex.www_auth, "Bearer realm=\"api\", charset=\"UTF-8\"");
    let good = jwt_token(&[("sub", "carol".into()), ("exp", far_future())], b"secret");
    let (user, _) = ex.extract_auth(&headers(&[("authorization", &format!("Bearer {good}"))])).unwrap();
    assert_eq!(user.unwrap().as_str(), "carol");
    let bad = ExtractorConfig::Jwt {
        realm: None,
        algo: JwtAlgorithm::Hs256,
        key: JwtKey::HmacSecret("not base64!".into()),
        validate: JwtValidation::default(),
    };
    let expected = jsonwebtoken::DecodingKey::from_base64_secret("not base64!").err().unwrap().to_string();
    assert!(matches!(bad.make_extractor(&vec![]), Err(AuthSetupError::Jwt(m)) if m == expected));
    // A stack fails with the error of its first key that does not load.
    let stack = ExtractorConfig::Stacked { extractors: vec![ExtractorConfig::NoOp, bad] };
    assert!(matches!(stack.make_extractor(&vec![]), Err(AuthSetupError::Jwt(m)) if m == expected));
}

#[test]
fn jwt_key_from_loaded_file() {
    let cfg = ExtractorConfig::Jwt {
        realm: None,
        algo: JwtAlgorithm::Rs256,
        key: JwtKey::RsaDer("keys/rsa.der".into()),
        validate: JwtValidation::default(),
    };
    assert_eq!(cfg.key_files(), vec!["keys/rsa.der".to_string()]);
    // Reading the key file failed: its path and the I/O error.
    let io = IoError { message: "No such file or directory".into(), kind: "NotFound".into(), raw: Some(2) };
    let failed = vec![("keys/rsa.der".to_string(), Err(io))];
    match cfg.make_extractor(&failed) {
        Err(AuthSetupError::KeyIo(p, e)) => {
            assert_eq!(p, "keys/rsa.der");
            assert_eq!(e.kind, "NotFound");
            assert_eq!(e.raw, Some(2));
        }
        _ => panic!("expected a key file error"),
    }
    // DER keys take any bytes.
    let files = vec![("keys/rsa.der".to_string(), Ok(b"der bytes".to_vec()))];
    match cfg.make_extractor(&files) {
        Ok(ConfiguredExtractor::Jwt(ex)) => assert_eq!(ex.www_auth, "Bearer realm=\"auth\", charset=\"UTF-8\""),
        _ => panic!("expected a JWT extractor"),
    }
    // PEM keys that the JWT library refuses.
    let pem = ExtractorConfig::Jwt {
        realm: None,
        algo: JwtAlgorithm::Rs256,
        key: JwtKey::RsaPem("keys/rsa.pem".into()),
        validate: JwtValidation::default(),
    };
    let garbage = vec![("keys/rsa.pem".to_string(), Ok(b"garbage".to_vec()))];
    assert!(matches!(pem.make_extractor(&garbage), Err(AuthSetupError::Jwt(_))));
}

#[test]
fn nested_stacks_are_built() {
    let nested = ExtractorConfig::Stacked { extractors: vec![ExtractorConfig::Stacked { extractors: vec![] }] };
    let ex = nested.make_extractor(&vec![]).unwrap();
    match &ex {
        ConfiguredExtractor::Stacked(v) => {
            assert_eq!(v.len(), 1);
            assert!(matches!(&v[0], ConfiguredExtractor::Stacked(w) if w.is_empty()));
        }
        _ => panic!("expected a stack"),
    }
    assert!(matches!(ex.extract_auth(&headers(&[])), Err(AuthError::NoAuthProvided)));
    // A stack within a stack, then a header extractor.
    let deep = ExtractorConfig::Stacked {
        extractors: vec![
            ExtractorConfig::Stacked { extractors: vec![ExtractorConfig::Basic { realm: Some("in".into()) }] },
            ExtractorConfig::Header { user_header: None, token_header: None },
        ],
    };
    let ex = deep.make_extractor(&vec![]).unwrap();
    let (user, _) = ex.extract_auth(&headers(&[("x-api-name", "joe"), ("x-api-key", "t")])).unwrap();
    assert_eq!(user.unwrap().as_str(), "joe");
    let (user, _) = ex.extract_auth(&headers(&[("authorization", &basic("ann", "pw"))])).unwrap();
    assert_eq!(user.unwrap().as_str(), "ann");
    // All fail: the error of the first (inner) extractor, and the inner challenge.
    assert!(matches!(ex.extract_auth(&headers(&[])), Err(AuthError::NoAuthProvided)));
    let resp = ex.error_response(&AuthError::AuthFailed);
    assert_eq!(resp.status, 401);
    assert_eq!(resp.www_authenticate.as_deref(), Some("Basic realm=\"in\", charset=\"UTF-8\""));
}

#[test]
fn stack_with_jwt_member() {
    let stack = ExtractorConfig::Stacked {
        extractors: vec![
            ExtractorConfig::Jwt {
                realm: None,
                algo: JwtAlgorithm::Hs256,
                key: JwtKey::HmacSecret("c2VjcmV0".into()),
                validate: JwtValidation::default(),
            },
            ExtractorConfig::Basic { realm: None },
        ],
    };
    let ex = stack.make_extractor(&vec![]).unwrap();
    let good = jwt_token(&[("sub", "dave".into()), ("exp", far_future())], b"secret");
    let (user, token) = ex.extract_auth(&headers(&[("authorization", &format!("Bearer {good}"))])).unwrap();
    assert_eq!(user.unwrap().as_str(), "dave");
    assert!(matches!(token, AuthToken::ExternallyVerified));
    // The bearer extractor refuses a Basic header; the Basic extractor takes it.
    let (user, token) = ex.extract_auth(&headers(&[("authorization", &basic("eve", "pw"))])).unwrap();
    assert_eq!(user.unwrap().as_str(), "eve");
    assert!(matches!(token, AuthToken::PlainPassword(ref p) if p == "pw"));
    // The stack answers with the bearer challenge of its first extractor.
    let resp = ex.error_response(&AuthError::NoAuthProvided);
    assert_eq!(resp.www_authenticate.as_deref(), Some("Bearer realm=\"auth\", charset=\"UTF-8\""));
}

#[test]
fn error_response_titles_are_messages() {
    let decode = match BasicAuthExtractor::parse_header(b"Basic !!!") {
        Err(e) => e,
        Ok(_) => panic!("expected a decoding error"),
    };
    let expected = decode.message();
    assert!(expected.starts_with("Authentication payload decoding error: "));
    assert_eq!(BasicAuthExtractor::new(None).error_response(&decode).title, expected);
    assert_eq!(HeaderAuthExtractor::new(None, None).error_response(&decode).title, expected);
    assert_eq!(NoOpAuthExtractor.error_response(&decode).title, expected);
    let utf8 = match BasicAuthExtractor::parse_header(b"Basic //4=") {
        Err(e) => e,
        Ok(_) => panic!("expected a UTF-8 error"),
    };
    let inner = String::from_utf8(vec![0xff, 0xfe]).unwrap_err().to_string();
    assert_eq!(utf8.message(), format!("Authentication payload is not printable: {inner}"));
    assert_eq!(BasicAuthExtractor::new(None).error_response(&utf8).title, utf8.message());
}

#[test]
fn key_files_of_configuration() {
    let cfg = ExtractorConfig::Stacked {
        extractors: vec![
            ExtractorConfig::Jwt {
                realm: None,
                algo: JwtAlgorithm::Rs256,
                key: JwtKey::RsaPem("a.pem".into()),
                validate: JwtValidation::default(),
            },
            ExtractorConfig::Basic { realm: None },
            ExtractorConfig::Stacked {
                extractors: vec![ExtractorConfig::Jwt {
                    realm: None,
                    algo: JwtAlgorithm::EdDSA,
                    key: JwtKey::EddsaDer("b.der".into()),
                    validate: JwtValidation::default(),
                }],
            },
            ExtractorConfig::Jwt {
                realm: None,
                algo: JwtAlgorithm::Hs256,
                key: JwtKey::HmacSecret("c2VjcmV0".into()),
                validate: JwtValidation::default(),
            },
        ],
    };
    assert_eq!(cfg.key_files(), vec!["a.pem".to_string(), "b.der".to_string()]);
    assert!(ExtractorConfig::NoOp.key_files().is_empty());
    assert!(cfg.durations_valid());
    let mut bad = JwtValidation::default();
    bad.leeway.nanos = 2_000_000_000;
    let odd = ExtractorConfig::Stacked {
        extractors: vec![ExtractorConfig::Jwt {
            realm: None,
            algo: JwtAlgorithm::Hs256,
            key: JwtKey::HmacSecret("c2VjcmV0".into()),
            validate: bad,
        }],
    };
    assert!(!odd.durations_valid());
}
