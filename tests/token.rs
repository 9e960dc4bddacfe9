use base64::Engine;
use musickit_token::cache::TokenCache;
use musickit_token::commands::{get_developer_token, is_musickit_configured, refresh_developer_token};
use musickit_token::config::{EnvVars, MusicKitConfig};
use musickit_token::error::TokenError;
use musickit_token::json::{append_decimal, append_quoted};
use musickit_token::token::{issue_time, generate_demo_token, generate_developer_token, header_json, signing_input, Claims, TOKEN_LIFETIME_SECS};
use p256::ecdsa::signature::Verifier;
use p256::pkcs8::EncodePrivateKey;

const DEMO: &str = "DEMO_TOKEN_REPLACE_WITH_REAL_TOKEN";

fn signing_key() -> p256::ecdsa::SigningKey {
    p256::ecdsa::SigningKey::from_slice(&[7u8; 32]).unwrap()
}

fn valid_pem() -> String {
    signing_key().to_pkcs8_pem(p256::pkcs8::LineEnding::LF).unwrap().to_string()
}

fn env(team: Option<&str>, key: Option<&str>, path: Option<&str>, content: Option<&str>) -> EnvVars {
    EnvVars {
        team_id: team.map(|s| s.to_string()),
        key_id: key.map(|s| s.to_string()),
        private_key_path: path.map(|s| s.to_string()),
        private_key_content: content.map(|s| s.to_string()),
    }
}

fn empty_env() -> EnvVars {
    env(None, None, None, None)
}

fn decode(segment: &str) -> String {
    let bytes = base64::engine::general_purpose::URL_SAFE_NO_PAD.decode(segment).unwrap();
    String::from_utf8(bytes).unwrap()
}

fn config_missing(r: Result<MusicKitConfig, TokenError>) -> String {
    match r {
        Err(TokenError::ConfigMissing(f)) => f,
        other => panic!("expected a missing field, got {:?}", other),
    }
}

#[test]
fn test_claims_serialization() {
    let claims = Claims { iss: "TEAM123".to_string(), iat: 1234567890, exp: 1234567890 + 86400 };
    let json = claims.to_json();
    assert!(json.contains("TEAM123"));
}

#[test]
fn claims_json_is_exact() {
    let claims = Claims { iss: "TEAM123".to_string(), iat: 1234567890, exp: 1234567890 + 86400 };
    assert_eq!(claims.to_json(), r#"{"iss":"TEAM123","iat":1234567890,"exp":1234654290}"#);
}

#[test]
fn claims_new_spans_180_days() {
    let claims = Claims::new("ABC123", 1_700_000_000);
    assert_eq!(claims.iss, "ABC123");
    assert_eq!(claims.iat, 1_700_000_000);
    assert_eq!(claims.exp - claims.iat, 180 * 24 * 60 * 60);
    assert_eq!(TOKEN_LIFETIME_SECS, 15_552_000);
}

#[test]
fn header_json_is_exact() {
    assert_eq!(header_json("KEY1"), r#"{"alg":"ES256","kid":"KEY1"}"#);
}

#[test]
fn quoting_escapes_specials() {
    let mut out = String::from("x=");
    append_quoted(&mut out, "a\"b\\c\nd\u{1}é");
    assert_eq!(out, "x=\"a\\\"b\\\\c\\u000ad\\u0001é\"");
}

#[test]
fn decimals_cover_sign_and_extremes() {
    let mut out = String::new();
    append_decimal(&mut out, 0);
    out.push(' ');
    append_decimal(&mut out, -42);
    out.push(' ');
    append_decimal(&mut out, i64::MAX);
    out.push(' ');
    append_decimal(&mut out, i64::MIN);
    assert_eq!(out, "0 -42 9223372036854775807 -9223372036854775808");
}

#[test]
fn signing_input_encodes_both_parts() {
    let input = signing_input("KEY1", "ABC123", 100);
    let parts: Vec<&str> = input.split('.').collect();
    assert_eq!(parts.len(), 2);
    assert_eq!(decode(parts[0]), r#"{"alg":"ES256","kid":"KEY1"}"#);
    assert_eq!(decode(parts[1]), r#"{"iss":"ABC123","iat":100,"exp":15552100}"#);
}

#[test]
fn demo_token_is_constant() {
    assert_eq!(generate_demo_token(), DEMO);
    assert_eq!(generate_demo_token(), generate_demo_token());
}

#[test]
fn from_env_reports_first_missing_field() {
    assert_eq!(config_missing(MusicKitConfig::from_env(&empty_env())), "APPLE_TEAM_ID");
    assert_eq!(config_missing(MusicKitConfig::from_env(&env(Some("T"), None, Some("p"), None))), "APPLE_KEY_ID");
    assert_eq!(
        config_missing(MusicKitConfig::from_env(&env(Some("T"), Some("K"), None, None))),
        "APPLE_PRIVATE_KEY_PATH or APPLE_PRIVATE_KEY"
    );
}

#[test]
fn from_env_keeps_values() {
    let c = MusicKitConfig::from_env(&env(Some("T"), Some("K"), Some("/k.p8"), Some("pem"))).unwrap();
    assert_eq!(c.team_id, "T");
    assert_eq!(c.key_id, "K");
    assert_eq!(c.private_key_path.as_deref(), Some("/k.p8"));
    assert_eq!(c.private_key_content.as_deref(), Some("pem"));
    assert_eq!(c.key_file_path(), None);
}

#[test]
fn configured_needs_ids_and_a_key_source() {
    assert!(!is_musickit_configured(&empty_env()));
    assert!(!is_musickit_configured(&env(Some("T"), Some("K"), None, None)));
    assert!(is_musickit_configured(&env(Some("T"), Some("K"), Some("/missing.p8"), None)));
    assert!(is_musickit_configured(&env(Some("T"), Some("K"), None, Some("not a pem"))));
}

#[test]
fn private_key_prefers_inline_content() {
    let c = MusicKitConfig::from_env(&env(Some("T"), Some("K"), Some("/k.p8"), Some("inline"))).unwrap();
    assert_eq!(c.get_private_key(Some(Ok("file".to_string()))).unwrap(), "inline");
}

#[test]
fn private_key_from_file() {
    let c = MusicKitConfig::from_env(&env(Some("T"), Some("K"), Some("/k.p8"), None)).unwrap();
    assert_eq!(c.key_file_path().as_deref(), Some("/k.p8"));
    assert_eq!(c.get_private_key(Some(Ok("file".to_string()))).unwrap(), "file");
    match c.get_private_key(Some(Err("denied".to_string()))) {
        Err(TokenError::KeyReadError(m)) => assert_eq!(m, "denied"),
        other => panic!("unexpected {:?}", other),
    }
    match c.get_private_key(None) {
        Err(TokenError::KeyNotFound(p)) => assert_eq!(p, "/k.p8"),
        other => panic!("unexpected {:?}", other),
    }
}

#[test]
fn private_key_missing_entirely() {
    let c = MusicKitConfig {
        team_id: "T".to_string(),
        key_id: "K".to_string(),
        private_key_path: None,
        private_key_content: None,
    };
    match c.get_private_key(None) {
        Err(TokenError::ConfigMissing(f)) => assert_eq!(f, "Private key"),
        other => panic!("unexpected {:?}", other),
    }
}

#[test]
fn invalid_pem_is_rejected() {
    let c = MusicKitConfig::from_env(&env(Some("T"), Some("K"), None, Some("not a pem"))).unwrap();
    assert!(matches!(generate_developer_token(&c, None), Err(TokenError::InvalidKey(_))));
}

#[test]
fn unconfigured_environment_gets_placeholder() {
    let mut cache = TokenCache::new();
    assert_eq!(get_developer_token(&mut cache, &empty_env(), None), DEMO);
    assert!(!is_musickit_configured(&empty_env()));
    assert_eq!(cache.cached().as_deref(), Some(DEMO));
}

#[test]
fn get_is_idempotent() {
    let mut cache = TokenCache::new();
    let first = get_developer_token(&mut cache, &empty_env(), None);
    let good = env(Some("ABC123"), Some("KEY1"), None, Some(&valid_pem()));
    let second = get_developer_token(&mut cache, &good, None);
    assert_eq!(first, second);
}

#[test]
fn valid_key_signs_a_token() {
    let mut cache = TokenCache::new();
    let good = env(Some("ABC123"), Some("KEY1"), None, Some(&valid_pem()));
    let token = refresh_developer_token(&mut cache, &good, None).unwrap();
    let parts: Vec<&str> = token.split('.').collect();
    assert_eq!(parts.len(), 3);
    assert_eq!(decode(parts[0]), r#"{"alg":"ES256","kid":"KEY1"}"#);
    let claims = decode(parts[1]);
    assert!(claims.contains("\"iss\":\"ABC123\""));
    let iat: i64 = claims.split("\"iat\":").nth(1).unwrap().split(',').next().unwrap().parse().unwrap();
    let exp: i64 = claims.split("\"exp\":").nth(1).unwrap().trim_end_matches('}').parse().unwrap();
    assert_eq!(exp - iat, 15_552_000);
    let now = std::time::SystemTime::now().duration_since(std::time::UNIX_EPOCH).unwrap().as_secs() as i64;
    assert!((iat - now).abs() <= 5);
    let sig_bytes = base64::engine::general_purpose::URL_SAFE_NO_PAD.decode(parts[2]).unwrap();
    let sig = p256::ecdsa::Signature::from_slice(&sig_bytes).unwrap();
    let message = format!("{}.{}", parts[0], parts[1]);
    assert!(signing_key().verifying_key().verify(message.as_bytes(), &sig).is_ok());
}

#[test]
fn refresh_failure_keeps_cache() {
    let mut cache = TokenCache::new();
    let cached = get_developer_token(&mut cache, &empty_env(), None);
    let r = refresh_developer_token(&mut cache, &empty_env(), None);
    match r {
        Err(e) => {
            assert_eq!(e.refresh_message(), "Configuration error: Configuration missing: APPLE_TEAM_ID");
        }
        Ok(_) => panic!("refresh should fail"),
    }
    assert_eq!(cache.cached(), Some(cached));
}

#[test]
fn refresh_success_replaces_cache() {
    let mut cache = TokenCache::new();
    assert_eq!(get_developer_token(&mut cache, &empty_env(), None), DEMO);
    let good = env(Some("ABC123"), Some("KEY1"), None, Some(&valid_pem()));
    let fresh = refresh_developer_token(&mut cache, &good, None).unwrap();
    assert_ne!(fresh, DEMO);
    assert_eq!(get_developer_token(&mut cache, &empty_env(), None), fresh);
}

#[test]
fn unreadable_key_file_falls_back() {
    let mut cache = TokenCache::new();
    let e = env(Some("T"), Some("K"), Some("/k.p8"), None);
    match refresh_developer_token(&mut cache, &e, Some(Err("No such file".to_string()))) {
        Err(err) => assert_eq!(err.refresh_message(), "Failed to generate token: Failed to read private key: No such file"),
        Ok(_) => panic!("refresh should fail"),
    }
    assert_eq!(cache.cached(), None);
    assert_eq!(get_developer_token(&mut cache, &e, Some(Err("No such file".to_string()))), DEMO);
}

#[test]
fn error_messages() {
    assert_eq!(TokenError::KeyNotFound("p".to_string()).message(), "Private key file not found: p");
    assert_eq!(TokenError::InvalidKey("x".to_string()).message(), "Invalid private key format: x");
    assert_eq!(TokenError::EncodingError("y".to_string()).message(), "JWT encoding failed: y");
}

#[test]
fn finish_token_joins_or_reports() {
    let ok = musickit_token::token::finish_token("aa.bb".to_string(), Ok("sig".to_string()));
    assert_eq!(ok.unwrap(), "aa.bb.sig");
    match musickit_token::token::finish_token("aa.bb".to_string(), Err("boom".to_string())) {
        Err(TokenError::EncodingError(m)) => assert_eq!(m, "boom"),
        other => panic!("unexpected {:?}", other),
    }
}

#[test]
fn token_segments_are_non_empty_and_signature_is_86_chars() {
    let c = MusicKitConfig::from_env(&env(Some("ABC123"), Some("KEY1"), None, Some(&valid_pem()))).unwrap();
    let token = generate_developer_token(&c, None).unwrap();
    let parts: Vec<&str> = token.split('.').collect();
    assert_eq!(parts.len(), 3);
    assert!(!parts[0].is_empty());
    assert!(!parts[1].is_empty());
    assert_eq!(parts[2].len(), 86);
}

#[test]
fn inline_key_wins_over_unreadable_path() {
    let c = MusicKitConfig::from_env(&env(Some("ABC123"), Some("KEY1"), Some("/missing.p8"), Some(&valid_pem()))).unwrap();
    assert_eq!(c.key_file_path(), None);
    let token = generate_developer_token(&c, Some(Err("No such file".to_string()))).unwrap();
    let parts: Vec<&str> = token.split('.').collect();
    let sig_bytes = base64::engine::general_purpose::URL_SAFE_NO_PAD.decode(parts[2]).unwrap();
    let sig = p256::ecdsa::Signature::from_slice(&sig_bytes).unwrap();
    let message = format!("{}.{}", parts[0], parts[1]);
    assert!(signing_key().verifying_key().verify(message.as_bytes(), &sig).is_ok());
}

#[test]
fn issue_time_out_of_range_is_an_encoding_error() {
    let c = MusicKitConfig::from_env(&env(Some("ABC123"), Some("KEY1"), None, Some("unused"))).unwrap();
    let der = signing_key().to_pkcs8_der().unwrap();
    let key = jsonwebtoken::EncodingKey::from_ec_der(der.as_bytes());
    match musickit_token::token::build_token(&c, &key, i64::MAX - 10) {
        Err(TokenError::EncodingError(m)) => assert_eq!(m, "issue time out of range"),
        other => panic!("unexpected {:?}", other),
    }
    let ok = musickit_token::token::build_token(&c, &key, 1_000).unwrap();
    let parts: Vec<&str> = ok.split('.').collect();
    assert_eq!(decode(parts[1]), r#"{"iss":"ABC123","iat":1000,"exp":15553000}"#);
}

#[test]
fn issue_time_follows_the_clock_either_side_of_the_epoch() {
    assert_eq!(issue_time(Ok(1_700_000_000)), Some(1_700_000_000));
    assert_eq!(issue_time(Err(3_600)), Some(-3_600));
    assert_eq!(issue_time(Ok(0)), Some(0));
    assert_eq!(issue_time(Ok(i64::MAX as u64)), Some(i64::MAX));
    assert_eq!(issue_time(Err(i64::MAX as u64)), Some(-i64::MAX));
    assert_eq!(issue_time(Ok(i64::MAX as u64 + 1)), None);
    assert_eq!(issue_time(Err(u64::MAX)), None);
}
