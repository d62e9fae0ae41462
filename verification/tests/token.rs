use base64::Engine;

use apple_music_jwt::json::header_json;
use apple_music_jwt::json::payload_json;
use apple_music_jwt::validity_seconds;
use apple_music_jwt::Config;
use apple_music_jwt::Error;
use apple_music_jwt::{generate_token, generate_token_at};

fn test_key_pems() -> (Vec<u8>, Vec<u8>) {
    let group =
        openssl::ec::EcGroup::from_curve_name(openssl::nid::Nid::X9_62_PRIME256V1).unwrap();
    let key = openssl::ec::EcKey::generate(&group).unwrap();
    (
        key.private_key_to_pem().unwrap(),
        key.public_key_to_pem().unwrap(),
    )
}

fn config(team_id: &str, key_id: &str, expires_in: Option<u64>) -> Config {
    Config {
        team_id: team_id.to_string(),
        key_id: key_id.to_string(),
        expires_in,
        secret_file: String::new(),
    }
}

fn decode_segment(seg: &str) -> Vec<u8> {
    base64::engine::general_purpose::URL_SAFE_NO_PAD
        .decode(seg)
        .unwrap()
}

fn serde_header_text(key_id: &str) -> String {
    let mut map = serde_json::Map::new();
    map.insert(
        "alg".to_string(),
        serde_json::Value::String("ES256".to_string()),
    );
    map.insert(
        "kid".to_string(),
        serde_json::Value::String(key_id.to_string()),
    );
    serde_json::to_string(&serde_json::Value::Object(map)).unwrap()
}

#[test]
fn validity_default_is_exact() {
    assert_eq!(validity_seconds(&None), 13905000);
}

#[test]
fn validity_requested_is_exact() {
    let one_week = humantime::parse_duration("1w").unwrap().as_secs();
    assert_eq!(one_week, 604800);
    assert_eq!(validity_seconds(&Some(one_week)), 604800);
    let ninety_days = humantime::parse_duration("90d").unwrap().as_secs();
    assert_eq!(ninety_days, 7776000);
    assert_eq!(validity_seconds(&Some(ninety_days)), 7776000);
}

#[test]
fn header_text_is_exact() {
    let h = String::from_utf8(header_json("XYZ789")).unwrap();
    assert_eq!(h, "{\"alg\":\"ES256\",\"kid\":\"XYZ789\"}");
}

#[test]
fn header_text_empty_key_id() {
    let h = String::from_utf8(header_json("")).unwrap();
    assert_eq!(h, "{\"alg\":\"ES256\",\"kid\":\"\"}");
    assert_eq!(h, serde_header_text(""));
}

#[test]
fn header_text_unicode_key_id() {
    let kid = "clé-χ-☃";
    let h = String::from_utf8(header_json(kid)).unwrap();
    assert_eq!(h, serde_header_text(kid));
}

#[test]
fn header_text_escapes_like_serde() {
    let kid = "a\"b\\c\nd\te\u{8}f\u{c}g\rh\u{1}i\u{1f}j/";
    let h = String::from_utf8(header_json(kid)).unwrap();
    assert_eq!(h, serde_header_text(kid));
    assert!(h.contains("\\u0001"));
    assert!(h.contains("\\u001f"));
}

#[test]
fn payload_text_is_exact() {
    let p = String::from_utf8(payload_json("ABC123", 1000, 13906000)).unwrap();
    assert_eq!(p, "{\"exp\":13906000,\"iat\":1000,\"iss\":\"ABC123\"}");
}

#[test]
fn payload_text_negative_timestamp() {
    let p = String::from_utf8(payload_json("t", -5, 10)).unwrap();
    assert_eq!(p, "{\"exp\":10,\"iat\":-5,\"iss\":\"t\"}");
}

#[test]
fn payload_text_extreme_timestamps() {
    let p = String::from_utf8(payload_json("t", i64::MIN, i64::MAX)).unwrap();
    assert_eq!(
        p,
        "{\"exp\":9223372036854775807,\"iat\":-9223372036854775808,\"iss\":\"t\"}"
    );
}

#[test]
fn zero_duration_expires_at_issue_time() {
    let (pem, _) = test_key_pems();
    let cfg = config("ABC123", "XYZ789", Some(0));
    let token = generate_token_at(&cfg, &pem, 1_700_000_000).unwrap();
    let second = token.split('.').nth(1).unwrap();
    let payload: serde_json::Value = serde_json::from_slice(&decode_segment(second)).unwrap();
    assert_eq!(payload["iat"], payload["exp"]);
}

#[test]
fn token_has_three_base64url_segments() {
    let (pem, _) = test_key_pems();
    let cfg = config("ABC123", "XYZ789", None);
    let token = generate_token(&cfg, &pem).unwrap();
    let segments: Vec<&str> = token.split('.').collect();
    assert_eq!(segments.len(), 3);
    for seg in &segments {
        assert!(!seg.is_empty());
        assert!(seg
            .chars()
            .all(|c| c.is_ascii_alphanumeric() || c == '-' || c == '_'));
    }
}

#[test]
fn header_segment_decodes_exactly() {
    let (pem, _) = test_key_pems();
    let cfg = config("ABC123", "XYZ789", None);
    let token = generate_token(&cfg, &pem).unwrap();
    let first = token.split('.').next().unwrap();
    let decoded = decode_segment(first);
    assert_eq!(
        String::from_utf8(decoded).unwrap(),
        "{\"alg\":\"ES256\",\"kid\":\"XYZ789\"}"
    );
}

#[test]
fn payload_has_issuer_and_no_key_id() {
    let (pem, _) = test_key_pems();
    let cfg = config("ABC123", "XYZ789", None);
    let token = generate_token(&cfg, &pem).unwrap();
    let second = token.split('.').nth(1).unwrap();
    let payload: serde_json::Value = serde_json::from_slice(&decode_segment(second)).unwrap();
    assert_eq!(payload["iss"], serde_json::Value::String("ABC123".into()));
    assert!(payload.get("kid").is_none());
    let iat = payload["iat"].as_i64().unwrap();
    let exp = payload["exp"].as_i64().unwrap();
    assert!(iat > 1_600_000_000 && iat < 10_000_000_000_000);
    assert_eq!(exp - iat, 13905000);
}

#[test]
fn default_expiry_window_is_exact() {
    let (pem, _) = test_key_pems();
    let cfg = config("ABC123", "XYZ789", None);
    let token = generate_token_at(&cfg, &pem, 1_700_000_000).unwrap();
    let second = token.split('.').nth(1).unwrap();
    let payload: serde_json::Value = serde_json::from_slice(&decode_segment(second)).unwrap();
    assert_eq!(payload["iat"].as_i64().unwrap(), 1_700_000_000);
    assert_eq!(
        payload["exp"].as_i64().unwrap() - payload["iat"].as_i64().unwrap(),
        13905000
    );
}

#[test]
fn requested_expiry_window_is_exact() {
    let (pem, _) = test_key_pems();
    let ninety_days = humantime::parse_duration("90d").unwrap().as_secs();
    let cfg = config("ABC123", "XYZ789", Some(ninety_days));
    let token = generate_token_at(&cfg, &pem, 1_700_000_000).unwrap();
    let second = token.split('.').nth(1).unwrap();
    let payload: serde_json::Value = serde_json::from_slice(&decode_segment(second)).unwrap();
    assert_eq!(payload["exp"].as_i64().unwrap(), 1_700_000_000 + 7776000);
}

#[test]
fn structure_does_not_depend_on_time() {
    let (pem, _) = test_key_pems();
    let cfg = config("ABC123", "XYZ789", None);
    let t1 = generate_token_at(&cfg, &pem, 1_700_000_000).unwrap();
    let t2 = generate_token_at(&cfg, &pem, 1_800_000_000).unwrap();
    let seg1: Vec<&str> = t1.split('.').collect();
    let seg2: Vec<&str> = t2.split('.').collect();
    assert_eq!(seg1.len(), 3);
    assert_eq!(seg2.len(), 3);
    assert_eq!(seg1[0], seg2[0]);
    let p1: serde_json::Value = serde_json::from_slice(&decode_segment(seg1[1])).unwrap();
    let p2: serde_json::Value = serde_json::from_slice(&decode_segment(seg2[1])).unwrap();
    assert_eq!(p1["iss"], p2["iss"]);
    assert_ne!(p1["iat"], p2["iat"]);
}

#[test]
fn invalid_key_bytes_are_a_signing_error() {
    let cfg = config("ABC123", "XYZ789", None);
    let res = generate_token(&cfg, b"this is not a private key");
    assert!(matches!(res, Err(Error::JWTError(_))));
}

#[test]
fn error_messages_carry_the_cause() {
    let io = Error::IOError("no such file".to_string());
    assert_eq!(io.message(), "no such file");
    let jwt = Error::JWTError("bad key".to_string());
    assert_eq!(jwt.message(), "bad key");
}

#[test]
fn signature_verifies_under_the_public_key() {
    let (pem, public_pem) = test_key_pems();
    let cfg = config("ABC123", "XYZ789", None);
    let token = generate_token(&cfg, &pem).unwrap();
    let ok =
        frank_jwt::validate_signature(&token, &public_pem, frank_jwt::Algorithm::ES256).unwrap();
    assert!(ok);
}

#[test]
fn tampered_token_does_not_verify() {
    let (pem, public_pem) = test_key_pems();
    let cfg = config("ABC123", "XYZ789", None);
    let token = generate_token(&cfg, &pem).unwrap();
    let segments: Vec<&str> = token.split('.').collect();
    let mut payload_chars: Vec<char> = segments[1].chars().collect();
    payload_chars[4] = if payload_chars[4] == 'A' { 'B' } else { 'A' };
    let payload_seg: String = payload_chars.into_iter().collect();
    let tampered = format!("{}.{}.{}", segments[0], payload_seg, segments[2]);
    assert_ne!(token, tampered);
    let ok = frank_jwt::validate_signature(&tampered, &public_pem, frank_jwt::Algorithm::ES256)
        .unwrap();
    assert!(!ok);
}

#[test]
fn concrete_scenario_well_formed_jwt() {
    let (pem, public_pem) = test_key_pems();
    let cfg = config("ABC123", "XYZ789", None);
    let token = generate_token(&cfg, &pem).unwrap();
    let segments: Vec<&str> = token.split('.').collect();
    assert_eq!(segments.len(), 3);
    assert_eq!(
        String::from_utf8(decode_segment(segments[0])).unwrap(),
        "{\"alg\":\"ES256\",\"kid\":\"XYZ789\"}"
    );
    let payload: serde_json::Value = serde_json::from_slice(&decode_segment(segments[1])).unwrap();
    assert_eq!(payload["iss"], serde_json::Value::String("ABC123".into()));
    let ok =
        frank_jwt::validate_signature(&token, &public_pem, frank_jwt::Algorithm::ES256).unwrap();
    assert!(ok);
}
