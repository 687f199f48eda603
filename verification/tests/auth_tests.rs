use jsonwebtoken::{encode, EncodingKey, Header};
use search::auth::{bearer_token, verify_credential};

const SECRET: &str = "supersecretkey";

fn make_token(secret: &str) -> String {
    let mut claims = serde_json::Map::new();
    // An expiry far in the future: the standard validation requires one.
    claims.insert("exp".to_string(), serde_json::Value::from(4102444800u64));
    encode(
        &Header::default(),
        &serde_json::Value::Object(claims),
        &EncodingKey::from_secret(secret.as_bytes()),
    )
    .unwrap()
}

#[test]
fn bearer_scheme_is_parsed() {
    assert_eq!(bearer_token(Some("Bearer abc.def.ghi")), Some("abc.def.ghi".to_string()));
    assert_eq!(bearer_token(Some("Bearer ")), Some("".to_string()));
}

#[test]
fn missing_or_malformed_scheme_carries_no_token() {
    assert_eq!(bearer_token(None), None);
    assert_eq!(bearer_token(Some("")), None);
    assert_eq!(bearer_token(Some("Basic abc")), None);
    assert_eq!(bearer_token(Some("bearer abc")), None);
    assert_eq!(bearer_token(Some("Bearerabc")), None);
    assert_eq!(bearer_token(Some("Bearer")), None);
}

#[test]
fn well_signed_token_is_accepted() {
    let header = format!("Bearer {}", make_token(SECRET));
    assert!(verify_credential(Some(&header), SECRET));
}

#[test]
fn token_signed_with_other_secret_is_rejected() {
    let header = format!("Bearer {}", make_token("some-other-key"));
    assert!(!verify_credential(Some(&header), SECRET));
}

#[test]
fn tampered_token_is_rejected() {
    let mut token = make_token(SECRET);
    // Flip a character of the signature part.
    let flipped = if token.ends_with('A') { 'B' } else { 'A' };
    token.pop();
    token.push(flipped);
    let header = format!("Bearer {}", token);
    assert!(!verify_credential(Some(&header), SECRET));
}

#[test]
fn garbage_token_is_rejected() {
    assert!(!verify_credential(Some("Bearer not-a-token"), SECRET));
}

#[test]
fn missing_header_is_rejected() {
    assert!(!verify_credential(None, SECRET));
}

#[test]
fn expired_token_is_rejected() {
    let mut claims = serde_json::Map::new();
    claims.insert("exp".to_string(), serde_json::Value::from(1000000u64));
    let token = encode(
        &Header::default(),
        &serde_json::Value::Object(claims),
        &EncodingKey::from_secret(SECRET.as_bytes()),
    )
    .unwrap();
    let header = format!("Bearer {}", token);
    assert!(!verify_credential(Some(&header), SECRET));
}
