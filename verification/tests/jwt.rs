use diom::auth::AuthError;
use diom::cfg::config::JwtConfig;
use diom::cfg::jwt::JwtKey;
use diom::jwt::{claims_from_json, claims_of_decoded, JwtKeyError, JwtVerifier};
use jsonwebtoken::{encode, EncodingKey, Header};
use serde_json::Value;

fn now_secs() -> u64 {
    std::time::SystemTime::now()
        .duration_since(std::time::UNIX_EPOCH)
        .unwrap()
        .as_secs()
}

fn hs256_config(secret: &str, audience: Option<Vec<String>>) -> JwtConfig {
    JwtConfig {
        key: Some(JwtKey::Hs256 { secret: secret.to_string() }),
        audience,
        issuer: None,
    }
}

fn token(secret: &str, claims: serde_json::Map<String, Value>) -> String {
    encode(
        &Header::default(),
        &Value::Object(claims),
        &EncodingKey::from_secret(secret.as_bytes()),
    )
    .unwrap()
}

fn claims(role: Option<&str>, exp: u64) -> serde_json::Map<String, Value> {
    let mut m = serde_json::Map::new();
    if let Some(r) = role {
        m.insert("role".to_string(), Value::String(r.to_string()));
    }
    m.insert("exp".to_string(), Value::from(exp));
    m
}

#[test]
fn no_key_means_no_verifier() {
    let cfg = JwtConfig { key: None, audience: None, issuer: None };
    assert!(matches!(JwtVerifier::try_new(&cfg), Ok(None)));
}

#[test]
fn unreadable_public_key_is_refused() {
    let cfg = JwtConfig {
        key: Some(JwtKey::Rs256 { public_key_pem: "not a pem".to_string() }),
        audience: None,
        issuer: None,
    };
    assert!(matches!(JwtVerifier::try_new(&cfg), Err(JwtKeyError::UnreadableKey)));
    let cfg = JwtConfig {
        key: Some(JwtKey::Es256 { public_key_pem: "-----BEGIN PUBLIC KEY-----\n-----END PUBLIC KEY-----\n".to_string() }),
        audience: None,
        issuer: None,
    };
    assert!(matches!(JwtVerifier::try_new(&cfg), Err(JwtKeyError::UnreadableKey)));
}

#[test]
fn verifies_signed_token_and_reads_claims() {
    let verifier = JwtVerifier::try_new(&hs256_config("s3cret", None)).unwrap().unwrap();
    let mut c = claims(Some("admin"), now_secs() + 3600);
    let mut ctx = serde_json::Map::new();
    ctx.insert("tenant".to_string(), Value::String("acme".to_string()));
    c.insert("context".to_string(), Value::Object(ctx));
    let got = verifier.verify(&token("s3cret", c)).unwrap();
    assert_eq!(got.role, "admin");
    assert_eq!(got.context, vec![("tenant".to_string(), "acme".to_string())]);
}

#[test]
fn wrong_signature_is_invalid_jwt() {
    let verifier = JwtVerifier::try_new(&hs256_config("s3cret", None)).unwrap().unwrap();
    let t = token("other", claims(Some("admin"), now_secs() + 3600));
    assert_eq!(verifier.verify(&t).err(), Some(AuthError::InvalidJwt));
}

#[test]
fn expired_token_is_invalid_jwt() {
    let verifier = JwtVerifier::try_new(&hs256_config("s3cret", None)).unwrap().unwrap();
    let t = token("s3cret", claims(Some("admin"), 1000));
    assert_eq!(verifier.verify(&t).err(), Some(AuthError::InvalidJwt));
}

#[test]
fn token_without_role_is_invalid_jwt() {
    let verifier = JwtVerifier::try_new(&hs256_config("s3cret", None)).unwrap().unwrap();
    let t = token("s3cret", claims(None, now_secs() + 3600));
    assert_eq!(verifier.verify(&t).err(), Some(AuthError::InvalidJwt));
}

#[test]
fn configured_audience_is_required() {
    let verifier =
        JwtVerifier::try_new(&hs256_config("s3cret", Some(vec!["svc".to_string()]))).unwrap().unwrap();
    let without = token("s3cret", claims(Some("admin"), now_secs() + 3600));
    assert_eq!(verifier.verify(&without).err(), Some(AuthError::InvalidJwt));
    let mut with = claims(Some("admin"), now_secs() + 3600);
    with.insert("aud".to_string(), Value::String("svc".to_string()));
    assert_eq!(verifier.verify(&token("s3cret", with)).unwrap().role, "admin");
    let mut other = claims(Some("admin"), now_secs() + 3600);
    other.insert("aud".to_string(), Value::String("elsewhere".to_string()));
    assert_eq!(verifier.verify(&token("s3cret", other)).err(), Some(AuthError::InvalidJwt));
}

#[test]
fn audience_ignored_when_not_configured() {
    let verifier = JwtVerifier::try_new(&hs256_config("s3cret", None)).unwrap().unwrap();
    let mut c = claims(Some("reader"), now_secs() + 3600);
    c.insert("aud".to_string(), Value::String("anyone".to_string()));
    assert_eq!(verifier.verify(&token("s3cret", c)).unwrap().role, "reader");
}

#[test]
fn claims_payload_shapes() {
    let c = claims_from_json(r#"{"role":"r","exp":1}"#).unwrap();
    assert_eq!(c.role, "r");
    assert!(c.context.is_empty());
    assert!(claims_from_json(r#"{"role":1}"#).is_none());
    assert!(claims_from_json(r#"{"context":{}}"#).is_none());
    assert!(claims_from_json(r#"{"role":"r","context":{"a":1}}"#).is_none());
    assert!(claims_from_json(r#"{"role":"r","context":null}"#).is_none());
    assert!(claims_from_json(r#"["role"]"#).is_none());
}

#[test]
fn undecoded_token_is_invalid_jwt() {
    assert_eq!(claims_of_decoded(None).err(), Some(AuthError::InvalidJwt));
    let ok = claims_of_decoded(Some(r#"{"role":"w"}"#.to_string())).unwrap();
    assert_eq!(ok.role, "w");
}
