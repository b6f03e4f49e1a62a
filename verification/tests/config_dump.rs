use diom::cfg::dump::{dump_field, dump_jwt_key, dump_optional_field};
use diom::cfg::jwt::JwtKey;

#[test]
fn fields_are_written_as_toml() {
    assert_eq!(dump_field("name", "diom").unwrap(), "name = \"diom\"\n");
    assert_eq!(dump_optional_field("secret", None).unwrap(), "# secret =\n");
    assert_eq!(dump_optional_field("secret", Some("x")).unwrap(), "secret = \"x\"\n");
}

#[test]
fn unset_jwt_key_is_commented_out() {
    let expected = "# JWT algorithm.\n#\n# Supported values are HS256, HS384, HS512, RS256, RS384, RS512, ES256, ES384, PS256, PS384, PS512.\n# values in its `aud` claim. When absent, `aud` is not validated.\n# algorithm =\n\n# Secret for JWT algorithm HS256, HS384 or HS512\n# secret =\n\n# Public key PEM for JWT algorithm RS256, RS384, RS512, ES256, ES384, PS256, PS384 or PS512\n# public_key_pem =\n";
    assert_eq!(dump_jwt_key(&None).unwrap(), expected);
}

#[test]
fn hmac_key_writes_its_secret() {
    let out = dump_jwt_key(&Some(JwtKey::Hs256 { secret: "abc".to_string() })).unwrap();
    assert!(out.contains("\nalgorithm = \"HS256\"\n"));
    assert!(out.contains("\nsecret = \"abc\"\n"));
    assert!(out.contains("\n# public_key_pem =\n"));
}

#[test]
fn public_key_writes_its_pem() {
    let out = dump_jwt_key(&Some(JwtKey::Es256 { public_key_pem: "PEM".to_string() })).unwrap();
    assert!(out.contains("\nalgorithm = \"ES256\"\n"));
    assert!(out.contains("\n# secret =\n"));
    assert!(out.contains("\npublic_key_pem = \"PEM\"\n"));
}
