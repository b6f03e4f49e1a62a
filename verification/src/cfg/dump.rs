//! Writing settings out as commented TOML: each value is serialized by the `toml` crate,
//! and a setting without a value is written as a commented-out line.
use serde::Serialize;
use toml::ser::Error as TomlError;
use vstd::prelude::*;
use vstd::string::*;

use super::jwt::{algorithm_name, is_symmetric, JwtKey, KeyView};

verus! {

#[verifier::external_type_specification]
#[verifier::external_body]
pub struct ExTomlError(TomlError);

/// The TOML text that `toml::ser::ValueSerializer` writes for a string.
pub uninterp spec fn toml_string(s: Seq<char>) -> Seq<char>;

/// Serializes a string with `toml::ser::ValueSerializer`, as a TOML value. For a string the
/// serializer only writes into its `String` buffer, which cannot fail, so it always succeeds.
#[verifier::external_body]
fn toml_str(s: &str) -> (r: Result<String, TomlError>)
    ensures
        r is Ok,
        r matches Ok(t) ==> t@ == toml_string(s@),
{
    let mut buffer = String::new();
    s.serialize(toml::ser::ValueSerializer::new(&mut buffer)).map(|written| written.clone())
}

/// Why settings could not be written.
#[derive(Clone, Copy, Debug, PartialEq, Eq, Structural)]
pub enum DumpError {
    /// The `toml` crate refused to serialize a value.
    Unserializable,
}

/// `name = <value>` on a line of its own.
pub open spec fn field_line(name: Seq<char>, value: Seq<char>) -> Seq<char> {
    name + " = "@ + value + "\n"@
}

/// `# name =`: a setting left unset.
pub open spec fn unset_line(name: Seq<char>) -> Seq<char> {
    "# "@ + name + " =\n"@
}

pub open spec fn optional_field(name: Seq<char>, value: Option<Seq<char>>) -> Seq<char> {
    match value {
        Some(v) => field_line(name, toml_string(v)),
        None => unset_line(name),
    }
}

fn lit(s: &str) -> (r: String)
    ensures
        r@ == s@,
{
    String::from_str(s)
}

/// The line of a string setting, its value in TOML. A string always serializes.
pub fn dump_field(name: &str, value: &str) -> (r: Result<String, DumpError>)
    ensures
        r matches Ok(t) && t@ == field_line(name@, toml_string(value@)),
{
    match toml_str(value) {
        Ok(v) => {
            let line = lit(name).concat(" = ").concat(v.as_str()).concat("\n");
            Ok(line)
        },
        Err(_) => Err(DumpError::Unserializable),
    }
}

/// The line of an optional string setting: commented out where it has no value.
pub fn dump_optional_field(name: &str, value: Option<&str>) -> (r: Result<String, DumpError>)
    ensures
        r matches Ok(t) ==> t@ == optional_field(name@, match value {
            Some(v) => Some(v@),
            None => None,
        }),
        r is Ok,
{
    match value {
        Some(v) => dump_field(name, v),
        None => {
            let line = lit("# ").concat(name).concat(" =\n");
            Ok(line)
        },
    }
}

pub open spec fn jwt_algorithm_doc() -> Seq<char> {
    "# JWT algorithm.\n"@ + "#\n"@
        + "# Supported values are HS256, HS384, HS512, RS256, RS384, RS512, ES256, ES384, PS256, PS384, PS512.\n"@
        + "# values in its `aud` claim. When absent, `aud` is not validated.\n"@
}

pub open spec fn jwt_secret_doc() -> Seq<char> {
    "\n"@ + "# Secret for JWT algorithm HS256, HS384 or HS512\n"@
}

pub open spec fn jwt_public_key_doc() -> Seq<char> {
    "\n"@ + "# Public key PEM for JWT algorithm RS256, RS384, RS512, ES256, ES384, PS256, PS384 or PS512\n"@
}

/// The commented TOML of a JWT key setting: its algorithm, then its secret, then its public
/// key, each commented out where the key has none.
pub open spec fn jwt_key_dump(key: Option<KeyView>) -> Seq<char> {
    jwt_algorithm_doc() + optional_field("algorithm"@, match key {
        Some(k) => Some(algorithm_name(k.algorithm)),
        None => None,
    }) + jwt_secret_doc() + optional_field("secret"@, match key {
        Some(k) => if is_symmetric(k.algorithm) { Some(k.material) } else { None },
        None => None,
    }) + jwt_public_key_doc() + optional_field("public_key_pem"@, match key {
        Some(k) => if is_symmetric(k.algorithm) { None } else { Some(k.material) },
        None => None,
    })
}

pub open spec fn key_view(key: Option<JwtKey>) -> Option<KeyView> {
    match key {
        Some(k) => Some(k@),
        None => None,
    }
}

/// Writes the JWT key settings as commented TOML.
pub fn dump_jwt_key(key: &Option<JwtKey>) -> (r: Result<String, DumpError>)
    ensures
        r matches Ok(t) ==> t@ == jwt_key_dump(key_view(*key)),
        r is Ok,
{
    let algorithm = match key {
        Some(k) => dump_optional_field("algorithm", Some(k.algorithm())),
        None => dump_optional_field("algorithm", None),
    };
    let algorithm = match algorithm {
        Ok(line) => line,
        Err(e) => return Err(e),
    };
    let secret = match key {
        Some(k) => dump_optional_field("secret", k.secret()),
        None => dump_optional_field("secret", None),
    };
    let secret = match secret {
        Ok(line) => line,
        Err(e) => return Err(e),
    };
    let public_key = match key {
        Some(k) => dump_optional_field("public_key_pem", k.public_key_pem()),
        None => dump_optional_field("public_key_pem", None),
    };
    let public_key = match public_key {
        Ok(line) => line,
        Err(e) => return Err(e),
    };
    let out = lit("# JWT algorithm.\n").concat("#\n").concat(
        "# Supported values are HS256, HS384, HS512, RS256, RS384, RS512, ES256, ES384, PS256, PS384, PS512.\n",
    ).concat("# values in its `aud` claim. When absent, `aud` is not validated.\n").concat(algorithm.as_str()).concat(
        "\n",
    ).concat("# Secret for JWT algorithm HS256, HS384 or HS512\n").concat(secret.as_str()).concat("\n").concat(
        "# Public key PEM for JWT algorithm RS256, RS384, RS512, ES256, ES384, PS256, PS384 or PS512\n",
    ).concat(public_key.as_str());
    Ok(out)
}

} // verus!
