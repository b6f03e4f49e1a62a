//! Verification of JWT bearer tokens with `jsonwebtoken`: the verifier is built once from
//! the configuration, and each token's claims are read back through serde_json.
use jsonwebtoken::errors::Error as JwtError;
use jsonwebtoken::{Algorithm, DecodingKey, Validation};
use vstd::prelude::*;
use vstd::string::*;
use vstd::utf8::encode_utf8;

use crate::auth::AuthError;
use crate::bootstrap::payload::{
    context_of, decode_context, decode_required_string, member, object_members, parse_object, required_string, text_value,
};
use crate::json::{json_document, JsonValueView};
use crate::cfg::config::JwtConfig;
use crate::cfg::jwt::{jwt_validation_plan, key_encoding, string_views, strings_view, JwtAlgorithm, KeyEncoding, KeyView};

verus! {

#[verifier::external_type_specification]
#[verifier::external_body]
pub struct ExDecodingKey(DecodingKey);

#[verifier::external_type_specification]
#[verifier::external_body]
pub struct ExValidation(Validation);

#[verifier::external_type_specification]
#[verifier::external_body]
pub struct ExJwtError(JwtError);

/// Whether `DecodingKey::from_rsa_pem` reads these bytes as an RSA public key.
pub uninterp spec fn rsa_pem_readable(pem: Seq<u8>) -> bool;

/// Whether `DecodingKey::from_ec_pem` reads these bytes as an elliptic-curve public key.
pub uninterp spec fn ec_pem_readable(pem: Seq<u8>) -> bool;

/// The claims part of a token as `jsonwebtoken::decode` reads it (base64url, then JSON),
/// written back as compact JSON by serde_json; `None` where it cannot be read.
pub uninterp spec fn token_payload_text(token: Seq<char>) -> Option<Seq<char>>;

/// Whether a token's header names `algorithm` and its signature verifies, under that
/// algorithm, with the key made of `key_bytes` read as `encoding`.
pub uninterp spec fn token_signature_valid(token: Seq<char>, encoding: KeyEncoding, key_bytes: Seq<u8>, algorithm: JwtAlgorithm) -> bool;

/// What a decoding key was made of.
pub struct KeySource {
    pub encoding: KeyEncoding,
    pub bytes: Seq<u8>,
}

/// A jsonwebtoken decoding key, with what it was made of.
pub struct JwtDecodingKey {
    key: DecodingKey,
    source: Ghost<KeySource>,
}

impl JwtDecodingKey {
    pub closed spec fn source(&self) -> KeySource {
        self.source@
    }
}

/// `DecodingKey::from_secret`: a key holding the shared secret; it cannot fail.
#[verifier::external_body]
fn key_from_secret(secret: &[u8]) -> (k: JwtDecodingKey)
    ensures
        k.source() == (KeySource { encoding: KeyEncoding::Secret, bytes: secret@ }),
{
    JwtDecodingKey { key: DecodingKey::from_secret(secret), source: Ghost(KeySource { encoding: KeyEncoding::Secret, bytes: secret@ }) }
}

/// `DecodingKey::from_rsa_pem`: fails where the PEM holds no RSA public key. Which texts
/// those are is jsonwebtoken's parsing, named here and not restated.
#[verifier::external_body]
fn key_from_rsa_pem(pem: &[u8]) -> (r: Result<JwtDecodingKey, JwtError>)
    ensures
        r is Ok <==> rsa_pem_readable(pem@),
        r matches Ok(k) ==> k.source() == (KeySource { encoding: KeyEncoding::RsaPem, bytes: pem@ }),
{
    match DecodingKey::from_rsa_pem(pem) {
        Ok(key) => Ok(JwtDecodingKey { key, source: Ghost(KeySource { encoding: KeyEncoding::RsaPem, bytes: pem@ }) }),
        Err(e) => Err(e),
    }
}

/// `DecodingKey::from_ec_pem`: fails where the PEM holds no elliptic-curve public key.
#[verifier::external_body]
fn key_from_ec_pem(pem: &[u8]) -> (r: Result<JwtDecodingKey, JwtError>)
    ensures
        r is Ok <==> ec_pem_readable(pem@),
        r matches Ok(k) ==> k.source() == (KeySource { encoding: KeyEncoding::EcPem, bytes: pem@ }),
{
    match DecodingKey::from_ec_pem(pem) {
        Ok(key) => Ok(JwtDecodingKey { key, source: Ghost(KeySource { encoding: KeyEncoding::EcPem, bytes: pem@ }) }),
        Err(e) => Err(e),
    }
}

/// The checks of a jsonwebtoken `Validation` that this library sets: the one accepted
/// algorithm, whether a present `nbf` and `aud` are checked, the accepted audiences and
/// issuers, and the claims a token must carry. (`exp` is always checked, with 60 seconds of
/// leeway; the library never changes that.)
pub struct ValidationModel {
    pub algorithm: JwtAlgorithm,
    pub validate_nbf: bool,
    pub validate_aud: bool,
    pub audience: Option<Set<Seq<char>>>,
    pub issuer: Option<Set<Seq<char>>>,
    pub required_claims: Set<Seq<char>>,
}

/// A jsonwebtoken `Validation`, with the checks it holds.
pub struct JwtValidation {
    inner: Validation,
    model: Ghost<ValidationModel>,
}

impl JwtValidation {
    pub closed spec fn model(&self) -> ValidationModel {
        self.model@
    }
}

/// What `Validation::new` sets up: the one algorithm, `exp` required, `nbf` not checked,
/// `aud` checked, no audiences or issuers.
pub open spec fn validation_defaults(algorithm: JwtAlgorithm) -> ValidationModel {
    ValidationModel {
        algorithm,
        validate_nbf: false,
        validate_aud: true,
        audience: None,
        issuer: None,
        required_claims: set!["exp"@],
    }
}

/// `Validation::new`, for the one given algorithm.
#[verifier::external_body]
fn validation_for(algorithm: JwtAlgorithm) -> (v: JwtValidation)
    ensures
        v.model() == validation_defaults(algorithm),
{
    let alg = match algorithm {
        JwtAlgorithm::Hs256 => Algorithm::HS256, JwtAlgorithm::Hs384 => Algorithm::HS384,
        JwtAlgorithm::Hs512 => Algorithm::HS512, JwtAlgorithm::Rs256 => Algorithm::RS256,
        JwtAlgorithm::Rs384 => Algorithm::RS384, JwtAlgorithm::Rs512 => Algorithm::RS512,
        JwtAlgorithm::Es256 => Algorithm::ES256, JwtAlgorithm::Es384 => Algorithm::ES384,
        JwtAlgorithm::Ps256 => Algorithm::PS256, JwtAlgorithm::Ps384 => Algorithm::PS384,
        JwtAlgorithm::Ps512 => Algorithm::PS512,
    };
    JwtValidation { inner: Validation::new(alg), model: Ghost(validation_defaults(algorithm)) }
}

/// Sets `Validation::validate_nbf`: whether a present `nbf` claim is checked.
#[verifier::external_body]
fn set_validate_nbf(validation: &mut JwtValidation, on: bool)
    ensures
        final(validation).model() == (ValidationModel { validate_nbf: on, ..old(validation).model() }),
{
    validation.inner.validate_nbf = on;
}

/// Sets `Validation::validate_aud`: whether a present `aud` claim is checked.
#[verifier::external_body]
fn set_validate_aud(validation: &mut JwtValidation, on: bool)
    ensures
        final(validation).model() == (ValidationModel { validate_aud: on, ..old(validation).model() }),
{
    validation.inner.validate_aud = on;
}

/// `Validation::set_audience`: the accepted `aud` values (as a set).
#[verifier::external_body]
fn set_audience(validation: &mut JwtValidation, audience: &Vec<String>)
    ensures
        final(validation).model() == (ValidationModel {
            audience: Some(string_views(audience@).to_set()),
            ..old(validation).model()
        }),
{
    validation.inner.set_audience(audience);
}

/// `Validation::set_issuer`: the accepted `iss` values (as a set).
#[verifier::external_body]
fn set_issuer(validation: &mut JwtValidation, issuer: &Vec<String>)
    ensures
        final(validation).model() == (ValidationModel {
            issuer: Some(string_views(issuer@).to_set()),
            ..old(validation).model()
        }),
{
    validation.inner.set_issuer(issuer);
}

/// Adds a claim to `Validation::required_spec_claims`: tokens without it are refused.
#[verifier::external_body]
fn require_claim(validation: &mut JwtValidation, claim: &str)
    ensures
        final(validation).model() == (ValidationModel {
            required_claims: old(validation).model().required_claims.insert(claim@),
            ..old(validation).model()
        }),
{
    validation.inner.required_spec_claims.insert(claim.to_string());
}

/// The value of a claim in a payload's members that jsonwebtoken counts as present: a member
/// of that name whose value is not `null`.
pub open spec fn claim_present(m: Seq<(Seq<char>, Seq<char>)>, name: Seq<char>) -> bool {
    member(m, name) matches Some(t) && json_document(t) != Some(JsonValueView::Null)
}

/// What a payload that passed jsonwebtoken's checks satisfies whatever the clock said: each
/// required claim is present; a single-string `iss` is an accepted issuer where issuers are
/// set; and, where `aud` is checked, a single-string `aud` is an accepted audience (so
/// audiences must be set for it to pass).
pub open spec fn claims_pass(text: Seq<char>, v: ValidationModel) -> bool {
    match object_members(text) {
        Some(m) => {
            &&& forall|c: Seq<char>|
                #[trigger] v.required_claims.contains(c) && (c == "exp"@ || c == "nbf"@ || c == "sub"@ || c == "iss"@
                    || c == "aud"@) ==> claim_present(m, c)
            &&& match (v.issuer, string_member(m, "iss"@)) {
                (Some(accepted), Some(s)) => accepted.contains(s),
                _ => true,
            }
            &&& match (v.validate_aud, string_member(m, "aud"@)) {
                (true, Some(s)) => match v.audience {
                    Some(accepted) => accepted.contains(s),
                    None => false,
                },
                _ => true,
            }
        },
        None => true,
    }
}

/// The string a member holds, where it is a JSON string.
pub open spec fn string_member(m: Seq<(Seq<char>, Seq<char>)>, name: Seq<char>) -> Option<Seq<char>> {
    match member(m, name) {
        Some(t) => text_value(t),
        None => None,
    }
}

/// `jsonwebtoken::decode` into a `serde_json::Value`, handed back as its JSON text. Whether
/// it succeeds depends on the clock (`exp`, `nbf`) as well as on its arguments, so only
/// what holds of any success is stated: the text is the token's payload, the signature
/// verifies with this key under the validation's algorithm, and the payload passes the
/// validation's claim checks.
#[verifier::external_body]
fn decode_token(token: &str, key: &JwtDecodingKey, validation: &JwtValidation) -> (r: Result<String, JwtError>)
    ensures
        r matches Ok(text) ==> token_payload_text(token@) == Some(text@),
        r matches Ok(text) ==> token_signature_valid(token@, key.source().encoding, key.source().bytes, validation.model().algorithm),
        r matches Ok(text) ==> claims_pass(text@, validation.model()),
{
    jsonwebtoken::decode::<serde_json::Value>(token, &key.key, &validation.inner).map(|data| data.claims.to_string())
}

/// Whether the configured key material can be read for its algorithm: a secret always,
/// a PEM where jsonwebtoken reads it as a key of the algorithm's family.
pub open spec fn key_readable(k: KeyView) -> bool {
    match key_encoding(k.algorithm) {
        KeyEncoding::Secret => true,
        KeyEncoding::RsaPem => rsa_pem_readable(encode_utf8(k.material)),
        KeyEncoding::EcPem => ec_pem_readable(encode_utf8(k.material)),
    }
}

pub open spec fn string_set(s: Option<Seq<Seq<char>>>) -> Option<Set<Seq<char>>> {
    match s {
        Some(v) => Some(v.to_set()),
        None => None,
    }
}

/// The checks configured for a key: `exp` as always; `nbf` wherever present; `aud` only
/// where audiences are configured, and then required; `iss` required and checked where
/// issuers are configured.
pub open spec fn settings_for(algorithm: JwtAlgorithm, audience: Option<Seq<Seq<char>>>, issuer: Option<Seq<Seq<char>>>) -> ValidationModel {
    ValidationModel {
        algorithm,
        validate_nbf: true,
        validate_aud: audience is Some,
        audience: string_set(audience),
        issuer: string_set(issuer),
        required_claims: set!["exp"@].union(if audience is Some {
            set!["aud"@]
        } else {
            Set::empty()
        }).union(if issuer is Some {
            set!["iss"@]
        } else {
            Set::empty()
        }),
    }
}

/// Why no verifier could be built.
#[derive(Clone, Copy, Debug, PartialEq, Eq, Structural)]
pub enum JwtKeyError {
    /// The configured public key is not a PEM key of the algorithm's family.
    UnreadableKey,
}

/// A key and the checks that tokens must pass, built once from the configuration.
pub struct JwtVerifier {
    key: JwtDecodingKey,
    validation: JwtValidation,
}

impl JwtVerifier {
    /// What the verifier's key was made of.
    pub closed spec fn key_source(&self) -> KeySource {
        self.key.source()
    }

    /// The checks that this verifier's validation holds.
    pub closed spec fn checks(&self) -> ValidationModel {
        self.validation.model()
    }

    /// The verifier of a configuration: none where no key is configured, an error where the
    /// key is a PEM that cannot be read, else a verifier holding the key made of the
    /// configured material and the configured checks.
    pub fn try_new(cfg: &JwtConfig) -> (r: Result<Option<JwtVerifier>, JwtKeyError>)
        ensures
            cfg.key is None ==> r matches Ok(None),
            cfg.key matches Some(k) ==> (r is Err <==> !key_readable(k@)),
            r matches Err(e) ==> e == JwtKeyError::UnreadableKey,
            match cfg.key {
                Some(k) => key_readable(k@) ==> (r matches Ok(Some(v)) && {
                    &&& v.key_source() == (KeySource {
                        encoding: key_encoding(k@.algorithm),
                        bytes: encode_utf8(k@.material),
                    })
                    &&& v.checks() == settings_for(k@.algorithm, strings_view(cfg.audience), strings_view(cfg.issuer))
                }),
                None => true,
            },
    {
        let plan = match jwt_validation_plan(&cfg.key, &cfg.audience, &cfg.issuer) {
            Some(p) => p,
            None => return Ok(None),
        };
        let material = plan.key_material.as_str().as_bytes();
        let key = match plan.encoding {
            KeyEncoding::Secret => key_from_secret(material),
            KeyEncoding::RsaPem => match key_from_rsa_pem(material) {
                Ok(k) => k,
                Err(_) => return Err(JwtKeyError::UnreadableKey),
            },
            KeyEncoding::EcPem => match key_from_ec_pem(material) {
                Ok(k) => k,
                Err(_) => return Err(JwtKeyError::UnreadableKey),
            },
        };
        let mut validation = validation_for(plan.algorithm);
        set_validate_nbf(&mut validation, plan.validate_nbf);
        match &plan.audience {
            Some(aud) => {
                set_audience(&mut validation, aud);
                require_claim(&mut validation, "aud");
            },
            None => set_validate_aud(&mut validation, false),
        }
        match &plan.issuer {
            Some(iss) => {
                set_issuer(&mut validation, iss);
                require_claim(&mut validation, "iss");
            },
            None => {},
        }
        proof {
            let target = settings_for(plan.algorithm, strings_view(plan.audience), strings_view(plan.issuer));
            assert(validation.model().required_claims =~= target.required_claims);
        }
        Ok(Some(JwtVerifier { key, validation }))
    }

    /// The claims of a token that passes the configured checks; any failure, of the
    /// signature, of a claim or of the claims' shape, is `InvalidJwt`. A token that passes is
    /// signed with this verifier's key under its algorithm, its payload passes its claim
    /// checks, and the claims are read from that payload.
    pub fn verify(&self, token: &str) -> (r: Result<JwtClaims, AuthError>)
        ensures
            r matches Err(e) ==> e == AuthError::InvalidJwt,
            r matches Ok(c) ==> {
                &&& token_signature_valid(token@, self.key_source().encoding, self.key_source().bytes, self.checks().algorithm)
                &&& token_payload_text(token@) matches Some(text)
                &&& claims_pass(text, self.checks())
                &&& jwt_claims(text) == Some(c@)
            },
    {
        let decoded = match decode_token(token, &self.key, &self.validation) {
            Ok(text) => Some(text),
            Err(_) => None,
        };
        claims_of_decoded(decoded)
    }
}

/// A verified token's claims: its role, and the context handed to internal handlers.
#[derive(Debug)]
pub struct JwtClaims {
    pub role: String,
    pub context: Vec<(String, String)>,
}

pub struct ClaimsView {
    pub role: Seq<char>,
    pub context: Seq<(Seq<char>, Seq<char>)>,
}

impl View for JwtClaims {
    type V = ClaimsView;

    open spec fn view(&self) -> ClaimsView {
        ClaimsView {
            role: self.role@,
            context: self.context@.map_values(|p: (String, String)| (p.0@, p.1@)),
        }
    }
}

/// The claims in a token's JSON payload: an object with a string `role`, and an optional
/// `context` object whose values are strings (absent means empty). Other claims are
/// ignored.
pub open spec fn jwt_claims(text: Seq<char>) -> Option<ClaimsView> {
    match object_members(text) {
        Some(m) => match (required_string(m, "role"@), context_of(m)) {
            (Some(role), Some(context)) => Some(ClaimsView { role, context }),
            _ => None,
        },
        None => None,
    }
}

/// Reads the claims out of a token's JSON payload.
pub fn claims_from_json(text: &str) -> (r: Option<JwtClaims>)
    ensures
        r matches Some(c) ==> jwt_claims(text@) == Some(c@),
        r is None ==> jwt_claims(text@) is None,
{
    let m = match parse_object(text) {
        Some(m) => m,
        None => return None,
    };
    let role = match decode_required_string(&m, "role") {
        Some(r) => r,
        None => return None,
    };
    let context = match decode_context(&m) {
        Some(c) => c,
        None => return None,
    };
    Some(JwtClaims { role, context })
}

/// What becomes of jsonwebtoken's answer: no payload (the token did not pass), or a
/// payload without the expected claims, is `InvalidJwt`.
pub fn claims_of_decoded(decoded: Option<String>) -> (r: Result<JwtClaims, AuthError>)
    ensures
        decoded is None ==> r == Err::<JwtClaims, AuthError>(AuthError::InvalidJwt),
        decoded matches Some(text) ==> match jwt_claims(text@) {
            Some(c) => r matches Ok(got) && got@ == c,
            None => r == Err::<JwtClaims, AuthError>(AuthError::InvalidJwt),
        },
{
    match decoded {
        None => Err(AuthError::InvalidJwt),
        Some(text) => match claims_from_json(text.as_str()) {
            Some(c) => Ok(c),
            None => Err(AuthError::InvalidJwt),
        },
    }
}

} // verus!
