//! Keys for verifying JWT bearer tokens, and how environment variables override them.
use vstd::prelude::*;
use vstd::string::*;

verus! {

/// The JWT signature algorithms that the server accepts.
#[derive(Clone, Copy, Debug, PartialEq, Eq, Structural)]
pub enum JwtAlgorithm {
    Hs256,
    Hs384,
    Hs512,
    Rs256,
    Rs384,
    Rs512,
    Es256,
    Es384,
    Ps256,
    Ps384,
    Ps512,
}

impl JwtAlgorithm {
    /// The algorithm's name, as configuration writes it.
    pub fn as_str(&self) -> (s: &'static str)
        ensures
            s@ == algorithm_name(*self),
    {
        match self {
            JwtAlgorithm::Hs256 => "HS256",
            JwtAlgorithm::Hs384 => "HS384",
            JwtAlgorithm::Hs512 => "HS512",
            JwtAlgorithm::Rs256 => "RS256",
            JwtAlgorithm::Rs384 => "RS384",
            JwtAlgorithm::Rs512 => "RS512",
            JwtAlgorithm::Es256 => "ES256",
            JwtAlgorithm::Es384 => "ES384",
            JwtAlgorithm::Ps256 => "PS256",
            JwtAlgorithm::Ps384 => "PS384",
            JwtAlgorithm::Ps512 => "PS512",
        }
    }
}

/// HMAC algorithms are keyed with a shared secret; the others with a public key (PEM).
pub open spec fn is_symmetric(a: JwtAlgorithm) -> bool {
    a == JwtAlgorithm::Hs256 || a == JwtAlgorithm::Hs384 || a == JwtAlgorithm::Hs512
}

pub open spec fn algorithm_name(a: JwtAlgorithm) -> Seq<char> {
    match a {
        JwtAlgorithm::Hs256 => "HS256"@,
        JwtAlgorithm::Hs384 => "HS384"@,
        JwtAlgorithm::Hs512 => "HS512"@,
        JwtAlgorithm::Rs256 => "RS256"@,
        JwtAlgorithm::Rs384 => "RS384"@,
        JwtAlgorithm::Rs512 => "RS512"@,
        JwtAlgorithm::Es256 => "ES256"@,
        JwtAlgorithm::Es384 => "ES384"@,
        JwtAlgorithm::Ps256 => "PS256"@,
        JwtAlgorithm::Ps384 => "PS384"@,
        JwtAlgorithm::Ps512 => "PS512"@,
    }
}

/// The algorithm that a configuration value names.
pub open spec fn algorithm_named(s: Seq<char>) -> Option<JwtAlgorithm> {
    if s == "HS256"@ {
        Some(JwtAlgorithm::Hs256)
    } else if s == "HS384"@ {
        Some(JwtAlgorithm::Hs384)
    } else if s == "HS512"@ {
        Some(JwtAlgorithm::Hs512)
    } else if s == "RS256"@ {
        Some(JwtAlgorithm::Rs256)
    } else if s == "RS384"@ {
        Some(JwtAlgorithm::Rs384)
    } else if s == "RS512"@ {
        Some(JwtAlgorithm::Rs512)
    } else if s == "ES256"@ {
        Some(JwtAlgorithm::Es256)
    } else if s == "ES384"@ {
        Some(JwtAlgorithm::Es384)
    } else if s == "PS256"@ {
        Some(JwtAlgorithm::Ps256)
    } else if s == "PS384"@ {
        Some(JwtAlgorithm::Ps384)
    } else if s == "PS512"@ {
        Some(JwtAlgorithm::Ps512)
    } else {
        None
    }
}

/// Signature algorithm and the key material it needs.
#[derive(Clone, Debug, PartialEq, Eq)]
pub enum JwtKey {
    Hs256 { secret: String },
    Hs384 { secret: String },
    Hs512 { secret: String },
    Rs256 { public_key_pem: String },
    Rs384 { public_key_pem: String },
    Rs512 { public_key_pem: String },
    Es256 { public_key_pem: String },
    Es384 { public_key_pem: String },
    Ps256 { public_key_pem: String },
    Ps384 { public_key_pem: String },
    Ps512 { public_key_pem: String },
}

/// A key: its algorithm and its secret or public key.
pub struct KeyView {
    pub algorithm: JwtAlgorithm,
    pub material: Seq<char>,
}

impl View for JwtKey {
    type V = KeyView;

    open spec fn view(&self) -> KeyView {
        match self {
            JwtKey::Hs256 { secret } => KeyView { algorithm: JwtAlgorithm::Hs256, material: secret@ },
            JwtKey::Hs384 { secret } => KeyView { algorithm: JwtAlgorithm::Hs384, material: secret@ },
            JwtKey::Hs512 { secret } => KeyView { algorithm: JwtAlgorithm::Hs512, material: secret@ },
            JwtKey::Rs256 { public_key_pem } => KeyView { algorithm: JwtAlgorithm::Rs256, material: public_key_pem@ },
            JwtKey::Rs384 { public_key_pem } => KeyView { algorithm: JwtAlgorithm::Rs384, material: public_key_pem@ },
            JwtKey::Rs512 { public_key_pem } => KeyView { algorithm: JwtAlgorithm::Rs512, material: public_key_pem@ },
            JwtKey::Es256 { public_key_pem } => KeyView { algorithm: JwtAlgorithm::Es256, material: public_key_pem@ },
            JwtKey::Es384 { public_key_pem } => KeyView { algorithm: JwtAlgorithm::Es384, material: public_key_pem@ },
            JwtKey::Ps256 { public_key_pem } => KeyView { algorithm: JwtAlgorithm::Ps256, material: public_key_pem@ },
            JwtKey::Ps384 { public_key_pem } => KeyView { algorithm: JwtAlgorithm::Ps384, material: public_key_pem@ },
            JwtKey::Ps512 { public_key_pem } => KeyView { algorithm: JwtAlgorithm::Ps512, material: public_key_pem@ },
        }
    }
}

fn lit(s: &str) -> (r: String)
    ensures
        r@ == s@,
{
    String::from_str(s)
}

impl JwtKey {
    /// A key of the given algorithm made of the given material.
    pub fn new(algorithm: JwtAlgorithm, material: String) -> (k: JwtKey)
        ensures
            k@ == (KeyView { algorithm, material: material@ }),
    {
        match algorithm {
            JwtAlgorithm::Hs256 => JwtKey::Hs256 { secret: material },
            JwtAlgorithm::Hs384 => JwtKey::Hs384 { secret: material },
            JwtAlgorithm::Hs512 => JwtKey::Hs512 { secret: material },
            JwtAlgorithm::Rs256 => JwtKey::Rs256 { public_key_pem: material },
            JwtAlgorithm::Rs384 => JwtKey::Rs384 { public_key_pem: material },
            JwtAlgorithm::Rs512 => JwtKey::Rs512 { public_key_pem: material },
            JwtAlgorithm::Es256 => JwtKey::Es256 { public_key_pem: material },
            JwtAlgorithm::Es384 => JwtKey::Es384 { public_key_pem: material },
            JwtAlgorithm::Ps256 => JwtKey::Ps256 { public_key_pem: material },
            JwtAlgorithm::Ps384 => JwtKey::Ps384 { public_key_pem: material },
            JwtAlgorithm::Ps512 => JwtKey::Ps512 { public_key_pem: material },
        }
    }

    pub fn kind(&self) -> (a: JwtAlgorithm)
        ensures
            a == self@.algorithm,
    {
        match self {
            JwtKey::Hs256 { .. } => JwtAlgorithm::Hs256,
            JwtKey::Hs384 { .. } => JwtAlgorithm::Hs384,
            JwtKey::Hs512 { .. } => JwtAlgorithm::Hs512,
            JwtKey::Rs256 { .. } => JwtAlgorithm::Rs256,
            JwtKey::Rs384 { .. } => JwtAlgorithm::Rs384,
            JwtKey::Rs512 { .. } => JwtAlgorithm::Rs512,
            JwtKey::Es256 { .. } => JwtAlgorithm::Es256,
            JwtKey::Es384 { .. } => JwtAlgorithm::Es384,
            JwtKey::Ps256 { .. } => JwtAlgorithm::Ps256,
            JwtKey::Ps384 { .. } => JwtAlgorithm::Ps384,
            JwtKey::Ps512 { .. } => JwtAlgorithm::Ps512,
        }
    }

    /// The algorithm's name, as configuration writes it.
    pub fn algorithm(&self) -> (s: &'static str)
        ensures
            s@ == algorithm_name(self@.algorithm),
    {
        match self {
            JwtKey::Hs256 { .. } => "HS256",
            JwtKey::Hs384 { .. } => "HS384",
            JwtKey::Hs512 { .. } => "HS512",
            JwtKey::Rs256 { .. } => "RS256",
            JwtKey::Rs384 { .. } => "RS384",
            JwtKey::Rs512 { .. } => "RS512",
            JwtKey::Es256 { .. } => "ES256",
            JwtKey::Es384 { .. } => "ES384",
            JwtKey::Ps256 { .. } => "PS256",
            JwtKey::Ps384 { .. } => "PS384",
            JwtKey::Ps512 { .. } => "PS512",
        }
    }

    /// The shared secret of an HMAC key.
    pub fn secret(&self) -> (r: Option<&str>)
        ensures
            is_symmetric(self@.algorithm) ==> (r matches Some(s) && s@ == self@.material),
            !is_symmetric(self@.algorithm) ==> r is None,
    {
        match self {
            JwtKey::Hs256 { secret } | JwtKey::Hs384 { secret } | JwtKey::Hs512 { secret } => Some(secret.as_str()),
            _ => None,
        }
    }

    /// The public key of an asymmetric key.
    pub fn public_key_pem(&self) -> (r: Option<&str>)
        ensures
            !is_symmetric(self@.algorithm) ==> (r matches Some(s) && s@ == self@.material),
            is_symmetric(self@.algorithm) ==> r is None,
    {
        match self {
            JwtKey::Hs256 { .. } | JwtKey::Hs384 { .. } | JwtKey::Hs512 { .. } => None,
            JwtKey::Rs256 { public_key_pem }
            | JwtKey::Rs384 { public_key_pem }
            | JwtKey::Rs512 { public_key_pem }
            | JwtKey::Es256 { public_key_pem }
            | JwtKey::Es384 { public_key_pem }
            | JwtKey::Ps256 { public_key_pem }
            | JwtKey::Ps384 { public_key_pem }
            | JwtKey::Ps512 { public_key_pem } => Some(public_key_pem.as_str()),
        }
    }

    /// Replaces the secret of an HMAC key; other keys are left alone and `false` returned.
    pub fn set_secret(&mut self, value: String) -> (changed: bool)
        ensures
            changed == is_symmetric(old(self)@.algorithm),
            changed ==> final(self)@ == (KeyView { algorithm: old(self)@.algorithm, material: value@ }),
            !changed ==> final(self)@ == old(self)@,
    {
        let a = self.kind();
        if a == JwtAlgorithm::Hs256 || a == JwtAlgorithm::Hs384 || a == JwtAlgorithm::Hs512 {
            *self = JwtKey::new(a, value);
            true
        } else {
            false
        }
    }

    /// Replaces the public key of an asymmetric key; HMAC keys are left alone and `false`
    /// returned.
    pub fn set_public_key_pem(&mut self, value: String) -> (changed: bool)
        ensures
            changed == !is_symmetric(old(self)@.algorithm),
            changed ==> final(self)@ == (KeyView { algorithm: old(self)@.algorithm, material: value@ }),
            !changed ==> final(self)@ == old(self)@,
    {
        let a = self.kind();
        if a == JwtAlgorithm::Hs256 || a == JwtAlgorithm::Hs384 || a == JwtAlgorithm::Hs512 {
            false
        } else {
            *self = JwtKey::new(a, value);
            true
        }
    }
}

/// The algorithm that a configuration value names.
pub fn parse_algorithm(s: &str) -> (r: Option<JwtAlgorithm>)
    ensures
        r == algorithm_named(s@),
{
    let s = lit(s);
    if s == lit("HS256") {
        Some(JwtAlgorithm::Hs256)
    } else if s == lit("HS384") {
        Some(JwtAlgorithm::Hs384)
    } else if s == lit("HS512") {
        Some(JwtAlgorithm::Hs512)
    } else if s == lit("RS256") {
        Some(JwtAlgorithm::Rs256)
    } else if s == lit("RS384") {
        Some(JwtAlgorithm::Rs384)
    } else if s == lit("RS512") {
        Some(JwtAlgorithm::Rs512)
    } else if s == lit("ES256") {
        Some(JwtAlgorithm::Es256)
    } else if s == lit("ES384") {
        Some(JwtAlgorithm::Es384)
    } else if s == lit("PS256") {
        Some(JwtAlgorithm::Ps256)
    } else if s == lit("PS384") {
        Some(JwtAlgorithm::Ps384)
    } else if s == lit("PS512") {
        Some(JwtAlgorithm::Ps512)
    } else {
        None
    }
}


/// Why JWT settings from the environment were refused.
#[derive(Clone, Copy, Debug, PartialEq, Eq, Structural)]
pub enum JwtEnvError {
    /// A secret was given without an algorithm, and no key is configured otherwise.
    SecretWithoutAlgorithm,
    /// A public key was given without an algorithm, and no key is configured otherwise.
    PublicKeyWithoutAlgorithm,
    /// The algorithm needs a secret and none was given.
    MissingSecret(JwtAlgorithm),
    /// The algorithm needs a public key and none was given.
    MissingPublicKey(JwtAlgorithm),
    /// The algorithm is not one that the server supports.
    UnsupportedAlgorithm,
}

/// Settings from the environment that had no effect.
#[derive(Clone, Copy, Debug, PartialEq, Eq, Structural)]
pub enum JwtEnvWarning {
    /// A secret was given for an algorithm that uses a public key.
    IgnoredSecret,
    /// A public key was given for an algorithm that uses a secret.
    IgnoredPublicKey,
}

pub open spec fn key_option_view(k: Option<JwtKey>) -> Option<KeyView> {
    match k {
        Some(k) => Some(k@),
        None => None,
    }
}

pub open spec fn string_option_view(s: Option<String>) -> Option<Seq<char>> {
    match s {
        Some(s) => Some(s@),
        None => None,
    }
}

/// The key after the `<PREFIX>_ALGORITHM`, `<PREFIX>_SECRET` and `<PREFIX>_PUBLIC_KEY_PEM`
/// variables are applied to the configured one, and what was ignored.
///
/// An algorithm from the environment replaces the key and needs its key material from the
/// environment too. Without one, a secret or public key from the environment replaces the
/// matching material of the configured key, and needs such a key.
pub open spec fn jwt_env_override(
    current: Option<KeyView>,
    algorithm: Option<Seq<char>>,
    secret: Option<Seq<char>>,
    public_key_pem: Option<Seq<char>>,
) -> Result<(Option<KeyView>, Seq<JwtEnvWarning>), JwtEnvError> {
    match algorithm {
        None => {
            let after_secret: Result<(Option<KeyView>, Seq<JwtEnvWarning>), JwtEnvError> = match secret {
                None => Ok((current, Seq::empty())),
                Some(s) => match current {
                    None => Err(JwtEnvError::SecretWithoutAlgorithm),
                    Some(k) => if is_symmetric(k.algorithm) {
                        Ok((Some(KeyView { algorithm: k.algorithm, material: s }), Seq::empty()))
                    } else {
                        Ok((current, seq![JwtEnvWarning::IgnoredSecret]))
                    },
                },
            };
            match after_secret {
                Err(e) => Err(e),
                Ok((key, warnings)) => match public_key_pem {
                    None => Ok((key, warnings)),
                    Some(p) => match key {
                        None => Err(JwtEnvError::PublicKeyWithoutAlgorithm),
                        Some(k) => if !is_symmetric(k.algorithm) {
                            Ok((Some(KeyView { algorithm: k.algorithm, material: p }), warnings))
                        } else {
                            Ok((key, warnings.push(JwtEnvWarning::IgnoredPublicKey)))
                        },
                    },
                },
            }
        },
        Some(name) => match algorithm_named(name) {
            None => Err(JwtEnvError::UnsupportedAlgorithm),
            Some(a) => if is_symmetric(a) {
                match secret {
                    None => Err(JwtEnvError::MissingSecret(a)),
                    Some(s) => Ok((
                        Some(KeyView { algorithm: a, material: s }),
                        if public_key_pem is Some { seq![JwtEnvWarning::IgnoredPublicKey] } else { Seq::empty() },
                    )),
                }
            } else {
                match public_key_pem {
                    None => Err(JwtEnvError::MissingPublicKey(a)),
                    Some(p) => Ok((
                        Some(KeyView { algorithm: a, material: p }),
                        if secret is Some { seq![JwtEnvWarning::IgnoredSecret] } else { Seq::empty() },
                    )),
                }
            },
        },
    }
}

/// Applying the same environment twice changes nothing more: the key that the first
/// application leaves is left as it is by the second, with the same remarks.
pub proof fn lemma_jwt_env_override_idempotent(
    current: Option<KeyView>,
    algorithm: Option<Seq<char>>,
    secret: Option<Seq<char>>,
    public_key_pem: Option<Seq<char>>,
)
    requires
        jwt_env_override(current, algorithm, secret, public_key_pem) is Ok,
    ensures
        jwt_env_override(
            jwt_env_override(current, algorithm, secret, public_key_pem)->Ok_0.0,
            algorithm,
            secret,
            public_key_pem,
        ) == jwt_env_override(current, algorithm, secret, public_key_pem),
{
}

/// Applies JWT settings read from the environment to the configured key. On error the
/// key is left as it was.
pub fn override_jwt_key(
    key: &mut Option<JwtKey>,
    algorithm: Option<String>,
    secret: Option<String>,
    public_key_pem: Option<String>,
) -> (r: Result<Vec<JwtEnvWarning>, JwtEnvError>)
    ensures
        r matches Ok(w) ==> jwt_env_override(
            key_option_view(*old(key)),
            string_option_view(algorithm),
            string_option_view(secret),
            string_option_view(public_key_pem),
        ) == Ok::<(Option<KeyView>, Seq<JwtEnvWarning>), JwtEnvError>((key_option_view(*final(key)), w@)),
        r matches Err(e) ==> jwt_env_override(
            key_option_view(*old(key)),
            string_option_view(algorithm),
            string_option_view(secret),
            string_option_view(public_key_pem),
        ) == Err::<(Option<KeyView>, Seq<JwtEnvWarning>), JwtEnvError>(e) && *final(key) == *old(key),
{
    let secret_is_set = secret.is_some();
    let public_key_pem_is_set = public_key_pem.is_some();
    let mut warnings: Vec<JwtEnvWarning> = Vec::new();
    match algorithm {
        None => {
            match secret {
                None => {},
                Some(s) => match key {
                    None => return Err(JwtEnvError::SecretWithoutAlgorithm),
                    Some(k) => {
                        if !k.set_secret(s) {
                            warnings.push(JwtEnvWarning::IgnoredSecret);
                        }
                    },
                },
            }
            match public_key_pem {
                None => {},
                Some(p) => match key {
                    None => return Err(JwtEnvError::PublicKeyWithoutAlgorithm),
                    Some(k) => {
                        if !k.set_public_key_pem(p) {
                            warnings.push(JwtEnvWarning::IgnoredPublicKey);
                        }
                    },
                },
            }
            Ok(warnings)
        },
        Some(name) => {
            let a = match parse_algorithm(name.as_str()) {
                None => return Err(JwtEnvError::UnsupportedAlgorithm),
                Some(a) => a,
            };
            if a == JwtAlgorithm::Hs256 || a == JwtAlgorithm::Hs384 || a == JwtAlgorithm::Hs512 {
                match secret {
                    None => Err(JwtEnvError::MissingSecret(a)),
                    Some(s) => {
                        if public_key_pem_is_set {
                            warnings.push(JwtEnvWarning::IgnoredPublicKey);
                        }
                        *key = Some(JwtKey::new(a, s));
                        Ok(warnings)
                    },
                }
            } else {
                match public_key_pem {
                    None => Err(JwtEnvError::MissingPublicKey(a)),
                    Some(p) => {
                        if secret_is_set {
                            warnings.push(JwtEnvWarning::IgnoredSecret);
                        }
                        *key = Some(JwtKey::new(a, p));
                        Ok(warnings)
                    },
                }
            }
        },
    }
}

/// How the key material of an algorithm is read.
#[derive(Clone, Copy, Debug, PartialEq, Eq, Structural)]
pub enum KeyEncoding {
    /// The bytes of a shared secret.
    Secret,
    /// An RSA public key in PEM.
    RsaPem,
    /// An elliptic-curve public key in PEM.
    EcPem,
}

pub open spec fn key_encoding(a: JwtAlgorithm) -> KeyEncoding {
    if is_symmetric(a) {
        KeyEncoding::Secret
    } else if a == JwtAlgorithm::Es256 || a == JwtAlgorithm::Es384 {
        KeyEncoding::EcPem
    } else {
        KeyEncoding::RsaPem
    }
}

/// How tokens are verified: the key and its algorithm, and which claims are checked.
/// `nbf` is always checked where present; `aud` is checked, and required, only where
/// audiences are configured; `iss` likewise where issuers are.
#[derive(Debug)]
pub struct JwtValidationPlan {
    pub algorithm: JwtAlgorithm,
    pub encoding: KeyEncoding,
    pub key_material: String,
    pub validate_nbf: bool,
    pub validate_aud: bool,
    pub audience: Option<Vec<String>>,
    pub issuer: Option<Vec<String>>,
    /// Claims that a token must carry, beyond those always required.
    pub required_claims: Vec<&'static str>,
}

pub open spec fn string_views(s: Seq<String>) -> Seq<Seq<char>> {
    s.map_values(|x: String| x@)
}

pub fn clone_strings(v: &Vec<String>) -> (r: Vec<String>)
    ensures
        string_views(r@) == string_views(v@),
{
    let mut r: Vec<String> = Vec::new();
    let mut i: usize = 0;
    while i < v.len()
        invariant
            i <= v@.len(),
            r@.len() == i,
            string_views(r@) == string_views(v@.subrange(0, i as int)),
        decreases v@.len() - i,
    {
        let ghost before = r@;
        r.push(v[i].clone());
        proof {
            let w = v@.subrange(0, i + 1);
            assert forall|k: int| 0 <= k < r@.len() implies #[trigger] string_views(r@)[k] == string_views(w)[k] by {
                if k < i {
                    assert(string_views(before)[k] == string_views(v@.subrange(0, i as int))[k]);
                }
            }
            assert(string_views(r@) =~= string_views(w));
        }
        i = i + 1;
    }
    assert(v@.subrange(0, v@.len() as int) =~= v@);
    r
}

pub open spec fn strings_view(o: Option<Vec<String>>) -> Option<Seq<Seq<char>>> {
    match o {
        Some(v) => Some(string_views(v@)),
        None => None,
    }
}

/// The verification of tokens with a configured key; none where no key is configured.
pub fn jwt_validation_plan(key: &Option<JwtKey>, audience: &Option<Vec<String>>, issuer: &Option<Vec<String>>) -> (r: Option<JwtValidationPlan>)
    ensures
        key is None <==> r is None,
        r matches Some(p) ==> {
            &&& p.algorithm == key->0@.algorithm
            &&& p.encoding == key_encoding(p.algorithm)
            &&& p.key_material@ == key->0@.material
            &&& p.validate_nbf
            &&& p.validate_aud == (audience is Some)
            &&& strings_view(p.audience) == strings_view(*audience)
            &&& strings_view(p.issuer) == strings_view(*issuer)
            &&& p.required_claims@.map_values(|c: &str| c@) == (if audience is Some {
                seq!["aud"@]
            } else {
                Seq::empty()
            }) + (if issuer is Some {
                seq!["iss"@]
            } else {
                Seq::empty()
            })
        },
{
    let k = match key {
        Some(k) => k,
        None => return None,
    };
    let algorithm = k.kind();
    let encoding = match algorithm {
        JwtAlgorithm::Hs256 | JwtAlgorithm::Hs384 | JwtAlgorithm::Hs512 => KeyEncoding::Secret,
        JwtAlgorithm::Es256 | JwtAlgorithm::Es384 => KeyEncoding::EcPem,
        _ => KeyEncoding::RsaPem,
    };
    let material = match k.secret() {
        Some(s) => lit(s),
        None => match k.public_key_pem() {
            Some(p) => lit(p),
            None => String::new(),
        },
    };
    let mut required: Vec<&'static str> = Vec::new();
    let aud = match audience {
        Some(a) => {
            required.push("aud");
            Some(clone_strings(a))
        },
        None => None,
    };
    let ghost r0 = required@.map_values(|c: &str| c@);
    let iss = match issuer {
        Some(i) => {
            required.push("iss");
            Some(clone_strings(i))
        },
        None => None,
    };
    proof {
        reveal_strlit("aud");
        reveal_strlit("iss");
        assert(r0 =~= (if audience is Some { seq!["aud"@] } else { Seq::<Seq<char>>::empty() }));
        assert(required@.map_values(|c: &str| c@) =~= r0 + (if issuer is Some {
            seq!["iss"@]
        } else {
            Seq::<Seq<char>>::empty()
        }));
    }
    Some(JwtValidationPlan {
        algorithm,
        encoding,
        key_material: material,
        validate_nbf: true,
        validate_aud: audience.is_some(),
        audience: aud,
        issuer: iss,
        required_claims: required,
    })
}

} // verus!
