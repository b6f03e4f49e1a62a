//! Configuration records and the checks made on them.
use vstd::prelude::*;
use vstd::string::*;

use super::jwt::JwtKey;
use super::memory_size::MemorySize;
use super::paths::joined;
use super::settings::OpenTelemetryProtocol;

verus! {

fn lit(s: &str) -> (r: String)
    ensures
        r@ == s@,
{
    String::from_str(s)
}

/// The kind of database a configuration is for.
pub trait StorageType {}

/// The ephemeral database: rate-limiting and other data that can be lost.
pub struct Ephemeral {}

impl StorageType for Ephemeral {}

/// The persistent database, used by most modules.
pub struct Persistent {}

impl StorageType for Persistent {}

/// The management database.
pub struct Management {}

impl StorageType for Management {}

/// Storage configuration of one database.
#[derive(Clone, Debug)]
pub struct DatabaseConfig {
    /// Directory in which this database is stored.
    pub path: String,
    /// Filename under the directory specified in `path`.
    pub filename: String,
    /// Memory to reserve for the database's caches.
    pub cache_size: MemorySize,
}

/// Settings that are not meant for users.
#[derive(Clone, Debug)]
pub struct InternalConfig {}

/// Configuration for verifying JWT bearer tokens.
#[derive(Clone, Debug)]
pub struct JwtConfig {
    pub key: Option<JwtKey>,
    /// Expected `aud` values; when absent, `aud` is not validated.
    pub audience: Option<Vec<String>>,
    /// Expected `iss` values; when absent, `iss` is not validated.
    pub issuer: Option<Vec<String>>,
}

/// Why a JWT configuration was refused.
#[derive(Clone, Copy, Debug, PartialEq, Eq, Structural)]
pub enum JwtConfigError {
    /// `audience` is set but lists no value.
    EmptyAudience,
    /// `issuer` is set but lists no value.
    EmptyIssuer,
}

impl JwtConfig {
    pub fn default() -> (c: JwtConfig)
        ensures
            c.key is None,
            c.audience is None,
            c.issuer is None,
    {
        JwtConfig { key: None, audience: None, issuer: None }
    }

    /// `audience` and `issuer`, where set, must list at least one value.
    pub fn validate(&self) -> (r: Result<(), JwtConfigError>)
        ensures
            r == (if self.audience matches Some(a) && a@.len() == 0 {
                Err::<(), JwtConfigError>(JwtConfigError::EmptyAudience)
            } else if self.issuer matches Some(i) && i@.len() == 0 {
                Err(JwtConfigError::EmptyIssuer)
            } else {
                Ok(())
            }),
    {
        match &self.audience {
            Some(a) => if a.len() == 0 {
                return Err(JwtConfigError::EmptyAudience);
            },
            None => {},
        }
        match &self.issuer {
            Some(i) => if i.len() == 0 {
                return Err(JwtConfigError::EmptyIssuer);
            },
            None => {},
        }
        Ok(())
    }
}

/// An environment variable that overrides a setting.
#[derive(Debug, PartialEq, Eq, PartialOrd, Ord)]
pub struct Variable {
    pub env_var: String,
    pub docstring: Option<&'static str>,
}

/// The name of a variable under a prefix: `<PREFIX>_<NAME>`, or the name alone where the
/// prefix is empty.
pub open spec fn prefixed_name(prefix: Seq<char>, name: Seq<char>) -> Seq<char> {
    if prefix.len() == 0 {
        name
    } else {
        prefix + "_"@ + name
    }
}

fn prefixed(prefix: &str, name: &str) -> (r: String)
    ensures
        r@ == prefixed_name(prefix@, name@),
{
    if prefix.unicode_len() == 0 {
        lit(name)
    } else {
        lit(prefix).concat("_").concat(name)
    }
}

/// The variables that set the JWT key, under a prefix: the algorithm, the secret of the
/// HMAC algorithms and the public key of the others, each with its description.
pub fn jwt_key_variables(prefix: &str) -> (v: Vec<Variable>)
    ensures
        v@.len() == 3,
        v@[0].env_var@ == prefixed_name(prefix@, "ALGORITHM"@),
        v@[0].docstring matches Some(d) && d@ == "JWT signature algorithm"@,
        v@[1].env_var@ == prefixed_name(prefix@, "SECRET"@),
        v@[1].docstring matches Some(d) && d@ == "Secret for JWT algorithms HS256 / HS384 / HS512"@,
        v@[2].env_var@ == prefixed_name(prefix@, "PUBLIC_KEY_PEM"@),
        v@[2].docstring matches Some(d) && d@
            == "Public key PEM for JWT algorithms RS256 / RS384 / RS512 / ES256 / ES384 / PS256 / PS384 / PS512"@,
{
    vec![
        Variable { env_var: prefixed(prefix, "ALGORITHM"), docstring: Some("JWT signature algorithm") },
        Variable {
            env_var: prefixed(prefix, "SECRET"),
            docstring: Some("Secret for JWT algorithms HS256 / HS384 / HS512"),
        },
        Variable {
            env_var: prefixed(prefix, "PUBLIC_KEY_PEM"),
            docstring: Some(
                "Public key PEM for JWT algorithms RS256 / RS384 / RS512 / ES256 / ES384 / PS256 / PS384 / PS512",
            ),
        },
    ]
}

/// Where the cluster keeps its logs: the configured path, or `cluster_logs` under the
/// persistent database's directory.
pub fn cluster_log_path(log_path: Option<&str>, persistent_db_path: &str) -> (r: String)
    ensures
        r@ == (match log_path {
            Some(p) => p@,
            None => joined(persistent_db_path@, "cluster_logs"@),
        }),
{
    match log_path {
        Some(p) => lit(p),
        None => super::paths::Dir::existing(lit(persistent_db_path)).join("cluster_logs"),
    }
}

/// Where the cluster keeps its snapshots: the configured path, or `cluster_snapshots`
/// under the persistent database's directory.
pub fn cluster_snapshot_path(snapshot_path: Option<&str>, persistent_db_path: &str) -> (r: String)
    ensures
        r@ == (match snapshot_path {
            Some(p) => p@,
            None => joined(persistent_db_path@, "cluster_snapshots"@),
        }),
{
    match snapshot_path {
        Some(p) => lit(p),
        None => super::paths::Dir::existing(lit(persistent_db_path)).join("cluster_snapshots"),
    }
}

/// Why a setting was refused.
#[derive(Clone, Copy, Debug, PartialEq, Eq, Structural)]
pub enum ValidationError {
    /// The admin token is shorter than 20 bytes.
    AdminTokenTooShort,
    /// The minimum election timeout is not below the maximum.
    ElectionTimeoutRange,
}

/// Settings that are allowed but likely mistaken.
#[derive(Clone, Copy, Debug, PartialEq, Eq, Structural)]
pub enum ValidationWarning {
    /// Replication requests may outlast heartbeats, which can cause election timeouts.
    ReplicationTimeoutAboveHeartbeat,
    /// Syncing the log after many commits with a long interval makes bootstrap very slow.
    SlowLogSync,
}

/// The admin token must be at least 20 bytes long.
pub fn validate_admin_token(token: &str) -> (r: Result<(), ValidationError>)
    ensures
        r == (if token.spec_bytes().len() < 20 {
            Err::<(), ValidationError>(ValidationError::AdminTokenTooShort)
        } else {
            Ok(())
        }),
{
    if token.as_bytes().len() < 20 {
        Err(ValidationError::AdminTokenTooShort)
    } else {
        Ok(())
    }
}

/// Checks the cluster timing settings (all in milliseconds): an election must be allowed
/// a range of durations; two further combinations are only warned about.
pub fn validate_cluster_timing(
    election_timeout_min_ms: u64,
    election_timeout_max_ms: u64,
    heartbeat_interval_ms: u64,
    replication_request_timeout_ms: u64,
    log_sync_interval_commits: usize,
    log_sync_interval_ms: u64,
) -> (r: Result<Vec<ValidationWarning>, ValidationError>)
    ensures
        election_timeout_min_ms >= election_timeout_max_ms ==> r == Err::<Vec<ValidationWarning>, ValidationError>(
            ValidationError::ElectionTimeoutRange,
        ),
        election_timeout_min_ms < election_timeout_max_ms ==> (r matches Ok(w) && w@ == (if heartbeat_interval_ms
            < replication_request_timeout_ms {
            seq![ValidationWarning::ReplicationTimeoutAboveHeartbeat]
        } else {
            Seq::empty()
        }) + (if log_sync_interval_commits > 1 && log_sync_interval_ms > 100 {
            seq![ValidationWarning::SlowLogSync]
        } else {
            Seq::empty()
        })),
{
    if election_timeout_min_ms >= election_timeout_max_ms {
        return Err(ValidationError::ElectionTimeoutRange);
    }
    let mut warnings: Vec<ValidationWarning> = Vec::new();
    if heartbeat_interval_ms < replication_request_timeout_ms {
        warnings.push(ValidationWarning::ReplicationTimeoutAboveHeartbeat);
    }
    let ghost first = warnings@;
    if log_sync_interval_commits > 1 && log_sync_interval_ms > 100 {
        warnings.push(ValidationWarning::SlowLogSync);
    }
    proof {
        if log_sync_interval_commits > 1 && log_sync_interval_ms > 100 {
            assert(warnings@ =~= first + seq![ValidationWarning::SlowLogSync]);
        } else {
            assert(warnings@ =~= first + Seq::<ValidationWarning>::empty());
        }
        if heartbeat_interval_ms < replication_request_timeout_ms {
            assert(first =~= seq![ValidationWarning::ReplicationTimeoutAboveHeartbeat]);
        } else {
            assert(first =~= Seq::<ValidationWarning>::empty());
        }
    }
    Ok(warnings)
}

} // verus!
