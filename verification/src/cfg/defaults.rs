//! The values that settings take when the configuration does not give them. Durations are
//! in milliseconds.
use vstd::prelude::*;
use vstd::string::*;

use super::config::DatabaseConfig;
use super::memory_size::MemorySize;

verus! {

pub fn default_true() -> (b: bool)
    ensures
        b,
{
    true
}

/// Port of the external API.
pub const LISTEN_PORT: u16 = 8624;

/// Port that the nodes of a cluster talk to each other on.
pub const CLUSTER_LISTEN_PORT: u16 = 8625;

/// Memory for each database's caches: a fifth of what the machine (or its cgroup) has.
pub fn default_database_size() -> (m: MemorySize)
    ensures
        m == MemorySize::Percent(20),
{
    MemorySize::Percent(20)
}

/// The persistent database: `fjall_persistent` under `./db`.
pub fn persistent_db() -> (c: DatabaseConfig)
    ensures
        c.path@ == "./db"@,
        c.filename@ == "fjall_persistent"@,
        c.cache_size == MemorySize::Percent(20),
{
    DatabaseConfig {
        path: String::from_str("./db"),
        filename: String::from_str("fjall_persistent"),
        cache_size: default_database_size(),
    }
}

/// The ephemeral database: `fjall_ephemeral` under `./db`.
pub fn ephemeral_db() -> (c: DatabaseConfig)
    ensures
        c.path@ == "./db"@,
        c.filename@ == "fjall_ephemeral"@,
        c.cache_size == MemorySize::Percent(20),
{
    DatabaseConfig {
        path: String::from_str("./db"),
        filename: String::from_str("fjall_ephemeral"),
        cache_size: default_database_size(),
    }
}

pub fn opentelemetry_service_name() -> (s: String)
    ensures
        s@ == "diom"@,
{
    String::from_str("diom")
}

pub fn cluster_name() -> (s: String)
    ensures
        s@ == "diom"@,
{
    String::from_str("diom")
}

pub const OPENTELEMETRY_METRICS_PERIOD_MS: u64 = 10_000;

pub const CLUSTER_REPLICATION_REQUEST_TIMEOUT_MS: u64 = 5_000;

pub const CLUSTER_DISCOVERY_REQUEST_TIMEOUT_MS: u64 = 10_000;

pub const CLUSTER_DISCOVERY_TIMEOUT_MS: u64 = 30_000;

pub const CLUSTER_STARTUP_DISCOVERY_DELAY_MS: u64 = 10;

pub const CLUSTER_CONNECTION_TIMEOUT_MS: u64 = 3_100;

pub const CLUSTER_HEARTBEAT_INTERVAL_MS: u64 = 500;

pub const CLUSTER_ELECTION_TIMEOUT_MIN_MS: u64 = 1_500;

pub const CLUSTER_ELECTION_TIMEOUT_MAX_MS: u64 = 3_500;

pub const LOG_INDEX_INTERVAL_MS: u64 = 600_000;

pub const CLUSTER_SEND_SNAPSHOT_TIMEOUT_MS: u64 = 30_000;

pub const CLUSTER_LOG_SYNC_INTERVAL_MS: u64 = 2;

pub const BACKGROUND_CLEANUP_INTERVAL_MS: u64 = 10_000;

pub fn cluster_auto_initialize() -> (b: bool)
    ensures
        b,
{
    true
}

/// Snapshots are taken every fifteen minutes unless configured otherwise.
pub fn cluster_snapshot_after_time_ms() -> (r: Option<u64>)
    ensures
        r == Some(900_000u64),
{
    Some(900_000)
}

/// The log is synced by the interval timer only, unless configured otherwise.
pub fn cluster_log_sync_interval_commits() -> (n: usize)
    ensures
        n == 0,
{
    0
}

pub fn cluster_replication_lag_threshold() -> (n: u64)
    ensures
        n == 50_000,
{
    50_000
}

} // verus!
