//! Logging and telemetry settings that the server derives from its configuration.
use vstd::prelude::*;
use vstd::string::*;

use crate::cfg::settings::LogLevel;
use crate::text::{decimal, u64_to_decimal};

verus! {

pub open spec fn level_text(l: LogLevel) -> Seq<char> {
    match l {
        LogLevel::Info => "INFO"@,
        LogLevel::Debug => "DEBUG"@,
        LogLevel::Trace => "TRACE"@,
    }
}

pub open spec fn log_filter_spec(level: LogLevel, cluster_level: Option<LogLevel>) -> Seq<char> {
    let l = level_text(level);
    let c = match cluster_level {
        Some(c) => level_text(c),
        None => l,
    };
    "diom_backend::core::cluster="@ + c + ",diom="@ + l + ",fjall_utils="@ + l + ",tower_http="@ + l
        + ",fjall=warn,openraft=warn,opentelemetry_sdk=error"@
}

/// The log filter used where `RUST_LOG` is not set: the configured level for the server,
/// the cluster's own level (or the same) for replication, and quiet dependencies.
pub fn default_log_filter(level: LogLevel, cluster_level: Option<LogLevel>) -> (f: String)
    ensures
        f@ == log_filter_spec(level, cluster_level),
{
    let l = level.as_str();
    let c = match cluster_level {
        Some(c) => c.as_str(),
        None => l,
    };
    String::from_str("diom_backend::core::cluster=").concat(c).concat(",diom=").concat(l).concat(",fjall_utils=").concat(
        l,
    ).concat(",tower_http=").concat(l).concat(",fjall=warn,openraft=warn,opentelemetry_sdk=error")
}

/// Metrics go to the metrics address, or else to the trace address; nowhere where neither
/// is configured.
pub fn metrics_endpoint(metrics_address: Option<&str>, address: Option<&str>) -> (r: Option<String>)
    ensures
        (match r {
            Some(s) => Some(s@),
            None => None,
        }) == (match metrics_address {
            Some(m) => Some(m@),
            None => match address {
                Some(a) => Some(a@),
                None => None,
            },
        }),
{
    match metrics_address {
        Some(m) => Some(String::from_str(m)),
        None => match address {
            Some(a) => Some(String::from_str(a)),
            None => None,
        },
    }
}

/// Whether a backtrace could be taken when a thread panicked.
#[derive(Clone, Copy, Debug, PartialEq, Eq, Structural)]
pub enum BacktraceState {
    Disabled,
    Unsupported,
    Captured,
    Other,
}

/// The note logged with a panic about its backtrace.
pub fn backtrace_note(state: BacktraceState) -> (n: Option<&'static str>)
    ensures
        n matches Some(s) ==> s@ == (match state {
            BacktraceState::Disabled => "run with `RUST_BACKTRACE=1` environment variable to display a backtrace"@,
            BacktraceState::Unsupported => "backtraces are not supported on this platform"@,
            _ => "error capturing backtrace"@,
        }),
        n is None <==> state == BacktraceState::Captured,
{
    match state {
        BacktraceState::Disabled => Some("run with `RUST_BACKTRACE=1` environment variable to display a backtrace"),
        BacktraceState::Unsupported => Some("backtraces are not supported on this platform"),
        BacktraceState::Captured => None,
        BacktraceState::Other => Some("error capturing backtrace"),
    }
}

/// The server that the health check asks: the one given, else `http://` and the configured
/// listen address (`localhost:<port>` where it names no host).
pub fn healthcheck_server_url(server_url: Option<&str>, listen_is_unspecified: bool, listen_port: u16, listen_address: &str) -> (r: String)
    ensures
        r@ == (match server_url {
            Some(u) => u@,
            None => "http://"@ + (if listen_is_unspecified {
                "localhost:"@ + decimal(listen_port as nat)
            } else {
                listen_address@
            }),
        }),
{
    match server_url {
        Some(u) => String::from_str(u),
        None => {
            let addr = if listen_is_unspecified {
                let p = u64_to_decimal(listen_port as u64);
                String::from_str("localhost:").concat(p.as_str())
            } else {
                String::from_str(listen_address)
            };
            String::from_str("http://").concat(addr.as_str())
        },
    }
}

/// The health endpoint of a server.
pub fn health_url(server_url: &str) -> (r: String)
    ensures
        r@ == server_url@ + "/api/v1.health"@,
{
    String::from_str(server_url).concat("/api/v1.health")
}

} // verus!
