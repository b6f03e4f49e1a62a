//! Enumerated settings, as configuration files and environment variables spell them.
use vstd::prelude::*;
use vstd::string::*;

verus! {

fn lit(s: &str) -> (r: String)
    ensures
        r@ == s@,
{
    String::from_str(s)
}

#[derive(Clone, Copy, Debug, PartialEq, Eq, Structural)]
pub enum LogLevel {
    Info,
    Debug,
    Trace,
}

#[derive(Clone, Copy, Debug, PartialEq, Eq, Structural)]
pub enum LogFormat {
    Default,
    Json,
}

/// The environment the server runs in.
#[derive(Clone, Copy, Debug, PartialEq, Eq, Structural)]
pub enum Environment {
    Dev,
    Staging,
    Prod,
}

/// How data is synchronized to the underlying database.
#[derive(Clone, Copy, Debug, PartialEq, Eq, Structural)]
pub enum SyncMode {
    /// Write data to the OS, but do not fsync.
    Buffer,
    /// fsync the data on every batch apply.
    Sync,
}

/// Which system call an fsync uses.
#[derive(Clone, Copy, Debug, PartialEq, Eq, Structural)]
pub enum FsyncMode {
    /// fdatasync(2)
    SyncData,
    /// fsync(2)
    SyncAll,
}

/// The durability that the database is asked for when it persists.
#[derive(Clone, Copy, Debug, PartialEq, Eq, Structural)]
pub enum PersistMode {
    Buffer,
    SyncData,
    SyncAll,
}

/// Protocol of the OpenTelemetry metrics exporter.
#[derive(Clone, Copy, Debug, PartialEq, Eq, Structural)]
pub enum OpenTelemetryProtocol {
    Grpc,
    Http,
}

pub open spec fn log_level_named(s: Seq<char>) -> Option<LogLevel> {
    if s == "info"@ {
        Some(LogLevel::Info)
    } else if s == "debug"@ {
        Some(LogLevel::Debug)
    } else if s == "trace"@ {
        Some(LogLevel::Trace)
    } else {
        None
    }
}

pub open spec fn log_format_named(s: Seq<char>) -> Option<LogFormat> {
    if s == "default"@ {
        Some(LogFormat::Default)
    } else if s == "json"@ {
        Some(LogFormat::Json)
    } else {
        None
    }
}

pub open spec fn environment_named(s: Seq<char>) -> Option<Environment> {
    if s == "dev"@ {
        Some(Environment::Dev)
    } else if s == "staging"@ {
        Some(Environment::Staging)
    } else if s == "prod"@ {
        Some(Environment::Prod)
    } else {
        None
    }
}

pub open spec fn sync_mode_named(s: Seq<char>) -> Option<SyncMode> {
    if s == "buffer"@ {
        Some(SyncMode::Buffer)
    } else if s == "sync"@ {
        Some(SyncMode::Sync)
    } else {
        None
    }
}

pub open spec fn fsync_mode_named(s: Seq<char>) -> Option<FsyncMode> {
    if s == "sync-data"@ {
        Some(FsyncMode::SyncData)
    } else if s == "sync-all"@ {
        Some(FsyncMode::SyncAll)
    } else {
        None
    }
}

/// The names of each protocol: `grpc`, `Grpc` or `GRPC`; `http`, `Http` or `HTTP`.
pub open spec fn protocol_named(s: Seq<char>) -> Option<OpenTelemetryProtocol> {
    if s == "grpc"@ || s == "Grpc"@ || s == "GRPC"@ {
        Some(OpenTelemetryProtocol::Grpc)
    } else if s == "http"@ || s == "Http"@ || s == "HTTP"@ {
        Some(OpenTelemetryProtocol::Http)
    } else {
        None
    }
}

impl LogLevel {
    pub fn parse(s: &str) -> (r: Option<LogLevel>)
        ensures
            r == log_level_named(s@),
    {
        let s = lit(s);
        if s == lit("info") {
            Some(LogLevel::Info)
        } else if s == lit("debug") {
            Some(LogLevel::Debug)
        } else if s == lit("trace") {
            Some(LogLevel::Trace)
        } else {
            None
        }
    }

    /// The level as tracing writes it.
    pub fn as_str(&self) -> (s: &'static str)
        ensures
            s@ == (match self {
                LogLevel::Info => "INFO"@,
                LogLevel::Debug => "DEBUG"@,
                LogLevel::Trace => "TRACE"@,
            }),
    {
        match self {
            LogLevel::Info => "INFO",
            LogLevel::Debug => "DEBUG",
            LogLevel::Trace => "TRACE",
        }
    }

    pub fn default() -> (r: LogLevel)
        ensures
            r == LogLevel::Info,
    {
        LogLevel::Info
    }
}

impl LogFormat {
    pub fn parse(s: &str) -> (r: Option<LogFormat>)
        ensures
            r == log_format_named(s@),
    {
        let s = lit(s);
        if s == lit("default") {
            Some(LogFormat::Default)
        } else if s == lit("json") {
            Some(LogFormat::Json)
        } else {
            None
        }
    }

    pub fn default() -> (r: LogFormat)
        ensures
            r == LogFormat::Default,
    {
        LogFormat::Default
    }
}

impl Environment {
    pub fn parse(s: &str) -> (r: Option<Environment>)
        ensures
            r == environment_named(s@),
    {
        let s = lit(s);
        if s == lit("dev") {
            Some(Environment::Dev)
        } else if s == lit("staging") {
            Some(Environment::Staging)
        } else if s == lit("prod") {
            Some(Environment::Prod)
        } else {
            None
        }
    }

    /// The name that the environment is written with.
    pub fn as_str(&self) -> (s: &'static str)
        ensures
            s@ == (match self {
                Environment::Dev => "dev"@,
                Environment::Staging => "staging"@,
                Environment::Prod => "prod"@,
            }),
    {
        match self {
            Environment::Dev => "dev",
            Environment::Staging => "staging",
            Environment::Prod => "prod",
        }
    }

    pub fn default() -> (r: Environment)
        ensures
            r == Environment::Dev,
    {
        Environment::Dev
    }
}

impl SyncMode {
    pub fn parse(s: &str) -> (r: Option<SyncMode>)
        ensures
            r == sync_mode_named(s@),
    {
        let s = lit(s);
        if s == lit("buffer") {
            Some(SyncMode::Buffer)
        } else if s == lit("sync") {
            Some(SyncMode::Sync)
        } else {
            None
        }
    }

    pub fn buffer() -> (r: SyncMode)
        ensures
            r == SyncMode::Buffer,
    {
        SyncMode::Buffer
    }

    pub fn sync() -> (r: SyncMode)
        ensures
            r == SyncMode::Sync,
    {
        SyncMode::Sync
    }

    /// Buffered writes need no fsync; synced ones use the configured system call.
    pub fn into_persist_mode(&self, fsync_mode: FsyncMode) -> (r: PersistMode)
        ensures
            r == (match self {
                SyncMode::Buffer => PersistMode::Buffer,
                SyncMode::Sync => fsync_mode.persist_mode_spec(),
            }),
    {
        match self {
            SyncMode::Buffer => PersistMode::Buffer,
            SyncMode::Sync => fsync_mode.persist_mode(),
        }
    }
}

impl FsyncMode {
    pub fn parse(s: &str) -> (r: Option<FsyncMode>)
        ensures
            r == fsync_mode_named(s@),
    {
        let s = lit(s);
        if s == lit("sync-data") {
            Some(FsyncMode::SyncData)
        } else if s == lit("sync-all") {
            Some(FsyncMode::SyncAll)
        } else {
            None
        }
    }

    pub open spec fn persist_mode_spec(self) -> PersistMode {
        match self {
            FsyncMode::SyncData => PersistMode::SyncData,
            FsyncMode::SyncAll => PersistMode::SyncAll,
        }
    }

    pub fn persist_mode(&self) -> (r: PersistMode)
        ensures
            r == self.persist_mode_spec(),
    {
        match self {
            FsyncMode::SyncData => PersistMode::SyncData,
            FsyncMode::SyncAll => PersistMode::SyncAll,
        }
    }

    pub fn default() -> (r: FsyncMode)
        ensures
            r == FsyncMode::SyncData,
    {
        FsyncMode::SyncData
    }
}

impl OpenTelemetryProtocol {
    pub fn parse(s: &str) -> (r: Option<OpenTelemetryProtocol>)
        ensures
            r == protocol_named(s@),
    {
        let s = lit(s);
        if s == lit("grpc") || s == lit("Grpc") || s == lit("GRPC") {
            Some(OpenTelemetryProtocol::Grpc)
        } else if s == lit("http") || s == lit("Http") || s == lit("HTTP") {
            Some(OpenTelemetryProtocol::Http)
        } else {
            None
        }
    }

    /// The protocol's name in lower case, as it is written in configuration.
    pub fn as_str(&self) -> (s: &'static str)
        ensures
            s@ == (match self {
                OpenTelemetryProtocol::Grpc => "grpc"@,
                OpenTelemetryProtocol::Http => "http"@,
            }),
    {
        match self {
            OpenTelemetryProtocol::Grpc => "grpc",
            OpenTelemetryProtocol::Http => "http",
        }
    }

    pub fn default() -> (r: OpenTelemetryProtocol)
        ensures
            r == OpenTelemetryProtocol::Grpc,
    {
        OpenTelemetryProtocol::Grpc
    }
}

} // verus!
