//! Small values that the nodes of a cluster exchange.
use vstd::prelude::*;

verus! {

/// A response from the consensus system was of another module than the request.
#[derive(Clone, Copy, Debug, PartialEq, Eq, Structural)]
pub enum ResponseParseError {
    InvalidVariant,
}

impl ResponseParseError {
    /// The error's name, as it is displayed.
    pub fn text(&self) -> (s: &'static str)
        ensures
            s@ == "InvalidVariant"@,
    {
        "InvalidVariant"
    }

    pub fn description(&self) -> (s: &'static str)
        ensures
            s@ == "Invalid response from consensus system"@,
    {
        "Invalid response from consensus system"
    }
}

/// A command for the jobs that run on every node.
#[derive(Clone, Copy, Debug, PartialEq, Eq, Structural)]
pub enum BackgroundCommand {
    /// Take a snapshot now.
    Snapshot,
}

/// The response to a request of the cluster itself.
#[derive(Clone, Copy, Debug, PartialEq, Eq, Structural)]
pub enum InternalResponse {
    Done,
}

/// Records which log index was reached at the time of the request, so that logs can later
/// be purged by age.
#[derive(Clone, Copy, Debug, PartialEq, Eq, Structural)]
pub struct RecordLogTimestampOperation {}

/// Does nothing but write an entry to the log, so that the clocks of the nodes advance.
#[derive(Clone, Copy, Debug, PartialEq, Eq, Structural)]
pub struct TickOperation {}

/// Asks a node for the last log id it committed.
#[derive(Clone, Copy, Debug, PartialEq, Eq, Structural)]
pub struct LastIdRequest {}

/// The module that a request to the consensus system is for.
#[derive(Clone, Copy, Debug, PartialEq, Eq, Structural)]
pub enum RequestModule {
    ClusterInternal,
    Kv,
    RateLimit,
    Idempotency,
    Cache,
    Msgs,
}

pub open spec fn module_name(m: RequestModule) -> Seq<char> {
    match m {
        RequestModule::Cache => "cache"@,
        RequestModule::ClusterInternal => "cluster-internal"@,
        RequestModule::Idempotency => "idempotency"@,
        RequestModule::Kv => "kv"@,
        RequestModule::Msgs => "msgs"@,
        RequestModule::RateLimit => "rate-limit"@,
    }
}

pub open spec fn module_display(m: RequestModule) -> Seq<char> {
    match m {
        RequestModule::ClusterInternal => "cluster_internal"@,
        RequestModule::Kv => "kv"@,
        RequestModule::RateLimit => "ratelimiter"@,
        RequestModule::Idempotency => "idempotency"@,
        RequestModule::Cache => "cache"@,
        RequestModule::Msgs => "msgs"@,
    }
}

impl RequestModule {
    /// The module's name in metrics and traces.
    pub fn module(self) -> (s: &'static str)
        ensures
            s@ == module_name(self),
    {
        match self {
            RequestModule::Cache => "cache",
            RequestModule::ClusterInternal => "cluster-internal",
            RequestModule::Idempotency => "idempotency",
            RequestModule::Kv => "kv",
            RequestModule::Msgs => "msgs",
            RequestModule::RateLimit => "rate-limit",
        }
    }

    /// The module's name where a request is displayed.
    pub fn display_name(self) -> (s: &'static str)
        ensures
            s@ == module_display(self),
    {
        match self {
            RequestModule::ClusterInternal => "cluster_internal",
            RequestModule::Kv => "kv",
            RequestModule::RateLimit => "ratelimiter",
            RequestModule::Idempotency => "idempotency",
            RequestModule::Cache => "cache",
            RequestModule::Msgs => "msgs",
        }
    }

    /// Whether requests of this module carry a key that they can be traced by.
    pub fn has_hashed_key(self) -> (b: bool)
        ensures
            b == (self != RequestModule::ClusterInternal),
    {
        match self {
            RequestModule::ClusterInternal => false,
            _ => true,
        }
    }
}

/// A response from the consensus system is turned into the response of a cluster-internal
/// request only where it is one.
pub fn internal_response(module: RequestModule, response: InternalResponse) -> (r: Result<InternalResponse, ResponseParseError>)
    ensures
        r == (if module == RequestModule::ClusterInternal {
            Ok::<InternalResponse, ResponseParseError>(response)
        } else {
            Err(ResponseParseError::InvalidVariant)
        }),
{
    match module {
        RequestModule::ClusterInternal => Ok(response),
        _ => Err(ResponseParseError::InvalidVariant),
    }
}

/// An inclusive range of the feature versions that a node supports.
#[derive(Clone, Copy, Debug, PartialEq, Eq, Structural)]
pub struct VersionRange {
    pub min: u64,
    pub max: u64,
}

impl VersionRange {
    pub fn new(min: u64, max: u64) -> (r: VersionRange)
        ensures
            r.min == min,
            r.max == max,
    {
        VersionRange { min, max }
    }

    /// The versions that this build can operate at.
    pub fn supported() -> (r: VersionRange)
        ensures
            r.min == 0,
            r.max == 0,
    {
        VersionRange { min: 0, max: 0 }
    }

    /// Whether a node with this range can operate at feature version `v`.
    pub fn includes(&self, v: u64) -> (b: bool)
        ensures
            b == (self.min <= v <= self.max),
    {
        self.min <= v && v <= self.max
    }
}

} // verus!
