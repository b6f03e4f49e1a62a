//! The attributes and classifications that the server's metrics are recorded with.
use vstd::prelude::*;

use crate::cluster::membership::ServerState;

verus! {

/// Which database a measurement is of.
#[derive(Clone, Copy, Debug, PartialEq, Eq, Structural)]
pub enum DbType {
    Persistent,
    Ephemeral,
}

impl DbType {
    /// The attribute key and value that the database type is recorded under.
    pub fn attribute(self) -> (kv: (&'static str, &'static str))
        ensures
            kv.0@ == "db_type"@,
            kv.1@ == (match self {
                DbType::Persistent => "persistent"@,
                DbType::Ephemeral => "ephemeral"@,
            }),
    {
        (
            "db_type",
            match self {
                DbType::Persistent => "persistent",
                DbType::Ephemeral => "ephemeral",
            },
        )
    }
}

/// Whether a write was made on this node or forwarded to the leader.
#[derive(Clone, Copy, Debug, PartialEq, Eq, Structural)]
pub enum WriteType {
    Local,
    Forwarded,
}

impl WriteType {
    /// The attribute key (spelled as the dashboards know it) and value.
    pub fn attribute(self) -> (kv: (&'static str, &'static str))
        ensures
            kv.0@ == "write_ype"@,
            kv.1@ == (match self {
                WriteType::Local => "local"@,
                WriteType::Forwarded => "forwarded"@,
            }),
    {
        (
            "write_ype",
            match self {
                WriteType::Local => "local",
                WriteType::Forwarded => "forwarded",
            },
        )
    }
}

/// Where an accepted connection came from.
#[derive(Clone, Copy, Debug, PartialEq, Eq, Structural)]
pub enum ConnectionType {
    Internal,
    Interserver,
    External,
    Unknown,
}

impl ConnectionType {
    pub fn attribute(self) -> (kv: (&'static str, &'static str))
        ensures
            kv.0@ == "connection_type"@,
            kv.1@ == (match self {
                ConnectionType::Internal => "internal"@,
                ConnectionType::Interserver => "interserver"@,
                ConnectionType::External => "external"@,
                ConnectionType::Unknown => "unknown"@,
            }),
    {
        (
            "connection_type",
            match self {
                ConnectionType::Internal => "internal",
                ConnectionType::Interserver => "interserver",
                ConnectionType::External => "external",
                ConnectionType::Unknown => "unknown",
            },
        )
    }
}

/// The counter that a finished request adds to.
#[derive(Clone, Copy, Debug, PartialEq, Eq, Structural)]
pub enum RequestOutcome {
    Success,
    ServerError,
    ClientError,
}

/// A 2xx status is a success, a 5xx one a server error, anything else a client error.
pub fn classify_status(status: u16) -> (o: RequestOutcome)
    ensures
        o == (if 200 <= status <= 299 {
            RequestOutcome::Success
        } else if 500 <= status <= 599 {
            RequestOutcome::ServerError
        } else {
            RequestOutcome::ClientError
        }),
{
    if 200 <= status && status <= 299 {
        RequestOutcome::Success
    } else if 500 <= status && status <= 599 {
        RequestOutcome::ServerError
    } else {
        RequestOutcome::ClientError
    }
}

/// The gauge that records a node's role; learners and stopped nodes have none.
#[derive(Clone, Copy, Debug, PartialEq, Eq, Structural)]
pub enum StateGauge {
    Leader,
    Follower,
    Candidate,
}

pub fn state_gauge(state: ServerState) -> (g: Option<StateGauge>)
    ensures
        g == (match state {
            ServerState::Leader => Some(StateGauge::Leader),
            ServerState::Follower => Some(StateGauge::Follower),
            ServerState::Candidate => Some(StateGauge::Candidate),
            _ => None,
        }),
{
    match state {
        ServerState::Leader => Some(StateGauge::Leader),
        ServerState::Follower => Some(StateGauge::Follower),
        ServerState::Candidate => Some(StateGauge::Candidate),
        _ => None,
    }
}

/// How a request to another node of the cluster ended, as its metrics record it.
#[derive(Clone, Copy, Debug, PartialEq, Eq, Structural)]
pub enum ClusterRequestStatus {
    Success,
    SerializationError,
    TimeoutError,
    ConnectError,
    OtherError,
    DeserializationError,
}

} // verus!
