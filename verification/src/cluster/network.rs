//! Requests between the nodes of a cluster: what each way a request can end is recorded
//! and returned as, and how a node finds the address it is reached at.
use vstd::prelude::*;

use crate::metrics::ClusterRequestStatus;

verus! {

/// The requests that nodes send each other.
#[derive(Clone, Copy, Debug, PartialEq, Eq, Structural)]
pub enum RpcKind {
    ForwardedWrite,
    AddLearner,
    UpgradeLearner,
    RemoveNode,
    GoAway,
    LastId,
    AppendEntries,
    Vote,
    StreamSnapshot,
    TransferLeader,
}

pub open spec fn rpc_path(k: RpcKind) -> Seq<char> {
    match k {
        RpcKind::ForwardedWrite => "/repl/raft/handle-forwarded-write"@,
        RpcKind::AddLearner => "/repl/raft/admin/add-learner"@,
        RpcKind::UpgradeLearner => "/repl/raft/admin/upgrade-learner"@,
        RpcKind::RemoveNode => "/repl/raft/admin/remove-node"@,
        RpcKind::GoAway => "/repl/raft/go-away"@,
        RpcKind::LastId => "/repl/raft/last-id"@,
        RpcKind::AppendEntries => "/repl/raft/append_entries"@,
        RpcKind::Vote => "/repl/raft/vote"@,
        RpcKind::StreamSnapshot => "/repl/raft/stream-snapshot"@,
        RpcKind::TransferLeader => "/repl/raft/transfer_leader"@,
    }
}

impl RpcKind {
    /// The path that the request is posted to.
    pub fn path(self) -> (p: &'static str)
        ensures
            p@ == rpc_path(self),
    {
        match self {
            RpcKind::ForwardedWrite => "/repl/raft/handle-forwarded-write",
            RpcKind::AddLearner => "/repl/raft/admin/add-learner",
            RpcKind::UpgradeLearner => "/repl/raft/admin/upgrade-learner",
            RpcKind::RemoveNode => "/repl/raft/admin/remove-node",
            RpcKind::GoAway => "/repl/raft/go-away",
            RpcKind::LastId => "/repl/raft/last-id",
            RpcKind::AppendEntries => "/repl/raft/append_entries",
            RpcKind::Vote => "/repl/raft/vote",
            RpcKind::StreamSnapshot => "/repl/raft/stream-snapshot",
            RpcKind::TransferLeader => "/repl/raft/transfer_leader",
        }
    }

    /// Raft's own requests carry Raft's time limit; the others wait up to a minute.
    pub fn uses_raft_timeout(self) -> (b: bool)
        ensures
            b == (self == RpcKind::AppendEntries || self == RpcKind::Vote || self == RpcKind::StreamSnapshot
                || self == RpcKind::TransferLeader),
    {
        match self {
            RpcKind::AppendEntries | RpcKind::Vote | RpcKind::StreamSnapshot | RpcKind::TransferLeader => true,
            _ => false,
        }
    }
}

/// Seconds that a request other than Raft's own may take.
pub const DEFAULT_RPC_TIMEOUT_SECS: u64 = 60;

/// How far a request got.
#[derive(Clone, Copy, Debug, PartialEq, Eq, Structural)]
pub enum RpcStage {
    /// The target node has no address.
    NoAddress,
    /// The request could not be encoded.
    SerializationFailed,
    /// The shared secret is not a valid header value.
    BadSecret,
    /// Sending failed: by a timeout, or while connecting, or otherwise.
    SendFailed { timeout: bool, connect: bool },
    /// A response came, with this status; `body_ok` says whether its body could be read.
    Responded { status: u16, body_ok: bool },
}

/// What a failed request is returned as.
#[derive(Clone, Copy, Debug, PartialEq, Eq, Structural)]
pub enum RpcError {
    /// The node could not be reached: Raft may back off from it.
    Unreachable,
    /// Something went wrong on the way.
    Network,
    /// The node answered with an error of its own.
    Remote,
}

/// What is recorded of a request, and what it is returned as.
#[derive(Clone, Copy, Debug)]
pub struct RpcOutcome {
    /// Recorded as a request to a node without an address.
    pub unaddressed: bool,
    /// The status that the request metric is recorded with, if one is.
    pub metric: Option<ClusterRequestStatus>,
    pub result: Result<(), RpcError>,
}

pub open spec fn rpc_outcome_spec(stage: RpcStage) -> RpcOutcome {
    match stage {
        RpcStage::NoAddress => RpcOutcome { unaddressed: true, metric: None, result: Err(RpcError::Unreachable) },
        RpcStage::SerializationFailed => RpcOutcome {
            unaddressed: false,
            metric: Some(ClusterRequestStatus::SerializationError),
            result: Err(RpcError::Network),
        },
        RpcStage::BadSecret => RpcOutcome { unaddressed: false, metric: None, result: Err(RpcError::Network) },
        RpcStage::SendFailed { timeout, connect } => RpcOutcome {
            unaddressed: false,
            metric: Some(
                if timeout {
                    ClusterRequestStatus::TimeoutError
                } else if connect {
                    ClusterRequestStatus::ConnectError
                } else {
                    ClusterRequestStatus::OtherError
                },
            ),
            result: Err(if connect { RpcError::Unreachable } else { RpcError::Network }),
        },
        RpcStage::Responded { status, body_ok } => if 200 <= status <= 299 {
            if body_ok {
                RpcOutcome { unaddressed: false, metric: Some(ClusterRequestStatus::Success), result: Ok(()) }
            } else {
                RpcOutcome {
                    unaddressed: false,
                    metric: Some(ClusterRequestStatus::DeserializationError),
                    result: Err(RpcError::Network),
                }
            }
        } else if status == 500 {
            if body_ok {
                RpcOutcome { unaddressed: false, metric: Some(ClusterRequestStatus::OtherError), result: Err(RpcError::Remote) }
            } else {
                RpcOutcome {
                    unaddressed: false,
                    metric: Some(ClusterRequestStatus::DeserializationError),
                    result: Err(RpcError::Network),
                }
            }
        } else {
            RpcOutcome { unaddressed: false, metric: Some(ClusterRequestStatus::OtherError), result: Err(RpcError::Network) }
        },
    }
}

/// A 2xx response with a readable body succeeds; a 500 with a readable body is the node's
/// own error; a connection failure makes the node unreachable; anything else is a network
/// error.
pub fn rpc_outcome(stage: RpcStage) -> (o: RpcOutcome)
    ensures
        o == rpc_outcome_spec(stage),
{
    match stage {
        RpcStage::NoAddress => RpcOutcome { unaddressed: true, metric: None, result: Err(RpcError::Unreachable) },
        RpcStage::SerializationFailed => RpcOutcome {
            unaddressed: false,
            metric: Some(ClusterRequestStatus::SerializationError),
            result: Err(RpcError::Network),
        },
        RpcStage::BadSecret => RpcOutcome { unaddressed: false, metric: None, result: Err(RpcError::Network) },
        RpcStage::SendFailed { timeout, connect } => {
            let status = if timeout {
                ClusterRequestStatus::TimeoutError
            } else if connect {
                ClusterRequestStatus::ConnectError
            } else {
                ClusterRequestStatus::OtherError
            };
            RpcOutcome {
                unaddressed: false,
                metric: Some(status),
                result: Err(if connect { RpcError::Unreachable } else { RpcError::Network }),
            }
        },
        RpcStage::Responded { status, body_ok } => {
            if 200 <= status && status <= 299 {
                if body_ok {
                    RpcOutcome { unaddressed: false, metric: Some(ClusterRequestStatus::Success), result: Ok(()) }
                } else {
                    RpcOutcome {
                        unaddressed: false,
                        metric: Some(ClusterRequestStatus::DeserializationError),
                        result: Err(RpcError::Network),
                    }
                }
            } else if status == 500 {
                if body_ok {
                    RpcOutcome {
                        unaddressed: false,
                        metric: Some(ClusterRequestStatus::OtherError),
                        result: Err(RpcError::Remote),
                    }
                } else {
                    RpcOutcome {
                        unaddressed: false,
                        metric: Some(ClusterRequestStatus::DeserializationError),
                        result: Err(RpcError::Network),
                    }
                }
            } else {
                RpcOutcome {
                    unaddressed: false,
                    metric: Some(ClusterRequestStatus::OtherError),
                    result: Err(RpcError::Network),
                }
            }
        },
    }
}

/// Where a node takes the address that others reach it at.
#[derive(Clone, Copy, Debug, PartialEq, Eq, Structural)]
pub enum AddressSource {
    /// The configured advertised address.
    Advertised,
    /// The cluster listen address, which names a host.
    ListenAddress,
    /// The seed node that answered with this node's id.
    Seed,
    /// The first usable local interface.
    Interfaces,
}

/// The configured address wins; then a listen address that is not the unspecified one;
/// then a seed that turns out to be this node; then the local interfaces.
pub fn address_source(has_advertised: bool, listen_is_unspecified: bool, found_among_seeds: bool) -> (s: AddressSource)
    ensures
        s == (if has_advertised {
            AddressSource::Advertised
        } else if !listen_is_unspecified {
            AddressSource::ListenAddress
        } else if found_among_seeds {
            AddressSource::Seed
        } else {
            AddressSource::Interfaces
        }),
{
    if has_advertised {
        AddressSource::Advertised
    } else if !listen_is_unspecified {
        AddressSource::ListenAddress
    } else if found_among_seeds {
        AddressSource::Seed
    } else {
        AddressSource::Interfaces
    }
}

/// A local network interface, as far as choosing an address needs it.
#[derive(Clone, Copy, Debug, PartialEq, Eq, Structural)]
pub struct InterfaceInfo {
    pub up: bool,
    pub loopback: bool,
    pub has_ipv4: bool,
}

pub open spec fn usable_interface(i: InterfaceInfo) -> bool {
    i.up && !i.loopback && i.has_ipv4
}

/// The first interface that is up, not the loopback one, and has an IPv4 address.
pub fn pick_interface(interfaces: &Vec<InterfaceInfo>) -> (r: Option<usize>)
    ensures
        r matches Some(k) ==> k < interfaces@.len() && usable_interface(interfaces@[k as int]) && forall|j: int|
            0 <= j < k ==> !usable_interface(#[trigger] interfaces@[j]),
        r is None ==> forall|j: int| 0 <= j < interfaces@.len() ==> !usable_interface(#[trigger] interfaces@[j]),
{
    let mut i: usize = 0;
    while i < interfaces.len()
        invariant
            i <= interfaces@.len(),
            forall|j: int| 0 <= j < i ==> !usable_interface(#[trigger] interfaces@[j]),
        decreases interfaces@.len() - i,
    {
        let f = interfaces[i];
        if f.up && !f.loopback && f.has_ipv4 {
            return Some(i);
        }
        i = i + 1;
    }
    None
}

/// The first seed, in order, that answered with this node's id; seeds that did not answer
/// (`None`) are skipped.
pub fn seed_of_self(answers: &Vec<Option<u128>>, me: u128) -> (r: Option<usize>)
    ensures
        r matches Some(k) ==> k < answers@.len() && answers@[k as int] == Some(me) && forall|j: int|
            0 <= j < k ==> #[trigger] answers@[j] != Some(me),
        r is None ==> forall|j: int| 0 <= j < answers@.len() ==> #[trigger] answers@[j] != Some(me),
{
    let mut i: usize = 0;
    while i < answers.len()
        invariant
            i <= answers@.len(),
            forall|j: int| 0 <= j < i ==> #[trigger] answers@[j] != Some(me),
        decreases answers@.len() - i,
    {
        match answers[i] {
            Some(id) => if id == me {
                return Some(i);
            },
            None => {},
        }
        i = i + 1;
    }
    None
}

} // verus!
