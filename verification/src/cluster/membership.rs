//! Decisions about the node's place in the cluster: whether it is up, where writes and
//! linearizable reads go, removing a node, and the request that tells a node to leave.
use vstd::prelude::*;

verus! {

/// The Raft role of a node.
#[derive(Clone, Copy, Debug, PartialEq, Eq, Structural)]
pub enum ServerState {
    Learner,
    Follower,
    Candidate,
    Leader,
    Shutdown,
}

pub open spec fn is_up_spec(state: Option<ServerState>, leader: Option<u128>, members: Seq<u128>) -> bool {
    match state {
        None => false,
        Some(ServerState::Leader) => true,
        Some(ServerState::Learner) => false,
        Some(_) => leader matches Some(l) && members.contains(l),
    }
}

/// A node is up when it leads; a learner never is; any other node is once it knows the
/// leader and the leader's address (the leader is a member it knows). A state that cannot
/// be read (`None`) counts as down.
pub fn is_up(state: Option<ServerState>, leader: Option<u128>, members: &Vec<u128>) -> (b: bool)
    ensures
        b == is_up_spec(state, leader, members@),
{
    match state {
        None => false,
        Some(ServerState::Leader) => true,
        Some(ServerState::Learner) => false,
        Some(_) => match leader {
            None => false,
            Some(l) => contains_id(members, l),
        },
    }
}

fn contains_id(v: &Vec<u128>, x: u128) -> (b: bool)
    ensures
        b == v@.contains(x),
{
    let mut i: usize = 0;
    while i < v.len()
        invariant
            i <= v@.len(),
            forall|j: int| 0 <= j < i ==> v@[j] != x,
        decreases v@.len() - i,
    {
        if v[i] == x {
            assert(v@[i as int] == x);
            return true;
        }
        i = i + 1;
    }
    false
}

/// Whether a node starting up has to discover its cluster: only where it holds no
/// committed log and knows no member.
pub fn needs_discovery(has_committed: bool, member_count: usize) -> (b: bool)
    ensures
        b == (!has_committed && member_count == 0),
{
    !has_committed && member_count == 0
}

/// Why a node refused to leave its cluster.
#[derive(Clone, Copy, Debug, PartialEq, Eq, Structural)]
pub enum GoAwayRefusal {
    /// The request names another node.
    WrongNode,
    /// This node is in no cluster.
    NotClustered,
    /// The request names another cluster.
    WrongCluster,
}

impl GoAwayRefusal {
    /// The code of the bad-request error.
    pub fn code(&self) -> (s: &'static str)
        ensures
            s@ == (match self {
                GoAwayRefusal::NotClustered => "invalid cluster_id"@,
                _ => "invalid node_id"@,
            }),
    {
        match self {
            GoAwayRefusal::NotClustered => "invalid cluster_id",
            _ => "invalid node_id",
        }
    }

    pub fn message(&self) -> (s: &'static str)
        ensures
            s@ == (match self {
                GoAwayRefusal::WrongNode => "Received a GO-AWAY request for the wrong node"@,
                GoAwayRefusal::NotClustered => "Received a GO-AWAY request but we are not in a cluster"@,
                GoAwayRefusal::WrongCluster => "Received a GO-AWAY request for the wrong cluster"@,
            }),
    {
        match self {
            GoAwayRefusal::WrongNode => "Received a GO-AWAY request for the wrong node",
            GoAwayRefusal::NotClustered => "Received a GO-AWAY request but we are not in a cluster",
            GoAwayRefusal::WrongCluster => "Received a GO-AWAY request for the wrong cluster",
        }
    }
}

/// A node leaves (and poisons its store) only on a request for itself and its own cluster.
pub fn check_go_away(me: u128, our_cluster: Option<u128>, cluster_id: u128, node_id: u128) -> (r: Result<(), GoAwayRefusal>)
    ensures
        r == (if node_id != me {
            Err::<(), GoAwayRefusal>(GoAwayRefusal::WrongNode)
        } else if our_cluster is None {
            Err(GoAwayRefusal::NotClustered)
        } else if our_cluster != Some(cluster_id) {
            Err(GoAwayRefusal::WrongCluster)
        } else {
            Ok(())
        }),
{
    if node_id != me {
        return Err(GoAwayRefusal::WrongNode);
    }
    match our_cluster {
        None => Err(GoAwayRefusal::NotClustered),
        Some(c) => if c != cluster_id {
            Err(GoAwayRefusal::WrongCluster)
        } else {
            Ok(())
        },
    }
}

/// Where a request that must run on the leader goes.
#[derive(Clone, Copy, Debug, PartialEq, Eq, Structural)]
pub enum LeaderRoute {
    /// This node leads: run it here.
    Here,
    /// Forward it to the leader.
    Forward(u128),
}

/// Why the leader could not be reached.
#[derive(Clone, Copy, Debug, PartialEq, Eq, Structural)]
pub enum LeaderError {
    /// No leader is known, or its address is not.
    UnknownLeader,
}

/// Requests for the leader run here where this node leads, and are forwarded where the
/// leader and its address are known.
pub fn leader_route(leader: Option<u128>, me: u128, leader_address_known: bool) -> (r: Result<LeaderRoute, LeaderError>)
    ensures
        r == (match leader {
            None => Err::<LeaderRoute, LeaderError>(LeaderError::UnknownLeader),
            Some(l) => if l == me {
                Ok(LeaderRoute::Here)
            } else if leader_address_known {
                Ok(LeaderRoute::Forward(l))
            } else {
                Err(LeaderError::UnknownLeader)
            },
        }),
{
    match leader {
        None => Err(LeaderError::UnknownLeader),
        Some(l) => if l == me {
            Ok(LeaderRoute::Here)
        } else if leader_address_known {
            Ok(LeaderRoute::Forward(l))
        } else {
            Err(LeaderError::UnknownLeader)
        },
    }
}

/// What to do with a write that the local Raft refused.
#[derive(Clone, Copy, Debug, PartialEq, Eq, Structural)]
pub enum RefusedWrite {
    /// Forward the write to this leader.
    Forward(u128),
    /// It should go to the leader, but the leader's id is not known.
    MissingLeaderId,
    /// It should go to the leader, but the leader's address is not known.
    MissingLeaderAddress,
    /// Another error: pass it on.
    Fail,
}

/// A refused write is forwarded where Raft names the leader and its address.
pub fn refused_write(forward_to_leader: bool, leader_id: Option<u128>, leader_address_known: bool) -> (r: RefusedWrite)
    ensures
        r == (if !forward_to_leader {
            RefusedWrite::Fail
        } else {
            match leader_id {
                None => RefusedWrite::MissingLeaderId,
                Some(l) => if leader_address_known {
                    RefusedWrite::Forward(l)
                } else {
                    RefusedWrite::MissingLeaderAddress
                },
            }
        }),
{
    if !forward_to_leader {
        return RefusedWrite::Fail;
    }
    match leader_id {
        None => RefusedWrite::MissingLeaderId,
        Some(l) => if leader_address_known {
            RefusedWrite::Forward(l)
        } else {
            RefusedWrite::MissingLeaderAddress
        },
    }
}

/// How a linearizable read is made.
#[derive(Clone, Copy, Debug, PartialEq, Eq, Structural)]
pub enum LinearizableRoute {
    /// This node leads: confirm leadership.
    OnLeader,
    /// Ask this leader for its last committed index and wait to apply it.
    ViaLeader(u128),
}

/// No linearizable read without a leader.
pub fn linearizable_route(leader: Option<u128>, me: u128) -> (r: Option<LinearizableRoute>)
    ensures
        r == (match leader {
            None => None,
            Some(l) => if l == me { Some(LinearizableRoute::OnLeader) } else { Some(LinearizableRoute::ViaLeader(l)) },
        }),
{
    match leader {
        None => None,
        Some(l) => if l == me {
            Some(LinearizableRoute::OnLeader)
        } else {
            Some(LinearizableRoute::ViaLeader(l))
        },
    }
}

/// Why a node could not be removed.
#[derive(Clone, Copy, Debug, PartialEq, Eq, Structural)]
pub enum RemovalError {
    /// This node is in no cluster.
    NullCluster,
    /// The node is neither a voter nor a learner.
    NotAMember,
    /// The node's address is not known.
    NoAddress,
}

impl RemovalError {
    pub fn message(&self) -> (s: &'static str)
        ensures
            s@ == (match self {
                RemovalError::NullCluster => "attempted to remove node from a null cluster"@,
                RemovalError::NotAMember => "node is neither a voter nor a learner"@,
                RemovalError::NoAddress => "wanted to remove a node, but could not find its address"@,
            }),
    {
        match self {
            RemovalError::NullCluster => "attempted to remove node from a null cluster",
            RemovalError::NotAMember => "node is neither a voter nor a learner",
            RemovalError::NoAddress => "wanted to remove a node, but could not find its address",
        }
    }
}

/// How a node is removed: a voter is first made a learner; then the node is removed and
/// told to go away.
#[derive(Clone, Copy, Debug, PartialEq, Eq, Structural)]
pub struct RemovalPlan {
    pub demote_first: bool,
}

pub fn plan_removal(in_cluster: bool, is_voter: bool, is_learner: bool, address_known: bool) -> (r: Result<RemovalPlan, RemovalError>)
    ensures
        r == (if !in_cluster {
            Err::<RemovalPlan, RemovalError>(RemovalError::NullCluster)
        } else if !(is_voter || is_learner) {
            Err(RemovalError::NotAMember)
        } else if !address_known {
            Err(RemovalError::NoAddress)
        } else {
            Ok(RemovalPlan { demote_first: is_voter })
        }),
{
    if !in_cluster {
        Err(RemovalError::NullCluster)
    } else if !(is_voter || is_learner) {
        Err(RemovalError::NotAMember)
    } else if !address_known {
        Err(RemovalError::NoAddress)
    } else {
        Ok(RemovalPlan { demote_first: is_voter })
    }
}

} // verus!
