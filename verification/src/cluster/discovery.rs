//! Decisions of cluster discovery: which answering seed is this node itself, whether to
//! start a new cluster or join a running one, and which peer to join through.
use vstd::prelude::*;

verus! {

/// What a seed node said about the cluster it is in.
#[derive(Clone, Copy, Debug, PartialEq, Eq, Structural)]
pub struct ClusterInfo {
    pub cluster_id: Option<u128>,
    pub last_committed_index: Option<u64>,
    pub is_leader: bool,
}

/// A seed node's answer to discovery.
#[derive(Clone, Copy, Debug, PartialEq, Eq, Structural)]
pub struct SeedResponse {
    pub node_id: u128,
    pub cluster: Option<ClusterInfo>,
}

/// The first answer, in seed order, that came from this node itself.
pub fn find_self(responses: &Vec<SeedResponse>, me: u128) -> (r: Option<usize>)
    ensures
        r matches Some(i) ==> i < responses@.len() && responses@[i as int].node_id == me && forall|j: int|
            0 <= j < i ==> (#[trigger] responses@[j]).node_id != me,
        r is None ==> forall|j: int| 0 <= j < responses@.len() ==> (#[trigger] responses@[j]).node_id != me,
{
    let mut i: usize = 0;
    while i < responses.len()
        invariant
            i <= responses@.len(),
            forall|j: int| 0 <= j < i ==> (#[trigger] responses@[j]).node_id != me,
        decreases responses@.len() - i,
    {
        if responses[i].node_id == me {
            return Some(i);
        }
        i = i + 1;
    }
    None
}

/// A seed is in a live cluster when its cluster has committed something.
pub open spec fn is_live(r: SeedResponse) -> bool {
    r.cluster matches Some(c) && c.last_committed_index is Some
}

/// A live seed that also names its cluster can be joined through.
pub open spec fn is_joinable(r: SeedResponse) -> bool {
    is_live(r) && r.cluster->0.cluster_id is Some
}

pub open spec fn live_count(rs: Seq<SeedResponse>) -> nat
    decreases rs.len(),
{
    if rs.len() == 0 {
        0
    } else {
        live_count(rs.drop_last()) + if is_live(rs.last()) { 1nat } else { 0 }
    }
}

/// Positions of the joinable seeds, in order.
pub open spec fn joinable_positions(rs: Seq<SeedResponse>) -> Seq<int>
    decreases rs.len(),
{
    if rs.len() == 0 {
        Seq::empty()
    } else if is_joinable(rs.last()) {
        joinable_positions(rs.drop_last()).push(rs.len() - 1)
    } else {
        joinable_positions(rs.drop_last())
    }
}

/// What a round of discovery decided.
#[derive(Debug)]
pub enum RoundDecision {
    /// Start a new cluster with the seeds that answered.
    Initialize,
    /// Join the one running cluster through these seeds (positions among the answers).
    Join { cluster_id: u128, peers: Vec<usize> },
    /// Poll the seeds again after a pause.
    KeepPolling,
}

/// Rounds without any live cluster after which a new cluster is started.
pub const ROUNDS_BEFORE_INITIALIZING: u32 = 3;

/// One round: with no seed in a live cluster, a new cluster is started after more than
/// three such rounds; with the joinable seeds all in one cluster, that cluster is joined;
/// otherwise discovery goes on. Returns the decision and the count of rounds without peers.
pub fn discovery_round(responses: &Vec<SeedResponse>, rounds_with_no_peers: u32) -> (r: (RoundDecision, u32))
    requires
        rounds_with_no_peers < u32::MAX,
    ensures
        live_count(responses@) == 0 ==> r.1 == rounds_with_no_peers + 1 && (if r.1 > ROUNDS_BEFORE_INITIALIZING {
            r.0 is Initialize
        } else {
            r.0 is KeepPolling
        }),
        live_count(responses@) > 0 ==> r.1 == rounds_with_no_peers && (match r.0 {
            RoundDecision::Join { cluster_id, peers } => {
                &&& peers@.map_values(|p: usize| p as int) == joinable_positions(responses@)
                &&& peers@.len() > 0
                &&& forall|k: int| 0 <= k < peers@.len() ==> (#[trigger] responses@[peers@[k] as int]).cluster->0.cluster_id
                    == Some(cluster_id)
            },
            RoundDecision::KeepPolling => joinable_positions(responses@).len() == 0 || exists|k: int, l: int|
                0 <= k < l < joinable_positions(responses@).len() && #[trigger] responses@[joinable_positions(
                    responses@,
                )[k]].cluster->0.cluster_id != #[trigger] responses@[joinable_positions(responses@)[l]].cluster->0.cluster_id,
            RoundDecision::Initialize => false,
        }),
{
    let mut live: usize = 0;
    let mut peers: Vec<usize> = Vec::new();
    let mut first_id: Option<u128> = None;
    let mut single = true;
    let mut i: usize = 0;
    while i < responses.len()
        invariant
            i <= responses@.len(),
            live == live_count(responses@.subrange(0, i as int)),
            live <= i,
            peers@.map_values(|p: usize| p as int) == joinable_positions(responses@.subrange(0, i as int)),
            forall|k: int| 0 <= k < peers@.len() ==> peers@[k] < i,
            peers@.len() == 0 <==> first_id is None,
            first_id matches Some(f) ==> responses@[peers@[0] as int].cluster->0.cluster_id == Some(f),
            forall|k: int| 0 <= k < peers@.len() ==> is_joinable(#[trigger] responses@[peers@[k] as int]),
            single ==> forall|k: int| 0 <= k < peers@.len() ==> (#[trigger] responses@[peers@[k] as int]).cluster->0.cluster_id == first_id,
            !single ==> exists|k: int, l: int|
                0 <= k < l < peers@.len() && #[trigger] responses@[peers@[k] as int].cluster->0.cluster_id != #[trigger] responses@[peers@[l] as int].cluster->0.cluster_id,
        decreases responses@.len() - i,
    {
        let ghost pre = responses@.subrange(0, i + 1);
        assert(pre.drop_last() =~= responses@.subrange(0, i as int));
        assert(pre.last() == responses@[i as int]);
        let r = responses[i];
        match r.cluster {
            Some(c) => {
                if c.last_committed_index.is_some() {
                    live = live + 1;
                    match c.cluster_id {
                        Some(id) => {
                            let ghost before = peers@;
                            let ghost was_single = single;
                            peers.push(i);
                            assert(peers@.map_values(|p: usize| p as int) =~= before.map_values(|p: usize| p as int).push(
                                i as int,
                            ));
                            proof {
                                if !was_single {
                                    let (k, l) = choose|k: int, l: int|
                                        0 <= k < l < before.len() && #[trigger] responses@[before[k] as int].cluster->0.cluster_id
                                            != #[trigger] responses@[before[l] as int].cluster->0.cluster_id;
                                    assert(peers@[k] == before[k]);
                                    assert(peers@[l] == before[l]);
                                }
                            }
                            match first_id {
                                None => {
                                    first_id = Some(id);
                                },
                                Some(f) => {
                                    if f != id {
                                        if single {
                                            assert(responses@[peers@[0] as int].cluster->0.cluster_id != responses@[peers@[
                                                (peers@.len() - 1) as int] as int].cluster->0.cluster_id);
                                        }
                                        single = false;
                                    }
                                },
                            }
                        },
                        None => {},
                    }
                }
            },
            None => {},
        }
        i = i + 1;
    }
    assert(responses@.subrange(0, responses@.len() as int) =~= responses@);
    let ghost pos = joinable_positions(responses@);
    assert(peers@.len() == pos.len());
    assert forall|k: int| 0 <= k < peers@.len() implies peers@[k] as int == pos[k] by {
        assert(peers@.map_values(|p: usize| p as int)[k] == peers@[k] as int);
    }
    if live == 0 {
        let rounds = rounds_with_no_peers + 1;
        if rounds > ROUNDS_BEFORE_INITIALIZING {
            (RoundDecision::Initialize, rounds)
        } else {
            (RoundDecision::KeepPolling, rounds)
        }
    } else if single && peers.len() > 0 {
        let id = match first_id {
            Some(f) => f,
            None => 0,
        };
        (RoundDecision::Join { cluster_id: id, peers }, rounds_with_no_peers)
    } else {
        proof {
            if !single {
                let (k, l) = choose|k: int, l: int|
                    0 <= k < l < peers@.len() && #[trigger] responses@[peers@[k] as int].cluster->0.cluster_id != #[trigger] responses@[peers@[l] as int].cluster->0.cluster_id;
                assert(pos[k] == peers@[k] as int);
                assert(pos[l] == peers@[l] as int);
            }
        }
        (RoundDecision::KeepPolling, rounds_with_no_peers)
    }
}

/// Why a running cluster could not be joined.
#[derive(Clone, Copy, Debug, PartialEq, Eq, Structural)]
pub enum JoinError {
    /// No peer to join through.
    NoPeers,
    /// The peer joined through has no committed log.
    NoLogs,
}

impl JoinError {
    pub fn message(&self) -> (s: &'static str)
        ensures
            s@ == (match self {
                JoinError::NoPeers => "failed to find any peers to join!"@,
                JoinError::NoLogs => "existing cluster has no logs"@,
            }),
    {
        match self {
            JoinError::NoPeers => "failed to find any peers to join!",
            JoinError::NoLogs => "existing cluster has no logs",
        }
    }
}

/// The peer to join through: the first one that leads its cluster, else the first one.
pub open spec fn join_peer(infos: Seq<ClusterInfo>) -> Option<int> {
    if exists|i: int| 0 <= i < infos.len() && (#[trigger] infos[i]).is_leader {
        Some(choose|i: int| 0 <= i < infos.len() && (#[trigger] infos[i]).is_leader && forall|j: int| 0 <= j < i ==> !(#[trigger] infos[j]).is_leader)
    } else if infos.len() > 0 {
        Some(0)
    } else {
        None
    }
}

/// The peer to join through, and the log index to catch up to before becoming a voter.
pub fn join_target(infos: &Vec<ClusterInfo>) -> (r: Result<(usize, u64), JoinError>)
    ensures
        match r {
            Ok((i, index)) => join_peer(infos@) == Some(i as int) && infos@[i as int].last_committed_index == Some(index),
            Err(JoinError::NoPeers) => join_peer(infos@) is None,
            Err(JoinError::NoLogs) => join_peer(infos@) matches Some(i) && infos@[i].last_committed_index is None,
        },
{
    let mut i: usize = 0;
    while i < infos.len() && !infos[i].is_leader
        invariant
            i <= infos@.len(),
            forall|j: int| 0 <= j < i ==> !(#[trigger] infos@[j]).is_leader,
        decreases infos@.len() - i,
    {
        i = i + 1;
    }
    let chosen: Option<usize> = if i < infos.len() { Some(i) } else { None };
    let pick = match chosen {
        Some(c) => {
            proof {
                let w = choose|k: int| 0 <= k < infos@.len() && (#[trigger] infos@[k]).is_leader && forall|j: int|
                    0 <= j < k ==> !(#[trigger] infos@[j]).is_leader;
                assert(infos@[i as int].is_leader);
                if w < i {
                    assert(!infos@[w].is_leader);
                }
                if w > i {
                    assert(!infos@[i as int].is_leader);
                }
            }
            c
        },
        None => {
            if infos.len() == 0 {
                return Err(JoinError::NoPeers);
            }
            0
        },
    };
    match infos[pick].last_committed_index {
        Some(index) => Ok((pick, index)),
        None => Err(JoinError::NoLogs),
    }
}

/// How discovery begins: with no seed nodes configured, the node starts a cluster of its
/// own at once; otherwise it polls the seeds.
#[derive(Clone, Copy, Debug, PartialEq, Eq, Structural)]
pub enum DiscoveryStart {
    InitializeAlone,
    PollSeeds,
}

pub fn discovery_start(seed_count: usize) -> (r: DiscoveryStart)
    ensures
        r == (if seed_count == 0 { DiscoveryStart::InitializeAlone } else { DiscoveryStart::PollSeeds }),
{
    if seed_count == 0 {
        DiscoveryStart::InitializeAlone
    } else {
        DiscoveryStart::PollSeeds
    }
}

/// Where the address of a founding member comes from.
#[derive(Clone, Copy, Debug, PartialEq, Eq, Structural)]
pub enum MemberSource {
    /// This node's own address.
    ThisNode,
    /// The address of the seed that answered at this position.
    Seed(usize),
}

/// The founding members of a new cluster: this node, then each seed that answered, by node
/// id; a later answer with the same id takes the place of the earlier entry.
pub open spec fn founding_members(my_id: u128, seed_ids: Seq<u128>) -> Map<u128, MemberSource>
    decreases seed_ids.len(),
{
    if seed_ids.len() == 0 {
        map![my_id => MemberSource::ThisNode]
    } else {
        founding_members(my_id, seed_ids.drop_last()).insert(
            seed_ids.last(),
            MemberSource::Seed((seed_ids.len() - 1) as usize),
        )
    }
}

/// No node id occurs twice.
pub open spec fn distinct_ids(v: Seq<(u128, MemberSource)>) -> bool {
    forall|a: int, b: int| 0 <= a < b < v.len() ==> v[a].0 != v[b].0
}

/// The list holds exactly the members of the map, each with its source.
pub open spec fn lists_members(v: Seq<(u128, MemberSource)>, m: Map<u128, MemberSource>) -> bool {
    &&& forall|id: u128| m.dom().contains(id) <==> exists|j: int| 0 <= j < v.len() && #[trigger] v[j].0 == id
    &&& forall|j: int| 0 <= j < v.len() ==> m[#[trigger] v[j].0] == v[j].1
}

/// Starting a cluster: nothing where auto-initialization is off (it must be done by hand);
/// otherwise the founding members, each node id once.
pub fn initial_members(auto_initialize: bool, my_id: u128, seed_ids: &Vec<u128>) -> (r: Option<Vec<(u128, MemberSource)>>)
    ensures
        !auto_initialize <==> r is None,
        r matches Some(v) ==> distinct_ids(v@) && lists_members(v@, founding_members(my_id, seed_ids@)),
{
    if !auto_initialize {
        return None;
    }
    let mut v: Vec<(u128, MemberSource)> = Vec::new();
    v.push((my_id, MemberSource::ThisNode));
    let mut k: usize = 0;
    proof {
        assert(seed_ids@.subrange(0, 0) =~= Seq::<u128>::empty());
        assert(v@[0].0 == my_id);
    }
    while k < seed_ids.len()
        invariant
            k <= seed_ids@.len(),
            forall|a: int, b: int| 0 <= a < b < v@.len() ==> v@[a].0 != v@[b].0,
            forall|id: u128|
                founding_members(my_id, seed_ids@.subrange(0, k as int)).dom().contains(id) <==> exists|j: int|
                    0 <= j < v@.len() && #[trigger] v@[j].0 == id,
            forall|j: int|
                0 <= j < v@.len() ==> founding_members(my_id, seed_ids@.subrange(0, k as int))[#[trigger] v@[j].0]
                    == v@[j].1,
        decreases seed_ids@.len() - k,
    {
        let id = seed_ids[k];
        let ghost before = v@;
        let ghost pre = seed_ids@.subrange(0, k as int);
        let ghost next = seed_ids@.subrange(0, k + 1);
        assert(next.drop_last() =~= pre);
        assert(next.last() == id);
        let ghost m1 = founding_members(my_id, next);
        assert(m1 == founding_members(my_id, pre).insert(id, MemberSource::Seed(k)));
        let mut j: usize = 0;
        while j < v.len() && v[j].0 != id
            invariant
                j <= v@.len(),
                forall|t: int| 0 <= t < j ==> v@[t].0 != id,
            decreases v@.len() - j,
        {
            j = j + 1;
        }
        if j < v.len() {
            v.set(j, (id, MemberSource::Seed(k)));
            proof {
                assert forall|a: int, b: int| 0 <= a < b < v@.len() implies v@[a].0 != v@[b].0 by {
                    assert(v@[a].0 == before[a].0 && v@[b].0 == before[b].0);
                }
                assert forall|x: u128| m1.dom().contains(x) <==> exists|t: int| 0 <= t < v@.len() && #[trigger] v@[t].0 == x by {
                    if m1.dom().contains(x) {
                        if x == id {
                            assert(v@[j as int].0 == x);
                        } else {
                            let t = choose|t: int| 0 <= t < before.len() && #[trigger] before[t].0 == x;
                            assert(v@[t].0 == x);
                        }
                    }
                    if exists|t: int| 0 <= t < v@.len() && #[trigger] v@[t].0 == x {
                        let t = choose|t: int| 0 <= t < v@.len() && #[trigger] v@[t].0 == x;
                        assert(before[t].0 == x);
                    }
                }
                assert forall|t: int| 0 <= t < v@.len() implies m1[#[trigger] v@[t].0] == v@[t].1 by {
                    if t != j {
                        assert(v@[t] == before[t]);
                        assert(before[t].0 != before[j as int].0);
                    }
                }
            }
        } else {
            v.push((id, MemberSource::Seed(k)));
            proof {
                assert forall|a: int, b: int| 0 <= a < b < v@.len() implies v@[a].0 != v@[b].0 by {
                    if b < before.len() {
                        assert(v@[a] == before[a] && v@[b] == before[b]);
                    } else {
                        assert(v@[a] == before[a]);
                    }
                }
                assert forall|x: u128| m1.dom().contains(x) <==> exists|t: int| 0 <= t < v@.len() && #[trigger] v@[t].0 == x by {
                    if m1.dom().contains(x) {
                        if x == id {
                            assert(v@[before.len() as int].0 == x);
                        } else {
                            let t = choose|t: int| 0 <= t < before.len() && #[trigger] before[t].0 == x;
                            assert(v@[t].0 == x);
                        }
                    }
                    if exists|t: int| 0 <= t < v@.len() && #[trigger] v@[t].0 == x {
                        let t = choose|t: int| 0 <= t < v@.len() && #[trigger] v@[t].0 == x;
                        if t < before.len() {
                            assert(before[t].0 == x);
                        }
                    }
                }
                assert forall|t: int| 0 <= t < v@.len() implies m1[#[trigger] v@[t].0] == v@[t].1 by {
                    if t < before.len() {
                        assert(v@[t] == before[t]);
                        assert(before[t].0 != id);
                    }
                }
            }
        }
        k = k + 1;
    }
    assert(seed_ids@.subrange(0, k as int) =~= seed_ids@);
    let ghost full = founding_members(my_id, seed_ids@);
    assert(full == founding_members(my_id, seed_ids@.subrange(0, k as int)));
    assert(distinct_ids(v@));
    assert(lists_members(v@, full));
    Some(v)
}

} // verus!
