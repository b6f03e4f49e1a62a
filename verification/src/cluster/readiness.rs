//! When a node counts as ready, and the Raft settings it starts with.
use vstd::prelude::*;

verus! {

/// What readiness depends on. A node is ready once it knows a leader and either is the only
/// node of its cluster or has applied a log entry.
#[derive(Clone, Copy, Debug)]
pub struct RaftReadiness {
    pub ready: bool,
    pub has_applied_log: bool,
    pub is_single_node: bool,
    /// The known leader: its node id and term.
    pub leader: Option<(u128, u64)>,
}

pub open spec fn ready_spec(r: RaftReadiness) -> bool {
    r.leader is Some && (r.is_single_node || r.has_applied_log)
}

impl RaftReadiness {
    /// Readiness always agrees with what it depends on.
    pub open spec fn wf(&self) -> bool {
        self.ready == ready_spec(*self)
    }

    pub fn new() -> (r: RaftReadiness)
        ensures
            r.wf(),
            !r.ready,
            !r.has_applied_log,
            !r.is_single_node,
            r.leader is None,
    {
        RaftReadiness { ready: false, has_applied_log: false, is_single_node: false, leader: None }
    }

    /// Brings `ready` up to date; returns the new value where it changed, to be published.
    fn recompute_ready(&mut self) -> (changed: Option<bool>)
        ensures
            final(self).wf(),
            final(self).has_applied_log == old(self).has_applied_log,
            final(self).is_single_node == old(self).is_single_node,
            final(self).leader == old(self).leader,
            changed == (if ready_spec(*old(self)) != old(self).ready {
                Some(ready_spec(*old(self)))
            } else {
                None::<bool>
            }),
    {
        let new_ready = self.leader.is_some() && (self.is_single_node || self.has_applied_log);
        if new_ready != self.ready {
            self.ready = new_ready;
            Some(new_ready)
        } else {
            None
        }
    }

    /// The state machine applied its first log entry.
    pub fn record_first_applied_log(&mut self) -> (changed: Option<bool>)
        requires
            old(self).wf(),
        ensures
            final(self).wf(),
            final(self).has_applied_log,
            final(self).is_single_node == old(self).is_single_node,
            final(self).leader == old(self).leader,
            changed == (if final(self).ready != old(self).ready { Some(final(self).ready) } else { None::<bool> }),
    {
        self.has_applied_log = true;
        self.recompute_ready()
    }

    /// A leader was elected.
    pub fn set_leader(&mut self, node: u128, term: u64) -> (changed: Option<bool>)
        requires
            old(self).wf(),
        ensures
            final(self).wf(),
            final(self).leader == Some((node, term)),
            final(self).has_applied_log == old(self).has_applied_log,
            final(self).is_single_node == old(self).is_single_node,
            changed == (if final(self).ready != old(self).ready { Some(final(self).ready) } else { None::<bool> }),
    {
        self.leader = Some((node, term));
        self.recompute_ready()
    }

    /// Whether the cluster has this node alone, as found when Raft started.
    pub fn set_single_node(&mut self, single: bool) -> (changed: Option<bool>)
        requires
            old(self).wf(),
        ensures
            final(self).wf(),
            final(self).is_single_node == single,
            final(self).leader == old(self).leader,
            final(self).has_applied_log == old(self).has_applied_log,
            changed == (if final(self).ready != old(self).ready { Some(final(self).ready) } else { None::<bool> }),
    {
        self.is_single_node = single;
        self.recompute_ready()
    }
}

/// Once ready, a node stays ready through any further leader change or applied log.
pub proof fn lemma_ready_is_stable(r: RaftReadiness, node: u128, term: u64)
    requires
        r.wf(),
        r.ready,
    ensures
        ready_spec(RaftReadiness { leader: Some((node, term)), ..r }),
        ready_spec(RaftReadiness { has_applied_log: true, ..r }),
{
}

/// The settings that Raft runs with, from the cluster configuration (times in
/// milliseconds). Snapshots are never taken by Raft on its own: the node's snapshot job
/// decides.
#[derive(Debug)]
pub struct RaftSettings {
    pub heartbeat_interval_ms: u64,
    pub election_timeout_min_ms: u64,
    pub election_timeout_max_ms: u64,
    pub cluster_name: String,
    pub replication_lag_threshold: u64,
    pub snapshot_policy_never: bool,
    pub send_snapshot_timeout_ms: u64,
    pub install_snapshot_timeout_ms: u64,
}

pub fn raft_settings(
    heartbeat_interval_ms: u64,
    election_timeout_min_ms: u64,
    election_timeout_max_ms: u64,
    cluster_name: String,
    replication_lag_threshold: u64,
    send_snapshot_timeout_ms: u64,
) -> (s: RaftSettings)
    ensures
        s.heartbeat_interval_ms == heartbeat_interval_ms,
        s.election_timeout_min_ms == election_timeout_min_ms,
        s.election_timeout_max_ms == election_timeout_max_ms,
        s.cluster_name@ == cluster_name@,
        s.replication_lag_threshold == replication_lag_threshold,
        s.snapshot_policy_never,
        s.send_snapshot_timeout_ms == send_snapshot_timeout_ms,
        s.install_snapshot_timeout_ms == send_snapshot_timeout_ms,
{
    RaftSettings {
        heartbeat_interval_ms,
        election_timeout_min_ms,
        election_timeout_max_ms,
        cluster_name,
        replication_lag_threshold,
        snapshot_policy_never: true,
        send_snapshot_timeout_ms,
        install_snapshot_timeout_ms: send_snapshot_timeout_ms,
    }
}

/// How initializing a cluster ended.
#[derive(Clone, Copy, Debug, PartialEq, Eq, Structural)]
pub enum InitializeOutcome {
    Initialized,
    /// Raft refused: the node already holds a cluster.
    NotAllowed,
    Failed,
}

/// The error text for a cluster that was initialized before; other failures pass on their
/// own error.
pub fn initialize_error(o: InitializeOutcome) -> (r: Option<&'static str>)
    ensures
        r matches Some(s) ==> o == InitializeOutcome::NotAllowed && s@ == "cluster already initialized"@,
        r is None <==> o != InitializeOutcome::NotAllowed,
{
    match o {
        InitializeOutcome::NotAllowed => Some("cluster already initialized"),
        _ => None,
    }
}

} // verus!
