//! Background jobs: the ones that only the leader runs, the periodic snapshots that every
//! node takes, and the tick that keeps the log moving.
use vstd::prelude::*;

verus! {

/// What a change of leader means for this node's leader-only jobs.
#[derive(Clone, Copy, Debug, PartialEq, Eq, Structural)]
pub enum LeaderMessage {
    StartBeingLeader,
    StopBeingLeader,
}

/// The message for a new leader: start where this node is the leader, stop otherwise.
pub fn leader_message(new_leader: u128, me: u128) -> (m: LeaderMessage)
    ensures
        m == (if new_leader == me { LeaderMessage::StartBeingLeader } else { LeaderMessage::StopBeingLeader }),
{
    if new_leader == me {
        LeaderMessage::StartBeingLeader
    } else {
        LeaderMessage::StopBeingLeader
    }
}

/// How a leader-only job ended.
#[derive(Clone, Copy, Debug, PartialEq, Eq, Structural)]
pub enum JobOutcome {
    /// It returned without error.
    Finished,
    /// A write failed because this node is no longer the leader.
    NotLeader,
    /// It returned another error.
    Failed,
    /// It was aborted.
    Cancelled,
    /// Its task ended abnormally (a panic, say).
    Crashed,
}

/// What the loop of the leader-only jobs was woken by.
#[derive(Clone, Copy, Debug, PartialEq, Eq, Structural)]
pub enum LeaderLoopEvent {
    Message(LeaderMessage),
    /// The leader watch is gone.
    ChannelClosed,
    /// One of the running jobs ended.
    JobEnded(JobOutcome),
    Shutdown,
}

/// What the loop does next.
#[derive(Clone, Copy, Debug, PartialEq, Eq, Structural)]
pub enum LeaderLoopAction {
    /// Start every leader-only job.
    SpawnAll,
    /// Stop every job and check how they ended.
    StopAll,
    /// Keep waiting.
    Continue,
    /// Leave the loop; the jobs are stopped on the way out.
    Exit,
    /// Stop every job and fail with the job's error.
    StopAllAndFail,
    /// Fail with the task's error.
    Fail,
}

/// Whether the leader-only jobs are running.
#[derive(Clone, Copy, Debug, PartialEq, Eq, Structural)]
pub struct LeaderJobs {
    pub spawned: bool,
}

pub open spec fn leader_step_spec(spawned: bool, e: LeaderLoopEvent) -> (bool, LeaderLoopAction) {
    match e {
        LeaderLoopEvent::Message(LeaderMessage::StartBeingLeader) => if spawned {
            (true, LeaderLoopAction::Continue)
        } else {
            (true, LeaderLoopAction::SpawnAll)
        },
        LeaderLoopEvent::Message(LeaderMessage::StopBeingLeader) => if spawned {
            (false, LeaderLoopAction::StopAll)
        } else {
            (false, LeaderLoopAction::Continue)
        },
        LeaderLoopEvent::ChannelClosed => (spawned, LeaderLoopAction::Exit),
        LeaderLoopEvent::JobEnded(o) => match o {
            JobOutcome::Finished => (spawned, LeaderLoopAction::Continue),
            JobOutcome::NotLeader => (spawned, LeaderLoopAction::Exit),
            JobOutcome::Failed => (false, if spawned { LeaderLoopAction::StopAllAndFail } else { LeaderLoopAction::Fail }),
            JobOutcome::Cancelled => (spawned, LeaderLoopAction::Continue),
            JobOutcome::Crashed => (spawned, LeaderLoopAction::Fail),
        },
        LeaderLoopEvent::Shutdown => (spawned, LeaderLoopAction::Exit),
    }
}

impl LeaderJobs {
    pub fn new() -> (j: LeaderJobs)
        ensures
            !j.spawned,
    {
        LeaderJobs { spawned: false }
    }

    /// Takes in one event. Jobs are started once however often leadership is announced,
    /// and stopped only where they run.
    pub fn step(&mut self, event: LeaderLoopEvent) -> (a: LeaderLoopAction)
        ensures
            (final(self).spawned, a) == leader_step_spec(old(self).spawned, event),
    {
        match event {
            LeaderLoopEvent::Message(LeaderMessage::StartBeingLeader) => {
                if self.spawned {
                    LeaderLoopAction::Continue
                } else {
                    self.spawned = true;
                    LeaderLoopAction::SpawnAll
                }
            },
            LeaderLoopEvent::Message(LeaderMessage::StopBeingLeader) => {
                if self.spawned {
                    self.spawned = false;
                    LeaderLoopAction::StopAll
                } else {
                    LeaderLoopAction::Continue
                }
            },
            LeaderLoopEvent::ChannelClosed => LeaderLoopAction::Exit,
            LeaderLoopEvent::JobEnded(o) => match o {
                JobOutcome::Finished => LeaderLoopAction::Continue,
                JobOutcome::NotLeader => LeaderLoopAction::Exit,
                JobOutcome::Failed => {
                    if self.spawned {
                        self.spawned = false;
                        LeaderLoopAction::StopAllAndFail
                    } else {
                        LeaderLoopAction::Fail
                    }
                },
                JobOutcome::Cancelled => LeaderLoopAction::Continue,
                JobOutcome::Crashed => LeaderLoopAction::Fail,
            },
            LeaderLoopEvent::Shutdown => LeaderLoopAction::Exit,
        }
    }

    /// On the way out of the loop: whether jobs are left to stop. None are left after.
    pub fn finish(&mut self) -> (stop: bool)
        ensures
            stop == old(self).spawned,
            !final(self).spawned,
    {
        let stop = self.spawned;
        self.spawned = false;
        stop
    }
}

/// Announcing the same leadership twice asks for no second start or stop.
pub proof fn lemma_leadership_idempotent(spawned: bool, m: LeaderMessage)
    ensures
        leader_step_spec(leader_step_spec(spawned, LeaderLoopEvent::Message(m)).0, LeaderLoopEvent::Message(m)).1
            == LeaderLoopAction::Continue,
{
}

pub open spec fn is_stop_failure(o: JobOutcome) -> bool {
    o == JobOutcome::Failed || o == JobOutcome::Crashed
}

/// Among the outcomes of the jobs being stopped, the first that fails the stop: an error
/// other than losing leadership, or a task that ended abnormally.
pub fn first_stop_failure(outcomes: &Vec<JobOutcome>) -> (r: Option<usize>)
    ensures
        r matches Some(i) ==> i < outcomes@.len() && is_stop_failure(outcomes@[i as int]) && forall|j: int|
            0 <= j < i ==> !is_stop_failure(#[trigger] outcomes@[j]),
        r is None ==> forall|j: int| 0 <= j < outcomes@.len() ==> !is_stop_failure(#[trigger] outcomes@[j]),
{
    let mut i: usize = 0;
    while i < outcomes.len()
        invariant
            i <= outcomes@.len(),
            forall|j: int| 0 <= j < i ==> !is_stop_failure(#[trigger] outcomes@[j]),
        decreases outcomes@.len() - i,
    {
        let o = outcomes[i];
        if o == JobOutcome::Failed || o == JobOutcome::Crashed {
            return Some(i);
        }
        i = i + 1;
    }
    None
}

/// A log id: the leader (term and node) that wrote the entry, and its index.
#[derive(Clone, Copy, Debug, PartialEq, Eq, Structural)]
pub struct LogPosition {
    pub term: u64,
    pub node: u128,
    pub index: u64,
}

/// Which logs a snapshot lets go: those older than a duration, those up to an index, or
/// none.
#[derive(Clone, Copy, Debug, PartialEq, Eq, Structural)]
pub enum PurgeBy {
    OlderThanMillis(u64),
    UpToIndex(u64),
    Nothing,
}

/// What a round of the snapshot job does.
#[derive(Clone, Copy, Debug, PartialEq, Eq, Structural)]
pub enum SnapshotStep {
    /// No reason to snapshot.
    Idle,
    /// A reason, but nothing was committed since the last snapshot and nobody asked.
    Unchanged,
    /// Take a snapshot, purge as given, and answer the request if there is one.
    Take { purge_by: PurgeBy, respond: bool },
}

/// When to snapshot: after some time, or after some number of writes, since the last one;
/// or when asked. A snapshot that nobody asked for is skipped where nothing was committed
/// since the last one.
pub open spec fn snapshot_step_spec(
    after_millis: Option<u64>,
    after_writes: Option<u64>,
    elapsed_millis: u64,
    committed: Option<LogPosition>,
    last: Option<LogPosition>,
    requested: bool,
) -> SnapshotStep {
    let delta: Option<int> = match (committed, last) {
        (Some(a), Some(b)) => Some(a.index - b.index),
        (Some(a), None) => Some(a.index as int),
        _ => None,
    };
    let decided: Option<(PurgeBy, bool)> = if after_millis matches Some(t) && elapsed_millis > t {
        Some((PurgeBy::OlderThanMillis(after_millis->0), false))
    } else if after_writes matches Some(t) && delta matches Some(d) && d > t {
        Some((
            match last {
                Some(l) => PurgeBy::UpToIndex(l.index),
                None => PurgeBy::Nothing,
            },
            false,
        ))
    } else if requested {
        Some((PurgeBy::Nothing, true))
    } else {
        None
    };
    match decided {
        None => SnapshotStep::Idle,
        Some((purge_by, respond)) => if committed == last && !respond {
            SnapshotStep::Unchanged
        } else {
            SnapshotStep::Take { purge_by, respond }
        },
    }
}

pub fn snapshot_step(
    after_millis: Option<u64>,
    after_writes: Option<u64>,
    elapsed_millis: u64,
    committed: Option<LogPosition>,
    last: Option<LogPosition>,
    requested: bool,
) -> (s: SnapshotStep)
    requires
        committed matches Some(a) && last matches Some(b) ==> a.index >= b.index,
    ensures
        s == snapshot_step_spec(after_millis, after_writes, elapsed_millis, committed, last, requested),
{
    let delta: Option<u64> = match (committed, last) {
        (Some(a), Some(b)) => Some(a.index - b.index),
        (Some(a), None) => Some(a.index),
        _ => None,
    };
    let by_time = match after_millis {
        Some(t) => elapsed_millis > t,
        None => false,
    };
    let by_writes = match (after_writes, delta) {
        (Some(t), Some(d)) => d > t,
        _ => false,
    };
    let (purge_by, respond) = if by_time {
        (PurgeBy::OlderThanMillis(after_millis.unwrap()), false)
    } else if by_writes {
        (
            match last {
                Some(l) => PurgeBy::UpToIndex(l.index),
                None => PurgeBy::Nothing,
            },
            false,
        )
    } else if requested {
        (PurgeBy::Nothing, true)
    } else {
        return SnapshotStep::Idle;
    };
    if committed == last && !respond {
        SnapshotStep::Unchanged
    } else {
        SnapshotStep::Take { purge_by, respond }
    }
}

/// Why a node does not snapshot.
#[derive(Clone, Copy, Debug, PartialEq, Eq, Structural)]
pub enum SnapshotRefusal {
    NothingCommitted,
    Learner,
    LoadingSnapshot,
}

/// A node snapshots only once something is committed, as a voter, and not while it loads
/// another snapshot.
pub fn may_snapshot(has_committed: bool, is_learner: bool, loading_snapshot: bool) -> (r: Result<(), SnapshotRefusal>)
    ensures
        r == (if !has_committed {
            Err::<(), SnapshotRefusal>(SnapshotRefusal::NothingCommitted)
        } else if is_learner {
            Err(SnapshotRefusal::Learner)
        } else if loading_snapshot {
            Err(SnapshotRefusal::LoadingSnapshot)
        } else {
            Ok(())
        }),
{
    if !has_committed {
        Err(SnapshotRefusal::NothingCommitted)
    } else if is_learner {
        Err(SnapshotRefusal::Learner)
    } else if loading_snapshot {
        Err(SnapshotRefusal::LoadingSnapshot)
    } else {
        Ok(())
    }
}

/// The index up to which logs are purged after a snapshot: the one given, or the last one
/// recorded before the age limit, where one was found.
pub fn purge_offset(purge_by: PurgeBy, index_before_cutoff: Option<u64>) -> (r: Option<u64>)
    ensures
        r == (match purge_by {
            PurgeBy::OlderThanMillis(_) => index_before_cutoff,
            PurgeBy::UpToIndex(i) => Some(i),
            PurgeBy::Nothing => None,
        }),
{
    match purge_by {
        PurgeBy::OlderThanMillis(_) => index_before_cutoff,
        PurgeBy::UpToIndex(i) => Some(i),
        PurgeBy::Nothing => None,
    }
}

/// How far the local clock may run ahead of the log's before a tick is written, in
/// nanoseconds.
pub const TICK_THRESHOLD_NANOS: i128 = 250_000_000;

/// A tick is written once the clock has run more than the threshold ahead of the log.
pub fn tick_due(offset_nanos: i128) -> (b: bool)
    ensures
        b == (offset_nanos > TICK_THRESHOLD_NANOS),
{
    offset_nanos > TICK_THRESHOLD_NANOS
}

} // verus!
