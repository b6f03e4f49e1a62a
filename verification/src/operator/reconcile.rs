//! The order of one reconcile of a DiomCluster, as a step function: the caller performs
//! each piece of work against the cluster's API and reports whether it succeeded.
use vstd::prelude::*;

verus! {

/// A piece of work of a reconcile, each against the cluster's API.
#[derive(Clone, Copy, Debug, PartialEq, Eq, Structural)]
pub enum ReconcileWork {
    Services,
    StatefulSet,
    Pvcs,
    Pdb,
    UpdateStatus,
}

/// What the controller is told to do after a reconcile.
#[derive(Clone, Copy, Debug, PartialEq, Eq, Structural)]
pub enum ReconcileAction {
    /// Wait until the cluster changes.
    AwaitChange,
    /// Reconcile again after this many milliseconds.
    Requeue { interval_ms: u64 },
}

/// What to do next in a reconcile.
#[derive(Clone, Copy, Debug, PartialEq, Eq, Structural)]
pub enum ReconcileStep {
    /// Perform this piece of work and report whether it succeeded.
    Perform(ReconcileWork),
    /// Record the failure in the cluster's status, then end the reconcile with the error.
    MarkFailed,
    /// End the reconcile with this action.
    Finish(ReconcileAction),
}

/// The work that follows a piece of work, if any: services, the StatefulSet, its
/// volume claims, the disruption budget, then the status.
pub open spec fn next_work(w: ReconcileWork) -> Option<ReconcileWork> {
    match w {
        ReconcileWork::Services => Some(ReconcileWork::StatefulSet),
        ReconcileWork::StatefulSet => Some(ReconcileWork::Pvcs),
        ReconcileWork::Pvcs => Some(ReconcileWork::Pdb),
        ReconcileWork::Pdb => Some(ReconcileWork::UpdateStatus),
        ReconcileWork::UpdateStatus => None,
    }
}

/// The first step: a cluster being deleted is left alone until it changes; any other
/// starts with its services.
pub fn reconcile_start(deleting: bool) -> (s: ReconcileStep)
    ensures
        s == (if deleting {
            ReconcileStep::Finish(ReconcileAction::AwaitChange)
        } else {
            ReconcileStep::Perform(ReconcileWork::Services)
        }),
{
    if deleting {
        ReconcileStep::Finish(ReconcileAction::AwaitChange)
    } else {
        ReconcileStep::Perform(ReconcileWork::Services)
    }
}

/// The step after a piece of work: a failure marks the cluster failed; a success goes on
/// to the next piece, and after the status the reconcile is requeued after the interval.
pub fn after_work(done: ReconcileWork, succeeded: bool, requeue_interval_ms: u64) -> (s: ReconcileStep)
    ensures
        s == (if !succeeded {
            ReconcileStep::MarkFailed
        } else {
            match next_work(done) {
                Some(w) => ReconcileStep::Perform(w),
                None => ReconcileStep::Finish(ReconcileAction::Requeue { interval_ms: requeue_interval_ms }),
            }
        }),
{
    if !succeeded {
        return ReconcileStep::MarkFailed;
    }
    match done {
        ReconcileWork::Services => ReconcileStep::Perform(ReconcileWork::StatefulSet),
        ReconcileWork::StatefulSet => ReconcileStep::Perform(ReconcileWork::Pvcs),
        ReconcileWork::Pvcs => ReconcileStep::Perform(ReconcileWork::Pdb),
        ReconcileWork::Pdb => ReconcileStep::Perform(ReconcileWork::UpdateStatus),
        ReconcileWork::UpdateStatus => ReconcileStep::Finish(ReconcileAction::Requeue { interval_ms: requeue_interval_ms }),
    }
}

/// What the controller does after a reconcile that ended with an error: try again after
/// the interval.
pub fn error_policy(requeue_interval_ms: u64) -> (a: ReconcileAction)
    ensures
        a == (ReconcileAction::Requeue { interval_ms: requeue_interval_ms }),
{
    ReconcileAction::Requeue { interval_ms: requeue_interval_ms }
}

/// The steps of a reconcile in which the first `k` pieces of work succeed and the next one
/// (if any) fails.
pub open spec fn run_steps(k: nat, requeue_interval_ms: u64) -> Seq<ReconcileStep> {
    run_from(ReconcileWork::Services, k, requeue_interval_ms)
}

/// The steps from performing `w` on, when the next `k` pieces of work succeed and the one
/// after them fails.
pub open spec fn run_from(w: ReconcileWork, k: nat, requeue_interval_ms: u64) -> Seq<ReconcileStep>
    decreases k,
{
    if k == 0 {
        seq![ReconcileStep::Perform(w), ReconcileStep::MarkFailed]
    } else {
        match next_work(w) {
            Some(n) => seq![ReconcileStep::Perform(w)] + run_from(n, (k - 1) as nat, requeue_interval_ms),
            None => seq![
                ReconcileStep::Perform(w),
                ReconcileStep::Finish(ReconcileAction::Requeue { interval_ms: requeue_interval_ms }),
            ],
        }
    }
}

/// A reconcile whose work all succeeds performs the services, the StatefulSet, the volume
/// claims, the disruption budget and the status, in that order, and is requeued after the
/// interval; a failure at any piece marks the cluster failed right after it.
pub proof fn lemma_reconcile_order(requeue_interval_ms: u64)
    ensures
        run_steps(5, requeue_interval_ms) == seq![
            ReconcileStep::Perform(ReconcileWork::Services),
            ReconcileStep::Perform(ReconcileWork::StatefulSet),
            ReconcileStep::Perform(ReconcileWork::Pvcs),
            ReconcileStep::Perform(ReconcileWork::Pdb),
            ReconcileStep::Perform(ReconcileWork::UpdateStatus),
            ReconcileStep::Finish(ReconcileAction::Requeue { interval_ms: requeue_interval_ms }),
        ],
        forall|k: nat| k < 5 ==> (#[trigger] run_steps(k, requeue_interval_ms)).last() == ReconcileStep::MarkFailed,
{
    reveal_with_fuel(run_from, 6);
    assert(run_steps(5, requeue_interval_ms) =~= seq![
        ReconcileStep::Perform(ReconcileWork::Services),
        ReconcileStep::Perform(ReconcileWork::StatefulSet),
        ReconcileStep::Perform(ReconcileWork::Pvcs),
        ReconcileStep::Perform(ReconcileWork::Pdb),
        ReconcileStep::Perform(ReconcileWork::UpdateStatus),
        ReconcileStep::Finish(ReconcileAction::Requeue { interval_ms: requeue_interval_ms }),
    ]);
    assert forall|k: nat| k < 5 implies (#[trigger] run_steps(k, requeue_interval_ms)).last() == ReconcileStep::MarkFailed by {
        lemma_run_from_fails_last(ReconcileWork::Services, k, requeue_interval_ms);
    }
}

/// The steps from a piece of work end in a failure when fewer pieces succeed than remain.
proof fn lemma_run_from_fails_last(w: ReconcileWork, k: nat, requeue_interval_ms: u64)
    requires
        k < remaining(w),
    ensures
        run_from(w, k, requeue_interval_ms).last() == ReconcileStep::MarkFailed,
    decreases k,
{
    if k > 0 {
        let n = next_work(w)->0;
        lemma_run_from_fails_last(n, (k - 1) as nat, requeue_interval_ms);
        let rest = run_from(n, (k - 1) as nat, requeue_interval_ms);
        assert((seq![ReconcileStep::Perform(w)] + rest).last() == rest.last());
    }
}

/// How many pieces of work remain from `w` on, `w` included.
spec fn remaining(w: ReconcileWork) -> nat {
    match w {
        ReconcileWork::Services => 5,
        ReconcileWork::StatefulSet => 4,
        ReconcileWork::Pvcs => 3,
        ReconcileWork::Pdb => 2,
        ReconcileWork::UpdateStatus => 1,
    }
}

} // verus!
