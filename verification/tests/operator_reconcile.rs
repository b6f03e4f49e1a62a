use diom::operator::reconcile::{after_work, error_policy, reconcile_start, ReconcileAction, ReconcileStep, ReconcileWork};

#[test]
fn deleted_cluster_awaits_change() {
    assert_eq!(reconcile_start(true), ReconcileStep::Finish(ReconcileAction::AwaitChange));
    assert_eq!(reconcile_start(false), ReconcileStep::Perform(ReconcileWork::Services));
}

#[test]
fn successful_reconcile_runs_in_order_and_requeues() {
    let mut step = reconcile_start(false);
    let mut done = Vec::new();
    while let ReconcileStep::Perform(w) = step {
        done.push(w);
        step = after_work(w, true, 30_000);
    }
    assert_eq!(
        done,
        vec![
            ReconcileWork::Services,
            ReconcileWork::StatefulSet,
            ReconcileWork::Pvcs,
            ReconcileWork::Pdb,
            ReconcileWork::UpdateStatus
        ]
    );
    assert_eq!(step, ReconcileStep::Finish(ReconcileAction::Requeue { interval_ms: 30_000 }));
}

#[test]
fn failed_work_marks_failed_and_errors_requeue() {
    assert_eq!(after_work(ReconcileWork::Pvcs, false, 30_000), ReconcileStep::MarkFailed);
    assert_eq!(error_policy(10_000), ReconcileAction::Requeue { interval_ms: 10_000 });
}
