use diom::operator::conditions::{
    compute_failure_condition, mark_failed, update_status, Condition, DiomClusterStatus,
};
use diom::operator::error::OperatorError;
use diom::operator::spec::Phase;
use diom::operator::status::{FailureState, ReadyState};

const STALL_THRESHOLD: u64 = 300;
const NOW: i64 = 1_750_000_000;

#[test]
fn test_ready_state_compute() {
    assert_eq!(ReadyState::compute(3, 3, 0, false), ReadyState::Running);
    assert_eq!(ReadyState::compute(3, 3, 3, false), ReadyState::Running);
    assert_eq!(
        ReadyState::compute(0, 3, 0, false),
        ReadyState::Initializing
    );
    assert_eq!(
        ReadyState::compute(2, 3, 1, false),
        ReadyState::Initializing
    );
    assert_eq!(
        ReadyState::compute(0, 3, 3, false),
        ReadyState::Degraded {
            ready_replicas: 0,
            desired: 3
        }
    );
    assert_eq!(
        ReadyState::compute(1, 3, 3, false),
        ReadyState::Degraded {
            ready_replicas: 1,
            desired: 3
        }
    );
    assert_eq!(
        ReadyState::compute(1, 3, 1, true),
        ReadyState::Degraded {
            ready_replicas: 1,
            desired: 3
        }
    );
    assert_eq!(
        ReadyState::compute(1, 3, 1, false),
        ReadyState::Initializing
    );
}

fn fake_condition(type_: &str, status: &str, last_transition_time: i64) -> Condition {
    Condition {
        type_: type_.to_string(),
        status: status.to_string(),
        reason: "PreviousReason".to_string(),
        message: "previous message".to_string(),
        observed_generation: Some(1),
        last_transition_time,
    }
}

#[test]
fn test_compute_failure_condition_missing_field_stalls_immediately() {
    let err = OperatorError::MissingField("adminToken".to_string());
    let condition = compute_failure_condition(&err, 1, &[], NOW, STALL_THRESHOLD);
    assert_eq!(condition.type_, "Stalled");
    assert_eq!(condition.status, "True");
}

#[test]
fn test_compute_failure_condition_bad_storage_spec_stalls_immediately() {
    let err = OperatorError::InvalidStorageSize("invalid quantity".to_string());
    let condition = compute_failure_condition(&err, 1, &[], NOW, STALL_THRESHOLD);
    assert_eq!(condition.type_, "Stalled");
    assert_eq!(condition.status, "True");
}

#[test]
fn test_compute_failure_condition_first_failure_reconciles() {
    let err = OperatorError::Timeout("statefulset not ready".to_string());
    let condition = compute_failure_condition(&err, 1, &[], NOW, STALL_THRESHOLD);
    assert_eq!(condition.type_, "Reconciling");
    assert_eq!(condition.status, "True");
    assert!(condition.last_transition_time - NOW < 1);
}

#[test]
fn test_compute_failure_condition_stays_reconciling_below_threshold() {
    let started = NOW - (STALL_THRESHOLD as i64 - 1);
    let previous = [fake_condition("Reconciling", "True", started)];
    let err = OperatorError::Timeout("statefulset not ready".to_string());
    let condition = compute_failure_condition(&err, 1, &previous, NOW, STALL_THRESHOLD);
    assert_eq!(condition.type_, "Reconciling");
    assert_eq!(condition.last_transition_time, started);
}

#[test]
fn test_compute_failure_condition_escalates_past_threshold() {
    let started = NOW - (STALL_THRESHOLD as i64 + 1);
    let previous = [fake_condition("Reconciling", "True", started)];
    let err = OperatorError::Timeout("statefulset not ready".to_string());
    let condition = compute_failure_condition(&err, 1, &previous, NOW, STALL_THRESHOLD);
    assert_eq!(condition.type_, "Stalled");
    assert_eq!(condition.status, "True");
}

#[test]
fn test_compute_failure_condition_respects_custom_threshold() {
    let short_threshold = 5;
    let started = NOW - 6;
    let previous = [fake_condition("Reconciling", "True", started)];
    let err = OperatorError::Timeout("statefulset not ready".to_string());
    let condition = compute_failure_condition(&err, 1, &previous, NOW, short_threshold);
    assert_eq!(condition.type_, "Stalled");
}

#[test]
fn test_compute_failure_condition_stays_stalled_across_ticks() {
    let err = OperatorError::Timeout("statefulset not ready".to_string());
    let started = NOW - (STALL_THRESHOLD as i64 + 1);
    let previous = [fake_condition("Reconciling", "True", started)];
    let stalled = compute_failure_condition(&err, 1, &previous, NOW, STALL_THRESHOLD);
    assert_eq!(stalled.type_, "Stalled");

    let previous = [stalled.clone()];
    let next_tick = NOW + 5;
    let condition = compute_failure_condition(&err, 1, &previous, next_tick, STALL_THRESHOLD);
    assert_eq!(condition.type_, "Stalled");
    assert_eq!(condition.status, "True");
    assert_eq!(condition.last_transition_time, stalled.last_transition_time);
}

#[test]
fn test_failure_state_decide() {
    let zero = 0;
    let threshold = STALL_THRESHOLD;

    assert!(matches!(
        FailureState::compute(&OperatorError::MissingField("adminToken".to_string()), zero, threshold),
        FailureState::StalledInternalError(_)
    ));
    assert!(matches!(
        FailureState::compute(&OperatorError::InvalidStorageSize("bad".to_string()), zero, threshold),
        FailureState::StalledInvalidSpec(_)
    ));

    let other = OperatorError::PvcStorageState("unexpected".to_string());
    assert!(matches!(
        FailureState::compute(&other, zero, threshold),
        FailureState::Reconciling(_)
    ));
    assert!(matches!(
        FailureState::compute(&other, threshold as i64 - 1, threshold),
        FailureState::Reconciling(_)
    ));
    assert!(matches!(
        FailureState::compute(&other, threshold as i64, threshold),
        FailureState::StalledTimeout { .. }
    ));
}

#[test]
fn huge_thresholds_still_stall_and_stay_stalled() {
    let huge = u64::MAX;
    assert!(matches!(
        FailureState::compute(&OperatorError::MissingField("adminToken".to_string()), 0, huge),
        FailureState::StalledInternalError(_)
    ));
    assert!(matches!(
        FailureState::compute(&OperatorError::InvalidStorageSize("bad".to_string()), 0, huge),
        FailureState::StalledInvalidSpec(_)
    ));
    let err = OperatorError::Timeout("statefulset not ready".to_string());
    let previous = [fake_condition("Stalled", "True", NOW - 10)];
    let condition = compute_failure_condition(&err, 1, &previous, NOW, huge);
    assert_eq!(condition.type_, "Stalled");
    assert_eq!(condition.status, "True");
    assert_eq!(condition.reason, "Timeout");
    assert_eq!(condition.last_transition_time, NOW - 10);
}

#[test]
fn condition_texts() {
    let degraded = ReadyState::Degraded { ready_replicas: 1, desired: 3 };
    assert_eq!(degraded.message(), "1/3 replicas ready");
    assert_eq!(degraded.reason(), "Degraded");
    let err = OperatorError::Timeout("statefulset not ready".to_string());
    let state = FailureState::compute(&err, 301, 300);
    assert_eq!(
        state.message(),
        "Reconciliation has been failing for over 300s: Timeout: statefulset not ready"
    );
    assert_eq!(state.reason(), "Timeout");
    assert_eq!(err.text(), "Timeout: statefulset not ready");
}

#[test]
fn status_updates_settle() {
    let previous = DiomClusterStatus::empty();
    let first = update_status(&previous, 2, 3, 3, NOW).expect("first status must be written");
    assert_eq!(first.conditions.len(), 1);
    assert_eq!(first.conditions[0].reason, "Running");
    assert_eq!(first.phase, Phase::Running);
    assert!(update_status(&first, 2, 3, 3, NOW + 60).is_none());

    let err = OperatorError::Kube("boom".to_string());
    let failed = mark_failed(&first, 2, &err, NOW, STALL_THRESHOLD).expect("failure must be written");
    assert_eq!(failed.conditions.len(), 2);
    assert_eq!(failed.conditions[0].status, "False");
    assert_eq!(failed.conditions[1].type_, "Reconciling");
    assert_eq!(failed.phase, Phase::Running);
    assert!(mark_failed(&failed, 2, &err, NOW, STALL_THRESHOLD).is_none());
    // recovering clears the error conditions
    let recovered = update_status(&failed, 2, 3, 3, NOW + 1).expect("recovery must be written");
    assert_eq!(recovered.conditions.len(), 1);
    // losing a pod after running shows as degraded
    let degraded = update_status(&recovered, 2, 3, 2, NOW + 2).expect("degradation must be written");
    assert_eq!(degraded.phase, Phase::Degraded);
    assert_eq!(degraded.conditions[0].message, "2/3 replicas ready");
}
