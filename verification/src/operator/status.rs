//! Status conditions that the operator reports on a DiomCluster.
use vstd::prelude::*;
use vstd::string::*;

use super::error::{error_text, OperatorError, OperatorErrorView};
use crate::text::{i64_to_decimal, signed_decimal, u64_to_decimal, decimal};

verus! {

/// Earliest instant, in seconds since the Unix epoch, that a timestamp can hold.
pub const MIN_TIMESTAMP: i64 = -377705116800;

/// Latest instant, in seconds since the Unix epoch, that a timestamp can hold.
pub const MAX_TIMESTAMP: i64 = 253402207199;

pub open spec fn valid_timestamp(t: i64) -> bool {
    MIN_TIMESTAMP <= t <= MAX_TIMESTAMP
}

#[derive(Clone, Copy, Debug, PartialEq, Eq, Structural)]
pub enum ConditionStatus {
    True,
    False,
    Unknown,
}

pub open spec fn status_text(s: ConditionStatus) -> Seq<char> {
    match s {
        ConditionStatus::True => "True"@,
        ConditionStatus::False => "False"@,
        ConditionStatus::Unknown => "Unknown"@,
    }
}

impl ConditionStatus {
    pub fn as_str(self) -> (s: &'static str)
        ensures
            s@ == status_text(self),
    {
        match self {
            ConditionStatus::True => "True",
            ConditionStatus::False => "False",
            ConditionStatus::Unknown => "Unknown",
        }
    }
}

/// How ready a cluster's replicas are.
#[derive(Clone, Copy, Debug, PartialEq, Eq, Structural)]
pub enum ReadyState {
    Running,
    Initializing,
    Degraded { ready_replicas: i32, desired: i32 },
    Failed,
}

/// All replicas ready means running; fewer, once the cluster has been fully up (or was
/// already degraded), means degraded; fewer before that means still initializing.
pub open spec fn ready_state(ready_replicas: i32, desired: i32, previous_ready_replicas: i32, was_degraded: bool) -> ReadyState {
    if ready_replicas == desired {
        ReadyState::Running
    } else if previous_ready_replicas == desired || was_degraded {
        ReadyState::Degraded { ready_replicas, desired }
    } else {
        ReadyState::Initializing
    }
}

pub open spec fn ready_status(s: ReadyState) -> ConditionStatus {
    match s {
        ReadyState::Running => ConditionStatus::True,
        ReadyState::Initializing => ConditionStatus::Unknown,
        ReadyState::Degraded { .. } | ReadyState::Failed => ConditionStatus::False,
    }
}

pub open spec fn ready_reason(s: ReadyState) -> Seq<char> {
    match s {
        ReadyState::Running => "Running"@,
        ReadyState::Initializing => "Initializing"@,
        ReadyState::Degraded { .. } => "Degraded"@,
        ReadyState::Failed => "Failed"@,
    }
}

pub open spec fn ready_message(s: ReadyState) -> Seq<char> {
    match s {
        ReadyState::Running => "All replicas ready"@,
        ReadyState::Initializing => "Waiting for replicas to become ready"@,
        ReadyState::Degraded { ready_replicas, desired } => signed_decimal(ready_replicas as int) + "/"@
            + signed_decimal(desired as int) + " replicas ready"@,
        ReadyState::Failed => "Reconcile failing"@,
    }
}

fn lit(s: &str) -> (r: String)
    ensures
        r@ == s@,
{
    String::from_str(s)
}

impl ReadyState {
    pub fn compute(ready_replicas: i32, desired: i32, previous_ready_replicas: i32, was_degraded: bool) -> (r: ReadyState)
        ensures
            r == ready_state(ready_replicas, desired, previous_ready_replicas, was_degraded),
    {
        if ready_replicas == desired {
            ReadyState::Running
        } else if previous_ready_replicas == desired || was_degraded {
            ReadyState::Degraded { ready_replicas, desired }
        } else {
            ReadyState::Initializing
        }
    }

    pub fn status(&self) -> (r: ConditionStatus)
        ensures
            r == ready_status(*self),
    {
        match self {
            ReadyState::Running => ConditionStatus::True,
            ReadyState::Initializing => ConditionStatus::Unknown,
            ReadyState::Degraded { .. } | ReadyState::Failed => ConditionStatus::False,
        }
    }

    pub fn reason(&self) -> (r: &'static str)
        ensures
            r@ == ready_reason(*self),
    {
        match self {
            ReadyState::Running => "Running",
            ReadyState::Initializing => "Initializing",
            ReadyState::Degraded { .. } => "Degraded",
            ReadyState::Failed => "Failed",
        }
    }

    pub fn message(&self) -> (r: String)
        ensures
            r@ == ready_message(*self),
    {
        match self {
            ReadyState::Running => lit("All replicas ready"),
            ReadyState::Initializing => lit("Waiting for replicas to become ready"),
            ReadyState::Degraded { ready_replicas, desired } => {
                let a = i64_to_decimal(*ready_replicas as i64);
                let b = i64_to_decimal(*desired as i64);
                a.concat("/").concat(b.as_str()).concat(" replicas ready")
            },
            ReadyState::Failed => lit("Reconcile failing"),
        }
    }
}


/// A failed reconcile, as it is reported.
#[derive(Debug, PartialEq, Eq)]
pub enum FailureState {
    Reconciling(String),
    StalledInternalError(String),
    StalledInvalidSpec(String),
    StalledTimeout { err: String, threshold_secs: u64 },
}

pub enum FailureStateView {
    Reconciling(Seq<char>),
    StalledInternalError(Seq<char>),
    StalledInvalidSpec(Seq<char>),
    StalledTimeout { err: Seq<char>, threshold_secs: u64 },
}

impl View for FailureState {
    type V = FailureStateView;

    open spec fn view(&self) -> FailureStateView {
        match self {
            FailureState::Reconciling(e) => FailureStateView::Reconciling(e@),
            FailureState::StalledInternalError(e) => FailureStateView::StalledInternalError(e@),
            FailureState::StalledInvalidSpec(e) => FailureStateView::StalledInvalidSpec(e@),
            FailureState::StalledTimeout { err, threshold_secs } => FailureStateView::StalledTimeout {
                err: err@,
                threshold_secs: *threshold_secs,
            },
        }
    }
}

/// The stall threshold as a signed number of seconds: thresholds past `i64::MAX` wrap
/// round to negative values, as a two's-complement conversion of the 64 bits does.
pub open spec fn signed_secs(t: u64) -> int {
    if t <= i64::MAX {
        t as int
    } else {
        t - 0x1_0000_0000_0000_0000int
    }
}

/// The stall threshold in signed seconds.
pub fn signed_threshold(t: u64) -> (r: i64)
    ensures
        r == signed_secs(t),
{
    if t <= 9223372036854775807u64 {
        t as i64
    } else {
        let low: u64 = t - 9223372036854775808u64;
        (low as i64) + i64::MIN
    }
}

/// A missing field or an invalid storage size stalls at once; any other error stalls
/// once reconciles have failed for the whole stall threshold, counted in signed seconds.
pub open spec fn failure_state(err: OperatorErrorView, failing_for_secs: int, stall_threshold_secs: u64) -> FailureStateView {
    match err {
        OperatorErrorView::MissingField(_) => FailureStateView::StalledInternalError(error_text(err)),
        OperatorErrorView::InvalidStorageSize(_) => FailureStateView::StalledInvalidSpec(error_text(err)),
        _ => if failing_for_secs >= signed_secs(stall_threshold_secs) {
            FailureStateView::StalledTimeout { err: error_text(err), threshold_secs: stall_threshold_secs }
        } else {
            FailureStateView::Reconciling(error_text(err))
        },
    }
}

/// A missing field stalls as an internal error and an invalid storage size as an invalid
/// spec, at once: however long reconciles have failed, and whatever the threshold.
pub proof fn lemma_fatal_errors_stall_at_once(err: OperatorErrorView, failing_for_secs: int, stall_threshold_secs: u64)
    ensures
        err is MissingField ==> failure_state(err, failing_for_secs, stall_threshold_secs)
            == FailureStateView::StalledInternalError(error_text(err)),
        err is InvalidStorageSize ==> failure_state(err, failing_for_secs, stall_threshold_secs)
            == FailureStateView::StalledInvalidSpec(error_text(err)),
{
}

pub open spec fn failure_type(s: FailureStateView) -> Seq<char> {
    match s {
        FailureStateView::Reconciling(_) => "Reconciling"@,
        _ => "Stalled"@,
    }
}

pub open spec fn failure_reason(s: FailureStateView) -> Seq<char> {
    match s {
        FailureStateView::Reconciling(_) => "ReconcileError"@,
        FailureStateView::StalledInternalError(_) => "InternalError"@,
        FailureStateView::StalledInvalidSpec(_) => "InvalidSpec"@,
        FailureStateView::StalledTimeout { .. } => "Timeout"@,
    }
}

pub open spec fn failure_message(s: FailureStateView) -> Seq<char> {
    match s {
        FailureStateView::Reconciling(e) => e,
        FailureStateView::StalledInternalError(e) => e,
        FailureStateView::StalledInvalidSpec(e) => e,
        FailureStateView::StalledTimeout { err, threshold_secs } => "Reconciliation has been failing for over "@
            + decimal(threshold_secs as nat) + "s: "@ + err,
    }
}

impl FailureState {
    pub fn compute(err: &OperatorError, failing_for_secs: i64, stall_threshold_secs: u64) -> (r: FailureState)
        ensures
            r@ == failure_state(err@, failing_for_secs as int, stall_threshold_secs),
    {
        match err {
            OperatorError::MissingField(_) => FailureState::StalledInternalError(err.text()),
            OperatorError::InvalidStorageSize(_) => FailureState::StalledInvalidSpec(err.text()),
            _ => {
                if failing_for_secs >= signed_threshold(stall_threshold_secs) {
                    FailureState::StalledTimeout { err: err.text(), threshold_secs: stall_threshold_secs }
                } else {
                    FailureState::Reconciling(err.text())
                }
            },
        }
    }

    pub fn type_(&self) -> (r: &'static str)
        ensures
            r@ == failure_type(self@),
    {
        match self {
            FailureState::Reconciling(_) => "Reconciling",
            _ => "Stalled",
        }
    }

    pub fn status(&self) -> (r: ConditionStatus)
        ensures
            r == ConditionStatus::True,
    {
        ConditionStatus::True
    }

    pub fn reason(&self) -> (r: &'static str)
        ensures
            r@ == failure_reason(self@),
    {
        match self {
            FailureState::Reconciling(_) => "ReconcileError",
            FailureState::StalledInternalError(_) => "InternalError",
            FailureState::StalledInvalidSpec(_) => "InvalidSpec",
            FailureState::StalledTimeout { .. } => "Timeout",
        }
    }

    pub fn message(&self) -> (r: String)
        ensures
            r@ == failure_message(self@),
    {
        match self {
            FailureState::Reconciling(e) | FailureState::StalledInternalError(e) | FailureState::StalledInvalidSpec(e) => e.clone(),
            FailureState::StalledTimeout { err, threshold_secs } => {
                let secs = u64_to_decimal(*threshold_secs);
                lit("Reconciliation has been failing for over ").concat(secs.as_str()).concat("s: ").concat(err.as_str())
            },
        }
    }
}

} // verus!
