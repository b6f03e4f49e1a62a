//! The `Ready`, `Reconciling` and `Stalled` conditions of a DiomCluster's status, and when
//! the status needs to be written.
use vstd::prelude::*;
use vstd::string::*;

use super::error::{OperatorError, OperatorErrorView};
use super::spec::Phase;
use super::status::{
    failure_message, failure_reason, failure_state, failure_type, ready_message, ready_reason, ready_state,
    ready_status, signed_secs, signed_threshold, status_text, valid_timestamp, ConditionStatus, FailureState, ReadyState,
};

verus! {

/// A status condition; times are seconds since the Unix epoch.
#[derive(Debug)]
pub struct Condition {
    pub type_: String,
    pub status: String,
    pub reason: String,
    pub message: String,
    pub observed_generation: Option<i64>,
    pub last_transition_time: i64,
}

pub struct ConditionView {
    pub type_: Seq<char>,
    pub status: Seq<char>,
    pub reason: Seq<char>,
    pub message: Seq<char>,
    pub observed_generation: Option<i64>,
    pub last_transition_time: i64,
}

impl View for Condition {
    type V = ConditionView;

    open spec fn view(&self) -> ConditionView {
        ConditionView {
            type_: self.type_@,
            status: self.status@,
            reason: self.reason@,
            message: self.message@,
            observed_generation: self.observed_generation,
            last_transition_time: self.last_transition_time,
        }
    }
}

impl Clone for Condition {
    fn clone(&self) -> (r: Condition)
        ensures
            r@ == self@,
    {
        Condition {
            type_: self.type_.clone(),
            status: self.status.clone(),
            reason: self.reason.clone(),
            message: self.message.clone(),
            observed_generation: self.observed_generation,
            last_transition_time: self.last_transition_time,
        }
    }
}

pub open spec fn views(cs: Seq<Condition>) -> Seq<ConditionView> {
    cs.map_values(|c: Condition| c@)
}

/// The first condition of the given type.
pub open spec fn find_spec(cs: Seq<ConditionView>, type_: Seq<char>) -> Option<ConditionView>
    decreases cs.len(),
{
    if cs.len() == 0 {
        None
    } else if cs[0].type_ == type_ {
        Some(cs[0])
    } else {
        find_spec(cs.drop_first(), type_)
    }
}

/// All conditions are stamped with times that a timestamp can hold.
pub open spec fn valid_conditions(cs: Seq<ConditionView>) -> bool {
    forall|i: int| 0 <= i < cs.len() ==> valid_timestamp(#[trigger] cs[i].last_transition_time)
}

proof fn lemma_find_valid(cs: Seq<ConditionView>, type_: Seq<char>)
    requires
        valid_conditions(cs),
    ensures
        find_spec(cs, type_) matches Some(c) ==> valid_timestamp(c.last_transition_time),
    decreases cs.len(),
{
    if cs.len() > 0 && cs[0].type_ != type_ {
        assert forall|i: int| 0 <= i < cs.drop_first().len() implies valid_timestamp(#[trigger] cs.drop_first()[i].last_transition_time) by {
            assert(cs.drop_first()[i] == cs[i + 1]);
        }
        lemma_find_valid(cs.drop_first(), type_);
    }
}

fn lit(s: &str) -> (r: String)
    ensures
        r@ == s@,
{
    String::from_str(s)
}

/// The first condition of the given type.
pub fn find_condition<'a>(conditions: &'a [Condition], type_: &str) -> (r: Option<&'a Condition>)
    ensures
        r matches Some(c) ==> find_spec(views(conditions@), type_@) == Some(c@),
        r is None ==> find_spec(views(conditions@), type_@) is None,
{
    let ghost cv = views(conditions@);
    let t = lit(type_);
    let mut i: usize = 0;
    assert(cv.subrange(0, cv.len() as int) =~= cv);
    while i < conditions.len()
        invariant
            i <= conditions@.len(),
            cv == views(conditions@),
            t@ == type_@,
            find_spec(cv, type_@) == find_spec(cv.subrange(i as int, cv.len() as int), type_@),
        decreases conditions@.len() - i,
    {
        let ghost rest = cv.subrange(i as int, cv.len() as int);
        assert(rest.drop_first() =~= cv.subrange(i + 1, cv.len() as int));
        if conditions[i].type_ == t {
            return Some(&conditions[i]);
        }
        i = i + 1;
    }
    None
}

/// The condition says the same as before: same status, reason and message.
pub open spec fn unchanged_spec(previous: Option<ConditionView>, new: ConditionView) -> bool {
    match previous {
        Some(c) => c.status == new.status && c.reason == new.reason && c.message == new.message,
        None => false,
    }
}

pub fn condition_unchanged(previous: Option<&Condition>, new: &Condition) -> (r: bool)
    ensures
        r == unchanged_spec(
            match previous {
                Some(c) => Some(c@),
                None => None,
            },
            new@,
        ),
{
    match previous {
        Some(c) => c.status == new.status && c.reason == new.reason && c.message == new.message,
        None => false,
    }
}

/// A condition, keeping the previous transition time while the status stays the same.
pub open spec fn built_condition(
    type_: Seq<char>,
    status: ConditionStatus,
    reason: Seq<char>,
    message: Seq<char>,
    observed_generation: i64,
    previous: Option<ConditionView>,
    now: i64,
) -> ConditionView {
    ConditionView {
        type_,
        status: status_text(status),
        reason,
        message,
        observed_generation: Some(observed_generation),
        last_transition_time: match previous {
            Some(c) => if c.status == status_text(status) {
                c.last_transition_time
            } else {
                now
            },
            None => now,
        },
    }
}

pub fn build_condition(
    type_: &str,
    status: ConditionStatus,
    reason: &str,
    message: String,
    observed_generation: i64,
    previous: Option<&Condition>,
    now: i64,
) -> (r: Condition)
    ensures
        r@ == built_condition(
            type_@,
            status,
            reason@,
            message@,
            observed_generation,
            match previous {
                Some(c) => Some(c@),
                None => None,
            },
            now,
        ),
{
    let status_text = lit(status.as_str());
    let last_transition_time = match previous {
        Some(c) => if c.status == status_text {
            c.last_transition_time
        } else {
            now
        },
        None => now,
    };
    Condition {
        type_: lit(type_),
        status: status_text,
        reason: lit(reason),
        message,
        observed_generation: Some(observed_generation),
        last_transition_time,
    }
}

pub open spec fn ready_condition_spec(state: ReadyState, generation: i64, previous: Option<ConditionView>, now: i64) -> ConditionView {
    built_condition("Ready"@, ready_status(state), ready_reason(state), ready_message(state), generation, previous, now)
}

pub fn ready_condition(state: ReadyState, generation: i64, previous: Option<&Condition>, now: i64) -> (r: Condition)
    ensures
        r@ == ready_condition_spec(
            state,
            generation,
            match previous {
                Some(c) => Some(c@),
                None => None,
            },
            now,
        ),
{
    build_condition("Ready", state.status(), state.reason(), state.message(), generation, previous, now)
}

/// How long reconciles have been failing: the stall threshold once stalled; else since the
/// `Reconciling` condition turned true, or not at all where it is not true.
pub open spec fn failing_for(previous: Seq<ConditionView>, now: i64, stall_threshold_secs: u64) -> int {
    let stalled = find_spec(previous, "Stalled"@);
    if stalled matches Some(c) && c.status == "True"@ {
        signed_secs(stall_threshold_secs)
    } else {
        match find_spec(previous, "Reconciling"@) {
            Some(c) => if c.status == "True"@ {
                now - c.last_transition_time
            } else {
                0
            },
            None => 0,
        }
    }
}

/// The `Reconciling` or `Stalled` condition reported for a failed reconcile.
pub open spec fn failure_condition_spec(
    err: OperatorErrorView,
    generation: i64,
    previous: Seq<ConditionView>,
    now: i64,
    stall_threshold_secs: u64,
) -> ConditionView {
    let state = failure_state(err, failing_for(previous, now, stall_threshold_secs), stall_threshold_secs);
    built_condition(
        failure_type(state),
        ConditionStatus::True,
        failure_reason(state),
        failure_message(state),
        generation,
        find_spec(previous, failure_type(state)),
        now,
    )
}

pub fn compute_failure_condition(
    err: &OperatorError,
    generation: i64,
    previous_conditions: &[Condition],
    now: i64,
    stall_threshold_secs: u64,
) -> (r: Condition)
    requires
        valid_timestamp(now),
        valid_conditions(views(previous_conditions@)),
    ensures
        r@ == failure_condition_spec(err@, generation, views(previous_conditions@), now, stall_threshold_secs),
{
    let true_text = lit(ConditionStatus::True.as_str());
    let already_stalled = match find_condition(previous_conditions, "Stalled") {
        Some(c) => c.status == true_text,
        None => false,
    };
    let failing_for: i64 = if already_stalled {
        signed_threshold(stall_threshold_secs)
    } else {
        let started = match find_condition(previous_conditions, "Reconciling") {
            Some(c) => {
                proof {
                    lemma_find_valid(views(previous_conditions@), "Reconciling"@);
                }
                if c.status == true_text {
                    c.last_transition_time
                } else {
                    now
                }
            },
            None => now,
        };
        now - started
    };
    let state = FailureState::compute(err, failing_for, stall_threshold_secs);
    let previous = find_condition(previous_conditions, state.type_());
    build_condition(state.type_(), state.status(), state.reason(), state.message(), generation, previous, now)
}


/// The status that the operator writes on a DiomCluster.
#[derive(Debug)]
pub struct DiomClusterStatus {
    pub phase: Phase,
    pub ready_replicas: i32,
    pub observed_generation: i64,
    pub conditions: Vec<Condition>,
}

pub struct StatusView {
    pub phase: Phase,
    pub ready_replicas: i32,
    pub observed_generation: i64,
    pub conditions: Seq<ConditionView>,
}

impl View for DiomClusterStatus {
    type V = StatusView;

    open spec fn view(&self) -> StatusView {
        StatusView {
            phase: self.phase,
            ready_replicas: self.ready_replicas,
            observed_generation: self.observed_generation,
            conditions: views(self.conditions@),
        }
    }
}

impl DiomClusterStatus {
    /// The status of a cluster that has none yet.
    pub fn empty() -> (r: DiomClusterStatus)
        ensures
            r@.phase == Phase::Initializing,
            r@.ready_replicas == 0,
            r@.observed_generation == 0,
            r@.conditions.len() == 0,
    {
        DiomClusterStatus { phase: Phase::Initializing, ready_replicas: 0, observed_generation: 0, conditions: Vec::new() }
    }
}

/// The phase that a readiness state shows: running, degraded or initializing as the state
/// says; a failed reconcile leaves the phase as it was.
pub open spec fn phase_of(state: ReadyState, previous: Phase) -> Phase {
    match state {
        ReadyState::Running => Phase::Running,
        ReadyState::Initializing => Phase::Initializing,
        ReadyState::Degraded { .. } => Phase::Degraded,
        ReadyState::Failed => previous,
    }
}

pub fn phase_for(state: ReadyState, previous: Phase) -> (p: Phase)
    ensures
        p == phase_of(state, previous),
{
    match state {
        ReadyState::Running => Phase::Running,
        ReadyState::Initializing => Phase::Initializing,
        ReadyState::Degraded { .. } => Phase::Degraded,
        ReadyState::Failed => previous,
    }
}

pub open spec fn has_error_condition(cs: Seq<ConditionView>) -> bool {
    exists|i: int| 0 <= i < cs.len() && (#[trigger] cs[i].type_ == "Reconciling"@ || cs[i].type_ == "Stalled"@)
}

/// The status after a successful reconcile, or `None` where the one in place already says
/// it all: same ready count and generation, same `Ready` condition, no error condition.
pub open spec fn ready_status_update(
    previous: StatusView,
    generation: i64,
    desired: i32,
    ready_replicas: i32,
    now: i64,
) -> Option<StatusView> {
    let prev_ready = find_spec(previous.conditions, "Ready"@);
    let was_degraded = prev_ready matches Some(c) && c.reason == "Degraded"@;
    let state = ready_state(ready_replicas, desired, previous.ready_replicas, was_degraded);
    let new_ready = ready_condition_spec(state, generation, prev_ready, now);
    let changed = match prev_ready {
        None => true,
        Some(c) => c.status != new_ready.status || c.reason != new_ready.reason,
    };
    if ready_replicas == previous.ready_replicas && generation == previous.observed_generation && !changed
        && !has_error_condition(previous.conditions) {
        None
    } else {
        Some(StatusView {
            phase: phase_of(state, previous.phase),
            ready_replicas,
            observed_generation: generation,
            conditions: seq![new_ready],
        })
    }
}

fn has_error_conditions(cs: &Vec<Condition>) -> (r: bool)
    ensures
        r == has_error_condition(views(cs@)),
{
    let reconciling = lit("Reconciling");
    let stalled = lit("Stalled");
    let mut i: usize = 0;
    while i < cs.len()
        invariant
            i <= cs@.len(),
            reconciling@ == "Reconciling"@,
            stalled@ == "Stalled"@,
            forall|j: int| 0 <= j < i ==> !(#[trigger] views(cs@)[j].type_ == "Reconciling"@ || views(cs@)[j].type_ == "Stalled"@),
        decreases cs@.len() - i,
    {
        if cs[i].type_ == reconciling || cs[i].type_ == stalled {
            assert(views(cs@)[i as int].type_ == cs@[i as int].type_@);
            return true;
        }
        i = i + 1;
    }
    false
}

/// The status to write after a successful reconcile, if any.
pub fn update_status(
    previous: &DiomClusterStatus,
    generation: i64,
    desired: i32,
    ready_replicas: i32,
    now: i64,
) -> (r: Option<DiomClusterStatus>)
    ensures
        r matches Some(s) ==> ready_status_update(previous@, generation, desired, ready_replicas, now) == Some(s@),
        r is None ==> ready_status_update(previous@, generation, desired, ready_replicas, now) is None,
{
    let prev_ready = find_condition(previous.conditions.as_slice(), "Ready");
    let was_degraded = match prev_ready {
        Some(c) => c.reason == lit("Degraded"),
        None => false,
    };
    let state = ReadyState::compute(ready_replicas, desired, previous.ready_replicas, was_degraded);
    let new_ready = ready_condition(state, generation, prev_ready, now);
    let changed = match prev_ready {
        None => true,
        Some(c) => c.status != new_ready.status || c.reason != new_ready.reason,
    };
    if ready_replicas == previous.ready_replicas && generation == previous.observed_generation && !changed
        && !has_error_conditions(&previous.conditions) {
        None
    } else {
        let ghost nv = new_ready@;
        let conditions = vec![new_ready];
        assert(views(conditions@) =~= seq![nv]);
        Some(DiomClusterStatus {
            phase: phase_for(state, previous.phase),
            ready_replicas,
            observed_generation: generation,
            conditions,
        })
    }
}

/// The status after a failed reconcile: `Ready` false and a `Reconciling` or `Stalled`
/// condition; `None` where the one in place already says so for this generation.
pub open spec fn failed_status_update(
    previous: StatusView,
    generation: i64,
    err: OperatorErrorView,
    now: i64,
    stall_threshold_secs: u64,
) -> Option<StatusView> {
    let prev_ready = find_spec(previous.conditions, "Ready"@);
    let ready = ready_condition_spec(ReadyState::Failed, generation, prev_ready, now);
    let failure = failure_condition_spec(err, generation, previous.conditions, now, stall_threshold_secs);
    let prev_failure = find_spec(previous.conditions, failure.type_);
    if previous.observed_generation == generation && unchanged_spec(prev_ready, ready) && unchanged_spec(prev_failure, failure) {
        None
    } else {
        Some(StatusView {
            phase: previous.phase,
            ready_replicas: previous.ready_replicas,
            observed_generation: generation,
            conditions: seq![ready, failure],
        })
    }
}

/// The status to write after a failed reconcile, if any.
pub fn mark_failed(
    previous: &DiomClusterStatus,
    generation: i64,
    err: &OperatorError,
    now: i64,
    stall_threshold_secs: u64,
) -> (r: Option<DiomClusterStatus>)
    requires
        valid_timestamp(now),
        valid_conditions(previous@.conditions),
    ensures
        r matches Some(s) ==> failed_status_update(previous@, generation, err@, now, stall_threshold_secs) == Some(s@),
        r is None ==> failed_status_update(previous@, generation, err@, now, stall_threshold_secs) is None,
{
    let prev_ready = find_condition(previous.conditions.as_slice(), "Ready");
    let ready = ready_condition(ReadyState::Failed, generation, prev_ready, now);
    let failure = compute_failure_condition(err, generation, previous.conditions.as_slice(), now, stall_threshold_secs);
    let prev_failure = find_condition(previous.conditions.as_slice(), failure.type_.as_str());
    if previous.observed_generation == generation && condition_unchanged(prev_ready, &ready)
        && condition_unchanged(prev_failure, &failure) {
        None
    } else {
        let ghost rv = ready@;
        let ghost fv = failure@;
        let conditions = vec![ready, failure];
        assert(views(conditions@) =~= seq![rv, fv]);
        Some(DiomClusterStatus {
            phase: previous.phase,
            ready_replicas: previous.ready_replicas,
            observed_generation: generation,
            conditions,
        })
    }
}


/// Once a cluster is stalled, a further failed reconcile keeps it stalled, for this
/// generation, and keeps the time at which it became stalled, whatever the error and the
/// threshold; an error other than a missing field or a bad storage size stays a timeout.
pub proof fn lemma_stalled_stays_stalled(
    err: OperatorErrorView,
    generation: i64,
    previous: Seq<ConditionView>,
    now: i64,
    stall_threshold_secs: u64,
)
    requires
        find_spec(previous, "Stalled"@) matches Some(c) && c.status == "True"@,
    ensures
        failure_condition_spec(err, generation, previous, now, stall_threshold_secs).type_ == "Stalled"@,
        failure_condition_spec(err, generation, previous, now, stall_threshold_secs).status == "True"@,
        failure_condition_spec(err, generation, previous, now, stall_threshold_secs).last_transition_time
            == find_spec(previous, "Stalled"@)->0.last_transition_time,
        failure_condition_spec(err, generation, previous, now, stall_threshold_secs).observed_generation
            == Some(generation),
        !(err is MissingField) && !(err is InvalidStorageSize) ==> failure_condition_spec(
            err,
            generation,
            previous,
            now,
            stall_threshold_secs,
        ).reason == "Timeout"@,
{
}

/// Writing the status that `update_status` asks for and reconciling again with the same
/// observations asks for no further write.
pub proof fn lemma_update_status_settles(
    previous: StatusView,
    generation: i64,
    desired: i32,
    ready_replicas: i32,
    now: i64,
    later: i64,
)
    requires
        ready_status_update(previous, generation, desired, ready_replicas, now) is Some,
    ensures
        ready_status_update(
            ready_status_update(previous, generation, desired, ready_replicas, now)->0,
            generation,
            desired,
            ready_replicas,
            later,
        ) is None,
{
    reveal_strlit("Ready");
    reveal_strlit("Reconciling");
    reveal_strlit("Stalled");
    reveal_strlit("Degraded");
    reveal_strlit("Running");
    reveal_strlit("Initializing");
    let s = ready_status_update(previous, generation, desired, ready_replicas, now)->0;
    let c = s.conditions[0];
    assert(find_spec(s.conditions, "Ready"@) == Some(c)) by {
        assert(s.conditions[0].type_ == "Ready"@);
    }
    assert(!has_error_condition(s.conditions)) by {
        if has_error_condition(s.conditions) {
            let i = choose|i: int| 0 <= i < s.conditions.len() && (#[trigger] s.conditions[i].type_ == "Reconciling"@ || s.conditions[i].type_ == "Stalled"@);
            assert(i == 0);
            assert("Ready"@.len() != "Reconciling"@.len());
            assert("Ready"@.len() != "Stalled"@.len());
        }
    }
    assert("Running"@.len() != "Degraded"@.len());
    assert("Initializing"@.len() != "Degraded"@.len());
}

/// Writing the status that `mark_failed` asks for and failing again at the same moment, for
/// the same generation and error, asks for no further write.
pub proof fn lemma_mark_failed_settles(
    previous: StatusView,
    generation: i64,
    err: OperatorErrorView,
    now: i64,
    stall_threshold_secs: u64,
)
    requires
        failed_status_update(previous, generation, err, now, stall_threshold_secs) is Some,
        valid_timestamp(now),
        valid_conditions(previous.conditions),
    ensures
        failed_status_update(
            failed_status_update(previous, generation, err, now, stall_threshold_secs)->0,
            generation,
            err,
            now,
            stall_threshold_secs,
        ) is None,
{
    reveal_strlit("Ready");
    reveal_strlit("Reconciling");
    reveal_strlit("Stalled");
    reveal_strlit("True");
    let s = failed_status_update(previous, generation, err, now, stall_threshold_secs)->0;
    let ready = s.conditions[0];
    let failure = s.conditions[1];
    assert("Ready"@.len() != "Reconciling"@.len());
    assert("Ready"@.len() != "Stalled"@.len());
    assert("Reconciling"@.len() != "Stalled"@.len());
    assert(s.conditions.drop_first() =~= seq![failure]);
    assert(seq![failure].drop_first() =~= Seq::<ConditionView>::empty());
    assert(find_spec(s.conditions, "Ready"@) == Some(ready));
    assert(failure.type_ == "Reconciling"@ || failure.type_ == "Stalled"@);
    assert(ready.type_ == "Ready"@);
    assert(ready.type_ != failure.type_);
    assert(find_spec(seq![failure], failure.type_) == Some(failure));
    assert(find_spec(s.conditions, failure.type_) == find_spec(seq![failure], failure.type_));
    let stalled_before = find_spec(previous.conditions, "Stalled"@);
    let ff1 = failing_for(previous.conditions, now, stall_threshold_secs);
    let ff2 = failing_for(s.conditions, now, stall_threshold_secs);
    if failure.type_ == "Stalled"@ {
        assert(find_spec(s.conditions, "Stalled"@) == Some(failure));
        assert(ff2 == signed_secs(stall_threshold_secs));
        assert(failure_state(err, ff2, stall_threshold_secs) == failure_state(err, ff1, stall_threshold_secs));
    } else {
        assert(find_spec(seq![failure].drop_first(), "Stalled"@) is None);
        assert(find_spec(seq![failure], "Stalled"@) is None);
        assert(find_spec(s.conditions, "Stalled"@) is None);
        assert(find_spec(s.conditions, "Reconciling"@) == Some(failure));
        assert(ff2 == ff1);
    }
}

} // verus!
