//! When the log is synced to disk: after enough commits, or after a debounce interval that
//! follows how long syncing takes.
use vstd::prelude::*;

verus! {

/// The mean of the last few fsync durations, in microseconds.
///
/// A new sample overwrites slot `count % 5`, so of more than five slots only the first five
/// ever change after the first round; the others keep the value they started with.
pub struct SimpleEstimator {
    samples: Vec<Option<u64>>,
    count: usize,
}

pub open spec fn present_sum(s: Seq<Option<u64>>) -> nat
    decreases s.len(),
{
    if s.len() == 0 {
        0
    } else {
        present_sum(s.drop_last()) + match s.last() {
            Some(v) => v as nat,
            None => 0,
        }
    }
}

pub open spec fn present_count(s: Seq<Option<u64>>) -> nat
    decreases s.len(),
{
    if s.len() == 0 {
        0
    } else {
        present_count(s.drop_last()) + if s.last() is Some { 1nat } else { 0 }
    }
}

proof fn lemma_present_count_positive(s: Seq<Option<u64>>)
    requires
        s.len() > 0,
        s[0] is Some,
    ensures
        present_count(s) >= 1,
    decreases s.len(),
{
    if s.len() > 1 {
        lemma_present_count_positive(s.drop_last());
    }
}

impl SimpleEstimator {
    pub closed spec fn samples_spec(&self) -> Seq<Option<u64>> {
        self.samples@
    }

    pub closed spec fn count_spec(&self) -> nat {
        self.count as nat
    }

    /// At least five slots, the first always filled: the estimate always has a sample.
    pub closed spec fn wf(&self) -> bool {
        &&& self.samples@.len() >= 5
        &&& self.samples@[0] is Some
    }

    /// An estimator of `slots` slots whose first sample is `initial_micros`.
    pub fn new(slots: usize, initial_micros: u64) -> (e: SimpleEstimator)
        requires
            slots >= 5,
        ensures
            e.wf(),
            e.count_spec() == 1,
            e.samples_spec() == seq![Some(initial_micros)] + Seq::new((slots - 1) as nat, |i: int| None::<u64>),
    {
        let mut samples: Vec<Option<u64>> = Vec::new();
        samples.push(Some(initial_micros));
        let mut i: usize = 1;
        while i < slots
            invariant
                1 <= i <= slots,
                samples@ == seq![Some(initial_micros)] + Seq::new((i - 1) as nat, |k: int| None::<u64>),
            decreases slots - i,
        {
            samples.push(None);
            assert(samples@ =~= seq![Some(initial_micros)] + Seq::new(i as nat, |k: int| None::<u64>));
            i = i + 1;
        }
        SimpleEstimator { samples, count: 1 }
    }

    /// Records one more duration.
    pub fn push(&mut self, sample_micros: u64)
        requires
            old(self).wf(),
            old(self).count_spec() < usize::MAX,
        ensures
            final(self).wf(),
            final(self).samples_spec() == old(self).samples_spec().update(
                (old(self).count_spec() % 5) as int,
                Some(sample_micros),
            ),
            final(self).count_spec() == old(self).count_spec() + 1,
    {
        let slot = self.count % 5;
        self.samples.set(slot, Some(sample_micros));
        self.count = self.count + 1;
    }

    /// The mean of the samples present, rounded down.
    pub fn estimate(&self) -> (micros: u64)
        requires
            self.wf(),
            present_sum(self.samples_spec()) <= u64::MAX,
        ensures
            present_count(self.samples_spec()) >= 1,
            micros == present_sum(self.samples_spec()) / present_count(self.samples_spec()),
    {
        let mut count: u64 = 0;
        let mut sum: u64 = 0;
        let mut i: usize = 0;
        proof {
            lemma_present_count_positive(self.samples@);
        }
        while i < self.samples.len()
            invariant
                i <= self.samples@.len(),
                count == present_count(self.samples@.subrange(0, i as int)),
                sum == present_sum(self.samples@.subrange(0, i as int)),
                present_sum(self.samples@) <= u64::MAX,
                count <= i,
            decreases self.samples@.len() - i,
        {
            let ghost pre = self.samples@.subrange(0, i + 1);
            assert(pre.drop_last() =~= self.samples@.subrange(0, i as int));
            proof {
                lemma_prefix_sum_le(self.samples@, i + 1);
            }
            match self.samples[i] {
                Some(v) => {
                    count = count + 1;
                    sum = sum + v;
                },
                None => {},
            }
            i = i + 1;
        }
        assert(self.samples@.subrange(0, self.samples@.len() as int) =~= self.samples@);
        sum / count
    }
}

proof fn lemma_prefix_sum_le(s: Seq<Option<u64>>, k: int)
    requires
        0 <= k <= s.len(),
    ensures
        present_sum(s.subrange(0, k)) <= present_sum(s),
    decreases s.len() - k,
{
    if k < s.len() {
        lemma_prefix_sum_le(s, k + 1);
        assert(s.subrange(0, k + 1).drop_last() =~= s.subrange(0, k));
    } else {
        assert(s.subrange(0, k) =~= s);
    }
}

/// The debounce interval moves to a new estimate only when the estimate is believable (at
/// least a microsecond) and more than 100 microseconds away from the current interval.
pub open spec fn next_interval(current_micros: u64, estimate_micros: u64) -> u64 {
    if estimate_micros < 1 {
        current_micros
    } else if (if estimate_micros >= current_micros {
        estimate_micros - current_micros
    } else {
        current_micros - estimate_micros
    }) > 100 {
        estimate_micros
    } else {
        current_micros
    }
}

/// What the flush worker knows between events.
#[derive(Clone, Copy, Debug, PartialEq, Eq, Structural)]
pub struct FlushState {
    /// Writes waiting for the next sync.
    pub pending: usize,
    /// Whether a debounce deadline is running.
    pub deadline_armed: bool,
    /// Whether the worker is to stop once it has done this round.
    pub done: bool,
    /// Sync after this many writes; 0 never syncs by count, 1 syncs every write at once.
    pub commits_before_fsync: usize,
    /// The debounce interval, in microseconds.
    pub interval_micros: u64,
}

/// What woke the flush worker up.
#[derive(Clone, Copy, Debug, PartialEq, Eq, Structural)]
pub enum FlushEvent {
    /// Messages arrived, `callbacks` of which are writes waiting for a sync.
    Messages { callbacks: usize },
    /// The channel was closed.
    Closed,
    /// The server is shutting down.
    Cancelled,
    /// The debounce deadline passed.
    DebounceElapsed,
}

/// What the worker does after an event: whether it syncs the log now (completing every
/// pending write), and whether the round counts as a sync for the interval estimate.
#[derive(Clone, Copy, Debug, PartialEq, Eq, Structural)]
pub struct FlushDecision {
    pub sync_now: bool,
    pub synced: bool,
}

pub open spec fn flush_step_spec(s: FlushState, e: FlushEvent) -> (FlushState, FlushDecision) {
    let after_event = match e {
        FlushEvent::Messages { callbacks } => FlushState {
            pending: (s.pending + callbacks) as usize,
            deadline_armed: s.deadline_armed || (callbacks > 0 && s.commits_before_fsync != 1),
            ..s
        },
        FlushEvent::Closed => FlushState { done: true, ..s },
        FlushEvent::Cancelled => FlushState { done: true, ..s },
        FlushEvent::DebounceElapsed => FlushState { deadline_armed: false, ..s },
    };
    if after_event.pending == 0 {
        (after_event, FlushDecision { sync_now: false, synced: false })
    } else {
        let by_count = after_event.commits_before_fsync > 0 && after_event.pending >= after_event.commits_before_fsync;
        let by_timer = e is DebounceElapsed;
        if by_count || by_timer {
            (FlushState { pending: 0, ..after_event }, FlushDecision { sync_now: true, synced: true })
        } else {
            (after_event, FlushDecision { sync_now: false, synced: true })
        }
    }
}

impl FlushState {
    pub fn new(commits_before_fsync: usize, interval_micros: u64) -> (s: FlushState)
        ensures
            s == (FlushState { pending: 0, deadline_armed: false, done: false, commits_before_fsync, interval_micros }),
    {
        FlushState { pending: 0, deadline_armed: false, done: false, commits_before_fsync, interval_micros }
    }

    /// Takes in one event; a sync completes every pending write.
    pub fn step(&mut self, event: FlushEvent) -> (d: FlushDecision)
        requires
            event matches FlushEvent::Messages { callbacks } ==> old(self).pending + callbacks <= usize::MAX,
        ensures
            (*final(self), d) == flush_step_spec(*old(self), event),
    {
        match event {
            FlushEvent::Messages { callbacks } => {
                self.pending = self.pending + callbacks;
                if callbacks > 0 && self.commits_before_fsync != 1 {
                    self.deadline_armed = true;
                }
            },
            FlushEvent::Closed => {
                self.done = true;
            },
            FlushEvent::Cancelled => {
                self.done = true;
            },
            FlushEvent::DebounceElapsed => {
                self.deadline_armed = false;
            },
        }
        if self.pending == 0 {
            return FlushDecision { sync_now: false, synced: false };
        }
        let by_count = self.commits_before_fsync > 0 && self.pending >= self.commits_before_fsync;
        let by_timer = match event {
            FlushEvent::DebounceElapsed => true,
            _ => false,
        };
        if by_count || by_timer {
            self.pending = 0;
            FlushDecision { sync_now: true, synced: true }
        } else {
            FlushDecision { sync_now: false, synced: true }
        }
    }

    /// Whether the interval estimate is updated after a round: when autoscaling, after a
    /// round with pending writes, unless every write is synced at once.
    pub fn should_update_estimate(&self, autoscale: bool, synced: bool) -> (b: bool)
        ensures
            b == (autoscale && synced && self.commits_before_fsync != 1),
    {
        autoscale && synced && self.commits_before_fsync != 1
    }

    /// Moves the debounce interval to a new estimate, where it is believable and far
    /// enough from the current one.
    pub fn update_interval(&mut self, estimate_micros: u64)
        ensures
            *final(self) == (FlushState { interval_micros: next_interval(old(self).interval_micros, estimate_micros), ..*old(self) }),
    {
        let diff = if estimate_micros >= self.interval_micros {
            estimate_micros - self.interval_micros
        } else {
            self.interval_micros - estimate_micros
        };
        if estimate_micros < 1 {
        } else if diff > 100 {
            self.interval_micros = estimate_micros;
        }
    }
}

/// With a count threshold, fewer writes than the threshold wait between events: whatever
/// happens, a round that reaches the threshold syncs them all.
pub proof fn lemma_count_threshold_never_exceeded(s: FlushState, e: FlushEvent)
    requires
        s.commits_before_fsync > 0,
        s.pending < s.commits_before_fsync,
        e matches FlushEvent::Messages { callbacks } ==> s.pending + callbacks <= usize::MAX,
    ensures
        flush_step_spec(s, e).0.pending < s.commits_before_fsync,
{
}

} // verus!
