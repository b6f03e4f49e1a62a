//! The in-memory cache of the most recent log entries, and the ranges that log reads cover.
use vstd::prelude::*;
use std::collections::VecDeque;

verus! {

/// The newest entries of the Raft log, by index, up to a capacity. Entries come in index
/// order without gaps, so an entry is found by its offset from the first one.
pub struct LogCache<E> {
    inner: VecDeque<(u64, E)>,
    capacity: usize,
    /// Index of the first entry, while there is one.
    base_index: Option<u64>,
}

/// The entries hold consecutive indexes starting at `base`.
pub open spec fn consecutive<E>(s: Seq<(u64, E)>, base: u64) -> bool {
    forall|i: int| 0 <= i < s.len() ==> #[trigger] s[i].0 == base + i
}

/// The entry of the given index among consecutive entries, if there is one.
pub open spec fn entry_at<E>(s: Seq<(u64, E)>, index: u64) -> Option<E> {
    if s.len() > 0 && s[0].0 <= index < s[0].0 + s.len() {
        Some(s[index - s[0].0].1)
    } else {
        None
    }
}

/// How many entries, from the front, have an index at most `index`.
pub open spec fn count_at_most<E>(s: Seq<(u64, E)>, index: u64) -> int {
    if s.len() == 0 || index < s[0].0 {
        0
    } else if index - s[0].0 + 1 >= s.len() {
        s.len() as int
    } else {
        index - s[0].0 + 1
    }
}

/// How many entries, from the front, have an index below `index`.
pub open spec fn count_below<E>(s: Seq<(u64, E)>, index: u64) -> int {
    if s.len() == 0 || index <= s[0].0 {
        0
    } else if index - s[0].0 >= s.len() {
        s.len() as int
    } else {
        index - s[0].0
    }
}

impl<E> LogCache<E> {
    /// The cached entries with their indexes, oldest first.
    pub closed spec fn entries(&self) -> Seq<(u64, E)> {
        self.inner@
    }

    pub closed spec fn capacity_spec(&self) -> nat {
        self.capacity as nat
    }

    pub closed spec fn wf(&self) -> bool {
        &&& self.inner@.len() > 0 ==> self.base_index == Some(self.inner@[0].0) && consecutive(
            self.inner@,
            self.inner@[0].0,
        )
        &&& self.inner@.len() == 0 ==> self.base_index is None
        &&& self.inner@.len() <= if self.capacity == 0 { 1 } else { self.capacity as int }
    }

    pub fn new(capacity: usize) -> (c: LogCache<E>)
        ensures
            c.wf(),
            c.entries().len() == 0,
            c.capacity_spec() == capacity,
    {
        LogCache { inner: VecDeque::new(), capacity, base_index: None }
    }

    /// Adds the entry that follows the newest one, first dropping the oldest where the
    /// cache is full.
    pub fn push(&mut self, index: u64, entry: E)
        requires
            old(self).wf(),
            old(self).entries().len() > 0 ==> index == old(self).entries().last().0 + 1,
        ensures
            final(self).wf(),
            final(self).capacity_spec() == old(self).capacity_spec(),
            final(self).entries() == (if old(self).entries().len() >= old(self).capacity_spec() && old(
                self,
            ).entries().len() > 0 {
                old(self).entries().drop_first()
            } else {
                old(self).entries()
            }).push((index, entry)),
    {
        if self.inner.len() >= self.capacity {
            let ghost before = self.inner@;
            let _ = self.inner.pop_front();
            self.base_index = if self.inner.len() > 0 {
                Some(self.inner[0].0)
            } else {
                None
            };
            proof {
                if before.len() > 0 {
                    assert(self.inner@ =~= before.drop_first());
                    assert forall|i: int| 0 <= i < self.inner@.len() implies #[trigger] self.inner@[i].0
                        == self.inner@[0].0 + i by {
                        assert(self.inner@[i] == before[i + 1]);
                        assert(self.inner@[0] == before[1]);
                    }
                }
            }
        }
        if self.base_index.is_none() {
            self.base_index = Some(index);
        }
        let ghost mid = self.inner@;
        self.inner.push_back((index, entry));
        proof {
            assert forall|i: int| 0 <= i < self.inner@.len() implies #[trigger] self.inner@[i].0 == self.inner@[0].0
                + i by {
                if i < mid.len() {
                    assert(self.inner@[i] == mid[i]);
                }
                if mid.len() > 0 {
                    assert(self.inner@[0] == mid[0]);
                    assert(mid[mid.len() - 1].0 == mid[0].0 + mid.len() - 1);
                }
            }
        }
    }

    /// Drops every entry whose index is at most `index`.
    pub fn purge(&mut self, index: u64)
        requires
            old(self).wf(),
        ensures
            final(self).wf(),
            final(self).capacity_spec() == old(self).capacity_spec(),
            final(self).entries() == old(self).entries().subrange(
                count_at_most(old(self).entries(), index),
                old(self).entries().len() as int,
            ),
    {
        let ghost orig = self.inner@;
        while self.inner.len() > 0 && self.inner[0].0 <= index
            invariant
                orig.len() > 0 ==> consecutive(orig, orig[0].0),
                self.inner@.len() <= orig.len(),
                self.inner@ == orig.subrange(orig.len() - self.inner@.len(), orig.len() as int),
                self.inner@.len() < orig.len() ==> orig[orig.len() - self.inner@.len() - 1].0 <= index,
                self.capacity == old(self).capacity,
                orig == old(self).inner@,
            decreases self.inner@.len(),
        {
            let ghost before = self.inner@;
            let _ = self.inner.pop_front();
            assert(self.inner@ =~= orig.subrange(orig.len() - self.inner@.len(), orig.len() as int));
        }
        self.base_index = if self.inner.len() > 0 {
            Some(self.inner[0].0)
        } else {
            None
        };
        proof {
            let k = orig.len() - self.inner@.len();
            assert forall|i: int| 0 <= i < self.inner@.len() implies #[trigger] self.inner@[i].0 == self.inner@[0].0
                + i by {
                assert(self.inner@[i] == orig[k + i]);
                assert(self.inner@[0] == orig[k]);
            }
            if orig.len() > 0 {
                assert(orig[0].0 + 0 == orig[0].0);
                if self.inner@.len() > 0 {
                    assert(self.inner@[0] == orig[k]);
                    assert(orig[k].0 == orig[0].0 + k);
                    assert(orig[k].0 > index);
                }
                if k > 0 {
                    assert(orig[k - 1].0 == orig[0].0 + k - 1);
                }
                assert(k == count_at_most(orig, index));
            }
        }
    }

    /// Drops every entry whose index is at least `index`.
    pub fn truncate(&mut self, index: u64)
        requires
            old(self).wf(),
        ensures
            final(self).wf(),
            final(self).capacity_spec() == old(self).capacity_spec(),
            final(self).entries() == old(self).entries().subrange(0, count_below(old(self).entries(), index)),
    {
        let ghost orig = self.inner@;
        while self.inner.len() > 0 && self.inner[self.inner.len() - 1].0 >= index
            invariant
                orig.len() > 0 ==> consecutive(orig, orig[0].0),
                self.inner@.len() <= orig.len(),
                self.inner@ == orig.subrange(0, self.inner@.len() as int),
                self.inner@.len() < orig.len() ==> orig[self.inner@.len() as int].0 >= index,
                self.capacity == old(self).capacity,
                self.base_index == old(self).base_index,
                orig == old(self).inner@,
            decreases self.inner@.len(),
        {
            let _ = self.inner.pop_back();
            assert(self.inner@ =~= orig.subrange(0, self.inner@.len() as int));
        }
        if self.inner.len() == 0 {
            self.base_index = None;
        }
        proof {
            let k = self.inner@.len();
            assert forall|i: int| 0 <= i < self.inner@.len() implies #[trigger] self.inner@[i].0 == self.inner@[0].0
                + i by {
                assert(self.inner@[i] == orig[i]);
                assert(self.inner@[0] == orig[0]);
            }
            if orig.len() > 0 {
                assert(orig[0].0 + 0 == orig[0].0);
                if k > 0 {
                    assert(self.inner@[0] == orig[0]);
                    assert(orig[k - 1].0 == orig[0].0 + k - 1);
                    assert(orig[k - 1].0 < index);
                }
                if k < orig.len() {
                    assert(orig[k as int].0 == orig[0].0 + k);
                }
                assert(k == count_below(orig, index));
            }
        }
    }

    /// The cached entry with the given index, if there is one.
    /// A well-formed cache never holds more entries than its capacity (one, where the
    /// capacity is zero), holds consecutive indexes from its first entry, and finds an
    /// index exactly when it lies from the first entry's index up to that plus the number
    /// of entries, the entry found carrying that index.
    pub proof fn lemma_shape(&self)
        requires
            self.wf(),
        ensures
            self.entries().len() <= (if self.capacity_spec() == 0 { 1 } else { self.capacity_spec() as int }),
            self.entries().len() > 0 ==> consecutive(self.entries(), self.entries()[0].0),
            forall|i: u64|
                #[trigger] entry_at(self.entries(), i) is Some <==> (self.entries().len() > 0 && self.entries()[0].0 <= i
                    < self.entries()[0].0 + self.entries().len()),
            forall|i: u64|
                #![trigger entry_at(self.entries(), i)]
                entry_at(self.entries(), i) is Some ==> self.entries()[i - self.entries()[0].0].0 == i,
    {
    }

    pub fn get(&self, index: u64) -> (r: Option<&E>)
        requires
            self.wf(),
        ensures
            r matches Some(e) ==> entry_at(self.entries(), index) == Some(*e),
            r is None ==> entry_at(self.entries(), index) is None,
    {
        let base = match self.base_index {
            Some(b) => b,
            None => return None,
        };
        if index < base {
            return None;
        }
        let offset = index - base;
        if offset >= self.inner.len() as u64 {
            return None;
        }
        let r = &self.inner[offset as usize].1;
        Some(r)
    }
}

/// Reading an entry right after adding it gives that entry back, whatever the cache held
/// before, as long as it can hold one entry.
pub proof fn lemma_get_after_push<E>(before: Seq<(u64, E)>, capacity: nat, index: u64, entry: E)
    requires
        before.len() > 0 ==> consecutive(before, before[0].0) && index == before.last().0 + 1,
    ensures
        ({
            let after = (if before.len() >= capacity && before.len() > 0 {
                before.drop_first()
            } else {
                before
            }).push((index, entry));
            entry_at(after, index) == Some(entry)
        }),
{
    let kept = if before.len() >= capacity && before.len() > 0 {
        before.drop_first()
    } else {
        before
    };
    let after = kept.push((index, entry));
    if kept.len() > 0 {
        if before.len() >= capacity && before.len() > 0 {
            assert(kept[0] == before[1]);
            assert(before[1].0 == before[0].0 + 1);
            assert(before.last().0 == before[0].0 + before.len() - 1);
        } else {
            assert(before.last().0 == before[0].0 + before.len() - 1);
        }
        assert(after[0] == kept[0]);
        assert(index - after[0].0 == kept.len());
    }
}

/// Where a read of a range of log entries goes: one entry that may be in the cache, then
/// the stored entries from `from` on, up to `until` (exclusive) where the range has an end.
#[derive(Clone, Copy, Debug, PartialEq, Eq, Structural)]
pub struct LogReadPlan {
    pub single: Option<u64>,
    pub from: u64,
    pub until: Option<u64>,
}

/// One end of a range of log indexes.
#[derive(Clone, Copy, Debug, PartialEq, Eq, Structural)]
pub enum IndexBound {
    Included(u64),
    Excluded(u64),
    Unbounded,
}

pub open spec fn max_u64(a: u64, b: u64) -> u64 {
    if a >= b { a } else { b }
}

/// The read of entries `start..end`: a range of exactly one entry is first looked up in the
/// cache; the store is read from the start, but never below the purged index, to the end.
pub open spec fn read_plan_spec(start: IndexBound, end: IndexBound, purged_index: Option<u64>) -> LogReadPlan {
    let purged = match purged_index {
        Some(p) => p,
        None => 0,
    };
    LogReadPlan {
        single: match (start, end) {
            (IndexBound::Included(i), IndexBound::Excluded(j)) => if i + 1 == j { Some(i) } else { None },
            _ => None,
        },
        from: match start {
            IndexBound::Unbounded => purged,
            IndexBound::Included(i) => max_u64(i, purged),
            IndexBound::Excluded(i) => max_u64((i + 1) as u64, purged),
        },
        until: match end {
            IndexBound::Unbounded => None,
            IndexBound::Included(i) => Some((i + 1) as u64),
            IndexBound::Excluded(i) => Some(i),
        },
    }
}

/// A read never goes below the purged index, nor below its own start: it starts at the
/// larger of the two (at the purged index for an unbounded start, and at 0 where nothing
/// was purged); it stops at the end it was given; and only a range of exactly one entry,
/// `i..i+1`, is first looked up in the cache, as that entry.
pub proof fn lemma_read_plan_bounds(start: IndexBound, end: IndexBound, purged_index: Option<u64>)
    requires
        start matches IndexBound::Excluded(i) ==> i < u64::MAX,
        end matches IndexBound::Included(i) ==> i < u64::MAX,
    ensures
        ({
            let p = read_plan_spec(start, end, purged_index);
            let floor: int = match purged_index {
                Some(q) => q as int,
                None => 0,
            };
            let lo: int = match start {
                IndexBound::Included(i) => i as int,
                IndexBound::Excluded(i) => i + 1,
                IndexBound::Unbounded => 0,
            };
            &&& p.from >= floor
            &&& p.from >= lo
            &&& (p.from == floor || p.from == lo)
            &&& (end is Unbounded <==> p.until is None)
            &&& (end matches IndexBound::Included(i) ==> p.until matches Some(u) && u == i + 1)
            &&& (end matches IndexBound::Excluded(i) ==> p.until == Some(i))
            &&& (p.single matches Some(k) ==> start == IndexBound::Included(k) && (end matches IndexBound::Excluded(j)
                && j == k + 1))
            &&& (start matches IndexBound::Included(i) ==> end matches IndexBound::Excluded(j) ==> j == i + 1
                ==> p.single == Some(i))
        }),
{
}

pub fn read_plan(start: IndexBound, end: IndexBound, purged_index: Option<u64>) -> (p: LogReadPlan)
    requires
        start matches IndexBound::Excluded(i) ==> i < u64::MAX,
        end matches IndexBound::Included(i) ==> i < u64::MAX,
        start matches IndexBound::Included(i) ==> i < u64::MAX,
    ensures
        p == read_plan_spec(start, end, purged_index),
{
    let purged = match purged_index {
        Some(p) => p,
        None => 0,
    };
    let single = match (start, end) {
        (IndexBound::Included(i), IndexBound::Excluded(j)) => if i + 1 == j {
            Some(i)
        } else {
            None
        },
        _ => None,
    };
    let from = match start {
        IndexBound::Unbounded => purged,
        IndexBound::Included(i) => if i >= purged {
            i
        } else {
            purged
        },
        IndexBound::Excluded(i) => if i + 1 >= purged {
            i + 1
        } else {
            purged
        },
    };
    let until = match end {
        IndexBound::Unbounded => None,
        IndexBound::Included(i) => Some(i + 1),
        IndexBound::Excluded(i) => Some(i),
    };
    LogReadPlan { single, from, until }
}

/// The first index that a truncation after `log_index` removes: everything after it, or
/// everything where no index is given.
pub fn truncation_start(log_index: Option<u64>) -> (s: u64)
    requires
        log_index matches Some(i) ==> i < u64::MAX,
    ensures
        s == (match log_index {
            Some(i) => i + 1,
            None => 0,
        }),
{
    match log_index {
        Some(i) => i + 1,
        None => 0,
    }
}

/// The number of entries in the log: from the last purged index to the last index.
pub fn entry_count(last_index: Option<u64>, last_purged_index: Option<u64>) -> (n: u64)
    ensures
        n == ({
            let last = match last_index {
                Some(i) => i,
                None => 0,
            };
            let purged = match last_purged_index {
                Some(i) => i,
                None => 0,
            };
            if last >= purged {
                (last - purged) as u64
            } else {
                0
            }
        }),
{
    let last = match last_index {
        Some(i) => i,
        None => 0,
    };
    let purged = match last_purged_index {
        Some(i) => i,
        None => 0,
    };
    last.saturating_sub(purged)
}

/// The last log id of a store: that of its newest entry, or the last purged one where the
/// store holds none.
pub fn last_log_id<L: Copy>(newest_entry: Option<L>, last_purged: Option<L>) -> (r: Option<L>)
    ensures
        r == (if newest_entry is Some {
            newest_entry
        } else {
            last_purged
        }),
{
    match newest_entry {
        Some(l) => Some(l),
        None => last_purged,
    }
}

} // verus!
