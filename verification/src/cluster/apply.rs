//! What applying a batch of log entries leaves to do afterwards: which ids to record and
//! which databases to persist.
use vstd::prelude::*;

use super::jobs::LogPosition;

verus! {

/// The payload of a log entry, as far as applying it decides what to record.
#[derive(Clone, Copy, Debug, PartialEq, Eq, Structural)]
pub enum EntryKind {
    /// A heartbeat.
    Blank,
    /// A request, and which databases it writes to.
    Normal { persistent: bool, ephemeral: bool },
    /// A change of membership.
    Membership,
}

/// What the responder of an entry (where it has one) is sent once the entry is applied.
#[derive(Clone, Copy, Debug, PartialEq, Eq, Structural)]
pub enum EntryReply {
    /// The empty reply, for heartbeats and membership changes.
    Blank,
    /// The response of the applied request.
    RequestResponse,
}

/// The reply owed for an entry of each kind.
pub open spec fn reply_for(kind: EntryKind) -> EntryReply {
    match kind {
        EntryKind::Normal { .. } => EntryReply::RequestResponse,
        _ => EntryReply::Blank,
    }
}

/// What a batch has done so far.
#[derive(Clone, Copy, Debug)]
pub struct ApplyBatch {
    pub last_applied: Option<LogPosition>,
    /// The id of the last membership entry applied, where the batch applied one: the
    /// membership it carries becomes the stored membership, with this id.
    pub last_membership_id: Option<LogPosition>,
    pub changed_log_id: bool,
    pub changed_membership: bool,
    pub touched_persistent: bool,
    pub touched_ephemeral: bool,
    pub num_entries: usize,
}

/// The batch after taking in `entries` in order.
pub open spec fn after_entries(b: ApplyBatch, entries: Seq<(LogPosition, EntryKind)>) -> ApplyBatch
    decreases entries.len(),
{
    if entries.len() == 0 {
        b
    } else {
        let prev = after_entries(b, entries.drop_last());
        let (id, kind) = entries.last();
        ApplyBatch {
            last_applied: Some(id),
            last_membership_id: if kind == EntryKind::Membership { Some(id) } else { prev.last_membership_id },
            changed_log_id: true,
            changed_membership: prev.changed_membership || kind == EntryKind::Membership,
            touched_persistent: prev.touched_persistent || kind matches EntryKind::Normal { persistent: true, .. },
            touched_ephemeral: prev.touched_ephemeral || kind matches EntryKind::Normal { ephemeral: true, .. },
            num_entries: (prev.num_entries + 1) as usize,
        }
    }
}

/// The id of the last membership entry among `entries`, if any.
pub open spec fn last_membership(entries: Seq<(LogPosition, EntryKind)>) -> Option<LogPosition>
    decreases entries.len(),
{
    if entries.len() == 0 {
        None
    } else if entries.last().1 == EntryKind::Membership {
        Some(entries.last().0)
    } else {
        last_membership(entries.drop_last())
    }
}

/// Applying entries one by one leaves the last entry's id as the last applied id, the id
/// of the last membership entry (where there is one, else the earlier one) as the
/// membership's id, and counts every entry once.
pub proof fn lemma_batch_records_last_ids(b: ApplyBatch, entries: Seq<(LogPosition, EntryKind)>)
    requires
        b.num_entries + entries.len() <= usize::MAX,
    ensures
        entries.len() > 0 ==> after_entries(b, entries).last_applied == Some(entries.last().0),
        after_entries(b, entries).num_entries == b.num_entries + entries.len(),
        after_entries(b, entries).last_membership_id == (match last_membership(entries) {
            Some(id) => Some(id),
            None => b.last_membership_id,
        }),
    decreases entries.len(),
{
    if entries.len() > 0 {
        lemma_batch_records_last_ids(b, entries.drop_last());
    }
}

/// What is done once the batch is applied.
#[derive(Clone, Copy, Debug, PartialEq, Eq, Structural)]
pub struct ApplyFollowUp {
    /// Record the last applied log id and the membership.
    pub record_ids: bool,
    pub persist_persistent: bool,
    pub persist_ephemeral: bool,
}

impl ApplyBatch {
    pub fn new(last_applied: Option<LogPosition>) -> (b: ApplyBatch)
        ensures
            b.last_applied == last_applied,
            b.last_membership_id is None,
            !b.changed_log_id && !b.changed_membership && !b.touched_persistent && !b.touched_ephemeral,
            b.num_entries == 0,
    {
        ApplyBatch {
            last_applied,
            last_membership_id: None,
            changed_log_id: false,
            changed_membership: false,
            touched_persistent: false,
            touched_ephemeral: false,
            num_entries: 0,
        }
    }

    /// Takes in one applied entry: it becomes the last applied one, a membership entry
    /// becomes the last membership, and the entry's reply is returned, one per entry.
    pub fn take(&mut self, log_id: LogPosition, kind: EntryKind) -> (reply: EntryReply)
        requires
            old(self).num_entries < usize::MAX,
        ensures
            reply == reply_for(kind),
            final(self).last_applied == Some(log_id),
            final(self).last_membership_id == (if kind == EntryKind::Membership {
                Some(log_id)
            } else {
                old(self).last_membership_id
            }),
            final(self).changed_log_id,
            final(self).changed_membership == (old(self).changed_membership || kind == EntryKind::Membership),
            final(self).touched_persistent == (old(self).touched_persistent || kind matches EntryKind::Normal {
                persistent: true,
                ..
            }),
            final(self).touched_ephemeral == (old(self).touched_ephemeral || kind matches EntryKind::Normal {
                ephemeral: true,
                ..
            }),
            final(self).num_entries == old(self).num_entries + 1,
    {
        self.last_applied = Some(log_id);
        self.changed_log_id = true;
        let reply = match kind {
            EntryKind::Blank => EntryReply::Blank,
            EntryKind::Normal { persistent, ephemeral } => {
                if persistent {
                    self.touched_persistent = true;
                }
                if ephemeral {
                    self.touched_ephemeral = true;
                }
                EntryReply::RequestResponse
            },
            EntryKind::Membership => {
                self.last_membership_id = Some(log_id);
                self.changed_membership = true;
                EntryReply::Blank
            },
        };
        self.num_entries = self.num_entries + 1;
        reply
    }

    /// Ids are recorded where anything was applied; a database is persisted where a request
    /// wrote to it.
    pub fn follow_up(&self) -> (f: ApplyFollowUp)
        ensures
            f.record_ids == (self.changed_log_id || self.changed_membership),
            f.persist_persistent == self.touched_persistent,
            f.persist_ephemeral == self.touched_ephemeral,
    {
        ApplyFollowUp {
            record_ids: self.changed_log_id || self.changed_membership,
            persist_persistent: self.touched_persistent,
            persist_ephemeral: self.touched_ephemeral,
        }
    }
}

} // verus!
