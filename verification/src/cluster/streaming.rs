//! Sending a snapshot to a follower in chunks, and putting it back together on the
//! follower. The reads, writes and RPCs are the caller's; these functions decide what each
//! chunk is, where the receiving side writes it, and what follows each reply.
use vstd::prelude::*;
use vstd::string::*;

verus! {

// ----- the sending side -----

/// One chunk of a snapshot: its position, its size, and whether it ends the snapshot.
#[derive(Clone, Copy, Debug, PartialEq, Eq, Structural)]
pub struct ChunkPlan {
    pub offset: u64,
    pub len: u64,
    pub done: bool,
}

/// The chunk made of the `n_read` bytes read at `offset` of a snapshot of `end` bytes: it is
/// the last exactly when it reaches the end.
pub fn chunk_plan(offset: u64, n_read: u64, end: u64) -> (c: ChunkPlan)
    requires
        offset + n_read <= u64::MAX,
    ensures
        c == (ChunkPlan { offset, len: n_read, done: offset + n_read == end }),
{
    ChunkPlan { offset, len: n_read, done: offset + n_read == end }
}

/// What came of sending a chunk.
#[derive(Clone, Copy, Debug, PartialEq, Eq, Structural)]
pub enum ChunkReply {
    /// No answer in time.
    TimedOut,
    /// The follower could not be reached, or the connection failed.
    Unreachable,
    /// The follower failed for good on its side.
    RemoteFatal,
    /// The follower expected another offset of the snapshot.
    Mismatch,
    /// The follower took the chunk; `vote_matches` tells whether its vote is the sender's.
    Accepted { vote_matches: bool },
}

/// What the sender does next.
#[derive(Clone, Copy, Debug, PartialEq, Eq, Structural)]
pub enum SendNext {
    /// Send again from `offset`.
    Resend { offset: u64 },
    /// Stop: the follower answered with a newer vote.
    HigherVote,
    /// Stop: the last chunk was taken.
    Complete,
    /// Go on with the chunk at `offset`.
    Next { offset: u64 },
}

/// The sender's decision after a reply: failures resend the same chunk, a mismatch starts
/// over from the beginning, a newer vote stops, and a taken chunk moves on (or ends the
/// transfer where it was the last).
pub fn after_reply(chunk: ChunkPlan, reply: ChunkReply) -> (n: SendNext)
    requires
        chunk.offset + chunk.len <= u64::MAX,
    ensures
        n == (match reply {
            ChunkReply::TimedOut | ChunkReply::Unreachable | ChunkReply::RemoteFatal => SendNext::Resend {
                offset: chunk.offset,
            },
            ChunkReply::Mismatch => SendNext::Resend { offset: 0 },
            ChunkReply::Accepted { vote_matches } => if !vote_matches {
                SendNext::HigherVote
            } else if chunk.done {
                SendNext::Complete
            } else {
                SendNext::Next { offset: (chunk.offset + chunk.len) as u64 }
            },
        }),
{
    match reply {
        ChunkReply::TimedOut | ChunkReply::Unreachable | ChunkReply::RemoteFatal => SendNext::Resend { offset: chunk.offset },
        ChunkReply::Mismatch => SendNext::Resend { offset: 0 },
        ChunkReply::Accepted { vote_matches } => if !vote_matches {
            SendNext::HigherVote
        } else if chunk.done {
            SendNext::Complete
        } else {
            SendNext::Next { offset: chunk.offset + chunk.len }
        },
    }
}

// ----- the receiving side -----

/// A snapshot being received: its id, and the offset just past the last byte written.
pub struct Streaming {
    pub snapshot_id: String,
    pub offset: u64,
}

pub struct StreamingView {
    pub snapshot_id: Seq<char>,
    pub offset: u64,
}

impl View for Streaming {
    type V = StreamingView;

    open spec fn view(&self) -> StreamingView {
        StreamingView { snapshot_id: self.snapshot_id@, offset: self.offset }
    }
}

pub open spec fn streaming_view(s: Option<Streaming>) -> Option<StreamingView> {
    match s {
        Some(s) => Some(s@),
        None => None,
    }
}

/// A chunk refused because it does not start a snapshot: a new snapshot begins at 0.
#[derive(Clone, Copy, Debug, PartialEq, Eq, Structural)]
pub struct Mismatch {
    pub expected: u64,
    pub got: u64,
}

/// What the receiver does with a chunk it takes.
#[derive(Clone, Copy, Debug, PartialEq, Eq, Structural)]
pub struct ReceivePlan {
    /// Start receiving a new snapshot (dropping any other in progress).
    pub begin: bool,
    /// Move the writer to this offset before writing.
    pub seek_to: Option<u64>,
    /// The chunk is the last: finish the snapshot and install it.
    pub finish: bool,
}

/// What a chunk does to the receiver: a chunk of the snapshot in progress continues it;
/// any other must start a new snapshot at offset 0. The data goes where the chunk says;
/// the last chunk ends the reception.
pub open spec fn receive_spec(
    current: Option<StreamingView>,
    id: Seq<char>,
    offset: u64,
    len: u64,
    done: bool,
) -> Result<(ReceivePlan, Option<StreamingView>), Mismatch> {
    let continuing = current matches Some(s) && s.snapshot_id == id;
    if !continuing && offset != 0 {
        Err(Mismatch { expected: 0, got: offset })
    } else {
        let at: u64 = if continuing { current->0.offset } else { 0 };
        Ok((
            ReceivePlan { begin: !continuing, seek_to: if at == offset { None } else { Some(offset) }, finish: done },
            if done {
                None
            } else {
                Some(StreamingView { snapshot_id: id, offset: (offset + len) as u64 })
            },
        ))
    }
}

/// Takes a chunk of `len` bytes at `offset` of snapshot `id`. A refused chunk leaves the
/// reception in progress as it was.
pub fn receive_chunk(current: Option<Streaming>, id: &str, offset: u64, len: u64, done: bool) -> (r: Result<
    (ReceivePlan, Option<Streaming>),
    (Mismatch, Option<Streaming>),
>)
    requires
        offset + len <= u64::MAX,
    ensures
        match receive_spec(streaming_view(current), id@, offset, len, done) {
            Ok((plan, next)) => r matches Ok((p, n)) && p == plan && streaming_view(n) == next,
            Err(m) => r matches Err((e, kept)) && e == m && streaming_view(kept) == streaming_view(current),
        },
{
    let at: Option<u64> = match &current {
        Some(s) => if s.snapshot_id == String::from_str(id) {
            Some(s.offset)
        } else {
            None
        },
        None => None,
    };
    let continuing = at.is_some();
    if !continuing && offset != 0 {
        return Err((Mismatch { expected: 0, got: offset }, current));
    }
    let from: u64 = match at {
        Some(o) => o,
        None => 0,
    };
    let plan = ReceivePlan { begin: !continuing, seek_to: if from == offset { None } else { Some(offset) }, finish: done };
    if done {
        Ok((plan, None))
    } else {
        Ok((plan, Some(Streaming { snapshot_id: String::from_str(id), offset: offset + len })))
    }
}

// ----- the two sides together -----

pub open spec fn total(lens: Seq<u64>) -> int
    decreases lens.len(),
{
    if lens.len() == 0 {
        0
    } else {
        lens[0] + total(lens.drop_first())
    }
}

/// The receiver's state after the chunks of sizes `lens` of snapshot `id`, sent in order
/// from `start` as the sender plans them for a snapshot of `end` bytes; the first refusal
/// where there is one.
pub open spec fn deliver(
    current: Option<StreamingView>,
    id: Seq<char>,
    lens: Seq<u64>,
    start: int,
    end: int,
) -> Result<Option<StreamingView>, Mismatch>
    decreases lens.len(),
{
    if lens.len() == 0 {
        Ok(current)
    } else {
        match receive_spec(current, id, start as u64, lens[0], start + lens[0] == end) {
            Err(m) => Err(m),
            Ok((_, next)) => deliver(next, id, lens.drop_first(), start + lens[0], end),
        }
    }
}

proof fn lemma_deliver_from(current: Option<StreamingView>, id: Seq<char>, lens: Seq<u64>, start: int, end: int)
    requires
        lens.len() >= 1,
        forall|i: int| 0 <= i < lens.len() ==> lens[i] > 0,
        0 <= start,
        start + total(lens) == end,
        end <= u64::MAX,
        start == 0 || current == Some(StreamingView { snapshot_id: id, offset: start as u64 }),
    ensures
        deliver(current, id, lens, start, end) == Ok::<Option<StreamingView>, Mismatch>(None),
    decreases lens.len(),
{
    let rest = lens.drop_first();
    assert(total(lens) == lens[0] + total(rest));
    lemma_total_nonneg(rest);
    if lens.len() == 1 {
        assert(total(rest) == 0);
        assert(deliver(None, id, rest, start + lens[0], end) == Ok::<Option<StreamingView>, Mismatch>(None));
    } else {
        assert(rest[0] == lens[1]);
        lemma_total_positive(rest);
        let next = Some(StreamingView { snapshot_id: id, offset: (start + lens[0]) as u64 });
        assert forall|i: int| 0 <= i < rest.len() implies rest[i] > 0 by {
            assert(rest[i] == lens[i + 1]);
        }
        lemma_deliver_from(next, id, rest, start + lens[0], end);
    }
}

proof fn lemma_total_nonneg(lens: Seq<u64>)
    ensures
        total(lens) >= 0,
    decreases lens.len(),
{
    if lens.len() > 0 {
        lemma_total_nonneg(lens.drop_first());
    }
}

proof fn lemma_total_positive(lens: Seq<u64>)
    requires
        lens.len() >= 1,
        lens[0] > 0,
    ensures
        total(lens) > 0,
{
    lemma_total_nonneg(lens.drop_first());
}

/// A snapshot sent in order, in chunks of any positive sizes that add up to its length, is
/// taken whole by the receiver, whatever it was receiving before: no chunk is refused and
/// the last one ends the reception.
pub proof fn lemma_in_order_chunks_accepted(current: Option<StreamingView>, id: Seq<char>, lens: Seq<u64>)
    requires
        lens.len() >= 1,
        forall|i: int| 0 <= i < lens.len() ==> lens[i] > 0,
        total(lens) <= u64::MAX,
    ensures
        deliver(current, id, lens, 0, total(lens)) == Ok::<Option<StreamingView>, Mismatch>(None),
{
    lemma_deliver_from(current, id, lens, 0, total(lens));
}

} // verus!
