use diom::cluster::streaming::{
    after_reply, chunk_plan, receive_chunk, ChunkPlan, ChunkReply, Mismatch, ReceivePlan, SendNext, Streaming,
};

#[test]
fn chunk_is_last_when_it_reaches_the_end() {
    assert_eq!(chunk_plan(0, 10, 25), ChunkPlan { offset: 0, len: 10, done: false });
    assert_eq!(chunk_plan(20, 5, 25), ChunkPlan { offset: 20, len: 5, done: true });
    assert_eq!(chunk_plan(0, 0, 0), ChunkPlan { offset: 0, len: 0, done: true });
}

#[test]
fn sender_decisions_after_each_reply() {
    let mid = chunk_plan(10, 10, 25);
    assert_eq!(after_reply(mid, ChunkReply::TimedOut), SendNext::Resend { offset: 10 });
    assert_eq!(after_reply(mid, ChunkReply::Unreachable), SendNext::Resend { offset: 10 });
    assert_eq!(after_reply(mid, ChunkReply::RemoteFatal), SendNext::Resend { offset: 10 });
    assert_eq!(after_reply(mid, ChunkReply::Mismatch), SendNext::Resend { offset: 0 });
    assert_eq!(after_reply(mid, ChunkReply::Accepted { vote_matches: false }), SendNext::HigherVote);
    assert_eq!(after_reply(mid, ChunkReply::Accepted { vote_matches: true }), SendNext::Next { offset: 20 });
    let last = chunk_plan(20, 5, 25);
    assert_eq!(after_reply(last, ChunkReply::Accepted { vote_matches: true }), SendNext::Complete);
    assert_eq!(after_reply(last, ChunkReply::Accepted { vote_matches: false }), SendNext::HigherVote);
}

#[test]
fn new_snapshot_must_start_at_zero() {
    let r = receive_chunk(None, "snap-1", 10, 5, false);
    match r {
        Err((m, kept)) => {
            assert_eq!(m, Mismatch { expected: 0, got: 10 });
            assert!(kept.is_none());
        }
        Ok(_) => panic!("chunk should be refused"),
    }
    let current = Some(Streaming { snapshot_id: "snap-0".to_string(), offset: 7 });
    match receive_chunk(current, "snap-1", 3, 5, false) {
        Err((m, kept)) => {
            assert_eq!(m, Mismatch { expected: 0, got: 3 });
            let kept = kept.unwrap();
            assert_eq!(kept.snapshot_id, "snap-0");
            assert_eq!(kept.offset, 7);
        }
        Ok(_) => panic!("chunk should be refused"),
    }
}

#[test]
fn receiver_follows_chunks_in_order() {
    let (plan, state) = receive_chunk(None, "snap-1", 0, 10, false).ok().unwrap();
    assert_eq!(plan, ReceivePlan { begin: true, seek_to: None, finish: false });
    let state = state.unwrap();
    assert_eq!(state.offset, 10);
    let (plan, state) = receive_chunk(Some(state), "snap-1", 10, 10, false).ok().unwrap();
    assert_eq!(plan, ReceivePlan { begin: false, seek_to: None, finish: false });
    let state = state.unwrap();
    assert_eq!(state.offset, 20);
    let (plan, state) = receive_chunk(Some(state), "snap-1", 20, 5, true).ok().unwrap();
    assert_eq!(plan, ReceivePlan { begin: false, seek_to: None, finish: true });
    assert!(state.is_none());
}

#[test]
fn receiver_seeks_on_resent_chunks() {
    let current = Some(Streaming { snapshot_id: "snap-1".to_string(), offset: 20 });
    let (plan, state) = receive_chunk(current, "snap-1", 10, 10, false).ok().unwrap();
    assert_eq!(plan, ReceivePlan { begin: false, seek_to: Some(10), finish: false });
    assert_eq!(state.unwrap().offset, 20);
    let current = Some(Streaming { snapshot_id: "snap-1".to_string(), offset: 20 });
    let (plan, _) = receive_chunk(current, "snap-1", 0, 10, false).ok().unwrap();
    assert_eq!(plan.seek_to, Some(0));
}

#[test]
fn other_snapshot_at_zero_replaces_the_one_in_progress() {
    let current = Some(Streaming { snapshot_id: "snap-0".to_string(), offset: 40 });
    let (plan, state) = receive_chunk(current, "snap-1", 0, 8, false).ok().unwrap();
    assert_eq!(plan, ReceivePlan { begin: true, seek_to: None, finish: false });
    let state = state.unwrap();
    assert_eq!(state.snapshot_id, "snap-1");
    assert_eq!(state.offset, 8);
}

#[test]
fn sender_and_receiver_agree_on_a_whole_transfer() {
    // A 25-byte snapshot in chunks of at most 10 bytes, every reply accepted.
    let end = 25u64;
    let mut offset = 0u64;
    let mut receiver: Option<Streaming> = Some(Streaming { snapshot_id: "old".to_string(), offset: 3 });
    let mut finished = false;
    while !finished {
        let n = std::cmp::min(10, end - offset);
        let chunk = chunk_plan(offset, n, end);
        let (plan, next) = receive_chunk(receiver.take(), "snap-9", chunk.offset, chunk.len, chunk.done).ok().unwrap();
        receiver = next;
        match after_reply(chunk, ChunkReply::Accepted { vote_matches: true }) {
            SendNext::Next { offset: o } => offset = o,
            SendNext::Complete => {
                assert!(plan.finish);
                finished = true;
            }
            other => panic!("unexpected {other:?}"),
        }
    }
    assert!(receiver.is_none());
}
