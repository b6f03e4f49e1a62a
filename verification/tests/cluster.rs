use diom::cluster::apply::{ApplyBatch, EntryKind, EntryReply};
use diom::cluster::discovery::{
    discovery_round, find_self, join_target, ClusterInfo, JoinError, RoundDecision, SeedResponse,
};
use diom::cluster::flush::{FlushDecision, FlushEvent, FlushState, SimpleEstimator};
use diom::cluster::jobs::{
    first_stop_failure, leader_message, may_snapshot, purge_offset, snapshot_step, tick_due,
    JobOutcome, LeaderJobs, LeaderLoopAction, LeaderLoopEvent, LeaderMessage, LogPosition,
    PurgeBy, SnapshotRefusal, SnapshotStep,
};
use diom::cluster::log_cache::{entry_count, last_log_id, read_plan, truncation_start, IndexBound, LogCache};
use diom::cluster::membership::{
    check_go_away, is_up, leader_route, linearizable_route, needs_discovery, plan_removal,
    refused_write, GoAwayRefusal, LeaderError, LeaderRoute, LinearizableRoute, RefusedWrite,
    RemovalError, ServerState,
};
use diom::cluster::network::{
    address_source, pick_interface, rpc_outcome, seed_of_self, AddressSource, InterfaceInfo,
    RpcError, RpcKind, RpcStage,
};
use diom::cluster::readiness::{initialize_error, raft_settings, InitializeOutcome, RaftReadiness};
use diom::cluster::request_key::{hashed_key, key_hash_text};
use diom::cluster::snapshot::{
    check_persistable, decode_chunk, encode_record, is_snapshot_magic, keep_snapshot_file,
    next_snapshot_idx, snapshot_file_name, snapshot_id, snapshot_idx, snapshot_keyspaces,
    snapshot_magic, ChunkError, KeyspaceChunker, SnapshotIdError,
};
use diom::cluster::types::{
    internal_response, BackgroundCommand, InternalResponse, RequestModule, ResponseParseError,
    VersionRange,
};
use diom::metrics::ClusterRequestStatus;

#[test]
fn includes_feature_version_within_range() {
    let a = VersionRange::new(0, 2);
    assert!(a.includes(0));
    assert!(a.includes(2));
    assert!(!a.includes(3));
    assert!(VersionRange::supported().includes(0));
    assert!(!VersionRange::supported().includes(1));
}

#[test]
fn log_cache_reads_what_was_pushed() {
    let mut c: LogCache<&str> = LogCache::new(3);
    c.push(5, "e5");
    c.push(6, "e6");
    c.push(7, "e7");
    assert_eq!(c.get(5), Some(&"e5"));
    c.push(8, "e8");
    assert_eq!(c.get(5), None);
    assert_eq!(c.get(8), Some(&"e8"));
    assert_eq!(c.get(6), Some(&"e6"));
    assert_eq!(c.get(9), None);
    c.purge(6);
    assert_eq!(c.get(6), None);
    assert_eq!(c.get(7), Some(&"e7"));
    c.truncate(8);
    assert_eq!(c.get(8), None);
    assert_eq!(c.get(7), Some(&"e7"));
    c.push(8, "new8");
    assert_eq!(c.get(8), Some(&"new8"));
    c.purge(100);
    assert_eq!(c.get(8), None);
    c.push(200, "e200");
    assert_eq!(c.get(200), Some(&"e200"));
    let mut z: LogCache<u8> = LogCache::new(0);
    z.push(1, 1);
    z.push(2, 2);
    assert_eq!(z.get(2), Some(&2));
    assert_eq!(z.get(1), None);
}

#[test]
fn log_read_ranges() {
    let p = read_plan(IndexBound::Included(4), IndexBound::Excluded(5), Some(2));
    assert_eq!(p.single, Some(4));
    assert_eq!(p.from, 4);
    assert_eq!(p.until, Some(5));
    let p = read_plan(IndexBound::Excluded(1), IndexBound::Included(9), Some(7));
    assert_eq!(p.single, None);
    assert_eq!(p.from, 7);
    assert_eq!(p.until, Some(10));
    let p = read_plan(IndexBound::Unbounded, IndexBound::Unbounded, None);
    assert_eq!((p.from, p.until), (0, None));
    assert_eq!(truncation_start(Some(9)), 10);
    assert_eq!(truncation_start(None), 0);
    assert_eq!(entry_count(Some(100), Some(40)), 60);
    assert_eq!(entry_count(Some(10), Some(40)), 0);
    assert_eq!(entry_count(None, None), 0);
    assert_eq!(last_log_id(Some(3u64), Some(1)), Some(3));
    assert_eq!(last_log_id(None, Some(1u64)), Some(1));
}

#[test]
fn estimator_means_present_samples() {
    let mut e = SimpleEstimator::new(7, 100);
    assert_eq!(e.estimate(), 100);
    e.push(300);
    assert_eq!(e.estimate(), 200);
    for _ in 0..10 {
        e.push(50);
    }
    // only five of the seven slots are ever written
    assert_eq!(e.estimate(), 50);
}

#[test]
fn flush_worker_rounds() {
    let mut s = FlushState::new(3, 2_000);
    assert_eq!(s.step(FlushEvent::Messages { callbacks: 1 }), FlushDecision { sync_now: false, synced: true });
    assert!(s.deadline_armed);
    assert_eq!(s.step(FlushEvent::Messages { callbacks: 2 }), FlushDecision { sync_now: true, synced: true });
    assert_eq!(s.pending, 0);
    assert_eq!(s.step(FlushEvent::DebounceElapsed), FlushDecision { sync_now: false, synced: false });
    s.step(FlushEvent::Messages { callbacks: 1 });
    assert_eq!(s.step(FlushEvent::DebounceElapsed), FlushDecision { sync_now: true, synced: true });
    s.step(FlushEvent::Closed);
    assert!(s.done);
    let mut every = FlushState::new(1, 2_000);
    assert_eq!(every.step(FlushEvent::Messages { callbacks: 1 }), FlushDecision { sync_now: true, synced: true });
    assert!(!every.deadline_armed);
    assert!(!every.should_update_estimate(true, true));
    assert!(s.should_update_estimate(true, true));
    s.update_interval(2_050);
    assert_eq!(s.interval_micros, 2_000);
    s.update_interval(5_000);
    assert_eq!(s.interval_micros, 5_000);
    s.update_interval(0);
    assert_eq!(s.interval_micros, 5_000);
}

#[test]
fn snapshot_ids() {
    let id = snapshot_id(Some(("T1-N42", 17)), 3);
    assert_eq!(id, "T1-N42-17-3");
    assert_eq!(snapshot_idx(&id), Ok(3));
    assert_eq!(snapshot_id(None, 12), "x-x-12");
    assert_eq!(snapshot_idx("x-x-12"), Ok(12));
    assert_eq!(snapshot_idx("7"), Ok(7));
    assert_eq!(snapshot_idx("a-b-"), Err(SnapshotIdError::NotANumber));
    assert_eq!(snapshot_idx("a-b-c"), Err(SnapshotIdError::NotANumber));
    assert_eq!(next_snapshot_idx(4, 2), 5);
    assert_eq!(next_snapshot_idx(4, 9), 9);
    assert_eq!(snapshot_file_name("x-x-1"), "coyote-x-x-1");
    assert!(check_persistable(false).is_ok());
    assert_eq!(check_persistable(true), Err("cannot persist a final snapshot"));
    let names = vec!["a".to_string(), "_raft_metadata".to_string(), "b".to_string()];
    assert_eq!(snapshot_keyspaces(&names), vec!["a".to_string(), "b".to_string()]);
    assert!(keep_snapshot_file("s1", Some("s1"), None));
    assert!(keep_snapshot_file("s2", Some("s1"), Some("s2")));
    assert!(!keep_snapshot_file("s3", Some("s1"), Some("s2")));
}

#[test]
fn test_serialize_chunks_round_trip() {
    let magic = snapshot_magic();
    assert_eq!(&magic[..], b"COYOTE01");
    assert!(is_snapshot_magic(b"COYOTE01"));
    assert!(!is_snapshot_magic(b"COYOTE02"));

    let rows: Vec<(&[u8], &[u8])> = vec![(b"key1", b"value1"), (b"key2", b"\x00\x00\x00"), (b"key3", b"")];
    let mut chunker = KeyspaceChunker::new("keyspace1".to_string());
    for (k, v) in &rows {
        assert!(chunker.add(k, v).is_none());
    }
    let chunk = chunker.finish().expect("one chunk");
    assert_eq!(chunk.chunk.name, "keyspace1/part0");
    assert_eq!(chunk.chunk.num_records, 3);
    let back = decode_chunk(&chunk.data, chunk.chunk.num_records).unwrap();
    let expected: Vec<(Vec<u8>, Vec<u8>)> = rows.iter().map(|(k, v)| (k.to_vec(), v.to_vec())).collect();
    assert_eq!(back, expected);
    assert_eq!(decode_chunk(&chunk.data, 4), Err(ChunkError::UnexpectedEof));
    assert_eq!(decode_chunk(&chunk.data[..10], 1), Err(ChunkError::UnexpectedEof));

    let mut buf = Vec::new();
    encode_record(&mut buf, b"key4", b"value4");
    assert_eq!(&buf[..6], &[0, 4, 0, 0, 0, 6]);
    assert_eq!(&buf[6..], b"key4value4");
    let mut empty = KeyspaceChunker::new("keyspace2".to_string());
    assert!(empty.finish().is_none());
}

#[test]
fn large_chunks_are_split() {
    let mut chunker = KeyspaceChunker::new("ks".to_string());
    let big = vec![7u8; 6_000_000];
    assert!(chunker.add(b"a", &big).is_none());
    assert!(chunker.add(b"b", &big).is_none());
    let first = chunker.add(b"c", b"small").expect("the chunk is past the limit");
    assert_eq!(first.chunk.name, "ks/part0");
    assert_eq!(first.chunk.num_records, 2);
    let last = chunker.finish().unwrap();
    assert_eq!(last.chunk.name, "ks/part1");
    assert_eq!(last.chunk.num_records, 1);
    assert_eq!(chunker.into_chunks().len(), 2);
}

#[test]
fn leader_jobs() {
    assert_eq!(leader_message(5, 5), LeaderMessage::StartBeingLeader);
    assert_eq!(leader_message(4, 5), LeaderMessage::StopBeingLeader);
    let mut j = LeaderJobs::new();
    let start = LeaderLoopEvent::Message(LeaderMessage::StartBeingLeader);
    let stop = LeaderLoopEvent::Message(LeaderMessage::StopBeingLeader);
    assert_eq!(j.step(stop), LeaderLoopAction::Continue);
    assert_eq!(j.step(start), LeaderLoopAction::SpawnAll);
    assert_eq!(j.step(start), LeaderLoopAction::Continue);
    assert_eq!(j.step(LeaderLoopEvent::JobEnded(JobOutcome::Cancelled)), LeaderLoopAction::Continue);
    assert_eq!(j.step(LeaderLoopEvent::JobEnded(JobOutcome::NotLeader)), LeaderLoopAction::Exit);
    assert_eq!(j.step(stop), LeaderLoopAction::StopAll);
    j.step(start);
    assert_eq!(j.step(LeaderLoopEvent::JobEnded(JobOutcome::Failed)), LeaderLoopAction::StopAllAndFail);
    assert!(!j.spawned);
    assert_eq!(j.step(LeaderLoopEvent::JobEnded(JobOutcome::Crashed)), LeaderLoopAction::Fail);
    assert_eq!(j.step(LeaderLoopEvent::Shutdown), LeaderLoopAction::Exit);
    j.step(start);
    assert!(j.finish());
    assert!(!j.finish());
    let outcomes = vec![JobOutcome::Cancelled, JobOutcome::NotLeader, JobOutcome::Failed, JobOutcome::Crashed];
    assert_eq!(first_stop_failure(&outcomes), Some(2));
    assert_eq!(first_stop_failure(&vec![JobOutcome::Finished]), None);
}

fn pos(index: u64) -> LogPosition {
    LogPosition { term: 1, node: 9, index }
}

#[test]
fn snapshot_schedule() {
    assert_eq!(snapshot_step(Some(1000), None, 1001, Some(pos(5)), Some(pos(1)), false), SnapshotStep::Take {
        purge_by: PurgeBy::OlderThanMillis(1000),
        respond: false,
    });
    assert_eq!(snapshot_step(Some(1000), None, 1001, Some(pos(5)), Some(pos(5)), false), SnapshotStep::Unchanged);
    assert_eq!(snapshot_step(None, Some(10), 0, Some(pos(20)), Some(pos(5)), false), SnapshotStep::Take {
        purge_by: PurgeBy::UpToIndex(5),
        respond: false,
    });
    assert_eq!(snapshot_step(None, Some(10), 0, Some(pos(11)), None, false), SnapshotStep::Take {
        purge_by: PurgeBy::Nothing,
        respond: false,
    });
    assert_eq!(snapshot_step(None, Some(10), 0, Some(pos(15)), Some(pos(5)), false), SnapshotStep::Idle);
    assert_eq!(snapshot_step(None, None, 0, Some(pos(5)), Some(pos(5)), true), SnapshotStep::Take {
        purge_by: PurgeBy::Nothing,
        respond: true,
    });
    assert_eq!(snapshot_step(None, None, 0, None, None, false), SnapshotStep::Idle);
    assert_eq!(may_snapshot(false, false, false), Err(SnapshotRefusal::NothingCommitted));
    assert_eq!(may_snapshot(true, true, false), Err(SnapshotRefusal::Learner));
    assert_eq!(may_snapshot(true, false, true), Err(SnapshotRefusal::LoadingSnapshot));
    assert_eq!(may_snapshot(true, false, false), Ok(()));
    assert_eq!(purge_offset(PurgeBy::OlderThanMillis(5), Some(3)), Some(3));
    assert_eq!(purge_offset(PurgeBy::UpToIndex(8), None), Some(8));
    assert_eq!(purge_offset(PurgeBy::Nothing, Some(3)), None);
    assert!(tick_due(250_000_001));
    assert!(!tick_due(250_000_000));
    assert_eq!(BackgroundCommand::Snapshot, BackgroundCommand::Snapshot);
}

fn live(id: u128, cluster: u128, leader: bool) -> SeedResponse {
    SeedResponse {
        node_id: id,
        cluster: Some(ClusterInfo { cluster_id: Some(cluster), last_committed_index: Some(10), is_leader: leader }),
    }
}

#[test]
fn discovery_rounds() {
    let idle = vec![SeedResponse { node_id: 2, cluster: None }];
    let (d, r) = discovery_round(&idle, 0);
    assert!(matches!(d, RoundDecision::KeepPolling));
    assert_eq!(r, 1);
    let (d, r) = discovery_round(&idle, 3);
    assert!(matches!(d, RoundDecision::Initialize));
    assert_eq!(r, 4);
    let one = vec![SeedResponse { node_id: 2, cluster: None }, live(3, 77, false), live(4, 77, true)];
    match discovery_round(&one, 2) {
        (RoundDecision::Join { cluster_id, peers }, rounds) => {
            assert_eq!(cluster_id, 77);
            assert_eq!(peers, vec![1, 2]);
            assert_eq!(rounds, 2);
        },
        _ => panic!("one live cluster must be joined"),
    }
    let two = vec![live(3, 77, false), live(4, 78, true)];
    assert!(matches!(discovery_round(&two, 0).0, RoundDecision::KeepPolling));
    assert_eq!(find_self(&one, 4), Some(2));
    assert_eq!(find_self(&one, 9), None);
    let infos = vec![
        ClusterInfo { cluster_id: Some(77), last_committed_index: Some(10), is_leader: false },
        ClusterInfo { cluster_id: Some(77), last_committed_index: Some(12), is_leader: true },
    ];
    assert_eq!(join_target(&infos), Ok((1, 12)));
    assert_eq!(join_target(&infos[..1].to_vec()), Ok((0, 10)));
    assert_eq!(join_target(&vec![]), Err(JoinError::NoPeers));
    assert_eq!(JoinError::NoLogs.message(), "existing cluster has no logs");
}

#[test]
fn membership_decisions() {
    assert!(is_up(Some(ServerState::Leader), None, &vec![]));
    assert!(!is_up(Some(ServerState::Learner), Some(1), &vec![1]));
    assert!(is_up(Some(ServerState::Follower), Some(1), &vec![3, 1]));
    assert!(!is_up(Some(ServerState::Follower), Some(2), &vec![3, 1]));
    assert!(!is_up(Some(ServerState::Follower), None, &vec![3, 1]));
    assert!(!is_up(None, Some(1), &vec![1]));
    assert!(needs_discovery(false, 0));
    assert!(!needs_discovery(true, 0));
    assert_eq!(check_go_away(1, Some(9), 9, 2), Err(GoAwayRefusal::WrongNode));
    assert_eq!(check_go_away(1, None, 9, 1), Err(GoAwayRefusal::NotClustered));
    assert_eq!(check_go_away(1, Some(8), 9, 1), Err(GoAwayRefusal::WrongCluster));
    assert_eq!(check_go_away(1, Some(9), 9, 1), Ok(()));
    assert_eq!(GoAwayRefusal::NotClustered.code(), "invalid cluster_id");
    assert_eq!(GoAwayRefusal::WrongCluster.message(), "Received a GO-AWAY request for the wrong cluster");
    assert_eq!(leader_route(None, 1, true), Err(LeaderError::UnknownLeader));
    assert_eq!(leader_route(Some(1), 1, false), Ok(LeaderRoute::Here));
    assert_eq!(leader_route(Some(2), 1, true), Ok(LeaderRoute::Forward(2)));
    assert_eq!(leader_route(Some(2), 1, false), Err(LeaderError::UnknownLeader));
    assert_eq!(refused_write(false, Some(2), true), RefusedWrite::Fail);
    assert_eq!(refused_write(true, None, true), RefusedWrite::MissingLeaderId);
    assert_eq!(refused_write(true, Some(2), false), RefusedWrite::MissingLeaderAddress);
    assert_eq!(refused_write(true, Some(2), true), RefusedWrite::Forward(2));
    assert_eq!(linearizable_route(Some(1), 1), Some(LinearizableRoute::OnLeader));
    assert_eq!(linearizable_route(Some(2), 1), Some(LinearizableRoute::ViaLeader(2)));
    assert_eq!(linearizable_route(None, 1), None);
    assert_eq!(plan_removal(false, true, false, true), Err(RemovalError::NullCluster));
    assert_eq!(plan_removal(true, false, false, true), Err(RemovalError::NotAMember));
    assert_eq!(plan_removal(true, true, false, false), Err(RemovalError::NoAddress));
    assert!(plan_removal(true, true, false, true).unwrap().demote_first);
    assert!(!plan_removal(true, false, true, true).unwrap().demote_first);
}

#[test]
fn readiness() {
    let mut r = RaftReadiness::new();
    assert_eq!(r.set_single_node(false), None);
    assert_eq!(r.set_leader(3, 1), None);
    assert_eq!(r.record_first_applied_log(), Some(true));
    assert_eq!(r.set_leader(4, 2), None);
    assert!(r.ready);
    let mut single = RaftReadiness::new();
    single.set_single_node(true);
    assert_eq!(single.set_leader(1, 1), Some(true));
    let s = raft_settings(500, 1500, 3500, "diom".to_string(), 50_000, 30_000);
    assert_eq!(s.install_snapshot_timeout_ms, 30_000);
    assert!(s.snapshot_policy_never);
    assert_eq!(initialize_error(InitializeOutcome::NotAllowed), Some("cluster already initialized"));
    assert_eq!(initialize_error(InitializeOutcome::Failed), None);
}

#[test]
fn apply_batches() {
    let mut b = ApplyBatch::new(None);
    assert!(!b.follow_up().record_ids);
    assert_eq!(b.take(pos(1), EntryKind::Blank), EntryReply::Blank);
    assert_eq!(
        b.take(pos(2), EntryKind::Normal { persistent: true, ephemeral: false }),
        EntryReply::RequestResponse
    );
    let f = b.follow_up();
    assert!(f.record_ids && f.persist_persistent && !f.persist_ephemeral);
    assert_eq!(b.last_membership_id, None);
    assert_eq!(b.take(pos(3), EntryKind::Membership), EntryReply::Blank);
    assert!(b.changed_membership);
    assert_eq!(b.last_membership_id, Some(pos(3)));
    assert_eq!(b.last_applied, Some(pos(3)));
    assert_eq!(b.num_entries, 3);
}

#[test]
fn rpc_outcomes() {
    let o = rpc_outcome(RpcStage::Responded { status: 200, body_ok: true });
    assert_eq!(o.metric, Some(ClusterRequestStatus::Success));
    assert!(o.result.is_ok());
    let o = rpc_outcome(RpcStage::Responded { status: 500, body_ok: true });
    assert_eq!(o.result, Err(RpcError::Remote));
    let o = rpc_outcome(RpcStage::Responded { status: 404, body_ok: true });
    assert_eq!((o.metric, o.result), (Some(ClusterRequestStatus::OtherError), Err(RpcError::Network)));
    let o = rpc_outcome(RpcStage::SendFailed { timeout: false, connect: true });
    assert_eq!((o.metric, o.result), (Some(ClusterRequestStatus::ConnectError), Err(RpcError::Unreachable)));
    let o = rpc_outcome(RpcStage::SendFailed { timeout: true, connect: false });
    assert_eq!(o.metric, Some(ClusterRequestStatus::TimeoutError));
    let o = rpc_outcome(RpcStage::NoAddress);
    assert!(o.unaddressed);
    assert_eq!(RpcKind::LastId.path(), "/repl/raft/last-id");
    assert!(RpcKind::Vote.uses_raft_timeout());
    assert!(!RpcKind::GoAway.uses_raft_timeout());
    assert_eq!(address_source(false, false, true), AddressSource::ListenAddress);
    assert_eq!(address_source(false, true, true), AddressSource::Seed);
    assert_eq!(address_source(false, true, false), AddressSource::Interfaces);
    let ifaces = vec![
        InterfaceInfo { up: true, loopback: true, has_ipv4: true },
        InterfaceInfo { up: true, loopback: false, has_ipv4: false },
        InterfaceInfo { up: true, loopback: false, has_ipv4: true },
    ];
    assert_eq!(pick_interface(&ifaces), Some(2));
    assert_eq!(seed_of_self(&vec![None, Some(4), Some(7)], 7), Some(2));
}

#[test]
fn request_keys_and_modules() {
    assert_eq!(
        hashed_key(RequestModule::Kv, Some(b"abc")).as_deref(),
        Some("ba7816bf8f01cfea414140de5dae2223b00361a396177a9cb410ff61f20015ad")
    );
    assert_eq!(hashed_key(RequestModule::ClusterInternal, Some(b"abc")), None);
    assert_eq!(hashed_key(RequestModule::Cache, None), None);
    assert_eq!(key_hash_text(&[0x00, 0xff, 0x1a]), "00ff1a");
    assert_eq!(RequestModule::RateLimit.module(), "rate-limit");
    assert_eq!(RequestModule::RateLimit.display_name(), "ratelimiter");
    assert_eq!(internal_response(RequestModule::ClusterInternal, InternalResponse::Done), Ok(InternalResponse::Done));
    assert_eq!(internal_response(RequestModule::Kv, InternalResponse::Done), Err(ResponseParseError::InvalidVariant));
    assert_eq!(ResponseParseError::InvalidVariant.description(), "Invalid response from consensus system");
}
