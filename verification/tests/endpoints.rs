use diom::cluster::endpoints::{
    bearer_header, bytes_eq_constant_time, health_status, raft_auth_status, rpc_status,
};
use diom::cluster::membership::ServerState;

#[test]
fn constant_time_comparison_matches_equality() {
    assert!(bytes_eq_constant_time(b"secret", b"secret"));
    assert!(!bytes_eq_constant_time(b"secret", b"secreT"));
    assert!(!bytes_eq_constant_time(b"secret", b"secret!"));
    assert!(bytes_eq_constant_time(b"", b""));
}

#[test]
fn raft_endpoints_open_without_secret() {
    assert_eq!(raft_auth_status(None, None), None);
    assert_eq!(raft_auth_status(None, Some("anything")), None);
}

#[test]
fn raft_endpoints_need_matching_bearer() {
    assert_eq!(raft_auth_status(Some("s3"), None), Some(401));
    assert_eq!(raft_auth_status(Some("s3"), Some("s4")), Some(401));
    assert_eq!(raft_auth_status(Some("s3"), Some("s3")), None);
}

#[test]
fn bearer_header_prefixes_secret() {
    assert_eq!(bearer_header("abc"), "Bearer abc".to_string());
}

#[test]
fn rpc_replies_carry_ok_or_internal_error() {
    assert_eq!(rpc_status(true), 200);
    assert_eq!(rpc_status(false), 500);
}

#[test]
fn health_follows_server_state() {
    assert_eq!(health_status(ServerState::Leader), 200);
    assert_eq!(health_status(ServerState::Follower), 200);
    assert_eq!(health_status(ServerState::Candidate), 200);
    assert_eq!(health_status(ServerState::Learner), 500);
    assert_eq!(health_status(ServerState::Shutdown), 500);
}
