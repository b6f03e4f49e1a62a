use diom::auth::{auth_route, auth_token_role, collect_rules, constant_time_eq, looks_like_jwt, AuthError, AuthRoute};
use diom::cfg::config::{jwt_key_variables, validate_cluster_timing, ValidationWarning};
use diom::cfg::defaults::{
    cluster_log_sync_interval_commits, cluster_name, default_database_size, ephemeral_db, persistent_db,
    CLUSTER_ELECTION_TIMEOUT_MAX_MS, CLUSTER_ELECTION_TIMEOUT_MIN_MS, CLUSTER_HEARTBEAT_INTERVAL_MS,
    CLUSTER_LOG_SYNC_INTERVAL_MS, CLUSTER_REPLICATION_REQUEST_TIMEOUT_MS,
};
use diom::cfg::jwt::{jwt_validation_plan, JwtAlgorithm, JwtKey, KeyEncoding};
use diom::cfg::memory_size::MemorySize;
use diom::cfg::settings::LogLevel;
use diom::http::{content_length, request_id, route_or_unknown, AxumOtelOnFailure, AxumOtelOnResponse};
use diom::metrics::{classify_status, state_gauge, ConnectionType, DbType, RequestOutcome, StateGauge, WriteType};
use diom::cluster::membership::ServerState;
use diom::telemetry::{backtrace_note, default_log_filter, health_url, healthcheck_server_url, metrics_endpoint, BacktraceState};

#[test]
fn tokens_compare_by_bytes() {
    assert!(constant_time_eq("abc", "abc"));
    assert!(!constant_time_eq("abc", "abd"));
    assert!(!constant_time_eq("abc", "abcd"));
    assert!(constant_time_eq("", ""));
    assert!(looks_like_jwt("a.b.c"));
    assert!(!looks_like_jwt("a.b"));
    assert!(!looks_like_jwt("a.b.c.d"));
}

#[test]
fn authentication_routes() {
    let admin = "an-admin-token-of-some-length";
    assert_eq!(auth_route(None, Some(admin), false, true), Err(AuthError::AuthRequired));
    assert_eq!(auth_route(Some(admin), Some(admin), true, true), Ok(AuthRoute::Admin));
    assert_eq!(auth_route(Some("x.y.z"), Some(admin), true, true), Ok(AuthRoute::Cached));
    assert_eq!(auth_route(Some("x.y.z"), Some(admin), false, true), Ok(AuthRoute::Jwt));
    assert_eq!(auth_route(Some("x.y.z"), None, false, false), Ok(AuthRoute::AuthToken));
    assert_eq!(auth_route(Some("token"), None, false, true), Ok(AuthRoute::AuthToken));
    assert_eq!(auth_token_role(false, Some("r".to_string())), Err(AuthError::InvalidToken));
    assert_eq!(auth_token_role(true, None), Err(AuthError::MissingRole));
    assert_eq!(auth_token_role(true, Some("r".to_string())), Ok("r".to_string()));
    assert_eq!(AuthError::AuthRequired.code_and_message(), ("auth_required", "`Authorization` header required"));
    assert_eq!(AuthError::InvalidJwt.code_and_message().1, "Invalid JWT token.");
    let rules = collect_rules(vec![1, 2], vec![Some(vec![3]), None, Some(vec![4, 5])]);
    assert_eq!(rules, vec![1, 2, 3, 4, 5]);
}

#[test]
fn http_tracing_fields() {
    assert_eq!(request_id(Some("a"), Some("b")).as_deref(), Some("a"));
    assert_eq!(request_id(None, Some("b")).as_deref(), Some("b"));
    assert_eq!(request_id(None, None), None);
    assert_eq!(content_length(Some("123")), Some(123));
    assert_eq!(content_length(Some("12x")), None);
    assert_eq!(content_length(None), None);
    assert_eq!(route_or_unknown(None), "unknown");
    assert_eq!(route_or_unknown(Some("/api/v1.kv.get")), "/api/v1.kv.get");
    assert_eq!(AxumOtelOnResponse {}.status_fields(204), ("204".to_string(), "OK"));
    assert_eq!(AxumOtelOnFailure {}.failure_status(Some(503)), Some("ERROR"));
    assert_eq!(AxumOtelOnFailure {}.failure_status(Some(404)), None);
    assert_eq!(AxumOtelOnFailure {}.failure_status(None), None);
}

#[test]
fn metric_attributes() {
    assert_eq!(DbType::Persistent.attribute(), ("db_type", "persistent"));
    assert_eq!(WriteType::Forwarded.attribute().1, "forwarded");
    assert_eq!(ConnectionType::Interserver.attribute(), ("connection_type", "interserver"));
    assert_eq!(classify_status(200), RequestOutcome::Success);
    assert_eq!(classify_status(503), RequestOutcome::ServerError);
    assert_eq!(classify_status(404), RequestOutcome::ClientError);
    assert_eq!(classify_status(302), RequestOutcome::ClientError);
    assert_eq!(state_gauge(ServerState::Candidate), Some(StateGauge::Candidate));
    assert_eq!(state_gauge(ServerState::Learner), None);
}

#[test]
fn telemetry_settings() {
    assert_eq!(
        default_log_filter(LogLevel::Info, Some(LogLevel::Trace)),
        "diom_backend::core::cluster=TRACE,diom=INFO,fjall_utils=INFO,tower_http=INFO,fjall=warn,openraft=warn,opentelemetry_sdk=error"
    );
    assert!(default_log_filter(LogLevel::Debug, None).starts_with("diom_backend::core::cluster=DEBUG,diom=DEBUG"));
    assert_eq!(metrics_endpoint(None, Some("a")).as_deref(), Some("a"));
    assert_eq!(metrics_endpoint(Some("m"), Some("a")).as_deref(), Some("m"));
    assert_eq!(metrics_endpoint(None, None), None);
    assert_eq!(backtrace_note(BacktraceState::Captured), None);
    assert_eq!(backtrace_note(BacktraceState::Unsupported), Some("backtraces are not supported on this platform"));
    assert_eq!(healthcheck_server_url(Some("http://x"), true, 1, ""), "http://x");
    assert_eq!(healthcheck_server_url(None, true, 8624, "[::]:8624"), "http://localhost:8624");
    assert_eq!(healthcheck_server_url(None, false, 8624, "10.0.0.1:8624"), "http://10.0.0.1:8624");
    assert_eq!(health_url("http://x"), "http://x/api/v1.health");
}

#[test]
fn configuration_defaults() {
    assert_eq!(default_database_size(), MemorySize::Percent(20));
    let p = persistent_db();
    assert_eq!((p.path.as_str(), p.filename.as_str()), ("./db", "fjall_persistent"));
    assert_eq!(ephemeral_db().filename, "fjall_ephemeral");
    assert_eq!(cluster_name(), "diom");
    let warnings = validate_cluster_timing(
        CLUSTER_ELECTION_TIMEOUT_MIN_MS,
        CLUSTER_ELECTION_TIMEOUT_MAX_MS,
        CLUSTER_HEARTBEAT_INTERVAL_MS,
        CLUSTER_REPLICATION_REQUEST_TIMEOUT_MS,
        cluster_log_sync_interval_commits(),
        CLUSTER_LOG_SYNC_INTERVAL_MS,
    )
    .expect("the default timings are valid");
    assert_eq!(warnings, vec![ValidationWarning::ReplicationTimeoutAboveHeartbeat]);
}

#[test]
fn jwt_settings() {
    let vars = jwt_key_variables("DIOM_JWT");
    assert_eq!(vars[0].env_var, "DIOM_JWT_ALGORITHM");
    assert_eq!(vars[1].env_var, "DIOM_JWT_SECRET");
    assert_eq!(vars[2].env_var, "DIOM_JWT_PUBLIC_KEY_PEM");
    assert_eq!(vars[0].docstring, Some("JWT signature algorithm"));
    assert_eq!(jwt_key_variables("")[1].env_var, "SECRET");

    assert!(jwt_validation_plan(&None, &None, &None).is_none());
    let key = Some(JwtKey::new(JwtAlgorithm::Es256, "pem".to_string()));
    let plan = jwt_validation_plan(&key, &Some(vec!["aud1".to_string()]), &None).unwrap();
    assert_eq!(plan.encoding, KeyEncoding::EcPem);
    assert_eq!(plan.key_material, "pem");
    assert!(plan.validate_nbf && plan.validate_aud);
    assert_eq!(plan.required_claims, vec!["aud"]);
    let key = Some(JwtKey::new(JwtAlgorithm::Hs256, "s3cret".to_string()));
    let plan = jwt_validation_plan(&key, &None, &Some(vec!["me".to_string()])).unwrap();
    assert_eq!(plan.encoding, KeyEncoding::Secret);
    assert!(!plan.validate_aud);
    assert_eq!(plan.required_claims, vec!["iss"]);
    assert_eq!(plan.issuer, Some(vec!["me".to_string()]));
}
