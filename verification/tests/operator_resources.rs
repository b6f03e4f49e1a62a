use diom::operator::error::OperatorError;
use diom::operator::pvcs::{
    allows_expansion, expansion_report, find_default_storage_class_name, named_storage_class, parse_quantity_bytes,
    plan_expansions, revert_target, volume_claim_templates_changed, ExpansionReport, PvcOutcome,
    StorageClassInfo, StorageVolume,
};
use diom::operator::resources::{
    build_client_facing, build_headless, build_pdb, client_name, cluster_namespace,
    cluster_server_url, general_labels, headless_name, selector,
};
use diom::operator::spec::{
    DiomClusterSpec, DiomSpec, DiomStorageSpec, EnvVar, EnvVarSource, KeySelector,
    OpenTelemetryProtocol, OpenTelemetrySpec, Phase, ServiceSpec, ValueOrSecretRef, VolumeSpec,
    DEFAULT_API_PORT,
};
use diom::operator::statefulset::{
    build, build_env, build_volume_claim_templates, build_volume_mounts, deletion_timeout_message,
    deletion_wait_step, seed_nodes_value, sts_action, volume_claim_templates_differ, DeletionWait,
    StsAction, VolumeClaimTemplate,
};

fn make_spec() -> DiomSpec {
    DiomSpec {
        replicas: 1,
        api_port: DEFAULT_API_PORT,
        internode_secret: None,
        log_level: None,
        log_format: None,
        bootstrap: None,
        admin_token: None,
        env_var: vec![],
        storage: DiomStorageSpec {
            persistent: VolumeSpec { size: "1Gi".to_string(), storage_class: None },
            logs: None,
            snapshots: None,
        },
        opentelemetry: None,
    }
}

fn value_of(env: &[EnvVar], name: &str) -> Option<String> {
    env.iter().find(|e| e.name == name).and_then(|e| e.value.clone())
}

#[test]
fn test_build_env() {
    let mut spec = make_spec();
    spec.opentelemetry = Some(OpenTelemetrySpec {
        address: Some("grpc://otel:4317".to_string()),
        metrics_address: Some("http://otel:4318".to_string()),
        metrics_protocol: Some(OpenTelemetryProtocol::Http),
    });

    let env_vars = build_env(&spec, "my-cluster", "my-cluster-headless", "my-ns");
    assert_eq!(
        value_of(&env_vars, "DIOM_CLUSTER_ADVERTISED_ADDRESS").as_deref(),
        Some("$(POD_NAME).my-cluster-headless.$(POD_NAMESPACE).svc.cluster.local:8625"),
    );
    assert_eq!(value_of(&env_vars, "DIOM_LISTEN_ADDRESS").as_deref(), Some("0.0.0.0:8624"));
    assert_eq!(value_of(&env_vars, "DIOM_PERSISTENT_DB_PATH").as_deref(), Some("/data/persistent"));
    assert_eq!(value_of(&env_vars, "DIOM_CLUSTER_AUTO_INITIALIZE").as_deref(), Some("true"));
    assert_eq!(
        value_of(&env_vars, "DIOM_CLUSTER_SEED_NODES").as_deref(),
        Some("my-cluster-0.my-cluster-headless.my-ns.svc.cluster.local:8625")
    );
    assert_eq!(value_of(&env_vars, "DIOM_CLUSTER_LOG_PATH").as_deref(), Some("/data/persistent/logs"));
    assert_eq!(
        value_of(&env_vars, "DIOM_CLUSTER_SNAPSHOT_PATH").as_deref(),
        Some("/data/persistent/snapshots")
    );
    assert_eq!(value_of(&env_vars, "DIOM_OPENTELEMETRY_ADDRESS").as_deref(), Some("grpc://otel:4317"));
    assert_eq!(
        value_of(&env_vars, "DIOM_OPENTELEMETRY_METRICS_ADDRESS").as_deref(),
        Some("http://otel:4318")
    );
    assert_eq!(value_of(&env_vars, "DIOM_OPENTELEMETRY_METRICS_PROTOCOL").as_deref(), Some("http"));
}

#[test]
fn env_order_and_overrides() {
    let mut spec = make_spec();
    spec.replicas = 3;
    spec.log_level = Some("debug".to_string());
    spec.bootstrap = Some("kv namespace configure {\"name\":\"a\"}".to_string());
    spec.storage.logs = Some(VolumeSpec { size: "5Gi".to_string(), storage_class: None });
    spec.env_var = vec![EnvVar { name: "EXTRA".to_string(), value: Some("1".to_string()), value_from: None }];
    spec.admin_token = Some(ValueOrSecretRef::Value { value: "tok".to_string() });
    spec.internode_secret = Some(ValueOrSecretRef::ValueFrom {
        value_from: KeySelector { name: "s".to_string(), key: "k".to_string(), optional: None },
    });
    let env = build_env(&spec, "c", "c-headless", "ns");
    let names: Vec<&str> = env.iter().map(|e| e.name.as_str()).collect();
    assert_eq!(
        names,
        vec![
            "POD_NAME",
            "POD_NAMESPACE",
            "DIOM_CLUSTER_ADVERTISED_ADDRESS",
            "DIOM_CLUSTER_SEED_NODES",
            "DIOM_CLUSTER_AUTO_INITIALIZE",
            "DIOM_LISTEN_ADDRESS",
            "DIOM_SERVER_URL",
            "DIOM_PERSISTENT_DB_PATH",
            "DIOM_CLUSTER_LOG_PATH",
            "DIOM_CLUSTER_SNAPSHOT_PATH",
            "DIOM_LOG_LEVEL",
            "DIOM_BOOTSTRAP_CFG",
            "EXTRA",
            "DIOM_ADMIN_TOKEN",
            "DIOM_CLUSTER_SECRET",
        ]
    );
    assert_eq!(
        value_of(&env, "DIOM_CLUSTER_SEED_NODES").as_deref(),
        Some(
            "c-0.c-headless.ns.svc.cluster.local:8625,c-1.c-headless.ns.svc.cluster.local:8625,c-2.c-headless.ns.svc.cluster.local:8625"
        )
    );
    assert_eq!(value_of(&env, "DIOM_CLUSTER_LOG_PATH").as_deref(), Some("/data/logs"));
    assert_eq!(value_of(&env, "DIOM_SERVER_URL").as_deref(), Some("http://localhost:8624"));
    assert!(matches!(env[0].value_from, Some(EnvVarSource::FieldRef { ref field_path }) if field_path == "metadata.name"));
    let secret = env.last().unwrap();
    assert!(secret.value.is_none());
    assert!(matches!(secret.value_from, Some(EnvVarSource::SecretKeyRef(ref k)) if k.name == "s" && k.key == "k"));
}

#[test]
fn seed_nodes_for_no_replicas_is_empty() {
    assert_eq!(seed_nodes_value("c", "h", "n", 0, 8625), "");
    assert_eq!(seed_nodes_value("c", "h", "n", 1, 1), "c-0.h.n.svc.cluster.local:1");
}

fn make_pvc(name: &str, storage: &str) -> VolumeClaimTemplate {
    VolumeClaimTemplate {
        name: Some(name.to_string()),
        access_modes: vec![],
        storage_class: None,
        storage_request: Some(storage.to_string()),
    }
}

#[test]
fn test_volume_claim_templates_differ() {
    let a = vec![make_pvc("data", "10Gi")];
    let b = vec![make_pvc("data", "10Gi")];
    assert!(!volume_claim_templates_differ(&a, &b));

    let current = vec![make_pvc("data", "10Gi")];
    let desired = vec![make_pvc("data", "20Gi")];
    assert!(volume_claim_templates_differ(&current, &desired));

    let current = vec![make_pvc("data", "20Gi")];
    let desired = vec![make_pvc("data", "10Gi")];
    assert!(volume_claim_templates_differ(&current, &desired));

    let current = vec![make_pvc("data", "10Gi")];
    let desired = vec![make_pvc("data", "10Gi"), make_pvc("logs", "5Gi")];
    assert!(volume_claim_templates_differ(&current, &desired));

    let current = vec![make_pvc("data", "10Gi"), make_pvc("logs", "5Gi")];
    let desired = vec![make_pvc("data", "10Gi")];
    assert!(!volume_claim_templates_differ(&current, &desired));

    let empty: Vec<VolumeClaimTemplate> = vec![];
    assert!(!volume_claim_templates_differ(&empty, &empty));
}

#[test]
fn templates_changed_by_name() {
    let a = vec![make_pvc("data", "10Gi"), make_pvc("logs", "5Gi")];
    let b = vec![make_pvc("logs", "5Gi"), make_pvc("data", "10Gi")];
    assert!(!volume_claim_templates_changed(&a, &b));
    let c = vec![make_pvc("data", "10Gi")];
    assert!(volume_claim_templates_changed(&a, &c));
    assert!(volume_claim_templates_changed(&c, &a));
    let mut d = vec![make_pvc("data", "10Gi")];
    d[0].storage_class = Some("fast".to_string());
    assert!(volume_claim_templates_changed(&c, &d));
    let e = vec![make_pvc("data", "20Gi")];
    assert!(volume_claim_templates_changed(&c, &e));
}

#[test]
fn quantities_in_bytes() {
    assert_eq!(parse_quantity_bytes("10Gi"), Some(10 * (1u64 << 30)));
    assert_eq!(parse_quantity_bytes(" 500M "), Some(500_000_000));
    assert_eq!(parse_quantity_bytes("1k"), Some(1000));
    assert_eq!(parse_quantity_bytes("3Ki"), Some(3072));
    assert_eq!(parse_quantity_bytes("1234"), Some(1234));
    assert_eq!(parse_quantity_bytes("2 Ti"), Some(2 * (1u64 << 40)));
    assert_eq!(parse_quantity_bytes("16Ei"), None);
    assert_eq!(parse_quantity_bytes("1.5Gi"), None);
    assert_eq!(parse_quantity_bytes("abc"), None);
    assert_eq!(parse_quantity_bytes("1m"), None);
}

#[test]
fn expansion_plan_and_report() {
    let existing = vec![make_pvc("persistent", "10Gi"), make_pvc("logs", "5Gi")];
    let desired = vec![make_pvc("persistent", "20Gi"), make_pvc("logs", "1Gi"), make_pvc("snapshots", "1Gi")];
    let plan = plan_expansions(&existing, &desired, "db", 2);
    let names: Vec<&str> = plan.iter().map(|t| t.pvc_name.as_str()).collect();
    assert_eq!(names, vec!["persistent-db-0", "persistent-db-1", "snapshots-db-0", "snapshots-db-1"]);
    assert_eq!(plan[0].original_size.as_deref(), Some("10Gi"));
    assert_eq!(plan[0].desired_size, "20Gi");
    assert_eq!(plan[2].original_size, None);

    let mut report = ExpansionReport::new();
    report.record(&plan[0], PvcOutcome::Expanded);
    report.record(&plan[1], PvcOutcome::Expanded);
    report.record(&plan[2], PvcOutcome::NotExpandable { storage_class: "slow".to_string() });
    report.record(&plan[3], PvcOutcome::Missing);
    assert_eq!(report.expanded_templates, vec!["persistent".to_string()]);
    assert!(report.failures.is_empty());

    let mut report = ExpansionReport::new();
    report.record(&plan[0], PvcOutcome::NotExpandable { storage_class: "slow".to_string() });
    report.record(&plan[1], PvcOutcome::PatchFailed { reason: "denied".to_string() });
    assert_eq!(report.failures.len(), 2);
    assert_eq!(report.failures[0].reason, "storage class 'slow' does not support volume expansion");
    assert_eq!(report.failures[0].original_size, "10Gi");
    assert_eq!(report.failures[1].pvc_name, "persistent-db-1");
    assert_eq!(report.failures[1].reason, "denied");
    assert!(report.expanded_templates.is_empty());

    assert!(plan_expansions(&existing, &desired, "db", 0).is_empty());
}

#[test]
fn whole_plan_report() {
    let existing = vec![make_pvc("persistent", "10Gi"), make_pvc("logs", "5Gi")];
    let desired = vec![make_pvc("persistent", "20Gi"), make_pvc("logs", "6Gi")];
    let plan = plan_expansions(&existing, &desired, "db", 2);
    assert_eq!(plan.len(), 4);
    let outcomes = vec![
        PvcOutcome::PatchFailed { reason: "denied".to_string() },
        PvcOutcome::Expanded,
        PvcOutcome::Missing,
        PvcOutcome::NoStorageClass,
    ];
    let report = expansion_report(&plan, outcomes);
    assert_eq!(report.expanded_templates, vec!["persistent".to_string()]);
    assert_eq!(report.failures.len(), 1);
    assert_eq!(report.failures[0].pvc_name, "persistent-db-0");
    assert_eq!(report.failures[0].reason, "denied");

    let outcomes = vec![PvcOutcome::Expanded, PvcOutcome::Expanded, PvcOutcome::Expanded, PvcOutcome::Missing];
    let report = expansion_report(&plan, outcomes);
    assert_eq!(report.expanded_templates, vec!["persistent".to_string(), "logs".to_string()]);
    assert!(report.failures.is_empty());
}

#[test]
fn storage_classes() {
    assert_eq!(named_storage_class(&Some("gp3".to_string())).as_deref(), Some("gp3"));
    assert_eq!(named_storage_class(&Some(String::new())), None);
    assert_eq!(named_storage_class(&None), None);
    let classes = vec![
        StorageClassInfo { name: Some("a".to_string()), is_default_class: Some("false".to_string()), allow_volume_expansion: Some(true) },
        StorageClassInfo { name: Some("b".to_string()), is_default_class: Some("true".to_string()), allow_volume_expansion: None },
        StorageClassInfo { name: Some("c".to_string()), is_default_class: Some("true".to_string()), allow_volume_expansion: Some(true) },
    ];
    assert_eq!(find_default_storage_class_name(&classes).as_deref(), Some("b"));
    assert!(allows_expansion(Some(&classes[0])));
    assert!(!allows_expansion(Some(&classes[1])));
    assert!(!allows_expansion(None));
    assert_eq!(revert_target("persistent"), Some(StorageVolume::Persistent));
    assert_eq!(revert_target("logs"), Some(StorageVolume::Logs));
    assert_eq!(revert_target("snapshots"), Some(StorageVolume::Snapshots));
    assert_eq!(revert_target("other"), None);
}

#[test]
fn labels_and_services() {
    let s = selector("c1");
    assert_eq!(s.len(), 3);
    assert!(s.contains(&("diom.svix.com/cluster".to_string(), "c1".to_string())));
    let g = general_labels("c1");
    assert_eq!(g.len(), 4);
    assert!(s.iter().all(|l| g.contains(l)));
    assert_eq!(headless_name("c1"), "c1-headless");
    assert_eq!(client_name("c1"), "c1");
    let h = build_headless("c1", "ns", 8624);
    assert_eq!(h.cluster_ip.as_deref(), Some("None"));
    assert_eq!(h.ports[1].port, 18624);
    assert_eq!(h.publish_not_ready_addresses, Some(true));
    let svc = ServiceSpec { type_: None, annotations: vec![] };
    let c = build_client_facing("c1", "ns", 8624, &svc);
    assert_eq!(c.type_.as_deref(), Some("ClusterIP"));
    assert!(c.annotations.is_none());
    assert_eq!(c.traffic_distribution.as_deref(), Some("PreferSameZone"));
    let svc = ServiceSpec { type_: Some("LoadBalancer".to_string()), annotations: vec![("a".to_string(), "b".to_string())] };
    let c = build_client_facing("c1", "ns", 8624, &svc);
    assert_eq!(c.type_.as_deref(), Some("LoadBalancer"));
    assert_eq!(c.annotations.unwrap().len(), 1);
}

#[test]
fn pdb_keeps_a_majority() {
    assert!(build_pdb("c", "ns", 1).is_none());
    assert_eq!(build_pdb("c", "ns", 3).unwrap().min_available, 2);
    assert_eq!(build_pdb("c", "ns", 5).unwrap().min_available, 3);
    assert_eq!(build_pdb("c", "ns", 4).unwrap().min_available, 3);
}

#[test]
fn statefulset_plan() {
    let mut diom = make_spec();
    diom.storage.snapshots = Some(VolumeSpec { size: "2Gi".to_string(), storage_class: Some("x".to_string()) });
    let spec = DiomClusterSpec {
        diom,
        image: "img:1".to_string(),
        image_pull_policy: None,
        service: ServiceSpec::default(),
        pod_annotations: vec![],
        resources: "{\"limits\":{\"cpu\":\"1\"}}".to_string(),
        topology_spread_constraints: vec!["{\"maxSkew\":1}".to_string()],
        node_selector: Some(vec![("disk".to_string(), "ssd".to_string())]),
        tolerations: None,
        affinity: Some("{}".to_string()),
        image_pull_secrets: Some(vec!["regcred".to_string()]),
    };
    assert!(matches!(
        build(&spec, "c", "ns", None),
        Err(diom::operator::error::OperatorError::MissingField(ref f)) if f == "owner UID"
    ));
    let sts = build(&spec, "c", "ns", Some("uid-1")).ok().unwrap();
    assert_eq!(sts.owner.uid, "uid-1");
    assert_eq!(sts.owner.kind, "DiomCluster");
    assert_eq!(sts.owner.api_version, "diom.svix.com/v1alpha1");
    assert_eq!(sts.owner.name, "c");
    assert!(sts.owner.controller);
    assert_eq!(sts.container.resources, "{\"limits\":{\"cpu\":\"1\"}}");
    assert_eq!(sts.topology_spread_constraints, vec!["{\"maxSkew\":1}".to_string()]);
    assert_eq!(sts.node_selector, Some(vec![("disk".to_string(), "ssd".to_string())]));
    assert_eq!(sts.tolerations, None);
    assert_eq!(sts.affinity, Some("{}".to_string()));
    assert_eq!(sts.image_pull_secrets, Some(vec!["regcred".to_string()]));
    assert_eq!(sts.service_name, "c-headless");
    assert_eq!(sts.replicas, 1);
    assert!(sts.pod_annotations.is_none());
    assert_eq!(sts.container.image, "img:1");
    assert_eq!(sts.container.readiness_probe.path, "/repl/health");
    assert_eq!(sts.container.startup_probe.failure_threshold, 120);
    assert_eq!(sts.volume_claim_templates.len(), 2);
    assert_eq!(sts.volume_claim_templates[1].name.as_deref(), Some("snapshots"));
    assert_eq!(sts.volume_claim_templates[1].storage_class.as_deref(), Some("x"));
    let mounts = build_volume_mounts(&spec.diom);
    assert_eq!(mounts, vec![
        ("persistent".to_string(), "/data/persistent".to_string()),
        ("snapshots".to_string(), "/data/snapshots".to_string()),
    ]);
    let templates = build_volume_claim_templates(&spec.diom);
    assert_eq!(templates[0].access_modes, vec!["ReadWriteOnce".to_string()]);
    assert_eq!(sts_action(None, &templates), StsAction::Apply);
    let older = vec![make_pvc("persistent", "1Gi")];
    assert_eq!(sts_action(Some(&older), &templates), StsAction::Recreate);
    assert_eq!(sts_action(Some(&templates), &templates), StsAction::Apply);
}

#[test]
fn waiting_for_deletion() {
    assert_eq!(deletion_wait_step(false, 100), DeletionWait::Deleted);
    assert_eq!(deletion_wait_step(true, 29), DeletionWait::KeepWaiting);
    assert_eq!(deletion_wait_step(true, 30), DeletionWait::TimedOut);
    assert_eq!(deletion_timeout_message("c"), "StatefulSet c not deleted after 30s");
}

#[test]
fn cluster_context() {
    assert_eq!(cluster_namespace(Some("ns")).unwrap(), "ns");
    match cluster_namespace(None) {
        Err(e) => assert_eq!(e.text(), "Missing field: namespace"),
        Ok(_) => panic!("a cluster without namespace must be refused"),
    }
    assert_eq!(cluster_server_url("c", "ns", 8624), "http://c.ns.svc.cluster.local:8624");
    assert_eq!(Phase::default(), Phase::Initializing);
    assert_eq!(Phase::Degraded.as_str(), "Degraded");
    let _ = OperatorError::Timeout("x".to_string());
}
