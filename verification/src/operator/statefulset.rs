//! The StatefulSet that runs a cluster's nodes: their environment, volumes and container.
use vstd::prelude::*;
use vstd::string::*;

use super::resources::{clone_pairs, general_labels, general_labels_spec, headless_name, headless_name_spec, pair_views, selector, selector_spec};
use super::spec::{
    clone_opt_string, env_from_field, env_var, field_var, opt_view, plain_var, secret_var, DiomSpec, EnvVar,
    EnvVarView, DiomClusterSpec, OpenTelemetrySpec, ValueOrSecretRef, VolumeSpec, INTRACLUSTER_PORT,
};
use crate::cfg::settings::OpenTelemetryProtocol;
use crate::cfg::jwt::{clone_strings, string_views};
use super::error::{OperatorError, OperatorErrorView};
use crate::text::{decimal, u64_to_decimal};

verus! {

fn lit(s: &str) -> (r: String)
    ensures
        r@ == s@,
{
    String::from_str(s)
}

/// Address at which a node of the cluster is reached: `<cluster>-<i>.<headless>.<ns>`,
/// within the cluster's DNS, on the given port.
pub open spec fn seed_entry(cluster: Seq<char>, headless: Seq<char>, ns: Seq<char>, i: nat, port: nat) -> Seq<char> {
    cluster + "-"@ + decimal(i) + "."@ + headless + "."@ + ns + ".svc.cluster.local:"@ + decimal(port)
}

/// The addresses of the first `k` nodes, separated by commas.
pub open spec fn seeds(cluster: Seq<char>, headless: Seq<char>, ns: Seq<char>, k: nat, port: nat) -> Seq<char>
    decreases k,
{
    if k == 0 {
        Seq::empty()
    } else if k == 1 {
        seed_entry(cluster, headless, ns, 0, port)
    } else {
        seeds(cluster, headless, ns, (k - 1) as nat, port) + ","@ + seed_entry(cluster, headless, ns, (k - 1) as nat, port)
    }
}

pub open spec fn seed_nodes_spec(cluster: Seq<char>, headless: Seq<char>, ns: Seq<char>, replicas: i32, port: u16) -> Seq<char> {
    if replicas <= 0 {
        Seq::empty()
    } else {
        seeds(cluster, headless, ns, replicas as nat, port as nat)
    }
}

/// The seed addresses of every replica of the cluster, separated by commas.
pub fn seed_nodes_value(cluster_name: &str, headless_svc: &str, ns: &str, replicas: i32, cluster_port: u16) -> (s: String)
    ensures
        s@ == seed_nodes_spec(cluster_name@, headless_svc@, ns@, replicas, cluster_port),
{
    let mut s = String::new();
    if replicas <= 0 {
        return s;
    }
    let port = u64_to_decimal(cluster_port as u64);
    let mut i: i32 = 0;
    while i < replicas
        invariant
            0 <= i <= replicas,
            port@ == decimal(cluster_port as nat),
            s@ == seeds(cluster_name@, headless_svc@, ns@, i as nat, cluster_port as nat),
        decreases replicas - i,
    {
        let ghost before = s@;
        if i > 0 {
            s.append(",");
        }
        s.append(cluster_name);
        s.append("-");
        let n = u64_to_decimal(i as u64);
        s.append(n.as_str());
        s.append(".");
        s.append(headless_svc);
        s.append(".");
        s.append(ns);
        s.append(".svc.cluster.local:");
        s.append(port.as_str());
        proof {
            let e = seed_entry(cluster_name@, headless_svc@, ns@, i as nat, cluster_port as nat);
            if i == 0 {
                assert(s@ =~= e);
            } else {
                assert(s@ =~= before + ","@ + e);
            }
        }
        i = i + 1;
    }
    s
}

pub open spec fn env_views(s: Seq<EnvVar>) -> Seq<EnvVarView> {
    s.map_values(|e: EnvVar| e@)
}

pub open spec fn opt_plain(name: Seq<char>, value: Option<Seq<char>>) -> Seq<EnvVarView> {
    match value {
        Some(v) => seq![plain_var(name, v)],
        None => Seq::empty(),
    }
}

pub open spec fn opt_secret(name: Seq<char>, s: Option<ValueOrSecretRef>) -> Seq<EnvVarView> {
    match s {
        Some(s) => seq![secret_var(name, s)],
        None => Seq::empty(),
    }
}

pub open spec fn protocol_text(p: OpenTelemetryProtocol) -> Seq<char> {
    match p {
        OpenTelemetryProtocol::Grpc => "grpc"@,
        OpenTelemetryProtocol::Http => "http"@,
    }
}

pub open spec fn otel_env(o: Option<OpenTelemetrySpec>) -> Seq<EnvVarView> {
    match o {
        None => Seq::empty(),
        Some(t) => opt_plain("DIOM_OPENTELEMETRY_ADDRESS"@, opt_view(t.address)) + opt_plain(
            "DIOM_OPENTELEMETRY_METRICS_ADDRESS"@,
            opt_view(t.metrics_address),
        ) + match t.metrics_protocol {
            Some(p) => seq![plain_var("DIOM_OPENTELEMETRY_METRICS_PROTOCOL"@, protocol_text(p))],
            None => Seq::empty(),
        },
    }
}

/// The variables that every node gets, in order: those that others refer to by `$(..)`
/// come first.
pub open spec fn fixed_env(d: DiomSpec, cluster: Seq<char>, headless: Seq<char>, ns: Seq<char>) -> Seq<EnvVarView> {
    seq![
        field_var("POD_NAME"@, "metadata.name"@),
        field_var("POD_NAMESPACE"@, "metadata.namespace"@),
        plain_var(
            "DIOM_CLUSTER_ADVERTISED_ADDRESS"@,
            "$(POD_NAME)."@ + headless + ".$(POD_NAMESPACE).svc.cluster.local:"@ + decimal(INTRACLUSTER_PORT as nat),
        ),
        plain_var("DIOM_CLUSTER_SEED_NODES"@, seed_nodes_spec(cluster, headless, ns, d.replicas, INTRACLUSTER_PORT)),
        plain_var("DIOM_CLUSTER_AUTO_INITIALIZE"@, "true"@),
        plain_var("DIOM_LISTEN_ADDRESS"@, "0.0.0.0:"@ + decimal(d.api_port as nat)),
        plain_var("DIOM_SERVER_URL"@, "http://localhost:"@ + decimal(d.api_port as nat)),
        plain_var("DIOM_PERSISTENT_DB_PATH"@, "/data/persistent"@),
        plain_var(
            "DIOM_CLUSTER_LOG_PATH"@,
            if d.storage.logs is Some { "/data/logs"@ } else { "/data/persistent/logs"@ },
        ),
        plain_var(
            "DIOM_CLUSTER_SNAPSHOT_PATH"@,
            if d.storage.snapshots is Some { "/data/snapshots"@ } else { "/data/persistent/snapshots"@ },
        ),
    ]
}

/// The environment of a node. The variables given in the spec come after those that the
/// operator derives, so they override them, except for the admin token and the inter-node
/// secret, which come last and override any given ones.
pub open spec fn env_spec(d: DiomSpec, cluster: Seq<char>, headless: Seq<char>, ns: Seq<char>) -> Seq<EnvVarView> {
    fixed_env(d, cluster, headless, ns) + opt_plain("DIOM_LOG_LEVEL"@, opt_view(d.log_level)) + opt_plain(
        "DIOM_LOG_FORMAT"@,
        opt_view(d.log_format),
    ) + otel_env(d.opentelemetry) + opt_plain("DIOM_BOOTSTRAP_CFG"@, opt_view(d.bootstrap)) + env_views(d.env_var@)
        + opt_secret("DIOM_ADMIN_TOKEN"@, d.admin_token) + opt_secret("DIOM_CLUSTER_SECRET"@, d.internode_secret)
}

fn push_env(env: &mut Vec<EnvVar>, v: EnvVar)
    ensures
        env_views(final(env)@) == env_views(old(env)@).push(v@),
{
    let ghost before = env@;
    env.push(v);
    assert(env_views(env@) =~= env_views(before).push(v@));
}

fn push_opt_plain(env: &mut Vec<EnvVar>, name: &str, value: &Option<String>)
    ensures
        env_views(final(env)@) == env_views(old(env)@) + opt_plain(name@, opt_view(*value)),
{
    match value {
        Some(v) => {
            push_env(env, env_var(name, v.clone()));
            assert(env_views(old(env)@).push(plain_var(name@, v@)) =~= env_views(old(env)@) + seq![plain_var(name@, v@)]);
        },
        None => {
            assert(env_views(env@) =~= env_views(env@) + Seq::<EnvVarView>::empty());
        },
    }
}

fn push_opt_secret(env: &mut Vec<EnvVar>, name: &str, s: &Option<ValueOrSecretRef>)
    ensures
        env_views(final(env)@) == env_views(old(env)@) + opt_secret(name@, *s),
{
    match s {
        Some(s) => {
            let ghost sv = *s;
            push_env(env, s.to_env_var(name));
            assert(env_views(old(env)@).push(secret_var(name@, sv)) =~= env_views(old(env)@) + seq![secret_var(name@, sv)]);
        },
        None => {
            assert(env_views(env@) =~= env_views(env@) + Seq::<EnvVarView>::empty());
        },
    }
}

fn push_otel(env: &mut Vec<EnvVar>, o: &Option<OpenTelemetrySpec>)
    ensures
        env_views(final(env)@) == env_views(old(env)@) + otel_env(*o),
{
    match o {
        None => {
            assert(env_views(env@) =~= env_views(env@) + Seq::<EnvVarView>::empty());
        },
        Some(t) => {
            let ghost e0 = env_views(env@);
            push_opt_plain(env, "DIOM_OPENTELEMETRY_ADDRESS", &t.address);
            push_opt_plain(env, "DIOM_OPENTELEMETRY_METRICS_ADDRESS", &t.metrics_address);
            let ghost e2 = env_views(env@);
            match &t.metrics_protocol {
                Some(p) => {
                    push_env(env, env_var("DIOM_OPENTELEMETRY_METRICS_PROTOCOL", lit(p.as_str())));
                    assert(e2.push(plain_var("DIOM_OPENTELEMETRY_METRICS_PROTOCOL"@, protocol_text(*p)))
                        =~= e2 + seq![plain_var("DIOM_OPENTELEMETRY_METRICS_PROTOCOL"@, protocol_text(*p))]);
                },
                None => {
                    assert(e2 =~= e2 + Seq::<EnvVarView>::empty());
                },
            }
            let ghost a = opt_plain("DIOM_OPENTELEMETRY_ADDRESS"@, opt_view(t.address));
            let ghost b = opt_plain("DIOM_OPENTELEMETRY_METRICS_ADDRESS"@, opt_view(t.metrics_address));
            let ghost c = match t.metrics_protocol {
                Some(p) => seq![plain_var("DIOM_OPENTELEMETRY_METRICS_PROTOCOL"@, protocol_text(p))],
                None => Seq::<EnvVarView>::empty(),
            };
            assert(env_views(env@) == e0 + a + b + c);
            assert(e0 + a + b + c =~= e0 + (a + b + c));
        },
    }
}

fn append_env(env: &mut Vec<EnvVar>, extra: &Vec<EnvVar>)
    ensures
        env_views(final(env)@) == env_views(old(env)@) + env_views(extra@),
{
    let ghost e0 = env_views(env@);
    let mut i: usize = 0;
    while i < extra.len()
        invariant
            i <= extra@.len(),
            env_views(env@) == e0 + env_views(extra@.subrange(0, i as int)),
        decreases extra@.len() - i,
    {
        let ghost before = env_views(env@);
        push_env(env, extra[i].clone());
        proof {
            assert(env_views(extra@.subrange(0, i + 1)) =~= env_views(extra@.subrange(0, i as int)).push(extra@[i as int]@));
            assert(env_views(env@) =~= e0 + env_views(extra@.subrange(0, i + 1)));
        }
        i = i + 1;
    }
    assert(extra@.subrange(0, extra@.len() as int) =~= extra@);
}

/// The environment variables of every node of the cluster.
pub fn build_env(spec: &DiomSpec, cluster_name: &str, headless_svc: &str, ns: &str) -> (env: Vec<EnvVar>)
    ensures
        env_views(env@) == env_spec(*spec, cluster_name@, headless_svc@, ns@),
{
    let intracluster = u64_to_decimal(INTRACLUSTER_PORT as u64);
    let api = u64_to_decimal(spec.api_port as u64);
    let advertised = lit("$(POD_NAME).").concat(headless_svc).concat(".$(POD_NAMESPACE).svc.cluster.local:").concat(
        intracluster.as_str(),
    );
    let log_path = if spec.storage.logs.is_some() {
        lit("/data/logs")
    } else {
        lit("/data/persistent").concat("/logs")
    };
    let snapshot_path = if spec.storage.snapshots.is_some() {
        lit("/data/snapshots")
    } else {
        lit("/data/persistent").concat("/snapshots")
    };
    let mut env: Vec<EnvVar> = vec![
        env_from_field("POD_NAME", "metadata.name"),
        env_from_field("POD_NAMESPACE", "metadata.namespace"),
        env_var("DIOM_CLUSTER_ADVERTISED_ADDRESS", advertised),
        env_var(
            "DIOM_CLUSTER_SEED_NODES",
            seed_nodes_value(cluster_name, headless_svc, ns, spec.replicas, INTRACLUSTER_PORT),
        ),
        env_var("DIOM_CLUSTER_AUTO_INITIALIZE", lit("true")),
        env_var("DIOM_LISTEN_ADDRESS", lit("0.0.0.0:").concat(api.as_str())),
        env_var("DIOM_SERVER_URL", lit("http://localhost:").concat(api.as_str())),
        env_var("DIOM_PERSISTENT_DB_PATH", lit("/data/persistent")),
        env_var("DIOM_CLUSTER_LOG_PATH", log_path),
        env_var("DIOM_CLUSTER_SNAPSHOT_PATH", snapshot_path),
    ];
    proof {
        reveal_strlit("/data/persistent");
        reveal_strlit("/logs");
        reveal_strlit("/snapshots");
        reveal_strlit("/data/persistent/logs");
        reveal_strlit("/data/persistent/snapshots");
        assert("/data/persistent"@ + "/logs"@ =~= "/data/persistent/logs"@);
        assert("/data/persistent"@ + "/snapshots"@ =~= "/data/persistent/snapshots"@);
        assert(env_views(env@) =~= fixed_env(*spec, cluster_name@, headless_svc@, ns@));
    }
    push_opt_plain(&mut env, "DIOM_LOG_LEVEL", &spec.log_level);
    push_opt_plain(&mut env, "DIOM_LOG_FORMAT", &spec.log_format);
    push_otel(&mut env, &spec.opentelemetry);
    push_opt_plain(&mut env, "DIOM_BOOTSTRAP_CFG", &spec.bootstrap);
    append_env(&mut env, &spec.env_var);
    push_opt_secret(&mut env, "DIOM_ADMIN_TOKEN", &spec.admin_token);
    push_opt_secret(&mut env, "DIOM_CLUSTER_SECRET", &spec.internode_secret);
    env
}


/// A volume claim template of a StatefulSet: the fields that the operator sets and compares.
#[derive(Debug)]
pub struct VolumeClaimTemplate {
    pub name: Option<String>,
    pub access_modes: Vec<String>,
    pub storage_class: Option<String>,
    /// The `storage` request, a Kubernetes quantity such as `10Gi`.
    pub storage_request: Option<String>,
}

pub struct TemplateView {
    pub name: Option<Seq<char>>,
    pub access_modes: Seq<Seq<char>>,
    pub storage_class: Option<Seq<char>>,
    pub storage_request: Option<Seq<char>>,
}

impl View for VolumeClaimTemplate {
    type V = TemplateView;

    open spec fn view(&self) -> TemplateView {
        TemplateView {
            name: opt_view(self.name),
            access_modes: self.access_modes@.map_values(|m: String| m@),
            storage_class: opt_view(self.storage_class),
            storage_request: opt_view(self.storage_request),
        }
    }
}

pub open spec fn template_views(s: Seq<VolumeClaimTemplate>) -> Seq<TemplateView> {
    s.map_values(|t: VolumeClaimTemplate| t@)
}

pub open spec fn pvc_template_spec(name: Seq<char>, size: Seq<char>, storage_class: Option<Seq<char>>) -> TemplateView {
    TemplateView {
        name: Some(name),
        access_modes: seq!["ReadWriteOnce"@],
        storage_class,
        storage_request: Some(size),
    }
}

/// A claim template for one volume, mounted read-write by a single node.
pub fn pvc_template(name: &str, volume: &VolumeSpec) -> (t: VolumeClaimTemplate)
    ensures
        t@ == pvc_template_spec(name@, volume.size@, opt_view(volume.storage_class)),
{
    let modes = vec![lit("ReadWriteOnce")];
    let t = VolumeClaimTemplate {
        name: Some(lit(name)),
        access_modes: modes,
        storage_class: clone_opt_string(&volume.storage_class),
        storage_request: Some(volume.size.clone()),
    };
    assert(t@.access_modes =~= seq!["ReadWriteOnce"@]);
    t
}

pub open spec fn opt_template(name: Seq<char>, v: Option<VolumeSpec>) -> Seq<TemplateView> {
    match v {
        Some(v) => seq![pvc_template_spec(name, v.size@, opt_view(v.storage_class))],
        None => Seq::empty(),
    }
}

/// The claim templates: the persistent database, then the logs and the snapshots where
/// they have volumes of their own.
pub open spec fn templates_spec(d: DiomSpec) -> Seq<TemplateView> {
    seq![pvc_template_spec("persistent"@, d.storage.persistent.size@, opt_view(d.storage.persistent.storage_class))]
        + opt_template("logs"@, d.storage.logs) + opt_template("snapshots"@, d.storage.snapshots)
}

pub fn build_volume_claim_templates(spec: &DiomSpec) -> (ts: Vec<VolumeClaimTemplate>)
    ensures
        template_views(ts@) == templates_spec(*spec),
{
    let mut ts = vec![pvc_template("persistent", &spec.storage.persistent)];
    let ghost t0 = template_views(ts@);
    match &spec.storage.logs {
        Some(v) => ts.push(pvc_template("logs", v)),
        None => {},
    }
    let ghost t1 = template_views(ts@);
    assert(t1 =~= t0 + opt_template("logs"@, spec.storage.logs));
    match &spec.storage.snapshots {
        Some(v) => ts.push(pvc_template("snapshots", v)),
        None => {},
    }
    assert(template_views(ts@) =~= t1 + opt_template("snapshots"@, spec.storage.snapshots));
    ts
}

/// Where each volume is mounted, by volume name.
pub open spec fn mounts_spec(d: DiomSpec) -> Seq<(Seq<char>, Seq<char>)> {
    seq![("persistent"@, "/data/persistent"@)] + (if d.storage.logs is Some {
        seq![("logs"@, "/data/logs"@)]
    } else {
        Seq::empty()
    }) + (if d.storage.snapshots is Some {
        seq![("snapshots"@, "/data/snapshots"@)]
    } else {
        Seq::empty()
    })
}

/// Each place where a node is told to keep its data lies on a mounted volume: the
/// persistent database path is where the persistent volume is mounted; with a volume of
/// their own, the log and snapshot paths are where those volumes are mounted; without one,
/// they are directories under the persistent volume's mount.
pub proof fn lemma_data_paths_are_mounted(d: DiomSpec, cluster: Seq<char>, headless: Seq<char>, ns: Seq<char>)
    ensures
        ({
            let env = env_spec(d, cluster, headless, ns);
            let mounts = mounts_spec(d);
            &&& env[7].name == "DIOM_PERSISTENT_DB_PATH"@ && env[7].value is Some
            &&& env[8].name == "DIOM_CLUSTER_LOG_PATH"@ && env[8].value is Some
            &&& env[9].name == "DIOM_CLUSTER_SNAPSHOT_PATH"@ && env[9].value is Some
            &&& mounts.contains(("persistent"@, env[7].value->0))
            &&& d.storage.logs is Some ==> mounts.contains(("logs"@, env[8].value->0))
            &&& d.storage.logs is None ==> env[8].value->0 == env[7].value->0 + "/logs"@
            &&& d.storage.snapshots is Some ==> mounts.contains(("snapshots"@, env[9].value->0))
            &&& d.storage.snapshots is None ==> env[9].value->0 == env[7].value->0 + "/snapshots"@
        }),
{
    reveal_strlit("/data/persistent");
    reveal_strlit("/data/persistent/logs");
    reveal_strlit("/data/persistent/snapshots");
    reveal_strlit("/logs");
    reveal_strlit("/snapshots");
    assert("/data/persistent"@ + "/logs"@ =~= "/data/persistent/logs"@);
    assert("/data/persistent"@ + "/snapshots"@ =~= "/data/persistent/snapshots"@);
    let env = env_spec(d, cluster, headless, ns);
    let fixed = fixed_env(d, cluster, headless, ns);
    assert(env[7] == fixed[7] && env[8] == fixed[8] && env[9] == fixed[9]);
    let mounts = mounts_spec(d);
    assert(mounts[0] == ("persistent"@, "/data/persistent"@));
    if d.storage.logs is Some {
        assert(mounts[1] == ("logs"@, "/data/logs"@));
    }
    if d.storage.snapshots is Some {
        let k = if d.storage.logs is Some { 2int } else { 1int };
        assert(mounts[k] == ("snapshots"@, "/data/snapshots"@));
    }
}

/// The mounts of the node's container, as (volume name, mount path).
pub fn build_volume_mounts(spec: &DiomSpec) -> (m: Vec<(String, String)>)
    ensures
        pair_views(m@) == mounts_spec(*spec),
{
    let mut m = vec![(lit("persistent"), lit("/data/persistent"))];
    let ghost m0 = pair_views(m@);
    if spec.storage.logs.is_some() {
        m.push((lit("logs"), lit("/data/logs")));
    }
    let ghost m1 = pair_views(m@);
    assert(m1 =~= m0 + (if spec.storage.logs is Some {
        seq![("logs"@, "/data/logs"@)]
    } else {
        Seq::<(Seq<char>, Seq<char>)>::empty()
    }));
    if spec.storage.snapshots.is_some() {
        m.push((lit("snapshots"), lit("/data/snapshots")));
    }
    assert(pair_views(m@) =~= m1 + (if spec.storage.snapshots is Some {
        seq![("snapshots"@, "/data/snapshots"@)]
    } else {
        Seq::<(Seq<char>, Seq<char>)>::empty()
    }));
    m
}

/// The name that a template goes by when it is compared: its name, or the empty string.
pub open spec fn name_or_empty(n: Option<Seq<char>>) -> Seq<char> {
    match n {
        Some(n) => n,
        None => Seq::empty(),
    }
}

/// The storage request of the first template with the given name, if there is one.
pub open spec fn first_named_request(ts: Seq<TemplateView>, name: Seq<char>) -> Option<Seq<char>>
    decreases ts.len(),
{
    if ts.len() == 0 {
        None
    } else if ts[0].name == Some(name) {
        ts[0].storage_request
    } else {
        first_named_request(ts.drop_first(), name)
    }
}

/// Whether a desired template asks for another size than the current template of its name
/// (or for a size where there is no such template). Templates that are only in the current
/// set do not count.
pub open spec fn templates_differ_spec(current: Seq<TemplateView>, desired: Seq<TemplateView>) -> bool {
    exists|i: int|
        0 <= i < desired.len() && #[trigger] desired[i].storage_request != first_named_request(
            current,
            name_or_empty(desired[i].name),
        )
}

fn opt_str_eq(a: &Option<String>, b: &Option<String>) -> (r: bool)
    ensures
        r == (opt_view(*a) == opt_view(*b)),
{
    match (a, b) {
        (Some(x), Some(y)) => *x == *y,
        (None, None) => true,
        _ => false,
    }
}

fn first_request_of(ts: &Vec<VolumeClaimTemplate>, name: &String) -> (r: Option<String>)
    ensures
        opt_view(r) == first_named_request(template_views(ts@), name@),
{
    let mut i: usize = 0;
    assert(template_views(ts@).subrange(0, ts@.len() as int) =~= template_views(ts@));
    while i < ts.len()
        invariant
            i <= ts@.len(),
            first_named_request(template_views(ts@), name@) == first_named_request(
                template_views(ts@).subrange(i as int, ts@.len() as int),
                name@,
            ),
        decreases ts@.len() - i,
    {
        let ghost rest = template_views(ts@).subrange(i as int, ts@.len() as int);
        assert(rest[0] == ts@[i as int]@);
        assert(rest.drop_first() =~= template_views(ts@).subrange(i + 1, ts@.len() as int));
        let found = match &ts[i].name {
            Some(n) => *n == *name,
            None => false,
        };
        if found {
            return clone_opt_string(&ts[i].storage_request);
        }
        i = i + 1;
    }
    None
}

/// Whether the desired StatefulSet's claim templates ask for other sizes than the current
/// ones, so that the StatefulSet must be recreated.
pub fn volume_claim_templates_differ(current: &Vec<VolumeClaimTemplate>, desired: &Vec<VolumeClaimTemplate>) -> (r: bool)
    ensures
        r == templates_differ_spec(template_views(current@), template_views(desired@)),
{
    let mut i: usize = 0;
    while i < desired.len()
        invariant
            i <= desired@.len(),
            forall|j: int|
                0 <= j < i ==> #[trigger] template_views(desired@)[j].storage_request == first_named_request(
                    template_views(current@),
                    name_or_empty(template_views(desired@)[j].name),
                ),
        decreases desired@.len() - i,
    {
        let name = match &desired[i].name {
            Some(n) => n.clone(),
            None => String::new(),
        };
        let current_size = first_request_of(current, &name);
        assert(template_views(desired@)[i as int] == desired@[i as int]@);
        assert(name@ == name_or_empty(template_views(desired@)[i as int].name));
        if !opt_str_eq(&desired[i].storage_request, &current_size) {
            assert(template_views(desired@)[i as int].storage_request != first_named_request(
                template_views(current@),
                name_or_empty(template_views(desired@)[i as int].name),
            ));
            return true;
        }
        i = i + 1;
    }
    false
}

/// An HTTP probe of the node's container.
#[derive(Debug)]
pub struct ProbePlan {
    pub path: String,
    pub port: i32,
    pub initial_delay_seconds: i32,
    pub period_seconds: i32,
    pub failure_threshold: i32,
    pub success_threshold: i32,
}

pub open spec fn probe_is(p: ProbePlan, path: Seq<char>, port: int, delay: int, period: int, failures: int) -> bool {
    &&& p.path@ == path
    &&& p.port == port
    &&& p.initial_delay_seconds == delay
    &&& p.period_seconds == period
    &&& p.failure_threshold == failures
    &&& p.success_threshold == 1
}

/// The node's container.
#[derive(Debug)]
pub struct ContainerPlan {
    pub name: String,
    pub image: String,
    pub image_pull_policy: Option<String>,
    pub command: Vec<String>,
    pub env: Vec<EnvVar>,
    /// Named container ports.
    pub ports: Vec<(String, i32)>,
    /// Mounts, as (volume name, mount path).
    pub volume_mounts: Vec<(String, String)>,
    /// Restarts the node when its API stops answering.
    pub liveness_probe: ProbePlan,
    /// Sends clients to the node once it has joined the cluster.
    pub readiness_probe: ProbePlan,
    /// Gives a starting node a long time to join the cluster.
    pub startup_probe: ProbePlan,
    /// The spec's resource requirements, as JSON, unchanged.
    pub resources: String,
}

fn probe(path: &str, port: i32, delay: i32, period: i32, failures: i32) -> (p: ProbePlan)
    ensures
        probe_is(p, path@, port as int, delay as int, period as int, failures as int),
{
    ProbePlan {
        path: lit(path),
        port,
        initial_delay_seconds: delay,
        period_seconds: period,
        failure_threshold: failures,
        success_threshold: 1,
    }
}

pub fn build_container(spec: &DiomClusterSpec, env: Vec<EnvVar>, volume_mounts: Vec<(String, String)>) -> (c: ContainerPlan)
    ensures
        c.name@ == "diom"@,
        c.image@ == spec.image@,
        opt_view(c.image_pull_policy) == opt_view(spec.image_pull_policy),
        c.command@.len() == 1 && c.command@[0]@ == "/usr/local/bin/diom-server"@,
        c.env@ == env@,
        c.ports@.len() == 2,
        c.ports@[0].0@ == "api"@ && c.ports@[0].1 == spec.diom.api_port as int,
        c.ports@[1].0@ == "cluster"@ && c.ports@[1].1 == INTRACLUSTER_PORT as int,
        c.volume_mounts@ == volume_mounts@,
        probe_is(c.liveness_probe, "/api/v1.health.ping"@, spec.diom.api_port as int, 5, 10, 2),
        probe_is(c.readiness_probe, "/repl/health"@, INTRACLUSTER_PORT as int, 15, 10, 2),
        probe_is(c.startup_probe, "/repl/health"@, INTRACLUSTER_PORT as int, 15, 10, 120),
        c.resources@ == spec.resources@,
{
    let api_port = spec.diom.api_port as i32;
    let cluster_port = INTRACLUSTER_PORT as i32;
    ContainerPlan {
        name: lit("diom"),
        image: spec.image.clone(),
        image_pull_policy: clone_opt_string(&spec.image_pull_policy),
        command: vec![lit("/usr/local/bin/diom-server")],
        env,
        ports: vec![(lit("api"), api_port), (lit("cluster"), cluster_port)],
        volume_mounts,
        liveness_probe: probe("/api/v1.health.ping", api_port, 5, 10, 2),
        readiness_probe: probe("/repl/health", cluster_port, 15, 10, 2),
        startup_probe: probe("/repl/health", cluster_port, 15, 10, 120),
        resources: spec.resources.clone(),
    }
}

/// The reference that makes the cluster resource the controlling owner of the set.
#[derive(Debug)]
pub struct OwnerReferencePlan {
    pub api_version: String,
    pub kind: String,
    pub name: String,
    pub uid: String,
    pub controller: bool,
}

/// The StatefulSet of a cluster.
#[derive(Debug)]
pub struct StatefulSetPlan {
    pub name: String,
    pub namespace: String,
    pub labels: Vec<(String, String)>,
    /// The cluster resource, which owns and controls the set.
    pub owner: OwnerReferencePlan,
    pub replicas: i32,
    /// The headless Service that gives the pods their names.
    pub service_name: String,
    pub selector: Vec<(String, String)>,
    pub pod_labels: Vec<(String, String)>,
    pub pod_annotations: Option<Vec<(String, String)>>,
    /// Group that owns the mounted volumes: that of the server's user in the image.
    pub fs_group: i64,
    pub container: ContainerPlan,
    /// The spec's scheduling settings and image pull secrets, passed on unchanged.
    pub topology_spread_constraints: Vec<String>,
    pub node_selector: Option<Vec<(String, String)>>,
    pub tolerations: Option<Vec<String>>,
    pub affinity: Option<String>,
    pub image_pull_secrets: Option<Vec<String>>,
    pub volume_claim_templates: Vec<VolumeClaimTemplate>,
    /// What becomes of the claims when the set is deleted and when it is scaled down.
    pub retain_when_deleted: String,
    pub retain_when_scaled: String,
}

pub open spec fn opt_strings_view(o: Option<Vec<String>>) -> Option<Seq<Seq<char>>> {
    match o {
        Some(v) => Some(string_views(v@)),
        None => None,
    }
}

pub open spec fn opt_pairs_view(o: Option<Vec<(String, String)>>) -> Option<Seq<(Seq<char>, Seq<char>)>> {
    match o {
        Some(v) => Some(pair_views(v@)),
        None => None,
    }
}

fn clone_opt_strings(o: &Option<Vec<String>>) -> (r: Option<Vec<String>>)
    ensures
        opt_strings_view(r) == opt_strings_view(*o),
{
    match o {
        Some(v) => Some(clone_strings(v)),
        None => None,
    }
}

fn clone_opt_pairs(o: &Option<Vec<(String, String)>>) -> (r: Option<Vec<(String, String)>>)
    ensures
        opt_pairs_view(r) == opt_pairs_view(*o),
{
    match o {
        Some(v) => Some(clone_pairs(v)),
        None => None,
    }
}

/// The StatefulSet that runs the cluster `cluster_name` in namespace `ns`, owned by the
/// cluster resource with `uid`; a resource without a UID cannot own it.
pub fn build(spec: &DiomClusterSpec, cluster_name: &str, ns: &str, uid: Option<&str>) -> (r: Result<StatefulSetPlan, OperatorError>)
    ensures
        uid is None ==> (r matches Err(e) && e@ == OperatorErrorView::MissingField("owner UID"@)),
        uid matches Some(u) ==> (r matches Ok(s) && {
            &&& s.name@ == cluster_name@
            &&& s.namespace@ == ns@
            &&& pair_views(s.labels@) == general_labels_spec(cluster_name@)
            &&& s.owner.api_version@ == "diom.svix.com/v1alpha1"@
            &&& s.owner.kind@ == "DiomCluster"@
            &&& s.owner.name@ == cluster_name@
            &&& s.owner.uid@ == u@
            &&& s.owner.controller
            &&& s.replicas == spec.diom.replicas
            &&& s.service_name@ == headless_name_spec(cluster_name@)
            &&& pair_views(s.selector@) == selector_spec(cluster_name@)
            &&& pair_views(s.pod_labels@) == general_labels_spec(cluster_name@)
            &&& (if spec.pod_annotations@.len() == 0 {
                s.pod_annotations is None
            } else {
                s.pod_annotations matches Some(a) && pair_views(a@) == pair_views(spec.pod_annotations@)
            })
            &&& s.fs_group == 1000
            &&& s.container.image@ == spec.image@
            &&& s.container.resources@ == spec.resources@
            &&& env_views(s.container.env@) == env_spec(spec.diom, cluster_name@, headless_name_spec(cluster_name@), ns@)
            &&& pair_views(s.container.volume_mounts@) == mounts_spec(spec.diom)
            &&& string_views(s.topology_spread_constraints@) == string_views(spec.topology_spread_constraints@)
            &&& opt_pairs_view(s.node_selector) == opt_pairs_view(spec.node_selector)
            &&& opt_strings_view(s.tolerations) == opt_strings_view(spec.tolerations)
            &&& opt_view(s.affinity) == opt_view(spec.affinity)
            &&& opt_strings_view(s.image_pull_secrets) == opt_strings_view(spec.image_pull_secrets)
            &&& template_views(s.volume_claim_templates@) == templates_spec(spec.diom)
            &&& s.retain_when_deleted@ == "Retain"@
            &&& s.retain_when_scaled@ == "Retain"@
        }),
{
    let uid = match uid {
        Some(u) => u,
        None => return Err(OperatorError::MissingField(lit("owner UID"))),
    };
    let headless = headless_name(cluster_name);
    let env = build_env(&spec.diom, cluster_name, headless.as_str(), ns);
    let templates = build_volume_claim_templates(&spec.diom);
    let mounts = build_volume_mounts(&spec.diom);
    let container = build_container(spec, env, mounts);
    let pod_annotations = if spec.pod_annotations.len() == 0 {
        None
    } else {
        Some(clone_pairs(&spec.pod_annotations))
    };
    Ok(StatefulSetPlan {
        name: lit(cluster_name),
        namespace: lit(ns),
        labels: general_labels(cluster_name),
        owner: OwnerReferencePlan {
            api_version: lit("diom.svix.com/v1alpha1"),
            kind: lit("DiomCluster"),
            name: lit(cluster_name),
            uid: lit(uid),
            controller: true,
        },
        replicas: spec.diom.replicas,
        service_name: headless,
        selector: selector(cluster_name),
        pod_labels: general_labels(cluster_name),
        pod_annotations,
        fs_group: 1000,
        container,
        topology_spread_constraints: clone_strings(&spec.topology_spread_constraints),
        node_selector: clone_opt_pairs(&spec.node_selector),
        tolerations: clone_opt_strings(&spec.tolerations),
        affinity: clone_opt_string(&spec.affinity),
        image_pull_secrets: clone_opt_strings(&spec.image_pull_secrets),
        volume_claim_templates: templates,
        retain_when_deleted: lit("Retain"),
        retain_when_scaled: lit("Retain"),
    })
}

/// How a StatefulSet is brought to its desired form.
#[derive(Clone, Copy, Debug, PartialEq, Eq, Structural)]
pub enum StsAction {
    /// Apply the desired set over the current one.
    Apply,
    /// Claim templates cannot be changed in place: delete the current set, leaving its pods
    /// and claims, wait until it is gone, and create the desired one.
    Recreate,
}

pub fn sts_action(current: Option<&Vec<VolumeClaimTemplate>>, desired: &Vec<VolumeClaimTemplate>) -> (a: StsAction)
    ensures
        a == (if current matches Some(c) && templates_differ_spec(template_views(c@), template_views(desired@)) {
            StsAction::Recreate
        } else {
            StsAction::Apply
        }),
{
    match current {
        Some(c) => if volume_claim_templates_differ(c, desired) {
            StsAction::Recreate
        } else {
            StsAction::Apply
        },
        None => StsAction::Apply,
    }
}

/// Seconds to wait for a deleted StatefulSet to be gone, polling once a second.
pub const STS_DELETE_TIMEOUT_SECS: u64 = 30;

/// One poll while waiting for a deleted StatefulSet to go.
#[derive(Clone, Copy, Debug, PartialEq, Eq, Structural)]
pub enum DeletionWait {
    Deleted,
    KeepWaiting,
    TimedOut,
}

pub fn deletion_wait_step(still_present: bool, elapsed_secs: u64) -> (w: DeletionWait)
    ensures
        w == (if !still_present {
            DeletionWait::Deleted
        } else if elapsed_secs >= STS_DELETE_TIMEOUT_SECS {
            DeletionWait::TimedOut
        } else {
            DeletionWait::KeepWaiting
        }),
{
    if !still_present {
        DeletionWait::Deleted
    } else if elapsed_secs >= STS_DELETE_TIMEOUT_SECS {
        DeletionWait::TimedOut
    } else {
        DeletionWait::KeepWaiting
    }
}

/// The text of the timeout error.
pub fn deletion_timeout_message(name: &str) -> (m: String)
    ensures
        m@ == "StatefulSet "@ + name@ + " not deleted after "@ + decimal(STS_DELETE_TIMEOUT_SECS as nat) + "s"@,
{
    let secs = u64_to_decimal(STS_DELETE_TIMEOUT_SECS);
    lit("StatefulSet ").concat(name).concat(" not deleted after ").concat(secs.as_str()).concat("s")
}

} // verus!
