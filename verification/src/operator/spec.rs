//! The parts of a DiomCluster's spec that the operator reads, as plain values, and the
//! environment variables it hands to the pods.
use vstd::prelude::*;
use vstd::string::*;

pub use crate::cfg::settings::OpenTelemetryProtocol;

verus! {

/// Port of the external API unless the spec names another.
pub const DEFAULT_API_PORT: u16 = 8624;

/// Port that the nodes of a cluster talk to each other on.
pub const INTRACLUSTER_PORT: u16 = 8625;

/// Where a pod sends its traces and metrics.
#[derive(Clone, Debug)]
pub struct OpenTelemetrySpec {
    /// The OpenTelemetry address to send events to, if any.
    pub address: Option<String>,
    /// The OpenTelemetry address to send metrics to, if any.
    pub metrics_address: Option<String>,
    /// The protocol that metrics are sent with.
    pub metrics_protocol: Option<OpenTelemetryProtocol>,
}

/// Configuration of the client-facing Service.
#[derive(Clone, Debug)]
pub struct ServiceSpec {
    /// Service type (ClusterIP, LoadBalancer, NodePort); ClusterIP when absent.
    pub type_: Option<String>,
    /// Additional annotations for the Service, by key.
    pub annotations: Vec<(String, String)>,
}

impl ServiceSpec {
    pub fn default() -> (s: ServiceSpec)
        ensures
            s.type_ is None,
            s.annotations@.len() == 0,
    {
        ServiceSpec { type_: None, annotations: Vec::new() }
    }
}

/// Lifecycle phase of a DiomCluster, as shown to users.
#[derive(Clone, Copy, Debug, PartialEq, Eq, Structural)]
pub enum Phase {
    Initializing,
    Running,
    Degraded,
}

impl Phase {
    pub fn default() -> (p: Phase)
        ensures
            p == Phase::Initializing,
    {
        Phase::Initializing
    }

    /// The phase as it is written in the status.
    pub fn as_str(self) -> (s: &'static str)
        ensures
            s@ == phase_text(self),
    {
        match self {
            Phase::Initializing => "Initializing",
            Phase::Running => "Running",
            Phase::Degraded => "Degraded",
        }
    }
}

pub open spec fn phase_text(p: Phase) -> Seq<char> {
    match p {
        Phase::Initializing => "Initializing"@,
        Phase::Running => "Running"@,
        Phase::Degraded => "Degraded"@,
    }
}

/// One persistent volume of a cluster.
#[derive(Clone, Debug)]
pub struct VolumeSpec {
    /// Storage size as Kubernetes writes a quantity, e.g. `10Gi`.
    pub size: String,
    /// Storage class name; the cluster default when absent.
    pub storage_class: Option<String>,
}

/// The volumes of a cluster: the persistent database, and optionally separate volumes for
/// the Raft logs and the snapshots.
#[derive(Clone, Debug)]
pub struct DiomStorageSpec {
    pub persistent: VolumeSpec,
    pub logs: Option<VolumeSpec>,
    pub snapshots: Option<VolumeSpec>,
}

/// A key of a Kubernetes Secret or ConfigMap.
#[derive(Clone, Debug)]
pub struct KeySelector {
    pub name: String,
    pub key: String,
    pub optional: Option<bool>,
}

pub struct KeySelectorView {
    pub name: Seq<char>,
    pub key: Seq<char>,
    pub optional: Option<bool>,
}

impl View for KeySelector {
    type V = KeySelectorView;

    open spec fn view(&self) -> KeySelectorView {
        KeySelectorView { name: self.name@, key: self.key@, optional: self.optional }
    }
}

/// Where an environment variable takes its value from, when it is not given.
#[derive(Clone, Debug)]
pub enum EnvVarSource {
    /// A field of the pod, such as `metadata.name`.
    FieldRef { field_path: String },
    SecretKeyRef(KeySelector),
    ConfigMapKeyRef(KeySelector),
    /// A resource of a container, such as `limits.memory`.
    ResourceFieldRef { container_name: Option<String>, resource: String },
}

pub enum EnvVarSourceView {
    FieldRef { field_path: Seq<char> },
    SecretKeyRef(KeySelectorView),
    ConfigMapKeyRef(KeySelectorView),
    ResourceFieldRef { container_name: Option<Seq<char>>, resource: Seq<char> },
}

pub open spec fn opt_view(o: Option<String>) -> Option<Seq<char>> {
    match o {
        Some(s) => Some(s@),
        None => None,
    }
}

impl View for EnvVarSource {
    type V = EnvVarSourceView;

    open spec fn view(&self) -> EnvVarSourceView {
        match self {
            EnvVarSource::FieldRef { field_path } => EnvVarSourceView::FieldRef { field_path: field_path@ },
            EnvVarSource::SecretKeyRef(k) => EnvVarSourceView::SecretKeyRef(k@),
            EnvVarSource::ConfigMapKeyRef(k) => EnvVarSourceView::ConfigMapKeyRef(k@),
            EnvVarSource::ResourceFieldRef { container_name, resource } => EnvVarSourceView::ResourceFieldRef {
                container_name: opt_view(*container_name),
                resource: resource@,
            },
        }
    }
}

/// An environment variable of a container: a value, or a source to take it from.
#[derive(Debug)]
pub struct EnvVar {
    pub name: String,
    pub value: Option<String>,
    pub value_from: Option<EnvVarSource>,
}

pub struct EnvVarView {
    pub name: Seq<char>,
    pub value: Option<Seq<char>>,
    pub value_from: Option<EnvVarSourceView>,
}

impl View for EnvVar {
    type V = EnvVarView;

    open spec fn view(&self) -> EnvVarView {
        EnvVarView {
            name: self.name@,
            value: opt_view(self.value),
            value_from: match self.value_from {
                Some(s) => Some(s@),
                None => None,
            },
        }
    }
}

pub fn clone_opt_string(o: &Option<String>) -> (r: Option<String>)
    ensures
        opt_view(r) == opt_view(*o),
{
    match o {
        Some(s) => Some(s.clone()),
        None => None,
    }
}

fn clone_selector(k: &KeySelector) -> (r: KeySelector)
    ensures
        r@ == k@,
{
    KeySelector { name: k.name.clone(), key: k.key.clone(), optional: k.optional }
}

fn clone_source(s: &EnvVarSource) -> (r: EnvVarSource)
    ensures
        r@ == s@,
{
    match s {
        EnvVarSource::FieldRef { field_path } => EnvVarSource::FieldRef { field_path: field_path.clone() },
        EnvVarSource::SecretKeyRef(k) => EnvVarSource::SecretKeyRef(clone_selector(k)),
        EnvVarSource::ConfigMapKeyRef(k) => EnvVarSource::ConfigMapKeyRef(clone_selector(k)),
        EnvVarSource::ResourceFieldRef { container_name, resource } => EnvVarSource::ResourceFieldRef {
            container_name: clone_opt_string(container_name),
            resource: resource.clone(),
        },
    }
}

impl Clone for EnvVar {
    fn clone(&self) -> (r: EnvVar)
        ensures
            r@ == self@,
    {
        EnvVar {
            name: self.name.clone(),
            value: clone_opt_string(&self.value),
            value_from: match &self.value_from {
                Some(s) => Some(clone_source(s)),
                None => None,
            },
        }
    }
}

/// A variable with a plain value.
pub open spec fn plain_var(name: Seq<char>, value: Seq<char>) -> EnvVarView {
    EnvVarView { name, value: Some(value), value_from: None }
}

/// A variable taken from a field of the pod.
pub open spec fn field_var(name: Seq<char>, field_path: Seq<char>) -> EnvVarView {
    EnvVarView { name, value: None, value_from: Some(EnvVarSourceView::FieldRef { field_path }) }
}

pub fn env_var(name: &str, value: String) -> (e: EnvVar)
    ensures
        e@ == plain_var(name@, value@),
{
    EnvVar { name: String::from_str(name), value: Some(value), value_from: None }
}

pub fn env_from_field(name: &str, field_path: &str) -> (e: EnvVar)
    ensures
        e@ == field_var(name@, field_path@),
{
    EnvVar {
        name: String::from_str(name),
        value: None,
        value_from: Some(EnvVarSource::FieldRef { field_path: String::from_str(field_path) }),
    }
}

/// A secret given as a plain value (for testing) or as a reference to a Kubernetes Secret.
#[derive(Clone, Debug)]
pub enum ValueOrSecretRef {
    Value { value: String },
    ValueFrom { value_from: KeySelector },
}

pub open spec fn secret_var(name: Seq<char>, s: ValueOrSecretRef) -> EnvVarView {
    match s {
        ValueOrSecretRef::Value { value } => plain_var(name, value@),
        ValueOrSecretRef::ValueFrom { value_from } => EnvVarView {
            name,
            value: None,
            value_from: Some(EnvVarSourceView::SecretKeyRef(value_from@)),
        },
    }
}

impl ValueOrSecretRef {
    /// The variable `name` set to this secret: its value, or a reference to the Secret's key.
    pub fn to_env_var(&self, name: &str) -> (e: EnvVar)
        ensures
            e@ == secret_var(name@, *self),
    {
        match self {
            ValueOrSecretRef::Value { value } => env_var(name, value.clone()),
            ValueOrSecretRef::ValueFrom { value_from } => EnvVar {
                name: String::from_str(name),
                value: None,
                value_from: Some(EnvVarSource::SecretKeyRef(clone_selector(value_from))),
            },
        }
    }
}

/// The cluster settings that the operator turns into pods and services.
#[derive(Clone, Debug)]
pub struct DiomSpec {
    /// Number of replicas; should be odd.
    pub replicas: i32,
    /// Port of the external API and service.
    pub api_port: u16,
    pub internode_secret: Option<ValueOrSecretRef>,
    pub log_level: Option<String>,
    pub log_format: Option<String>,
    /// Newline-delimited bootstrap script to run on cluster startup.
    pub bootstrap: Option<String>,
    pub admin_token: Option<ValueOrSecretRef>,
    /// Additional environment variables for the pods.
    pub env_var: Vec<EnvVar>,
    pub storage: DiomStorageSpec,
    pub opentelemetry: Option<OpenTelemetrySpec>,
}

/// A DiomCluster's spec: the parts that the operator reads. Scheduling settings (resources,
/// affinity, tolerations, node selector, topology spread, pull secrets) are handed to the
/// pods as they are.
#[derive(Clone, Debug)]
pub struct DiomClusterSpec {
    pub diom: DiomSpec,
    /// Container image to deploy.
    pub image: String,
    /// Image pull policy (Always, IfNotPresent, Never).
    pub image_pull_policy: Option<String>,
    pub service: ServiceSpec,
    /// Additional annotations for the pods.
    pub pod_annotations: Vec<(String, String)>,
    /// CPU and memory requests and limits of the container: a Kubernetes
    /// `ResourceRequirements`, held as its JSON text and passed on unchanged.
    pub resources: String,
    /// Topology spread constraints of the pods, each held as its JSON text.
    pub topology_spread_constraints: Vec<String>,
    /// Node labels that the pods must be scheduled onto.
    pub node_selector: Option<Vec<(String, String)>>,
    /// Tolerations of the pods, each held as its JSON text.
    pub tolerations: Option<Vec<String>>,
    /// Affinity rules of the pods, held as their JSON text.
    pub affinity: Option<String>,
    /// Names of the secrets that images are pulled with.
    pub image_pull_secrets: Option<Vec<String>>,
}

} // verus!
