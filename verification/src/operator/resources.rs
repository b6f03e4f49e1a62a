//! The labels, Services and PodDisruptionBudget that the operator keeps for a cluster.
use vstd::prelude::*;
use vstd::string::*;

use super::error::{OperatorError, OperatorErrorView};
use super::spec::ServiceSpec;
use crate::text::{decimal, u64_to_decimal};

verus! {

fn lit(s: &str) -> (r: String)
    ensures
        r@ == s@,
{
    String::from_str(s)
}

pub open spec fn pair_views(s: Seq<(String, String)>) -> Seq<(Seq<char>, Seq<char>)> {
    s.map_values(|p: (String, String)| (p.0@, p.1@))
}

/// Selector labels of a cluster's pods, in key order. They are written into the
/// StatefulSet's selector, which cannot change after creation.
pub open spec fn selector_spec(cluster_name: Seq<char>) -> Seq<(Seq<char>, Seq<char>)> {
    seq![
        ("app.kubernetes.io/instance"@, cluster_name),
        ("app.kubernetes.io/name"@, "coyote"@),
        ("diom.svix.com/cluster"@, cluster_name),
    ]
}

/// All labels of the resources that the operator manages for a cluster, in key order.
pub open spec fn general_labels_spec(cluster_name: Seq<char>) -> Seq<(Seq<char>, Seq<char>)> {
    seq![
        ("app.kubernetes.io/instance"@, cluster_name),
        ("app.kubernetes.io/managed-by"@, "coyote-operator"@),
        ("app.kubernetes.io/name"@, "coyote"@),
        ("diom.svix.com/cluster"@, cluster_name),
    ]
}

fn label(key: &str, value: &str) -> (p: (String, String))
    ensures
        p.0@ == key@,
        p.1@ == value@,
{
    (lit(key), lit(value))
}

pub fn selector(cluster_name: &str) -> (l: Vec<(String, String)>)
    ensures
        pair_views(l@) == selector_spec(cluster_name@),
{
    let l = vec![
        label("app.kubernetes.io/instance", cluster_name),
        label("app.kubernetes.io/name", "coyote"),
        label("diom.svix.com/cluster", cluster_name),
    ];
    assert(pair_views(l@) =~= selector_spec(cluster_name@));
    l
}

pub fn general_labels(cluster_name: &str) -> (l: Vec<(String, String)>)
    ensures
        pair_views(l@) == general_labels_spec(cluster_name@),
{
    let l = vec![
        label("app.kubernetes.io/instance", cluster_name),
        label("app.kubernetes.io/managed-by", "coyote-operator"),
        label("app.kubernetes.io/name", "coyote"),
        label("diom.svix.com/cluster", cluster_name),
    ];
    assert(pair_views(l@) =~= general_labels_spec(cluster_name@));
    l
}

/// Every selector label is among the general labels, with the same value: the resources
/// that the operator labels are found by the selector.
pub proof fn lemma_selector_within_labels(cluster_name: Seq<char>, i: int)
    requires
        0 <= i < selector_spec(cluster_name).len(),
    ensures
        general_labels_spec(cluster_name).contains(selector_spec(cluster_name)[i]),
{
    let g = general_labels_spec(cluster_name);
    if i == 0 {
        assert(g[0] == selector_spec(cluster_name)[0]);
    } else if i == 1 {
        assert(g[2] == selector_spec(cluster_name)[1]);
    } else {
        assert(g[3] == selector_spec(cluster_name)[2]);
    }
}

pub open spec fn headless_name_spec(cluster_name: Seq<char>) -> Seq<char> {
    cluster_name + "-headless"@
}

/// Name of the headless Service through which the nodes find each other.
pub fn headless_name(cluster_name: &str) -> (r: String)
    ensures
        r@ == headless_name_spec(cluster_name@),
{
    lit(cluster_name).concat("-headless")
}

/// Name of the client-facing Service: the cluster's own name.
pub fn client_name(cluster_name: &str) -> (r: String)
    ensures
        r@ == cluster_name@,
{
    lit(cluster_name)
}

/// A port of a Service; the target port is the same number.
#[derive(Debug)]
pub struct ServicePortPlan {
    pub name: String,
    pub port: i32,
}

/// What a Service of the cluster is made of; its owner reference is added where it is sent.
#[derive(Debug)]
pub struct ServicePlan {
    pub name: String,
    pub namespace: String,
    pub labels: Vec<(String, String)>,
    pub annotations: Option<Vec<(String, String)>>,
    pub selector: Vec<(String, String)>,
    /// `Some("None")` for a headless Service.
    pub cluster_ip: Option<String>,
    pub type_: Option<String>,
    pub publish_not_ready_addresses: Option<bool>,
    pub traffic_distribution: Option<String>,
    pub ports: Vec<ServicePortPlan>,
}

/// Port of the headless Service's `cluster` port: the API port plus 10000.
pub open spec fn cluster_service_port(api_port: u16) -> int {
    api_port + 10000
}

/// The headless Service: it publishes pods that are not ready yet, so that the seed nodes
/// can find each other while the cluster starts.
pub fn build_headless(cluster_name: &str, namespace: &str, api_port: u16) -> (s: ServicePlan)
    requires
        api_port + 10000 <= u16::MAX,
    ensures
        s.name@ == headless_name_spec(cluster_name@),
        s.namespace@ == namespace@,
        pair_views(s.labels@) == general_labels_spec(cluster_name@),
        s.annotations is None,
        pair_views(s.selector@) == selector_spec(cluster_name@),
        s.cluster_ip matches Some(ip) && ip@ == "None"@,
        s.type_ is None,
        s.publish_not_ready_addresses == Some(true),
        s.traffic_distribution is None,
        s.ports@.len() == 2,
        s.ports@[0].name@ == "api"@ && s.ports@[0].port == api_port as int,
        s.ports@[1].name@ == "cluster"@ && s.ports@[1].port == cluster_service_port(api_port),
{
    let cluster_port: u16 = api_port + 10000;
    ServicePlan {
        name: headless_name(cluster_name),
        namespace: lit(namespace),
        labels: general_labels(cluster_name),
        annotations: None,
        selector: selector(cluster_name),
        cluster_ip: Some(lit("None")),
        type_: None,
        publish_not_ready_addresses: Some(true),
        traffic_distribution: None,
        ports: vec![
            ServicePortPlan { name: lit("api"), port: api_port as i32 },
            ServicePortPlan { name: lit("cluster"), port: cluster_port as i32 },
        ],
    }
}

/// A copy of a list of key/value pairs.
pub fn clone_pairs(v: &Vec<(String, String)>) -> (r: Vec<(String, String)>)
    ensures
        pair_views(r@) == pair_views(v@),
{
    let mut r: Vec<(String, String)> = Vec::new();
    let mut i: usize = 0;
    while i < v.len()
        invariant
            i <= v@.len(),
            r@.len() == i,
            pair_views(r@) == pair_views(v@.subrange(0, i as int)),
        decreases v@.len() - i,
    {
        let a = v[i].0.clone();
        let b = v[i].1.clone();
        let ghost old_r = r@;
        r.push((a, b));
        proof {
            let w = v@.subrange(0, i + 1);
            assert(w =~= v@.subrange(0, i as int).push(v@[i as int]));
            assert forall|k: int| 0 <= k < r@.len() implies pair_views(r@)[k] == pair_views(w)[k] by {
                if k < i {
                    assert(pair_views(old_r)[k] == pair_views(v@.subrange(0, i as int))[k]);
                }
            }
            assert(pair_views(r@) =~= pair_views(w));
        }
        i = i + 1;
    }
    assert(v@.subrange(0, v@.len() as int) =~= v@);
    r
}

/// The client-facing Service, which balances across the ready pods and prefers those in the
/// caller's zone.
pub fn build_client_facing(cluster_name: &str, namespace: &str, api_port: u16, service: &ServiceSpec) -> (s: ServicePlan)
    ensures
        s.name@ == cluster_name@,
        s.namespace@ == namespace@,
        pair_views(s.labels@) == general_labels_spec(cluster_name@),
        (if service.annotations@.len() == 0 {
            s.annotations is None
        } else {
            s.annotations matches Some(a) && pair_views(a@) == pair_views(service.annotations@)
        }),
        pair_views(s.selector@) == selector_spec(cluster_name@),
        s.cluster_ip is None,
        s.type_ matches Some(t) && t@ == (match service.type_ {
            Some(t) => t@,
            None => "ClusterIP"@,
        }),
        s.publish_not_ready_addresses is None,
        s.traffic_distribution matches Some(d) && d@ == "PreferSameZone"@,
        s.ports@.len() == 1,
        s.ports@[0].name@ == "api"@ && s.ports@[0].port == api_port as int,
{
    let type_ = match &service.type_ {
        Some(t) => t.clone(),
        None => lit("ClusterIP"),
    };
    let annotations = if service.annotations.len() == 0 {
        None
    } else {
        Some(clone_pairs(&service.annotations))
    };
    ServicePlan {
        name: client_name(cluster_name),
        namespace: lit(namespace),
        labels: general_labels(cluster_name),
        annotations,
        selector: selector(cluster_name),
        cluster_ip: None,
        type_: Some(type_),
        publish_not_ready_addresses: None,
        traffic_distribution: Some(lit("PreferSameZone")),
        ports: vec![ServicePortPlan { name: lit("api"), port: api_port as i32 }],
    }
}

/// Half the replicas, rounded towards zero, plus one: a strict majority.
pub open spec fn min_available_spec(replicas: i32) -> int {
    if replicas >= 0 {
        replicas / 2 + 1
    } else {
        -((-replicas) / 2) + 1
    }
}

/// The PodDisruptionBudget of a cluster, which keeps a strict majority of the replicas
/// available at all times so that the cluster keeps its quorum.
#[derive(Debug)]
pub struct PdbPlan {
    pub name: String,
    pub namespace: String,
    pub labels: Vec<(String, String)>,
    pub min_available: i32,
    pub selector: Vec<(String, String)>,
}

/// The budget for a cluster of `replicas` nodes; a single node gets none, since it could
/// never be evicted.
pub fn build_pdb(cluster_name: &str, namespace: &str, replicas: i32) -> (r: Option<PdbPlan>)
    ensures
        replicas <= 1 <==> r is None,
        r matches Some(p) ==> {
            &&& p.name@ == cluster_name@
            &&& p.namespace@ == namespace@
            &&& pair_views(p.labels@) == general_labels_spec(cluster_name@)
            &&& p.min_available == min_available_spec(replicas)
            &&& pair_views(p.selector@) == selector_spec(cluster_name@)
        },
{
    if replicas <= 1 {
        return None;
    }
    let min_available: i32 = replicas / 2 + 1;
    Some(PdbPlan {
        name: lit(cluster_name),
        namespace: lit(namespace),
        labels: general_labels(cluster_name),
        min_available,
        selector: selector(cluster_name),
    })
}

/// For any positive number of replicas, the budget is a strict majority that can be met:
/// more than half of the replicas, and no more than all of them.
pub proof fn lemma_min_available_is_majority(replicas: i32)
    requires
        replicas >= 1,
    ensures
        2 * min_available_spec(replicas) > replicas,
        min_available_spec(replicas) <= replicas,
{
}

/// The namespace of a cluster; a cluster resource without one cannot be reconciled.
pub fn cluster_namespace(namespace: Option<&str>) -> (r: Result<String, OperatorError>)
    ensures
        match r {
            Ok(ns) => namespace matches Some(n) && ns@ == n@,
            Err(e) => namespace is None && e@ == OperatorErrorView::MissingField("namespace"@),
        },
{
    match namespace {
        Some(n) => Ok(lit(n)),
        None => Err(OperatorError::MissingField(lit("namespace"))),
    }
}

/// The address at which the operator reaches a cluster's API: its client-facing Service,
/// inside the cluster's DNS.
pub fn cluster_server_url(cluster_name: &str, namespace: &str, api_port: u16) -> (r: String)
    ensures
        r@ == "http://"@ + cluster_name@ + "."@ + namespace@ + ".svc.cluster.local:"@ + decimal(api_port as nat),
{
    let port = u64_to_decimal(api_port as u64);
    lit("http://").concat(cluster_name).concat(".").concat(namespace).concat(".svc.cluster.local:").concat(port.as_str())
}

} // verus!
