//! The resource tree of an application and its compact summary.

use vstd::prelude::*;
use crate::application::HealthStatus;
use crate::tally::{counts_view, lemma_tally_counts, string_views, tally, tally_keys, total_count};


verus! {

/// Identifies a Kubernetes resource.
#[derive(Debug, Clone)]
pub struct ResourceRef {
    pub group: Option<String>,
    pub version: Option<String>,
    pub kind: Option<String>,
    pub namespace: Option<String>,
    pub name: Option<String>,
    pub uid: Option<String>,
}

/// A name/value pair of resource information.
#[derive(Debug, Clone)]
pub struct InfoItem {
    pub name: Option<String>,
    pub value: Option<String>,
}

/// Networking information of a resource. Label maps are key/value pairs.
#[derive(Debug, Clone)]
pub struct ResourceNetworkingInfo {
    pub target_labels: Option<Vec<(String, String)>>,
    pub target_refs: Option<Vec<ResourceRef>>,
    pub labels: Option<Vec<(String, String)>>,
    pub ingress: Option<Vec<LoadBalancerIngress>>,
    pub external_urls: Option<Vec<String>>,
}

/// A load-balancer ingress point.
#[derive(Debug, Clone)]
pub struct LoadBalancerIngress {
    pub hostname: Option<String>,
    pub ip: Option<String>,
}

/// A live resource of the tree and its relationships.
#[derive(Debug, Clone)]
pub struct ResourceNode {
    pub group: Option<String>,
    pub version: Option<String>,
    pub kind: Option<String>,
    pub namespace: Option<String>,
    pub name: Option<String>,
    pub uid: Option<String>,
    pub parent_refs: Option<Vec<ResourceRef>>,
    pub info: Option<Vec<InfoItem>>,
    pub networking_info: Option<ResourceNetworkingInfo>,
    pub resource_version: Option<String>,
    pub images: Option<Vec<String>>,
    pub health: Option<HealthStatus>,
    pub created_at: Option<String>,
}

/// A physical node of the cluster.
#[derive(Debug, Clone)]
pub struct HostInfo {
    pub name: Option<String>,
    pub resource_name: Option<String>,
    pub system_info: Option<HostSystemInfo>,
}

/// System information of a host.
#[derive(Debug, Clone)]
pub struct HostSystemInfo {
    pub machine_id: Option<String>,
    pub system_uuid: Option<String>,
    pub boot_id: Option<String>,
    pub kernel_version: Option<String>,
    pub os_image: Option<String>,
    pub container_runtime_version: Option<String>,
    pub kubelet_version: Option<String>,
    pub kube_proxy_version: Option<String>,
    pub operating_system: Option<String>,
    pub architecture: Option<String>,
}

/// The resource nodes that form an application.
#[derive(Debug, Clone)]
pub struct ApplicationTree {
    pub nodes: Vec<ResourceNode>,
    pub orphaned_nodes: Option<Vec<ResourceNode>>,
    pub hosts: Option<Vec<HostInfo>>,
}

/// Counts and a sample of the resource tree.
#[derive(Debug, Clone)]
pub struct ResourceTreeSummary {
    pub total_nodes: usize,
    pub orphaned_nodes_count: usize,
    pub nodes_by_kind: Vec<(String, usize)>,
    pub health_summary: Vec<(String, usize)>,
    pub sample_nodes: Vec<ResourceNodeSummary>,
}

/// The compact view of one resource node.
#[derive(Debug, Clone)]
pub struct ResourceNodeSummary {
    pub name: String,
    pub kind: String,
    pub namespace: Option<String>,
    pub health_status: Option<String>,
    pub parent_count: Option<usize>,
    pub images: Option<Vec<String>>,
}

/// Number of nodes in the sample of a tree summary.
pub const SAMPLE_NODE_LIMIT: usize = 10;

/// The view of an optional string, empty when absent.
pub open spec fn or_empty(s: Option<String>) -> Seq<char> {
    match s {
        Some(x) => x@,
        None => Seq::empty(),
    }
}

/// The kinds of the nodes that have one, in order.
pub open spec fn node_kinds(nodes: Seq<ResourceNode>) -> Seq<Seq<char>>
    decreases nodes.len(),
{
    if nodes.len() == 0 {
        Seq::empty()
    } else {
        let rest = node_kinds(nodes.drop_last());
        match nodes.last().kind {
            Some(k) => rest.push(k@),
            None => rest,
        }
    }
}

/// The health key of a node: its health status, or `Unknown`.
pub open spec fn health_key(node: ResourceNode) -> Seq<char> {
    match node.health {
        Some(h) => h.status@,
        None => "Unknown"@,
    }
}

/// The health keys of all nodes, in order.
pub open spec fn node_health_keys(nodes: Seq<ResourceNode>) -> Seq<Seq<char>> {
    nodes.map_values(|n: ResourceNode| health_key(n))
}

/// Copies a vector of strings.
pub fn copy_strings(v: &Vec<String>) -> (r: Vec<String>)
    ensures
        r@ == v@,
{
    let mut r: Vec<String> = Vec::new();
    for i in 0..v.len()
        invariant
            r@ == v@.take(i as int),
    {
        r.push(v[i].clone());
        assert(r@ =~= v@.take(i + 1));
    }
    assert(v@.take(v@.len() as int) =~= v@);
    r
}

/// Copies an optional vector of strings.
pub fn copy_opt_strings(v: &Option<Vec<String>>) -> (r: Option<Vec<String>>)
    ensures
        match (r, *v) {
            (Some(a), Some(b)) => a@ == b@,
            (None, None) => true,
            _ => false,
        },
{
    match v {
        Some(x) => Some(copy_strings(x)),
        None => None,
    }
}

impl ResourceNodeSummary {
    /// What the summary of a node reports.
    pub open spec fn describes(self, node: ResourceNode) -> bool {
        &&& self.name@ == or_empty(node.name)
        &&& self.kind@ == or_empty(node.kind)
        &&& self.namespace == node.namespace
        &&& self.health_status == match node.health {
            Some(h) => Some(h.status),
            None => None,
        }
        &&& self.parent_count == match node.parent_refs {
            Some(p) => Some(p.len()),
            None => None,
        }
        &&& match (self.images, node.images) {
            (Some(a), Some(b)) => a@ == b@,
            (None, None) => true,
            _ => false,
        }
    }

    /// Summarizes one node.
    pub fn from_node(node: &ResourceNode) -> (r: Self)
        ensures
            r.describes(*node),
    {
        ResourceNodeSummary {
            name: match &node.name {
                Some(n) => n.clone(),
                None => String::new(),
            },
            kind: match &node.kind {
                Some(k) => k.clone(),
                None => String::new(),
            },
            namespace: node.namespace.clone(),
            health_status: match &node.health {
                Some(h) => Some(h.status.clone()),
                None => None,
            },
            parent_count: match &node.parent_refs {
                Some(p) => Some(p.len()),
                None => None,
            },
            images: copy_opt_strings(&node.images),
        }
    }
}

impl ResourceTreeSummary {
    /// What the summary of a tree reports.
    pub open spec fn summarizes(self, tree: ApplicationTree) -> bool {
        &&& self.total_nodes == tree.nodes@.len()
        &&& self.orphaned_nodes_count == match tree.orphaned_nodes {
            Some(o) => o@.len(),
            None => 0,
        }
        &&& counts_view(self.nodes_by_kind@) == tally(node_kinds(tree.nodes@))
        &&& counts_view(self.health_summary@) == tally(node_health_keys(tree.nodes@))
        &&& self.sample_nodes@.len() == if tree.nodes@.len() < SAMPLE_NODE_LIMIT {
            tree.nodes@.len()
        } else {
            SAMPLE_NODE_LIMIT as nat
        }
        &&& forall|i: int|
            0 <= i < self.sample_nodes@.len() ==> #[trigger] self.sample_nodes@[i].describes(tree.nodes@[i])
    }

    /// Summarizes a resource tree: node counts, counts by kind and by health,
    /// and the first nodes as a sample.
    pub fn from_tree(tree: ApplicationTree) -> (r: Self)
        ensures
            r.summarizes(tree),
    {
        let nodes = &tree.nodes;
        let mut kinds: Vec<String> = Vec::new();
        let mut health_keys: Vec<String> = Vec::new();
        let mut sample: Vec<ResourceNodeSummary> = Vec::new();
        for i in 0..nodes.len()
            invariant
                string_views(kinds@) == node_kinds(nodes@.take(i as int)),
                string_views(health_keys@) == node_health_keys(nodes@.take(i as int)),
                sample@.len() == if i < SAMPLE_NODE_LIMIT { i as nat } else { SAMPLE_NODE_LIMIT as nat },
                forall|j: int| 0 <= j < sample@.len() ==> #[trigger] sample@[j].describes(nodes@[j]),
        {
            let node = &nodes[i];
            proof {
                assert(nodes@.take(i + 1).drop_last() =~= nodes@.take(i as int));
            }
            match &node.kind {
                Some(k) => {
                    kinds.push(k.clone());
                },
                None => {},
            }
            assert(string_views(kinds@) =~= node_kinds(nodes@.take(i + 1)));
            match &node.health {
                Some(h) => {
                    health_keys.push(h.status.clone());
                },
                None => {
                    let unknown = "Unknown".to_owned();
                    assert(unknown@ == "Unknown"@);
                    health_keys.push(unknown);
                },
            }
            assert(node_health_keys(nodes@.take(i + 1)) =~= node_health_keys(nodes@.take(i as int)).push(health_key(nodes@[i as int])));
            assert(string_views(health_keys@) =~= node_health_keys(nodes@.take(i + 1)));
            if i < SAMPLE_NODE_LIMIT {
                sample.push(ResourceNodeSummary::from_node(node));
            }
        }
        proof {
            assert(nodes@.take(nodes@.len() as int) =~= nodes@);
        }
        let nodes_by_kind = tally_keys(&kinds);
        let health_summary = tally_keys(&health_keys);
        let orphaned_nodes_count = match &tree.orphaned_nodes {
            Some(o) => o.len(),
            None => 0,
        };
        ResourceTreeSummary {
            total_nodes: tree.nodes.len(),
            orphaned_nodes_count,
            nodes_by_kind,
            health_summary,
            sample_nodes: sample,
        }
    }
}


/// Every node has one health (`Unknown` when it reports none): the health
/// counts of a tree summary add up to the number of nodes.
pub proof fn lemma_health_adds_up(t: ResourceTreeSummary, tree: ApplicationTree)
    requires
        t.summarizes(tree),
    ensures
        total_count(counts_view(t.health_summary@)) == t.total_nodes,
{
    lemma_tally_counts(node_health_keys(tree.nodes@), Seq::empty());
}

} // verus!
