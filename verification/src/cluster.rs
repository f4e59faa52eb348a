//! The cluster configuration model: clusters, nodes and protection groups,
//! and the lookups that the HA orchestration and the cluster commands use.

use vstd::prelude::*;
use crate::text::{owned, str_eq};

verus! {

/// Role of a PostgreSQL node in its cluster.
#[derive(Debug, Clone, Copy, PartialEq, Eq, Structural)]
pub enum NodeRole {
    Primary,
    Replica,
    Unknown,
}

impl NodeRole {
    /// The lower-case name of the role.
    pub open spec fn spec_name(self) -> Seq<char> {
        match self {
            NodeRole::Primary => "primary"@,
            NodeRole::Replica => "replica"@,
            NodeRole::Unknown => "unknown"@,
        }
    }

    /// The lower-case name of the role, as the tool prints it.
    pub fn name(self) -> (r: String)
        ensures
            r@ == self.spec_name(),
    {
        match self {
            NodeRole::Primary => owned("primary"),
            NodeRole::Replica => owned("replica"),
            NodeRole::Unknown => owned("unknown"),
        }
    }
}

/// A key/value label.
#[derive(Debug, Clone)]
pub struct Label {
    pub key: String,
    pub value: String,
}

/// A cluster definition.
#[derive(Debug, Clone)]
pub struct Cluster {
    pub id: String,
    pub name: Option<String>,
    pub environment: Option<String>,
    pub labels: Vec<Label>,
}

/// A PostgreSQL node of a cluster.
#[derive(Debug, Clone)]
pub struct Node {
    pub id: String,
    pub cluster_id: String,
    pub host: String,
    pub port: u16,
    pub role: NodeRole,
    pub labels: Vec<Label>,
    /// An SSH access block is configured for the node.
    pub has_ssh: bool,
    /// A connection block is configured for the node.
    pub has_connection: bool,
}

/// A protection group: databases of a cluster that are backed up together.
#[derive(Debug, Clone)]
pub struct ProtectionGroup {
    pub id: String,
    pub name: Option<String>,
    pub cluster_id: String,
    pub databases: Vec<String>,
    pub preferred_source_role: Option<NodeRole>,
    pub labels: Vec<Label>,
}

/// The cluster configuration.
#[derive(Debug, Clone)]
pub struct ClusterConfig {
    pub clusters: Vec<Cluster>,
    pub nodes: Vec<Node>,
    pub protection_groups: Vec<ProtectionGroup>,
}

/// The first cluster of `clusters` whose id is `id`.
pub open spec fn lookup_cluster(clusters: Seq<Cluster>, id: Seq<char>) -> Option<Cluster>
    decreases clusters.len(),
{
    if clusters.len() == 0 {
        None
    } else if clusters[0].id@ == id {
        Some(clusters[0])
    } else {
        lookup_cluster(clusters.drop_first(), id)
    }
}

/// The first node of `nodes` whose id is `id`.
pub open spec fn lookup_node(nodes: Seq<Node>, id: Seq<char>) -> Option<Node>
    decreases nodes.len(),
{
    if nodes.len() == 0 {
        None
    } else if nodes[0].id@ == id {
        Some(nodes[0])
    } else {
        lookup_node(nodes.drop_first(), id)
    }
}

/// The first primary node of `nodes` that belongs to the cluster `cluster_id`.
pub open spec fn lookup_primary(nodes: Seq<Node>, cluster_id: Seq<char>) -> Option<Node>
    decreases nodes.len(),
{
    if nodes.len() == 0 {
        None
    } else if nodes[0].cluster_id@ == cluster_id && nodes[0].role == NodeRole::Primary {
        Some(nodes[0])
    } else {
        lookup_primary(nodes.drop_first(), cluster_id)
    }
}

proof fn lemma_tail_step<A>(s: Seq<A>, i: int)
    requires
        0 <= i < s.len(),
    ensures
        s.subrange(i, s.len() as int).drop_first() == s.subrange(i + 1, s.len() as int),
        s.subrange(i, s.len() as int)[0] == s[i],
        s.subrange(i, s.len() as int).len() > 0,
{
    assert(s.subrange(i, s.len() as int).drop_first() =~= s.subrange(i + 1, s.len() as int));
}

/// A found cluster carries the id that was looked up.
pub proof fn lemma_lookup_cluster_id(clusters: Seq<Cluster>, id: Seq<char>)
    ensures
        lookup_cluster(clusters, id) matches Some(c) ==> c.id@ == id,
    decreases clusters.len(),
{
    if clusters.len() > 0 && clusters[0].id@ != id {
        lemma_lookup_cluster_id(clusters.drop_first(), id);
    }
}

/// A found node carries the id that was looked up.
pub proof fn lemma_lookup_node_id(nodes: Seq<Node>, id: Seq<char>)
    ensures
        lookup_node(nodes, id) matches Some(n) ==> n.id@ == id,
    decreases nodes.len(),
{
    if nodes.len() > 0 && nodes[0].id@ != id {
        lemma_lookup_node_id(nodes.drop_first(), id);
    }
}

/// A found primary is a primary of the cluster that was looked up.
pub proof fn lemma_lookup_primary_role(nodes: Seq<Node>, cluster_id: Seq<char>)
    ensures
        lookup_primary(nodes, cluster_id) matches Some(n) ==> n.cluster_id@ == cluster_id && n.role
            == NodeRole::Primary,
    decreases nodes.len(),
{
    if nodes.len() > 0 && !(nodes[0].cluster_id@ == cluster_id && nodes[0].role
        == NodeRole::Primary) {
        lemma_lookup_primary_role(nodes.drop_first(), cluster_id);
    }
}

impl ClusterConfig {
    /// The first cluster whose id is `id`.
    pub fn get_cluster(&self, id: &str) -> (r: Option<&Cluster>)
        ensures
            r matches Some(c) ==> lookup_cluster(self.clusters@, id@) == Some(*c),
            r is None ==> lookup_cluster(self.clusters@, id@) is None,
    {
        let n = self.clusters.len();
        let mut i: usize = 0;
        assert(self.clusters@.subrange(0, n as int) =~= self.clusters@);
        while i < n
            invariant
                i <= n == self.clusters@.len(),
                lookup_cluster(self.clusters@, id@) == lookup_cluster(
                    self.clusters@.subrange(i as int, n as int),
                    id@,
                ),
            decreases n - i,
        {
            proof {
                lemma_tail_step(self.clusters@, i as int);
            }
            if str_eq(self.clusters[i].id.as_str(), id) {
                return Some(&self.clusters[i]);
            }
            i = i + 1;
        }
        None
    }

    /// The first node whose id is `id`.
    pub fn get_node(&self, id: &str) -> (r: Option<&Node>)
        ensures
            r matches Some(x) ==> lookup_node(self.nodes@, id@) == Some(*x),
            r is None ==> lookup_node(self.nodes@, id@) is None,
    {
        let n = self.nodes.len();
        let mut i: usize = 0;
        assert(self.nodes@.subrange(0, n as int) =~= self.nodes@);
        while i < n
            invariant
                i <= n == self.nodes@.len(),
                lookup_node(self.nodes@, id@) == lookup_node(
                    self.nodes@.subrange(i as int, n as int),
                    id@,
                ),
            decreases n - i,
        {
            proof {
                lemma_tail_step(self.nodes@, i as int);
            }
            if str_eq(self.nodes[i].id.as_str(), id) {
                return Some(&self.nodes[i]);
            }
            i = i + 1;
        }
        None
    }

    /// The first primary node of the cluster `cluster_id`.
    pub fn get_primary_node(&self, cluster_id: &str) -> (r: Option<&Node>)
        ensures
            r matches Some(x) ==> lookup_primary(self.nodes@, cluster_id@) == Some(*x),
            r is None ==> lookup_primary(self.nodes@, cluster_id@) is None,
    {
        let n = self.nodes.len();
        let mut i: usize = 0;
        assert(self.nodes@.subrange(0, n as int) =~= self.nodes@);
        while i < n
            invariant
                i <= n == self.nodes@.len(),
                lookup_primary(self.nodes@, cluster_id@) == lookup_primary(
                    self.nodes@.subrange(i as int, n as int),
                    cluster_id@,
                ),
            decreases n - i,
        {
            proof {
                lemma_tail_step(self.nodes@, i as int);
            }
            if self.nodes[i].role == NodeRole::Primary && str_eq(
                self.nodes[i].cluster_id.as_str(),
                cluster_id,
            ) {
                return Some(&self.nodes[i]);
            }
            i = i + 1;
        }
        None
    }
}

/// A copy of a list of labels.
pub fn copy_labels(v: &Vec<Label>) -> (r: Vec<Label>)
    ensures
        r@ == v@,
{
    let mut out: Vec<Label> = Vec::new();
    let mut i: usize = 0;
    while i < v.len()
        invariant
            i <= v@.len(),
            out@ == v@.take(i as int),
        decreases v@.len() - i,
    {
        let l = Label { key: v[i].key.clone(), value: v[i].value.clone() };
        out.push(l);
        proof {
            assert(out@ =~= v@.take(i + 1));
        }
        i = i + 1;
    }
    proof {
        assert(v@.take(v@.len() as int) =~= v@);
    }
    out
}

/// A copy of an optional string.
pub fn copy_text(o: &Option<String>) -> (r: Option<String>)
    ensures
        r == *o,
{
    match o {
        Some(s) => Some(s.clone()),
        None => None,
    }
}

} // verus!
