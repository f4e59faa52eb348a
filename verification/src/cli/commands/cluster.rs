//! Cluster configuration commands: validation, overview, node and protection
//! group listings over a loaded configuration, and their tables.

use vstd::prelude::*;
use crate::cluster::{copy_labels, copy_text, ClusterConfig, Cluster, Label, Node, NodeRole, ProtectionGroup};
use crate::ha::types::duplicate_strings;
use crate::text::{
    concat2, concat_all, decimal, decimal_u64, join_strings, join_with, lemma_concat_all_push,
    lowercase, owned, push_repeat, push_str, push_table_row, repeat_char, str_eq, table_row,
    texts, to_lowercase,
};

verus! {

/// Output format for cluster commands.
#[derive(Debug, Clone, Copy, PartialEq, Eq, Structural)]
pub enum OutputFormat {
    Table,
    Json,
}

impl OutputFormat {
    /// `json` in any case selects JSON; anything else a table.
    pub fn parse(s: &str) -> (r: OutputFormat)
        ensures
            r == if lowercase(s@) == "json"@ {
                OutputFormat::Json
            } else {
                OutputFormat::Table
            },
    {
        let l = to_lowercase(s);
        if str_eq(l.as_str(), "json") {
            OutputFormat::Json
        } else {
            OutputFormat::Table
        }
    }
}

impl std::str::FromStr for OutputFormat {
    type Err = std::convert::Infallible;

    fn from_str(s: &str) -> Result<Self, Self::Err> {
        Ok(OutputFormat::parse(s))
    }
}

/// Why a cluster configuration could not be loaded.
#[derive(Debug, Clone)]
pub enum ClusterConfigError {
    /// No configuration file was found; the paths that were searched.
    NotFound(Vec<String>),
    /// The file could not be read; the error's text.
    Io(String),
    /// The file is not valid YAML; the error's text.
    Parse(String),
    /// Any other failure; the error's text.
    Other(String),
}

/// One problem found in a configuration.
#[derive(Debug, Clone)]
pub struct ValidationErrorInfo {
    pub path: String,
    pub message: String,
    pub code: String,
}

/// Counts of what a configuration defines.
#[derive(Debug, Clone, Copy, PartialEq, Eq, Structural)]
pub struct ValidationSummary {
    pub clusters: usize,
    pub nodes: usize,
    pub protection_groups: usize,
}

/// Result of cluster validation.
#[derive(Debug, Clone)]
pub struct ValidationResult {
    pub valid: bool,
    pub errors: Vec<ValidationErrorInfo>,
    pub summary: ValidationSummary,
}

/// The single error of a configuration that could not be loaded, if it
/// could not be loaded for a reason that validation reports.
pub open spec fn load_failure(e: ClusterConfigError) -> Option<(Seq<char>, Seq<char>)> {
    match e {
        ClusterConfigError::NotFound(paths) => Some(
            (
                "Cluster configuration file not found. Searched: "@ + join_with(texts(paths@), ", "@),
                "FILE_NOT_FOUND"@,
            ),
        ),
        ClusterConfigError::Io(m) => Some(("Failed to read configuration file: "@ + m@, "IO_ERROR"@)),
        ClusterConfigError::Parse(m) => Some(("Failed to parse YAML: "@ + m@, "PARSE_ERROR"@)),
        ClusterConfigError::Other(_) => None,
    }
}

/// The view of a validation error: path, message and code.
pub open spec fn error_view(e: ValidationErrorInfo) -> (Seq<char>, Seq<char>, Seq<char>) {
    (e.path@, e.message@, e.code@)
}

/// The views of a list of validation errors.
pub open spec fn error_views(s: Seq<ValidationErrorInfo>) -> Seq<(Seq<char>, Seq<char>, Seq<char>)> {
    s.map_values(|e: ValidationErrorInfo| error_view(e))
}

/// A copy of a list of validation errors.
fn copy_errors(v: &Vec<ValidationErrorInfo>) -> (r: Vec<ValidationErrorInfo>)
    ensures
        error_views(r@) == error_views(v@),
{
    let mut out: Vec<ValidationErrorInfo> = Vec::new();
    let mut i: usize = 0;
    while i < v.len()
        invariant
            i <= v@.len(),
            error_views(out@) == error_views(v@.take(i as int)),
        decreases v@.len() - i,
    {
        let e = &v[i];
        let copy = ValidationErrorInfo {
            path: e.path.clone(),
            message: e.message.clone(),
            code: e.code.clone(),
        };
        proof {
            assert(error_view(copy) == error_view(v@[i as int]));
            assert(v@.take(i + 1) =~= v@.take(i as int).push(v@[i as int]));
        }
        let ghost before = out@;
        out.push(copy);
        proof {
            assert(error_views(out@) =~= error_views(before).push(error_view(copy)));
            assert(error_views(v@.take(i + 1)) =~= error_views(v@.take(i as int)).push(
                error_view(v@[i as int]),
            ));
            assert(error_views(out@) =~= error_views(v@.take(i + 1)));
        }
        i = i + 1;
    }
    proof {
        assert(v@.take(v@.len() as int) =~= v@);
    }
    out
}

/// Validates a cluster configuration, given what loading it gave: the
/// configuration with the problems its validation found, or why it could
/// not be loaded. A missing, unreadable or unparsable file is reported as
/// an invalid configuration with a single error and nothing counted; any
/// other load failure is an error.
pub fn cluster_validate(
    loaded: Result<(ClusterConfig, Vec<ValidationErrorInfo>), ClusterConfigError>,
) -> (r: Result<ValidationResult, String>)
    ensures
        match loaded {
            Ok((config, problems)) => r matches Ok(v) && {
                &&& v.valid == (problems@.len() == 0)
                &&& error_views(v.errors@) == error_views(problems@)
                &&& v.summary == (ValidationSummary {
                    clusters: config.clusters@.len() as usize,
                    nodes: config.nodes@.len() as usize,
                    protection_groups: config.protection_groups@.len() as usize,
                })
            },
            Err(e) => match load_failure(e) {
                Some((message, code)) => r matches Ok(v) && {
                    &&& !v.valid
                    &&& error_views(v.errors@) == seq![
                        (Seq::<char>::empty(), message, code),
                    ]
                    &&& v.summary == (ValidationSummary { clusters: 0, nodes: 0, protection_groups: 0 })
                },
                None => r matches Err(m) && (e matches ClusterConfigError::Other(t)
                    && m@ == "Failed to load cluster config: "@ + t@),
            },
        },
{
    let (message, code) = match &loaded {
        Ok((config, problems)) => {
            let errors = copy_errors(problems);
            return Ok(
                ValidationResult {
                    valid: problems.len() == 0,
                    errors,
                    summary: ValidationSummary {
                        clusters: config.clusters.len(),
                        nodes: config.nodes.len(),
                        protection_groups: config.protection_groups.len(),
                    },
                },
            );
        },
        Err(ClusterConfigError::NotFound(paths)) => {
            let joined = join_strings(paths, ", ");
            (
                concat2("Cluster configuration file not found. Searched: ", joined.as_str()),
                owned("FILE_NOT_FOUND"),
            )
        },
        Err(ClusterConfigError::Io(m)) => (
            concat2("Failed to read configuration file: ", m.as_str()),
            owned("IO_ERROR"),
        ),
        Err(ClusterConfigError::Parse(m)) => (
            concat2("Failed to parse YAML: ", m.as_str()),
            owned("PARSE_ERROR"),
        ),
        Err(ClusterConfigError::Other(m)) => {
            return Err(concat2("Failed to load cluster config: ", m.as_str()));
        },
    };
    let mut errors: Vec<ValidationErrorInfo> = Vec::new();
    errors.push(ValidationErrorInfo { path: String::new(), message, code });
    let r = ValidationResult {
        valid: false,
        errors,
        summary: ValidationSummary { clusters: 0, nodes: 0, protection_groups: 0 },
    };
    proof {
        assert(error_views(r.errors@) =~= seq![
            (Seq::<char>::empty(), r.errors@[0].message@, r.errors@[0].code@),
        ]);
    }
    Ok(r)
}

/// Overview information about a cluster.
#[derive(Debug, Clone)]
pub struct ClusterInfo {
    pub id: String,
    pub name: Option<String>,
    pub environment: Option<String>,
    pub node_count: usize,
    pub primary_count: usize,
    pub replica_count: usize,
    pub protection_group_count: usize,
    pub labels: Vec<Label>,
}

/// Cluster overview information.
#[derive(Debug, Clone)]
pub struct ClusterOverview {
    pub clusters: Vec<ClusterInfo>,
}

/// The number of nodes of cluster `cid`, of role `role` when one is given.
pub open spec fn node_count(nodes: Seq<Node>, cid: Seq<char>, role: Option<NodeRole>) -> nat
    decreases nodes.len(),
{
    if nodes.len() == 0 {
        0
    } else {
        let n = nodes.last();
        node_count(nodes.drop_last(), cid, role) + if n.cluster_id@ == cid && (role matches Some(
            r,
        ) ==> n.role == r) {
            1nat
        } else {
            0
        }
    }
}

/// The number of protection groups of cluster `cid`.
pub open spec fn group_count(groups: Seq<ProtectionGroup>, cid: Seq<char>) -> nat
    decreases groups.len(),
{
    if groups.len() == 0 {
        0
    } else {
        group_count(groups.drop_last(), cid) + if groups.last().cluster_id@ == cid {
            1nat
        } else {
            0
        }
    }
}

/// `info` describes cluster `c` of `config`.
pub open spec fn describes_cluster(info: ClusterInfo, config: ClusterConfig, c: Cluster) -> bool {
    &&& info.id@ == c.id@
    &&& info.name == c.name
    &&& info.environment == c.environment
    &&& info.node_count == node_count(config.nodes@, c.id@, None)
    &&& info.primary_count == node_count(config.nodes@, c.id@, Some(NodeRole::Primary))
    &&& info.replica_count == node_count(config.nodes@, c.id@, Some(NodeRole::Replica))
    &&& info.protection_group_count == group_count(config.protection_groups@, c.id@)
    &&& info.labels@ == c.labels@
}

proof fn lemma_node_count_bound(nodes: Seq<Node>, cid: Seq<char>, role: Option<NodeRole>)
    ensures
        node_count(nodes, cid, role) <= nodes.len(),
    decreases nodes.len(),
{
    if nodes.len() > 0 {
        lemma_node_count_bound(nodes.drop_last(), cid, role);
    }
}

proof fn lemma_group_count_bound(groups: Seq<ProtectionGroup>, cid: Seq<char>)
    ensures
        group_count(groups, cid) <= groups.len(),
    decreases groups.len(),
{
    if groups.len() > 0 {
        lemma_group_count_bound(groups.drop_last(), cid);
    }
}

/// Counts the nodes of cluster `cid`, of role `role` when one is given.
fn count_nodes(nodes: &Vec<Node>, cid: &str, role: Option<NodeRole>) -> (r: usize)
    ensures
        r == node_count(nodes@, cid@, role),
{
    let mut c: usize = 0;
    let mut i: usize = 0;
    while i < nodes.len()
        invariant
            i <= nodes@.len(),
            c == node_count(nodes@.take(i as int), cid@, role),
        decreases nodes@.len() - i,
    {
        proof {
            assert(nodes@.take(i + 1).drop_last() =~= nodes@.take(i as int));
            lemma_node_count_bound(nodes@.take(i as int), cid@, role);
        }
        let n = &nodes[i];
        let role_ok = match role {
            Some(r) => n.role == r,
            None => true,
        };
        if role_ok && str_eq(n.cluster_id.as_str(), cid) {
            c = c + 1;
        }
        i = i + 1;
    }
    proof {
        assert(nodes@.take(nodes@.len() as int) =~= nodes@);
    }
    c
}

/// Counts the protection groups of cluster `cid`.
fn count_groups(groups: &Vec<ProtectionGroup>, cid: &str) -> (r: usize)
    ensures
        r == group_count(groups@, cid@),
{
    let mut c: usize = 0;
    let mut i: usize = 0;
    while i < groups.len()
        invariant
            i <= groups@.len(),
            c == group_count(groups@.take(i as int), cid@),
        decreases groups@.len() - i,
    {
        proof {
            assert(groups@.take(i + 1).drop_last() =~= groups@.take(i as int));
            lemma_group_count_bound(groups@.take(i as int), cid@);
        }
        if str_eq(groups[i].cluster_id.as_str(), cid) {
            c = c + 1;
        }
        i = i + 1;
    }
    proof {
        assert(groups@.take(groups@.len() as int) =~= groups@);
    }
    c
}

/// The overview of every cluster of the configuration, in order: its
/// nodes, primaries, replicas and protection groups counted.
pub fn cluster_show(config: &ClusterConfig) -> (r: ClusterOverview)
    ensures
        r.clusters@.len() == config.clusters@.len(),
        forall|i: int|
            0 <= i < r.clusters@.len() ==> describes_cluster(
                #[trigger] r.clusters@[i],
                *config,
                config.clusters@[i],
            ),
{
    let mut out: Vec<ClusterInfo> = Vec::new();
    let mut i: usize = 0;
    while i < config.clusters.len()
        invariant
            i <= config.clusters@.len(),
            out@.len() == i,
            forall|j: int|
                0 <= j < i ==> describes_cluster(#[trigger] out@[j], *config, config.clusters@[j]),
        decreases config.clusters@.len() - i,
    {
        let c = &config.clusters[i];
        let info = ClusterInfo {
            id: c.id.clone(),
            name: copy_text(&c.name),
            environment: copy_text(&c.environment),
            node_count: count_nodes(&config.nodes, c.id.as_str(), None),
            primary_count: count_nodes(&config.nodes, c.id.as_str(), Some(NodeRole::Primary)),
            replica_count: count_nodes(&config.nodes, c.id.as_str(), Some(NodeRole::Replica)),
            protection_group_count: count_groups(&config.protection_groups, c.id.as_str()),
            labels: copy_labels(&c.labels),
        };
        out.push(info);
        i = i + 1;
    }
    ClusterOverview { clusters: out }
}

/// Node information for display.
#[derive(Debug, Clone)]
pub struct NodeInfo {
    pub id: String,
    pub cluster_id: String,
    pub host: String,
    pub port: u16,
    pub role: String,
    pub labels: Vec<Label>,
    pub has_ssh: bool,
    pub has_connection_config: bool,
}

/// Node information for display.
#[derive(Debug, Clone)]
pub struct NodeList {
    pub nodes: Vec<NodeInfo>,
}

/// The role a role filter names: `primary`, `replica` or `unknown` in any
/// case; anything else names none, and then no node is left out by role.
pub open spec fn role_filter_of(s: Seq<char>) -> Option<NodeRole> {
    if lowercase(s) == "primary"@ {
        Some(NodeRole::Primary)
    } else if lowercase(s) == "replica"@ {
        Some(NodeRole::Replica)
    } else if lowercase(s) == "unknown"@ {
        Some(NodeRole::Unknown)
    } else {
        None
    }
}

/// A node passes the filters: of the cluster asked for, and of the role
/// asked for.
pub open spec fn node_selected(n: Node, cluster: Option<Seq<char>>, role: Option<NodeRole>) -> bool {
    (cluster matches Some(c) ==> n.cluster_id@ == c) && (role matches Some(r) ==> n.role == r)
}

/// `info` describes node `n`.
pub open spec fn describes_node(info: NodeInfo, n: Node) -> bool {
    &&& info.id@ == n.id@
    &&& info.cluster_id@ == n.cluster_id@
    &&& info.host@ == n.host@
    &&& info.port == n.port
    &&& info.role@ == n.role.spec_name()
    &&& info.labels@ == n.labels@
    &&& info.has_ssh == n.has_ssh
    &&& info.has_connection_config == n.has_connection
}

/// The optional text as a sequence of characters.
pub open spec fn opt_view(o: Option<&str>) -> Option<Seq<char>> {
    match o {
        Some(s) => Some(s@),
        None => None,
    }
}

/// Parses a role filter.
fn parse_role_filter(s: &str) -> (r: Option<NodeRole>)
    ensures
        r == role_filter_of(s@),
{
    let l = to_lowercase(s);
    if str_eq(l.as_str(), "primary") {
        Some(NodeRole::Primary)
    } else if str_eq(l.as_str(), "replica") {
        Some(NodeRole::Replica)
    } else if str_eq(l.as_str(), "unknown") {
        Some(NodeRole::Unknown)
    } else {
        None
    }
}

/// Lists the nodes of the configuration, in order, that belong to the
/// cluster `cluster_filter` and have the role `role_filter` names, when
/// these are given.
pub fn cluster_nodes(config: &ClusterConfig, cluster_filter: Option<&str>, role_filter: Option<&str>) -> (r: NodeList)
    ensures
        ({
            let role = match role_filter {
                Some(s) => role_filter_of(s@),
                None => None,
            };
            let selected = config.nodes@.filter(|n: Node| node_selected(n, opt_view(cluster_filter), role));
            &&& r.nodes@.len() == selected.len()
            &&& forall|i: int| 0 <= i < selected.len() ==> describes_node(#[trigger] r.nodes@[i], selected[i])
        }),
{
    let role = match role_filter {
        Some(s) => parse_role_filter(s),
        None => None,
    };
    let ghost pred = |n: Node| node_selected(n, opt_view(cluster_filter), role);
    let mut out: Vec<NodeInfo> = Vec::new();
    let mut i: usize = 0;
    while i < config.nodes.len()
        invariant
            i <= config.nodes@.len(),
            pred == (|n: Node| node_selected(n, opt_view(cluster_filter), role)),
            out@.len() == config.nodes@.take(i as int).filter(pred).len(),
            forall|j: int|
                0 <= j < out@.len() ==> describes_node(
                    #[trigger] out@[j],
                    config.nodes@.take(i as int).filter(pred)[j],
                ),
        decreases config.nodes@.len() - i,
    {
        proof {
            assert(config.nodes@.take(i + 1) =~= config.nodes@.take(i as int).push(config.nodes@[i as int]));
            config.nodes@.take(i as int).lemma_filter_push(config.nodes@[i as int], pred);
        }
        let n = &config.nodes[i];
        let cluster_ok = match cluster_filter {
            Some(c) => str_eq(n.cluster_id.as_str(), c),
            None => true,
        };
        let role_ok = match role {
            Some(r) => n.role == r,
            None => true,
        };
        if cluster_ok && role_ok {
            out.push(
                NodeInfo {
                    id: n.id.clone(),
                    cluster_id: n.cluster_id.clone(),
                    host: n.host.clone(),
                    port: n.port,
                    role: n.role.name(),
                    labels: copy_labels(&n.labels),
                    has_ssh: n.has_ssh,
                    has_connection_config: n.has_connection,
                },
            );
        }
        i = i + 1;
    }
    proof {
        assert(config.nodes@.take(config.nodes@.len() as int) =~= config.nodes@);
    }
    NodeList { nodes: out }
}

/// Protection group information for display.
#[derive(Debug, Clone)]
pub struct ProtectionGroupInfo {
    pub id: String,
    pub name: Option<String>,
    pub cluster_id: String,
    pub databases: Vec<String>,
    pub preferred_source_role: Option<String>,
    pub labels: Vec<Label>,
}

/// Protection group information for display.
#[derive(Debug, Clone)]
pub struct ProtectionGroupList {
    pub protection_groups: Vec<ProtectionGroupInfo>,
}

/// `info` describes protection group `g`.
pub open spec fn describes_group(info: ProtectionGroupInfo, g: ProtectionGroup) -> bool {
    &&& info.id@ == g.id@
    &&& info.name == g.name
    &&& info.cluster_id@ == g.cluster_id@
    &&& info.databases@ == g.databases@
    &&& match g.preferred_source_role {
        Some(r) => info.preferred_source_role matches Some(t) && t@ == r.spec_name(),
        None => info.preferred_source_role is None,
    }
    &&& info.labels@ == g.labels@
}

/// A protection group passes the cluster filter.
pub open spec fn group_selected(g: ProtectionGroup, cluster: Option<Seq<char>>) -> bool {
    cluster matches Some(c) ==> g.cluster_id@ == c
}

/// Lists the protection groups of the configuration, in order, that belong
/// to the cluster `cluster_filter` when one is given.
pub fn cluster_protection_groups(config: &ClusterConfig, cluster_filter: Option<&str>) -> (r: ProtectionGroupList)
    ensures
        ({
            let selected = config.protection_groups@.filter(
                |g: ProtectionGroup| group_selected(g, opt_view(cluster_filter)),
            );
            &&& r.protection_groups@.len() == selected.len()
            &&& forall|i: int|
                0 <= i < selected.len() ==> describes_group(#[trigger] r.protection_groups@[i], selected[i])
        }),
{
    let ghost pred = |g: ProtectionGroup| group_selected(g, opt_view(cluster_filter));
    let mut out: Vec<ProtectionGroupInfo> = Vec::new();
    let mut i: usize = 0;
    while i < config.protection_groups.len()
        invariant
            i <= config.protection_groups@.len(),
            pred == (|g: ProtectionGroup| group_selected(g, opt_view(cluster_filter))),
            out@.len() == config.protection_groups@.take(i as int).filter(pred).len(),
            forall|j: int|
                0 <= j < out@.len() ==> describes_group(
                    #[trigger] out@[j],
                    config.protection_groups@.take(i as int).filter(pred)[j],
                ),
        decreases config.protection_groups@.len() - i,
    {
        proof {
            assert(config.protection_groups@.take(i + 1) =~= config.protection_groups@.take(
                i as int,
            ).push(config.protection_groups@[i as int]));
            config.protection_groups@.take(i as int).lemma_filter_push(
                config.protection_groups@[i as int],
                pred,
            );
        }
        let g = &config.protection_groups[i];
        let keep = match cluster_filter {
            Some(c) => str_eq(g.cluster_id.as_str(), c),
            None => true,
        };
        if keep {
            let role = match g.preferred_source_role {
                Some(r) => Some(r.name()),
                None => None,
            };
            out.push(
                ProtectionGroupInfo {
                    id: g.id.clone(),
                    name: copy_text(&g.name),
                    cluster_id: g.cluster_id.clone(),
                    databases: duplicate_strings(&g.databases),
                    preferred_source_role: role,
                    labels: copy_labels(&g.labels),
                },
            );
        }
        i = i + 1;
    }
    proof {
        assert(config.protection_groups@.take(config.protection_groups@.len() as int)
            =~= config.protection_groups@);
    }
    ProtectionGroupList { protection_groups: out }
}

// ---------------------------------------------------------------------------
// Tables
// ---------------------------------------------------------------------------

/// A validation error's line.
pub open spec fn error_line(e: ValidationErrorInfo) -> Seq<char> {
    if e.path@.len() == 0 {
        "  - ["@ + e.code@ + "] "@ + e.message@ + "\n"@
    } else {
        "  - "@ + e.path@ + " ["@ + e.code@ + "]: "@ + e.message@ + "\n"@
    }
}

/// A validation result as text.
pub open spec fn validation_table(r: ValidationResult) -> Seq<char> {
    (if r.valid {
        "✓ Cluster configuration is valid\n\n"@
    } else {
        "✗ Cluster configuration has errors\n\n"@ + "Errors:\n"@ + concat_all(
            r.errors@.map_values(|e: ValidationErrorInfo| error_line(e)),
        ) + "\n"@
    }) + "Summary:\n"@ + "  Clusters:          "@ + decimal(r.summary.clusters as nat) + "\n"@
        + "  Nodes:             "@ + decimal(r.summary.nodes as nat) + "\n"@
        + "  Protection Groups: "@ + decimal(r.summary.protection_groups as nat) + "\n"@
}

/// A validation error's line.
fn error_line_text(e: &ValidationErrorInfo) -> (r: String)
    ensures
        r@ == error_line(*e),
{
    let mut out = String::new();
    if e.path.as_str().unicode_len() == 0 {
        push_str(&mut out, "  - [");
        push_str(&mut out, e.code.as_str());
        push_str(&mut out, "] ");
        push_str(&mut out, e.message.as_str());
        push_str(&mut out, "\n");
    } else {
        push_str(&mut out, "  - ");
        push_str(&mut out, e.path.as_str());
        push_str(&mut out, " [");
        push_str(&mut out, e.code.as_str());
        push_str(&mut out, "]: ");
        push_str(&mut out, e.message.as_str());
        push_str(&mut out, "\n");
    }
    out
}

/// A validation result as a table of text.
pub fn format_validation_result_table(result: &ValidationResult) -> (r: String)
    ensures
        r@ == validation_table(*result),
{
    let mut out = String::new();
    if result.valid {
        push_str(&mut out, "✓ Cluster configuration is valid\n\n");
    } else {
        push_str(&mut out, "✗ Cluster configuration has errors\n\n");
        push_str(&mut out, "Errors:\n");
        let ghost start = out@;
        let ghost lines = result.errors@.map_values(|e: ValidationErrorInfo| error_line(e));
        let mut i: usize = 0;
        while i < result.errors.len()
            invariant
                i <= result.errors@.len(),
                lines == result.errors@.map_values(|e: ValidationErrorInfo| error_line(e)),
                out@ == start + concat_all(lines.take(i as int)),
            decreases result.errors@.len() - i,
        {
            let line = error_line_text(&result.errors[i]);
            push_str(&mut out, line.as_str());
            proof {
                assert(lines.take(i + 1) =~= lines.take(i as int).push(lines[i as int]));
                lemma_concat_all_push(lines.take(i as int), lines[i as int]);
            }
            i = i + 1;
        }
        proof {
            assert(lines.take(lines.len() as int) =~= lines);
        }
        push_str(&mut out, "\n");
    }
    let ghost head = out@;
    push_str(&mut out, "Summary:\n");
    push_str(&mut out, "  Clusters:          ");
    let c = decimal_u64(result.summary.clusters as u64);
    push_str(&mut out, c.as_str());
    push_str(&mut out, "\n");
    push_str(&mut out, "  Nodes:             ");
    let n = decimal_u64(result.summary.nodes as u64);
    push_str(&mut out, n.as_str());
    push_str(&mut out, "\n");
    push_str(&mut out, "  Protection Groups: ");
    let g = decimal_u64(result.summary.protection_groups as u64);
    push_str(&mut out, g.as_str());
    push_str(&mut out, "\n");
    out
}

/// The text of an optional value, `-` when it is absent.
pub open spec fn or_dash(o: Option<String>) -> Seq<char> {
    match o {
        Some(s) => s@,
        None => "-"@,
    }
}

/// The text of an optional value, `-` when it is absent.
fn or_dash_text(o: &Option<String>) -> (r: String)
    ensures
        r@ == or_dash(*o),
{
    match o {
        Some(s) => s.clone(),
        None => owned("-"),
    }
}

/// The column widths of the cluster overview.
pub open spec fn overview_widths() -> Seq<usize> {
    seq![20usize, 25, 15, 8, 10, 8, 6]
}

/// A cluster's row of the overview.
pub open spec fn cluster_row(c: ClusterInfo) -> Seq<char> {
    table_row(
        seq![
            c.id@,
            or_dash(c.name),
            or_dash(c.environment),
            decimal(c.node_count as nat),
            decimal(c.primary_count as nat),
            decimal(c.replica_count as nat),
            decimal(c.protection_group_count as nat),
        ],
        overview_widths(),
    )
}

/// The cluster overview as text.
pub open spec fn overview_table(o: ClusterOverview) -> Seq<char> {
    if o.clusters@.len() == 0 {
        "No clusters defined in configuration.\n"@
    } else {
        "Clusters:\n"@ + table_row(
            seq!["ID"@, "NAME"@, "ENVIRONMENT"@, "NODES"@, "PRIMARIES"@, "REPLICAS"@, "PGs"@],
            overview_widths(),
        ) + repeat_char('-', 100) + "\n"@ + concat_all(
            o.clusters@.map_values(|c: ClusterInfo| cluster_row(c)),
        )
    }
}

/// A vector of column widths.
fn widths_of(ws: &[usize]) -> (r: Vec<usize>)
    ensures
        r@ == ws@,
{
    let mut v: Vec<usize> = Vec::new();
    let mut i: usize = 0;
    while i < ws.len()
        invariant
            i <= ws@.len(),
            v@ == ws@.take(i as int),
        decreases ws@.len() - i,
    {
        v.push(ws[i]);
        proof {
            assert(v@ =~= ws@.take(i + 1));
        }
        i = i + 1;
    }
    proof {
        assert(ws@.take(ws@.len() as int) =~= ws@);
    }
    v
}

/// A cluster's row of the overview.
fn cluster_row_text(c: &ClusterInfo) -> (r: String)
    ensures
        r@ == cluster_row(*c),
{
    let mut cells: Vec<String> = Vec::new();
    cells.push(c.id.clone());
    cells.push(or_dash_text(&c.name));
    cells.push(or_dash_text(&c.environment));
    cells.push(decimal_u64(c.node_count as u64));
    cells.push(decimal_u64(c.primary_count as u64));
    cells.push(decimal_u64(c.replica_count as u64));
    cells.push(decimal_u64(c.protection_group_count as u64));
    let widths = widths_of(&[20, 25, 15, 8, 10, 8, 6]);
    let mut out = String::new();
    proof {
        assert(widths@ =~= overview_widths());
    }
    push_table_row(&mut out, &cells, &widths);
    proof {
        assert(texts(cells@) =~= seq![
            c.id@,
            or_dash(c.name),
            or_dash(c.environment),
            decimal(c.node_count as nat),
            decimal(c.primary_count as nat),
            decimal(c.replica_count as nat),
            decimal(c.protection_group_count as nat),
        ]);
        assert(out@ =~= cluster_row(*c));
    }
    out
}

/// The texts of a list of literals.
pub open spec fn strs(cells: Seq<&str>) -> Seq<Seq<char>> {
    cells.map_values(|c: &str| c@)
}

/// Appends a heading row made of literal cells.
fn push_heading(out: &mut String, cells: &[&str], widths: &[usize])
    requires
        cells@.len() == widths@.len(),
    ensures
        final(out)@ == old(out)@ + table_row(strs(cells@), widths@),
{
    let mut v: Vec<String> = Vec::new();
    let mut i: usize = 0;
    while i < cells.len()
        invariant
            i <= cells@.len(),
            texts(v@) == strs(cells@.take(i as int)),
        decreases cells@.len() - i,
    {
        let cell = owned(cells[i]);
        let ghost before = v@;
        v.push(cell);
        proof {
            assert(texts(v@) =~= texts(before).push(cell@));
            assert(strs(cells@.take(i + 1)) =~= strs(cells@.take(i as int)).push(cells@[i as int]@));
        }
        i = i + 1;
    }
    proof {
        assert(cells@.take(cells@.len() as int) =~= cells@);
    }
    let w = widths_of(widths);
    push_table_row(out, &v, &w);
}

/// The cluster overview as a table of text.
pub fn format_cluster_overview_table(overview: &ClusterOverview) -> (r: String)
    ensures
        r@ == overview_table(*overview),
{
    if overview.clusters.len() == 0 {
        return owned("No clusters defined in configuration.\n");
    }
    let mut out = owned("Clusters:\n");
    let ghost h0 = out@;
    push_heading(
        &mut out,
        &["ID", "NAME", "ENVIRONMENT", "NODES", "PRIMARIES", "REPLICAS", "PGs"],
        &[20, 25, 15, 8, 10, 8, 6],
    );
    proof {
        reveal_strlit("ID");
        assert(strs(["ID", "NAME", "ENVIRONMENT", "NODES", "PRIMARIES", "REPLICAS", "PGs"]@)
            =~= seq!["ID"@, "NAME"@, "ENVIRONMENT"@, "NODES"@, "PRIMARIES"@, "REPLICAS"@, "PGs"@]);
        assert([20usize, 25, 15, 8, 10, 8, 6]@ =~= overview_widths());
    }
    push_repeat(&mut out, '-', 100);
    push_str(&mut out, "\n");
    let ghost start = out@;
    let ghost lines = overview.clusters@.map_values(|c: ClusterInfo| cluster_row(c));
    let mut i: usize = 0;
    while i < overview.clusters.len()
        invariant
            i <= overview.clusters@.len(),
            lines == overview.clusters@.map_values(|c: ClusterInfo| cluster_row(c)),
            out@ == start + concat_all(lines.take(i as int)),
        decreases overview.clusters@.len() - i,
    {
        let line = cluster_row_text(&overview.clusters[i]);
        push_str(&mut out, line.as_str());
        proof {
            assert(lines.take(i + 1) =~= lines.take(i as int).push(lines[i as int]));
            lemma_concat_all_push(lines.take(i as int), lines[i as int]);
        }
        i = i + 1;
    }
    proof {
        assert(lines.take(lines.len() as int) =~= lines);
    }
    out
}

/// `✓` for yes, `-` for no.
pub open spec fn check_mark(b: bool) -> Seq<char> {
    if b {
        "✓"@
    } else {
        "-"@
    }
}

/// The column widths of the node list.
pub open spec fn node_widths() -> Seq<usize> {
    seq![20usize, 20, 30, 8, 10, 5, 5]
}

/// A node's row of the node list.
pub open spec fn node_row(n: NodeInfo) -> Seq<char> {
    table_row(
        seq![
            n.id@,
            n.cluster_id@,
            n.host@,
            decimal(n.port as nat),
            n.role@,
            check_mark(n.has_ssh),
            check_mark(n.has_connection_config),
        ],
        node_widths(),
    )
}

/// The node list as text.
pub open spec fn node_table(l: NodeList) -> Seq<char> {
    if l.nodes@.len() == 0 {
        "No nodes found matching the filter criteria.\n"@
    } else {
        "Nodes:\n"@ + table_row(
            seq!["ID"@, "CLUSTER"@, "HOST"@, "PORT"@, "ROLE"@, "SSH"@, "CONN"@],
            node_widths(),
        ) + repeat_char('-', 100) + "\n"@ + concat_all(l.nodes@.map_values(|n: NodeInfo| node_row(n)))
            + "\nTotal: "@ + decimal(l.nodes@.len()) + " node(s)\n"@
    }
}

/// `✓` for yes, `-` for no.
fn check_mark_text(b: bool) -> (r: String)
    ensures
        r@ == check_mark(b),
{
    if b {
        owned("✓")
    } else {
        owned("-")
    }
}

/// A node's row of the node list.
fn node_row_text(n: &NodeInfo) -> (r: String)
    ensures
        r@ == node_row(*n),
{
    let mut cells: Vec<String> = Vec::new();
    cells.push(n.id.clone());
    cells.push(n.cluster_id.clone());
    cells.push(n.host.clone());
    cells.push(decimal_u64(n.port as u64));
    cells.push(n.role.clone());
    cells.push(check_mark_text(n.has_ssh));
    cells.push(check_mark_text(n.has_connection_config));
    let widths = widths_of(&[20, 20, 30, 8, 10, 5, 5]);
    let mut out = String::new();
    proof {
        assert(widths@ =~= node_widths());
    }
    push_table_row(&mut out, &cells, &widths);
    proof {
        assert(texts(cells@) =~= seq![
            n.id@,
            n.cluster_id@,
            n.host@,
            decimal(n.port as nat),
            n.role@,
            check_mark(n.has_ssh),
            check_mark(n.has_connection_config),
        ]);
        assert(out@ =~= node_row(*n));
    }
    out
}

/// The node list as a table of text.
pub fn format_node_list_table(list: &NodeList) -> (r: String)
    ensures
        r@ == node_table(*list),
{
    if list.nodes.len() == 0 {
        return owned("No nodes found matching the filter criteria.\n");
    }
    let mut out = owned("Nodes:\n");
    push_heading(
        &mut out,
        &["ID", "CLUSTER", "HOST", "PORT", "ROLE", "SSH", "CONN"],
        &[20, 20, 30, 8, 10, 5, 5],
    );
    proof {
        assert(strs(["ID", "CLUSTER", "HOST", "PORT", "ROLE", "SSH", "CONN"]@) =~= seq![
            "ID"@,
            "CLUSTER"@,
            "HOST"@,
            "PORT"@,
            "ROLE"@,
            "SSH"@,
            "CONN"@,
        ]);
        assert([20usize, 20, 30, 8, 10, 5, 5]@ =~= node_widths());
    }
    push_repeat(&mut out, '-', 100);
    push_str(&mut out, "\n");
    let ghost start = out@;
    let ghost lines = list.nodes@.map_values(|n: NodeInfo| node_row(n));
    let mut i: usize = 0;
    while i < list.nodes.len()
        invariant
            i <= list.nodes@.len(),
            lines == list.nodes@.map_values(|n: NodeInfo| node_row(n)),
            out@ == start + concat_all(lines.take(i as int)),
        decreases list.nodes@.len() - i,
    {
        let line = node_row_text(&list.nodes[i]);
        push_str(&mut out, line.as_str());
        proof {
            assert(lines.take(i + 1) =~= lines.take(i as int).push(lines[i as int]));
            lemma_concat_all_push(lines.take(i as int), lines[i as int]);
        }
        i = i + 1;
    }
    proof {
        assert(lines.take(lines.len() as int) =~= lines);
    }
    push_str(&mut out, "\nTotal: ");
    let n = decimal_u64(list.nodes.len() as u64);
    push_str(&mut out, n.as_str());
    push_str(&mut out, " node(s)\n");
    out
}

/// A protection group's databases as listed: all of them when there are
/// at most three, else the first three and how many more there are.
pub open spec fn databases_cell(dbs: Seq<String>) -> Seq<char> {
    if dbs.len() > 3 {
        join_with(texts(dbs.take(3)), ", "@) + ", ... (+"@ + decimal((dbs.len() - 3) as nat) + ")"@
    } else {
        join_with(texts(dbs), ", "@)
    }
}

/// The column widths of the protection group list.
pub open spec fn group_widths() -> Seq<usize> {
    seq![20usize, 25, 20, 15, 30]
}

/// A protection group's row.
pub open spec fn group_row(g: ProtectionGroupInfo) -> Seq<char> {
    table_row(
        seq![
            g.id@,
            or_dash(g.name),
            g.cluster_id@,
            match g.preferred_source_role {
                Some(r) => r@,
                None => "any"@,
            },
            databases_cell(g.databases@),
        ],
        group_widths(),
    )
}

/// The protection group list as text.
pub open spec fn group_table(l: ProtectionGroupList) -> Seq<char> {
    if l.protection_groups@.len() == 0 {
        "No protection groups found matching the filter criteria.\n"@
    } else {
        "Protection Groups:\n"@ + table_row(
            seq!["ID"@, "NAME"@, "CLUSTER"@, "PREF. ROLE"@, "DATABASES"@],
            group_widths(),
        ) + repeat_char('-', 115) + "\n"@ + concat_all(
            l.protection_groups@.map_values(|g: ProtectionGroupInfo| group_row(g)),
        ) + "\nTotal: "@ + decimal(l.protection_groups@.len()) + " protection group(s)\n"@
    }
}

/// A protection group's databases as listed.
fn databases_cell_text(dbs: &Vec<String>) -> (r: String)
    ensures
        r@ == databases_cell(dbs@),
{
    if dbs.len() > 3 {
        let mut first: Vec<String> = Vec::new();
        first.push(dbs[0].clone());
        first.push(dbs[1].clone());
        first.push(dbs[2].clone());
        proof {
            assert(first@ =~= dbs@.take(3));
        }
        let mut out = join_strings(&first, ", ");
        push_str(&mut out, ", ... (+");
        let more = decimal_u64((dbs.len() - 3) as u64);
        push_str(&mut out, more.as_str());
        push_str(&mut out, ")");
        out
    } else {
        join_strings(dbs, ", ")
    }
}

/// A protection group's row.
fn group_row_text(g: &ProtectionGroupInfo) -> (r: String)
    ensures
        r@ == group_row(*g),
{
    let mut cells: Vec<String> = Vec::new();
    cells.push(g.id.clone());
    cells.push(or_dash_text(&g.name));
    cells.push(g.cluster_id.clone());
    cells.push(
        match &g.preferred_source_role {
            Some(r) => r.clone(),
            None => owned("any"),
        },
    );
    cells.push(databases_cell_text(&g.databases));
    let widths = widths_of(&[20, 25, 20, 15, 30]);
    let mut out = String::new();
    proof {
        assert(widths@ =~= group_widths());
    }
    push_table_row(&mut out, &cells, &widths);
    proof {
        assert(texts(cells@) =~= seq![
            g.id@,
            or_dash(g.name),
            g.cluster_id@,
            match g.preferred_source_role {
                Some(r) => r@,
                None => "any"@,
            },
            databases_cell(g.databases@),
        ]);
        assert(out@ =~= group_row(*g));
    }
    out
}

/// The protection group list as a table of text.
pub fn format_protection_group_list_table(list: &ProtectionGroupList) -> (r: String)
    ensures
        r@ == group_table(*list),
{
    if list.protection_groups.len() == 0 {
        return owned("No protection groups found matching the filter criteria.\n");
    }
    let mut out = owned("Protection Groups:\n");
    push_heading(&mut out, &["ID", "NAME", "CLUSTER", "PREF. ROLE", "DATABASES"], &[20, 25, 20, 15, 30]);
    proof {
        assert(strs(["ID", "NAME", "CLUSTER", "PREF. ROLE", "DATABASES"]@) =~= seq![
            "ID"@,
            "NAME"@,
            "CLUSTER"@,
            "PREF. ROLE"@,
            "DATABASES"@,
        ]);
        assert([20usize, 25, 20, 15, 30]@ =~= group_widths());
    }
    push_repeat(&mut out, '-', 115);
    push_str(&mut out, "\n");
    let ghost start = out@;
    let ghost lines = list.protection_groups@.map_values(|g: ProtectionGroupInfo| group_row(g));
    let mut i: usize = 0;
    while i < list.protection_groups.len()
        invariant
            i <= list.protection_groups@.len(),
            lines == list.protection_groups@.map_values(|g: ProtectionGroupInfo| group_row(g)),
            out@ == start + concat_all(lines.take(i as int)),
        decreases list.protection_groups@.len() - i,
    {
        let line = group_row_text(&list.protection_groups[i]);
        push_str(&mut out, line.as_str());
        proof {
            assert(lines.take(i + 1) =~= lines.take(i as int).push(lines[i as int]));
            lemma_concat_all_push(lines.take(i as int), lines[i as int]);
        }
        i = i + 1;
    }
    proof {
        assert(lines.take(lines.len() as int) =~= lines);
    }
    push_str(&mut out, "\nTotal: ");
    let n = decimal_u64(list.protection_groups.len() as u64);
    push_str(&mut out, n.as_str());
    push_str(&mut out, " protection group(s)\n");
    out
}

} // verus!
