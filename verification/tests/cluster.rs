use postgres::cli::commands::cluster::{
    cluster_nodes, cluster_protection_groups, cluster_show, cluster_validate,
    format_validation_result_table, ClusterConfigError, OutputFormat, ValidationErrorInfo,
    ValidationResult, ValidationSummary,
};
use postgres::cluster::{Cluster, ClusterConfig, Node, NodeRole, ProtectionGroup};

/// The configuration of the test YAML file: one cluster, a primary and a
/// replica, and one protection group.
fn test_config() -> ClusterConfig {
    ClusterConfig {
        clusters: vec![Cluster {
            id: "test-cluster".to_string(),
            name: Some("Test Cluster".to_string()),
            environment: Some("test".to_string()),
            labels: vec![],
        }],
        nodes: vec![
            Node {
                id: "node-1".to_string(),
                cluster_id: "test-cluster".to_string(),
                host: "localhost".to_string(),
                port: 5432,
                role: NodeRole::Primary,
                labels: vec![],
                has_ssh: false,
                has_connection: false,
            },
            Node {
                id: "node-2".to_string(),
                cluster_id: "test-cluster".to_string(),
                host: "localhost".to_string(),
                port: 5433,
                role: NodeRole::Replica,
                labels: vec![],
                has_ssh: false,
                has_connection: false,
            },
        ],
        protection_groups: vec![ProtectionGroup {
            id: "pg-1".to_string(),
            name: Some("Test PG".to_string()),
            cluster_id: "test-cluster".to_string(),
            databases: vec!["testdb".to_string()],
            preferred_source_role: Some(NodeRole::Replica),
            labels: vec![],
        }],
    }
}

#[test]
fn test_cluster_validate_valid_config() {
    let result = cluster_validate(Ok((test_config(), vec![]))).unwrap();
    assert!(result.valid);
    assert!(result.errors.is_empty());
    assert_eq!(result.summary.clusters, 1);
    assert_eq!(result.summary.nodes, 2);
    assert_eq!(result.summary.protection_groups, 1);
}

#[test]
fn test_cluster_validate_missing_file() {
    let result = cluster_validate(Err(ClusterConfigError::NotFound(vec![
        "/nonexistent/path.yaml".to_string(),
    ])))
    .unwrap();
    assert!(!result.valid);
    assert!(!result.errors.is_empty());
}

#[test]
fn test_cluster_show() {
    let overview = cluster_show(&test_config());
    assert_eq!(overview.clusters.len(), 1);
    assert_eq!(overview.clusters[0].id, "test-cluster");
    assert_eq!(overview.clusters[0].node_count, 2);
    assert_eq!(overview.clusters[0].primary_count, 1);
    assert_eq!(overview.clusters[0].replica_count, 1);
}

#[test]
fn test_cluster_nodes() {
    let list = cluster_nodes(&test_config(), None, None);
    assert_eq!(list.nodes.len(), 2);
}

#[test]
fn test_cluster_nodes_with_role_filter() {
    let list = cluster_nodes(&test_config(), None, Some("primary"));
    assert_eq!(list.nodes.len(), 1);
    assert_eq!(list.nodes[0].role, "primary");
}

#[test]
fn test_cluster_protection_groups() {
    let list = cluster_protection_groups(&test_config(), None);
    assert_eq!(list.protection_groups.len(), 1);
    assert_eq!(list.protection_groups[0].id, "pg-1");
}

#[test]
fn test_format_validation_result_table() {
    let result = ValidationResult {
        valid: true,
        errors: vec![],
        summary: ValidationSummary { clusters: 1, nodes: 2, protection_groups: 1 },
    };
    let output = format_validation_result_table(&result);
    assert!(output.contains("valid"));
    assert!(output.contains("Clusters:"));
}

#[test]
fn validation_problems_and_load_failures() {
    let problems = vec![ValidationErrorInfo {
        path: "nodes[0].port".to_string(),
        message: "port must not be 0".to_string(),
        code: "INVALID_PORT".to_string(),
    }];
    let result = cluster_validate(Ok((test_config(), problems))).unwrap();
    assert!(!result.valid);
    assert_eq!(result.errors.len(), 1);
    assert_eq!(result.errors[0].code, "INVALID_PORT");

    let missing = cluster_validate(Err(ClusterConfigError::NotFound(vec![
        "a.yaml".to_string(),
        "b.yaml".to_string(),
    ])))
    .unwrap();
    assert_eq!(
        missing.errors[0].message,
        "Cluster configuration file not found. Searched: a.yaml, b.yaml"
    );
    assert_eq!(missing.errors[0].code, "FILE_NOT_FOUND");
    assert_eq!(missing.summary.nodes, 0);

    let parse = cluster_validate(Err(ClusterConfigError::Parse("bad indent".to_string()))).unwrap();
    assert_eq!(parse.errors[0].message, "Failed to parse YAML: bad indent");
    assert_eq!(parse.errors[0].code, "PARSE_ERROR");

    let other = cluster_validate(Err(ClusterConfigError::Other("boom".to_string())));
    assert_eq!(other.unwrap_err(), "Failed to load cluster config: boom");
}

#[test]
fn cluster_filters() {
    let config = test_config();
    assert_eq!(cluster_nodes(&config, Some("other"), None).nodes.len(), 0);
    let replicas = cluster_nodes(&config, Some("test-cluster"), Some("REPLICA"));
    assert_eq!(replicas.nodes.len(), 1);
    assert_eq!(replicas.nodes[0].id, "node-2");
    assert_eq!(cluster_protection_groups(&config, Some("other")).protection_groups.len(), 0);
    let groups = cluster_protection_groups(&config, Some("test-cluster"));
    assert_eq!(groups.protection_groups[0].preferred_source_role, Some("replica".to_string()));
}

#[test]
fn output_format_parse() {
    assert!(matches!(OutputFormat::parse("JSON"), OutputFormat::Json));
    assert!(matches!(OutputFormat::parse("yaml"), OutputFormat::Table));
}
