use postgres::cli::commands::migration::{
    format_generated_config_text, format_import_result_text, generate_cluster_file,
    generate_retention_file, generate_schedule_file, DatabaseInfo, DiscoveryResult,
    GenerateConfigOptions, GeneratedConfig, ImportResult, ReplicationInfo, SshOptions,
};
use postgres::cli::commands::schedule::BackupTarget;
use postgres::cluster::{Label, NodeRole};

fn db(name: &str, size: u64, template: bool, connect: bool) -> DatabaseInfo {
    DatabaseInfo {
        name: name.to_string(),
        size_bytes: size,
        owner: "postgres".to_string(),
        encoding: "UTF8".to_string(),
        table_count: None,
        is_template: template,
        allow_connections: connect,
    }
}

fn discovery(role: &str, databases: Vec<DatabaseInfo>) -> DiscoveryResult {
    DiscoveryResult {
        version: "PostgreSQL 16.2 on x86_64-pc-linux-gnu".to_string(),
        host: "db.example.com".to_string(),
        port: 5433,
        databases,
        replication: ReplicationInfo {
            role: role.to_string(),
            wal_archiving_enabled: false,
            archive_command: None,
            replicas: Vec::new(),
            primary_conninfo: None,
            current_wal_lsn: None,
            replication_lag_bytes: None,
        },
        backup_config: None,
        recommendations: Vec::new(),
        discovered_at: 0,
    }
}

fn options(ssh_host: Option<&str>) -> GenerateConfigOptions {
    GenerateConfigOptions {
        host: "db.example.com".to_string(),
        port: 5433,
        user: "admin".to_string(),
        password: None,
        ssl_mode: Some("require".to_string()),
        cluster_name: None,
        tenant: Some("acme".to_string()),
        output_path: None,
        interactive: false,
        ssh: SshOptions {
            host: ssh_host.map(|h| h.to_string()),
            user: Some("ops".to_string()),
            port: None,
            password: None,
            key_path: None,
            local_port: None,
            remote_port: None,
        },
    }
}

fn pairs(v: &[Label]) -> Vec<(String, String)> {
    v.iter().map(|l| (l.key.clone(), l.value.clone())).collect()
}

const GIB: u64 = 1024 * 1024 * 1024;

#[test]
fn generated_cluster_file_describes_the_discovered_primary() {
    let d = discovery(
        "primary",
        vec![
            db("postgres", 10, false, true),
            db("template1", 10, true, true),
            db("app", 100, false, true),
            db("archive", 100, false, false),
        ],
    );
    let f = generate_cluster_file(&d, "My Cluster", &options(Some("bastion")));
    assert_eq!(f.version, "1");
    assert_eq!(f.default_tenant.as_deref(), Some("acme"));
    let c = &f.config.clusters[0];
    assert_eq!(c.id, "my-cluster");
    assert_eq!(c.name.as_deref(), Some("My Cluster"));
    assert_eq!(c.environment.as_deref(), Some("production"));
    assert_eq!(
        pairs(&c.labels),
        vec![
            ("discovered".to_string(), "true".to_string()),
            ("pg_version".to_string(), "16.2".to_string())
        ]
    );
    let n = &f.config.nodes[0];
    assert_eq!(n.id, "my-cluster-node");
    assert_eq!(n.cluster_id, "my-cluster");
    assert_eq!(n.host, "db.example.com");
    assert_eq!(n.port, 5433);
    assert_eq!(n.role, NodeRole::Primary);
    assert!(n.has_ssh && n.has_connection);
    let g = &f.config.protection_groups[0];
    assert_eq!(f.config.protection_groups.len(), 1);
    assert_eq!(g.id, "my-cluster-databases");
    assert_eq!(g.name.as_deref(), Some("My Cluster Databases"));
    assert_eq!(g.databases, vec!["app".to_string()]);
    assert_eq!(g.preferred_source_role, Some(NodeRole::Replica));
    assert_eq!(pairs(&g.labels), vec![("backup_priority".to_string(), "high".to_string())]);
    assert_eq!(f.connection.user, "admin");
    assert_eq!(f.connection.database, "postgres");
    assert_eq!(f.connection.ssl_mode.as_deref(), Some("require"));
    let ssh = f.ssh.expect("an SSH block");
    assert_eq!(ssh.host, "bastion");
    assert_eq!(ssh.user.as_deref(), Some("ops"));
    assert_eq!(ssh.port, 22);
    assert_eq!(ssh.key_path, "/etc/warden/ssh/key");
}

#[test]
fn generated_cluster_file_without_user_databases_has_no_group() {
    let d = discovery("cascading_replica", vec![db("postgres", 10, false, true)]);
    let f = generate_cluster_file(&d, "edge", &options(None));
    assert!(f.config.protection_groups.is_empty());
    assert_eq!(f.config.nodes[0].role, NodeRole::Replica);
    assert!(!f.config.nodes[0].has_ssh);
    assert!(f.ssh.is_none());
}

#[test]
fn generated_groups_prefer_the_primary_for_a_replica() {
    let d = discovery("replica", vec![db("app", 1, false, true)]);
    let f = generate_cluster_file(&d, "edge", &options(None));
    assert_eq!(f.config.protection_groups[0].preferred_source_role, Some(NodeRole::Primary));
}

#[test]
fn generated_schedule_for_small_databases_runs_twice_a_day() {
    let d = discovery("primary", vec![db("app", GIB, false, true)]);
    let s = generate_schedule_file(&d, "My Cluster");
    let b = &s.backups[0];
    assert_eq!(b.id, "my-cluster-daily");
    assert_eq!(b.name.as_deref(), Some("My Cluster Daily Backup"));
    assert_eq!(b.cron, "0 2,14 * * *");
    assert_eq!(b.backup_type, "snapshot");
    assert_eq!(b.storage_profile.as_deref(), Some("default-s3"));
    assert!(b.enabled);
    assert_eq!(
        pairs(&b.labels),
        vec![
            ("cluster".to_string(), "my-cluster".to_string()),
            ("type".to_string(), "scheduled".to_string())
        ]
    );
    match &b.target {
        BackupTarget::Database { host, port, database, user } => {
            assert_eq!(host, "db.example.com");
            assert_eq!(*port, Some(5433));
            assert_eq!(database, "postgres");
            assert_eq!(user.as_deref(), Some("postgres"));
        }
        _ => panic!("expected a database target"),
    }
    let r = &s.retention[0];
    assert_eq!(r.id, "my-cluster-retention");
    assert_eq!(r.name.as_deref(), Some("My Cluster Retention Cleanup"));
    assert_eq!(r.cron, "0 4 * * *");
    assert_eq!(r.policy_file.as_deref(), Some("./retention-policy.json"));
    assert!(r.enabled && !r.apply);
    let p = &s.storage_profiles[0];
    assert_eq!(p.name, "default-s3");
    assert_eq!(p.bucket, "warden-backups");
    assert_eq!(p.prefix.as_deref(), Some("my-cluster/"));
    assert_eq!(p.region.as_deref(), Some("us-east-1"));
    assert_eq!(p.access_key.as_deref(), Some("env:AWS_ACCESS_KEY_ID"));
    assert_eq!(p.secret_key.as_deref(), Some("env:AWS_SECRET_ACCESS_KEY"));
    assert_eq!(s.default_backup_dir.as_deref(), Some("./backups"));
}

#[test]
fn generated_schedule_cadence_follows_size() {
    let medium = discovery("primary", vec![db("app", 11 * GIB, false, true)]);
    let s = generate_schedule_file(&medium, "c");
    assert_eq!(s.backups[0].cron, "0 2 * * *");
    assert_eq!(s.retention[0].cron, "0 4 * * *");
    let large = discovery("primary", vec![db("app", 101 * GIB, false, true)]);
    let s = generate_schedule_file(&large, "c");
    assert_eq!(s.backups[0].cron, "0 2 * * 0");
    assert_eq!(s.retention[0].cron, "0 4 * * 0");
    // Databases that refuse connections do not count.
    let refused = discovery("primary", vec![db("app", 101 * GIB, false, false)]);
    assert_eq!(generate_schedule_file(&refused, "c").backups[0].cron, "0 2,14 * * *");
}

#[test]
fn generated_retention_policy_for_small_databases() {
    let d = discovery("primary", vec![db("app", GIB / 2, false, true)]);
    let p = generate_retention_file(&d);
    assert_eq!(p.version, "1");
    assert_eq!(p.description, "Retention policy generated from discovery (total size: 0.50 GB)");
    let counts: Vec<u32> = p.rules.iter().map(|r| r.keep_count).collect();
    assert_eq!(counts, vec![30, 12, 12]);
    assert_eq!(p.rules[0].name, "daily");
    assert!(p.rules[0].labels.is_empty());
    assert_eq!(p.rules[0].description, "Keep last 30 daily backups");
    assert_eq!(p.rules[1].description, "Keep last 12 weekly backups");
    assert_eq!(pairs(&p.rules[1].labels), vec![("weekly".to_string(), "true".to_string())]);
    assert_eq!(pairs(&p.rules[2].labels), vec![("monthly".to_string(), "true".to_string())]);
    assert_eq!(p.rules[2].backup_types, vec!["snapshot".to_string(), "full".to_string()]);
    assert!(p.rules[2].keep_days.is_none());
    assert_eq!(p.default_action, "delete");
    assert_eq!(p.pitr_retention_days, 7);
    assert_eq!(p.wal_retention_days, 7);
}

#[test]
fn generated_retention_counts_follow_size() {
    // Databases refusing connections count here.
    let d = discovery("primary", vec![db("app", 15 * GIB, false, false)]);
    let p = generate_retention_file(&d);
    assert_eq!(p.description, "Retention policy generated from discovery (total size: 15.00 GB)");
    let counts: Vec<u32> = p.rules.iter().map(|r| r.keep_count).collect();
    assert_eq!(counts, vec![14, 8, 6]);
    let d = discovery("primary", vec![db("a", 60 * GIB, false, true), db("b", 41 * GIB, false, true)]);
    let counts: Vec<u32> = generate_retention_file(&d).rules.iter().map(|r| r.keep_count).collect();
    assert_eq!(counts, vec![7, 4, 3]);
}

#[test]
fn generated_config_text_lists_the_three_files() {
    let c = GeneratedConfig {
        cluster_yaml: "a: 1".to_string(),
        schedule_config: "b: 2".to_string(),
        retention_policy: "{}".to_string(),
        output_path: Some("/tmp/out".to_string()),
    };
    assert_eq!(
        format_generated_config_text(&c),
        "\n=== Generated Cluster Configuration ===\n\na: 1\n\n=== Generated Schedule Configuration ===\n\nb: 2\n\n=== Generated Retention Policy ===\n\n{}\n\nConfiguration files written to: \"/tmp/out\"\n"
    );
    let c = GeneratedConfig { output_path: None, ..c };
    assert!(format_generated_config_text(&c).ends_with("=== Generated Retention Policy ===\n\n{}"));
}

#[test]
fn import_result_text_shows_the_import() {
    let r = ImportResult {
        backup_id: "imp-1".to_string(),
        local_path: "/backups/imp-1".to_string(),
        remote_path: Some("s3://b/imp-1".to_string()),
        database: "app".to_string(),
        backup_type: "snapshot".to_string(),
        size_bytes: 1572864,
        imported_at: 0,
        original_source: "/old/dump.sql".to_string(),
    };
    let text = format_import_result_text(&r);
    assert!(text.contains("│ Backup ID:       imp-1\n"));
    assert!(text.contains("│ Size:            1.50 MB\n"));
    assert!(text.contains("│ Local Path:      \"/backups/imp-1\"\n"));
    assert!(text.contains("│ Remote Path:     s3://b/imp-1\n"));
    assert!(text.contains("│ Imported At:     1970-01-01T00:00:00+00:00\n"));
    assert!(text.ends_with("Use: warden postgresql restore-full --backup-id imp-1\n"));
    let r = ImportResult { remote_path: None, ..r };
    assert!(!format_import_result_text(&r).contains("Remote Path"));
}
