use chrono::{TimeZone, Utc};
use postgres::cli::commands::full_restore::{restore_mode_for, RestoreMode};
use postgres::cli::commands::migration::{
    format_discovery_table, truncate_str, DatabaseInfo, DiscoveryResult, ImportBackupType, ReplicaInfo,
    ReplicationInfo,
};
use postgres::cli::commands::{
    backup_s3_key_on,
    check_storage_options, create_local_metadata, find_backup_directory, find_dump_file,
    generate_backup_s3_key, is_dump_file_name, no_dump_file, DumpChoice, SnapshotBackupResult,
    SshOptions, StorageOptions, snapshot_outcome, snapshot_tunnel_verdict, tunnel_verdict,
};
use postgres::cluster::Label;
use postgres::units::format_size;
use postgres::timestamps::UtcTime;

fn utc_time(d: chrono::DateTime<Utc>) -> UtcTime {
    UtcTime { secs: d.timestamp(), nanos: d.timestamp_subsec_nanos() }
}

fn millis(y: i32, mo: u32, d: u32, h: u32, mi: u32, s: u32) -> i64 {
    Utc.with_ymd_and_hms(y, mo, d, h, mi, s).unwrap().timestamp_millis()
}

#[test]
fn test_restore_mode_from_target_database() {
    // Same database = Replace mode
    let mode = restore_mode_for("mydb", Some("mydb".to_string()));
    assert_eq!(mode, RestoreMode::Replace);

    // Different database = NewDatabase mode
    let mode = restore_mode_for("mydb", Some("newdb".to_string()));
    assert!(matches!(mode, RestoreMode::NewDatabase { target_name } if target_name == "newdb"));
}

#[test]
fn test_import_backup_type_from_str() {
    assert_eq!("pg_dump".parse::<ImportBackupType>().unwrap(), ImportBackupType::PgDump);
    assert_eq!("pgdump".parse::<ImportBackupType>().unwrap(), ImportBackupType::PgDump);
    assert_eq!(
        "pg_basebackup".parse::<ImportBackupType>().unwrap(),
        ImportBackupType::PgBasebackup
    );
    assert_eq!("custom".parse::<ImportBackupType>().unwrap(), ImportBackupType::Custom);
    assert!("invalid".parse::<ImportBackupType>().is_err());
}

#[test]
fn migration_test_format_size() {
    assert_eq!(format_size(500), "500 B");
    assert_eq!(format_size(1024), "1.00 KB");
    assert_eq!(format_size(1024 * 1024), "1.00 MB");
    assert_eq!(format_size(1024 * 1024 * 1024), "1.00 GB");
    assert_eq!(format_size(1024 * 1024 * 1024 * 1024), "1.00 TB");
}

#[test]
fn test_truncate_str() {
    assert_eq!(truncate_str("short", 10), "short");
    assert_eq!(truncate_str("this is a long string", 10), "this is...");
}

#[test]
fn test_truncate_str_utf8_edge_cases() {
    // Test with multi-byte UTF-8 characters (emoji and special chars)
    assert_eq!(truncate_str("Hello 世界", 20), "Hello 世界");
    assert_eq!(truncate_str("Hello 世界 🦀", 8), "Hello...");
    // "Café ☕" with max_len=6 should safely truncate at character boundary
    let result = truncate_str("Café ☕", 6);
    assert!(result.ends_with("..."));
    // Test truncation at exact multi-byte character boundary
    let result2 = truncate_str("Test™™™™™™™™™", 10);
    assert!(result2.ends_with("..."));
}

#[test]
fn truncate_str_exact_cuts() {
    assert_eq!(truncate_str("Café ☕", 6), "Caf...");
    assert_eq!(truncate_str("Test™™™™™™™™™", 10), "Test™...");
    assert_eq!(truncate_str("abcdef", 6), "abcdef");
    assert_eq!(truncate_str("abcdefg", 6), "abc...");
    assert_eq!(truncate_str("abcd", 3), "...");
}

#[test]
fn import_backup_type_error_message() {
    assert_eq!(
        "tarball".parse::<ImportBackupType>().unwrap_err(),
        "Unknown backup type: tarball. Valid types: pg_dump, pg_basebackup, custom"
    );
}

#[test]
fn test_generate_backup_s3_key_with_prefix() {
    let timestamp = millis(2025, 12, 6, 14, 30, 0);
    let key = generate_backup_s3_key(Some("postgres/prod"), "mydb", "abc123-uuid", timestamp);
    assert_eq!(key, "postgres/prod/mydb/2025-12-06/abc123-uuid");
}

#[test]
fn test_generate_backup_s3_key_without_prefix() {
    let timestamp = millis(2025, 1, 15, 8, 0, 0);
    let key = generate_backup_s3_key(None, "testdb", "backup-id-456", timestamp);
    assert_eq!(key, "testdb/2025-01-15/backup-id-456");
}

#[test]
fn test_generate_backup_s3_key_with_trailing_slash_prefix() {
    let timestamp = millis(2025, 6, 1, 12, 0, 0);
    let key = generate_backup_s3_key(Some("backups/"), "database", "id-789", timestamp);
    assert_eq!(key, "backups/database/2025-06-01/id-789");
}

#[test]
fn test_generate_backup_s3_key_empty_prefix() {
    let timestamp = millis(2025, 3, 20, 0, 0, 0);
    let key = generate_backup_s3_key(Some(""), "db", "backup", timestamp);
    assert_eq!(key, "db/2025-03-20/backup");
}

#[test]
fn generate_backup_s3_key_many_slashes() {
    let timestamp = millis(2024, 2, 29, 23, 59, 59);
    let key = generate_backup_s3_key(Some("a//"), "db", "x", timestamp);
    assert_eq!(key, "a/db/2024-02-29/x");
}

#[test]
fn test_create_local_metadata_structure() {
    let labels = vec![
        Label { key: "env".to_string(), value: "prod".to_string() },
        Label { key: "cluster".to_string(), value: "primary".to_string() },
    ];

    let start = utc_time(Utc.with_ymd_and_hms(2025, 12, 6, 10, 0, 0).unwrap());
    let end = utc_time(Utc.with_ymd_and_hms(2025, 12, 6, 10, 5, 30).unwrap());

    let metadata = create_local_metadata(
        "test-backup-id",
        "mydb",
        "db.example.com",
        5432,
        start,
        end,
        1024 * 1024 * 100, // 100 MB
        "15.2".to_string(),
        &labels,
    );

    assert_eq!(metadata.backup_id, "test-backup-id");
    assert_eq!(metadata.backup_type, "snapshot");
    assert_eq!(metadata.database, "mydb");
    assert_eq!(metadata.host, "db.example.com");
    assert_eq!(metadata.port, 5432);
    assert_eq!(metadata.size_bytes, 104857600);
    assert_eq!(metadata.server_version, "15.2");
    assert_eq!(metadata.duration_seconds, 330);
    assert_eq!(metadata.labels[0].key, "env");
    assert_eq!(metadata.labels[0].value, "prod");
    assert_eq!(metadata.labels[1].key, "cluster");
    assert_eq!(metadata.labels[1].value, "primary");
    assert_eq!(metadata.created_by, "warden");
    assert_eq!(metadata.version, "1.0");
    assert_eq!(metadata.start_time, "2025-12-06T10:00:00+00:00");
}

#[test]
fn test_find_backup_directory() {
    let dirs = vec![
        "snapshot_backup_2025-12-06T10-00-00".to_string(),
        "snapshot_backup_2025-12-06T11-00-00".to_string(),
        "full_backup_2025-12-05".to_string(),
        "other_dir".to_string(),
    ];

    // Should find the most recent snapshot backup
    let i = find_backup_directory(&dirs, "snapshot_backup_").unwrap();
    assert!(dirs[i].contains("2025-12-06T11-00-00"));

    // Should find full backup
    let i = find_backup_directory(&dirs, "full_backup_").unwrap();
    assert!(dirs[i].contains("full_backup_"));

    // Should fail for non-existent prefix
    let result = find_backup_directory(&dirs, "nonexistent_");
    assert!(result.is_err());
}

#[test]
fn test_find_dump_file_database_specific() {
    let entries = vec!["mydb.dump".to_string()];
    assert_eq!(find_dump_file(true, false, &entries), Some(DumpChoice::DatabaseDump));
}

#[test]
fn test_find_dump_file_generic() {
    let entries = vec!["pg_dump.dump".to_string()];
    assert_eq!(find_dump_file(false, true, &entries), Some(DumpChoice::GenericDump));
}

#[test]
fn test_find_dump_file_any_dump() {
    let entries = vec!["backup.dump".to_string()];
    let choice = find_dump_file(false, false, &entries);
    assert_eq!(choice, Some(DumpChoice::Listed(0)));
    assert!(entries[0].ends_with(".dump"));
}

#[test]
fn test_find_dump_file_not_found() {
    let entries = vec!["data.txt".to_string()];
    let result = find_dump_file(false, false, &entries);
    assert!(result.is_none());
    assert!(no_dump_file("/backups/x").contains("No dump file found"));
}

#[test]
fn dump_file_names() {
    assert!(is_dump_file_name("a.dump"));
    assert!(!is_dump_file_name(".dump"));
    assert!(!is_dump_file_name("a.dump.gz"));
    assert!(!is_dump_file_name("dump"));
    let entries = vec!["notes.txt".to_string(), "x.dump".to_string(), "y.dump".to_string()];
    assert_eq!(find_dump_file(false, false, &entries), Some(DumpChoice::Listed(1)));
}

#[test]
fn test_ssh_options_default() {
    let ssh = SshOptions::default();
    assert!(ssh.host.is_none());
    assert!(ssh.user.is_none());
    assert!(ssh.port.is_none());
    assert!(ssh.password.is_none());
    assert!(ssh.key_path.is_none());
    assert!(ssh.local_port.is_none());
    assert!(ssh.remote_port.is_none());
}

#[test]
fn test_storage_options_default() {
    let storage = StorageOptions::default();
    assert!(!storage.remote_storage);
    assert!(storage.provider_type.is_none());
    assert!(storage.bucket.is_none());
    assert!(storage.prefix.is_none());
    assert!(storage.region.is_none());
    assert!(storage.endpoint.is_none());
    assert!(storage.access_key.is_none());
    assert!(storage.secret_key.is_none());
}

#[test]
fn test_snapshot_backup_result_structure() {
    let now = utc_time(Utc::now());
    let result = SnapshotBackupResult {
        backup_id: "test-id".to_string(),
        local_path: "/backups/test".to_string(),
        remote_path: Some("s3://bucket/key".to_string()),
        database: "testdb".to_string(),
        start_time: now,
        end_time: now,
        size_bytes: 1024,
    };

    assert_eq!(result.backup_id, "test-id");
    assert_eq!(result.database, "testdb");
    assert!(result.remote_path.is_some());
}

#[test]
fn storage_option_checks() {
    let mut s = StorageOptions::default();
    assert_eq!(check_storage_options(&s), Ok(false));
    s.remote_storage = true;
    assert_eq!(
        check_storage_options(&s).unwrap_err(),
        "Storage bucket name is required for remote storage"
    );
    s.bucket = Some("b".to_string());
    assert_eq!(check_storage_options(&s), Ok(true));
    s.provider_type = Some("GCS".to_string());
    assert_eq!(check_storage_options(&s).unwrap_err(), "Unsupported storage provider type: GCS");
    s.provider_type = Some("S3".to_string());
    assert_eq!(check_storage_options(&s), Ok(true));
}

#[test]
fn backup_s3_key_from_date_text() {
    assert_eq!(backup_s3_key_on(Some("p///"), "db", "id", "2025-01-02"), "p/db/2025-01-02/id");
    assert_eq!(backup_s3_key_on(Some("/"), "db", "id", "d"), "/db/d/id");
    assert_eq!(backup_s3_key_on(None, "db", "id", "d"), "db/d/id");
}

#[test]
fn discovery_table_text() {
    let result = DiscoveryResult {
        version: "PostgreSQL 16.1 on x86_64".to_string(),
        host: "db".to_string(),
        port: 5432,
        databases: vec![DatabaseInfo {
            name: "a_rather_long_database_name".to_string(),
            size_bytes: 3 * 1024 * 1024,
            owner: "postgres".to_string(),
            encoding: "UTF8".to_string(),
            table_count: None,
            is_template: false,
            allow_connections: true,
        }],
        replication: ReplicationInfo {
            role: "primary".to_string(),
            wal_archiving_enabled: true,
            archive_command: None,
            replicas: vec![ReplicaInfo {
                application_name: "r1".to_string(),
                client_addr: None,
                state: "streaming".to_string(),
                sent_lsn: None,
                write_lsn: None,
                flush_lsn: None,
                replay_lsn: None,
            }],
            primary_conninfo: None,
            current_wal_lsn: Some("0/3000000".to_string()),
            replication_lag_bytes: Some(-5),
        },
        backup_config: None,
        recommendations: vec!["first".to_string(), "second".to_string()],
        discovered_at: 0,
    };
    let text = format_discovery_table(&result);
    assert!(text.starts_with("\n╔"));
    assert!(text.contains("│ Host:     db:5432\n│ Version:  PostgreSQL 16.1 on x86_64\n│ Role:     primary\n"));
    let header = format!("│ {:20} {:>12} {:15} {:10}\n", "Name", "Size", "Owner", "Template");
    assert!(text.contains(&header));
    let row = format!("│ {:20} {:>12} {:15} {:10}\n", "a_rather_long_dat...", "3.00 MB", "postgres", "No");
    assert!(text.contains(&row));
    assert!(text.contains("│ WAL Archiving:  Enabled\n│ Current LSN:    0/3000000\n│ Replicas:       1 connected\n│   - r1 (streaming) @ unknown\n│ Replication Lag: -5 bytes\n"));
    assert!(text.contains("│ 1. first\n│ 2. second\n└"));
    assert!(text.ends_with("┘\n"));
}

#[test]
fn local_metadata_keeps_nanoseconds() {
    let start = utc_time(Utc.with_ymd_and_hms(2025, 12, 6, 10, 0, 0).unwrap() + chrono::Duration::nanoseconds(123_456_789));
    let end = utc_time(Utc.with_ymd_and_hms(2025, 12, 6, 10, 0, 1).unwrap() + chrono::Duration::nanoseconds(123_456_788));
    let metadata = create_local_metadata("id", "db", "h", 1, start, end, 0, "16".to_string(), &Vec::new());
    assert_eq!(metadata.start_time, "2025-12-06T10:00:00.123456789+00:00");
    assert_eq!(metadata.end_time, "2025-12-06T10:00:01.123456788+00:00");
    // One nanosecond short of a second.
    assert_eq!(metadata.duration_seconds, 0);
    let back = create_local_metadata("id", "db", "h", 1, end, start, 0, "16".to_string(), &Vec::new());
    assert_eq!(back.duration_seconds, 0);
}

#[test]
fn snapshot_outcome_builds_result_and_metadata() {
    let start = utc_time(Utc.with_ymd_and_hms(2025, 12, 6, 10, 0, 0).unwrap());
    let end = utc_time(Utc.with_ymd_and_hms(2025, 12, 6, 10, 0, 42).unwrap());
    let mut storage = StorageOptions::default();
    storage.remote_storage = true;
    storage.bucket = Some("bk".to_string());
    let (r, m) = snapshot_outcome(
        "id-1", "/b/snapshot_backup_1", "app", "db", 5432, start, end, 10, "16".to_string(), &Vec::new(),
        &storage, Some(Ok("app/2025-12-06/id-1".to_string())),
    );
    assert_eq!(r.backup_id, "id-1");
    assert_eq!(r.database, "app");
    assert_eq!(r.start_time, start);
    assert_eq!(r.end_time, end);
    assert_eq!(r.remote_path.as_deref(), Some("s3://bk/app/2025-12-06/id-1"));
    assert_eq!(m.backup_id, "id-1");
    assert_eq!(m.duration_seconds, 42);
    // A failed upload leaves the backup without a remote path.
    let (r, _) = snapshot_outcome(
        "id-1", "/b", "app", "db", 5432, start, end, 10, "16".to_string(), &Vec::new(),
        &storage, Some(Err("down".to_string())),
    );
    assert!(r.remote_path.is_none());
    // Without remote storage nothing is uploaded.
    let (r, _) = snapshot_outcome(
        "id-1", "/b", "app", "db", 5432, start, end, 10, "16".to_string(), &Vec::new(),
        &StorageOptions::default(), None,
    );
    assert!(r.remote_path.is_none());
}

#[test]
fn tunnel_setup_failures() {
    assert_eq!(snapshot_tunnel_verdict(Ok(())), Ok(()));
    assert_eq!(
        snapshot_tunnel_verdict(Err("refused".to_string())),
        Err("SSH tunnel setup failed: refused".to_string())
    );
    assert_eq!(
        tunnel_verdict(Err("refused".to_string())),
        Err("Failed to setup SSH tunnel: refused".to_string())
    );
}
