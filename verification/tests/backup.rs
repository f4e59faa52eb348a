use postgres::backup::full::FullBackupManager;
use postgres::backup::incremental::IncrementalBackupManager;
use postgres::backup::snapshot::{CopyStep, PgDumpFormat, SnapshotBackupManager};
use postgres::backup::{
    backup_path_for, backup_timestamp, calculate_backup_size, BackupManagerFactory, PostgresError,
};
use postgres::common::{Backup, BackupCatalog, BackupStatus, BackupType, PostgresConfig};

fn config() -> PostgresConfig {
    PostgresConfig {
        host: "db".to_string(),
        port: 5432,
        database: "app".to_string(),
        user: "postgres".to_string(),
        password: Some("pw".to_string()),
        ssl_mode: None,
        maintenance_db: None,
        ssh_host: None,
        ssh_user: None,
        ssh_port: None,
        ssh_password: None,
        ssh_key_path: None,
        ssh_local_port: None,
        ssh_remote_port: None,
    }
}

#[test]
fn backup_directories_and_stamps() {
    // 2025-01-15T10:30:05Z
    assert_eq!(backup_timestamp(1_736_937_005_000), "20250115_103005");
    assert_eq!(backup_path_for("/backups", "full_backup_", "20250115_103005"), "/backups/full_backup_20250115_103005");
    let full = BackupManagerFactory::create_full_backup_manager(config(), "/b/".to_string());
    assert_eq!(full.backup_path("x"), "/b/full_backup_x");
    let snap = BackupManagerFactory::create_snapshot_backup_manager(config(), "/b".to_string());
    assert_eq!(snap.backup_path("x"), "/b/snapshot_backup_x");
    let inc = BackupManagerFactory::create_incremental_backup_manager(config(), "/b".to_string(), BackupCatalog::new());
    assert_eq!(inc.backup_path("x"), "/b/incremental_backup_x");
}

#[test]
fn backup_size_counts_files_only() {
    assert_eq!(calculate_backup_size(&vec![]), 0);
    assert_eq!(calculate_backup_size(&vec![(true, 13), (false, 4096), (true, 9), (true, 19)]), 41);
}

#[test]
fn full_backup_plan() {
    let m = FullBackupManager::new(config(), "/b".to_string());
    let o = m.base_backup_options("/b/full_backup_s", "s");
    assert_eq!(o.pgdata, "/b/full_backup_s");
    assert_eq!(o.format, "t");
    assert_eq!(o.wal_method, "stream");
    assert_eq!(o.label, Some("full_backup_s".to_string()));
    assert_eq!(o.password, "pw");
    assert_eq!(
        m.dump_args("/b/full_backup_s", true),
        vec!["-h", "db", "-p", "5432", "-U", "postgres", "-F", "c", "-f", "/b/full_backup_s/app.dump", "-v", "-Z", "9", "app"]
    );
    assert_eq!(
        m.dump_args("/b/full_backup_s", false),
        vec!["-h", "db", "-p", "5432", "-U", "postgres", "-F", "p", "-f", "/b/full_backup_s/app.sql", "app"]
    );
}

#[test]
fn full_backup_outcomes() {
    let b = Backup::new_at(7, 100, BackupType::Full, "/p".to_string(), "16".to_string(), None);
    let done = FullBackupManager::finish_backup(b.clone(), Ok(("0/5000000".to_string(), 42)), 200).unwrap();
    assert_eq!(done.status, BackupStatus::Completed);
    assert_eq!(done.end_time, Some(200));
    assert_eq!(done.size_bytes, Some(42));
    assert_eq!(done.wal_end, Some("0/5000000".to_string()));
    let err = FullBackupManager::finish_backup(b, Err("exit 1".to_string()), 200).unwrap_err();
    assert!(matches!(err, PostgresError::BackupError(m) if m == "Full backup failed"));
}

#[test]
fn snapshot_backup_checks() {
    let m = SnapshotBackupManager::new(config(), "/b".to_string());
    assert!(m.check_base_dir(true, 0o40755).is_ok());
    let err = m.check_base_dir(true, 0o40700).unwrap_err();
    assert!(matches!(err, PostgresError::BackupError(s) if s == "Base backup directory has incorrect permissions: \"/b\""));
    assert!(SnapshotBackupManager::check_created_dir("/b/s", false, 0o755).is_err());
    assert_eq!(
        SnapshotBackupManager::dump_file("/b/s", 0x0123456789abcdef0011223344556677),
        "/b/s/snapshot_01234567-89ab-cdef-0011-223344556677.dump"
    );
    let o = m.dump_options("/b/s/x.dump");
    assert_eq!(o.format, PgDumpFormat::Custom);
    assert_eq!(o.compress, Some(9));
    assert!(o.clean && o.if_exists);
}

#[test]
fn snapshot_outcome_and_restore_steps() {
    let b = Backup::new_at(7, 100, BackupType::Snapshot, "/p".to_string(), "16".to_string(), None);
    let done = SnapshotBackupManager::finish_backup(b, Ok(10), 300).unwrap();
    assert_eq!(done.wal_start, Some("0/0000000".to_string()));
    assert_eq!(done.wal_end, Some("0/0000000".to_string()));
    assert!(SnapshotBackupManager::check_restore_source("/r", true, true, 2).is_ok());
    let e = SnapshotBackupManager::check_restore_source("/r", false, false, 0).unwrap_err();
    assert!(matches!(e, PostgresError::RestoreError(m) if m == "Backup directory does not exist: \"/r\""));
    let e = SnapshotBackupManager::check_restore_source("/r", true, true, 0).unwrap_err();
    assert!(matches!(e, PostgresError::RestoreError(m) if m == "No backup files found"));
    assert!(matches!(SnapshotBackupManager::after_copy_attempt(3, &Ok(()), "a", "b"), CopyStep::Done));
    assert!(matches!(SnapshotBackupManager::after_copy_attempt(3, &Err("x".to_string()), "a", "b"), CopyStep::Retry(2)));
    let last = SnapshotBackupManager::after_copy_attempt(1, &Err("disk".to_string()), "a", "b");
    assert!(matches!(last, CopyStep::Fail(PostgresError::RestoreError(m)) if m == "Failed to copy a to b after 3 attempts: disk"));
}

#[test]
fn incremental_backup_plan() {
    let empty = IncrementalBackupManager::new(config(), "/b".to_string(), BackupCatalog::new());
    assert!(matches!(empty.base_backup(), Err(PostgresError::BackupError(m)) if m == "No full backup found to base incremental backup on"));
    let mut catalog = BackupCatalog::new();
    let mut full = Backup::new_at(1, 10, BackupType::Full, "/f".to_string(), "16".to_string(), None);
    full.complete_at(20, "0/2000000".to_string(), 5);
    catalog.add_backup(full);
    let m = IncrementalBackupManager::new(config(), "/b".to_string(), catalog);
    let base = m.base_backup().unwrap();
    assert_eq!(base.id, 1);
    assert_eq!(IncrementalBackupManager::known_wal_start(base), Some("0/2000000".to_string()));
    assert_eq!(IncrementalBackupManager::wal_dir("/b/i"), "/b/i/pg_wal");
    assert!(IncrementalBackupManager::walfile_query("0/1", "0/2").starts_with("SELECT file_name FROM pg_walfile_name_offset('0/1')"));
    let names = vec![
        "000000010000000000000001".to_string(),
        "archive_status".to_string(),
        "000000010000000000000002.partial".to_string(),
        "000000010000000000000003".to_string(),
    ];
    let segs = IncrementalBackupManager::wal_segments(&names);
    assert_eq!(segs, vec!["000000010000000000000001".to_string(), "000000010000000000000003".to_string()]);
    assert_eq!(IncrementalBackupManager::archived_files(&segs, &vec![false, true]), vec!["000000010000000000000003".to_string()]);
    let b = Backup::new_at(2, 30, BackupType::Incremental, "/i".to_string(), "16".to_string(), Some(1));
    let done = IncrementalBackupManager::finish_backup(b, "0/2000000".to_string(), "0/3000000".to_string(), 9, 40);
    assert_eq!(done.wal_start, Some("0/2000000".to_string()));
    assert_eq!(done.base_backup_id, Some(1));
    assert_eq!(done.status, BackupStatus::Completed);
}
