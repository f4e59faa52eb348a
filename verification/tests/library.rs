use postgres::cli::commands::metadata::{
    after_metadata_save, metadata_to_save, nothing_to_reconstruct, reconstruct_summary,
};
use postgres::cli::commands::pitr::{after_restore_answer, restore_needs_confirmation};
use postgres::cli::commands::{logical_upload_verdict, physical_upload_verdict};
use postgres::cli::commands::full_restore::{after_plan, download_path, restore_confirmed, PlanStep};
use postgres::cli::commands::metadata::{
    backup_ids_of, backups_missing_metadata, metadata_key_of, reconstruct_backup, StoredObject,
};
use postgres::cli::commands::pitr::plan_verdict;
use postgres::cli::commands::retention::{
    apply_stage, confirmation_accepted, report_of_deletions, ApplyStage, BackupDecision,
    BackupItemType, BackupLocation, PurgeTally, RetentionResult, WalDecision,
};
use postgres::cli::commands::status::create_storage_config;
use postgres::cli::commands::status::StatusStorageOptions;
use postgres::cli::commands::MultiTenantOptions;
use postgres::common::{Backup, BackupCatalog, BackupStatus, BackupType, PostgresConfig};

fn full(id: u128, start: i64, end: Option<i64>, done: bool) -> Backup {
    let mut b = Backup::new_at(id, start, BackupType::Full, "/b".to_string(), "16".to_string(), None);
    if done {
        b.complete_at(end.unwrap_or(start), "0/3000000".to_string(), 100);
    }
    if end.is_none() {
        b.end_time = None;
    }
    b
}

#[test]
fn catalog_finds_what_was_added() {
    let mut catalog = BackupCatalog::new();
    assert!(catalog.get_backup(1).is_none());
    catalog.add_backup(full(1, 100, Some(200), true));
    catalog.add_backup(full(2, 300, Some(400), true));
    assert_eq!(catalog.get_backup(2).unwrap().start_time, 300);
    assert_eq!(catalog.get_backup(1).unwrap().start_time, 100);
    assert!(catalog.get_backup(3).is_none());
}

#[test]
fn catalog_latest_full_backup() {
    let mut catalog = BackupCatalog::new();
    assert!(catalog.get_latest_full_backup().is_none());
    catalog.add_backup(full(1, 100, Some(900), true));
    catalog.add_backup(full(2, 300, Some(400), true));
    // Not completed: never the latest.
    catalog.add_backup(full(3, 1000, Some(2000), false));
    assert_eq!(catalog.get_latest_full_backup().unwrap().id, 1);
    // Same end time: the later one in the catalog wins.
    catalog.add_backup(full(4, 500, Some(900), true));
    assert_eq!(catalog.get_latest_full_backup().unwrap().id, 4);
}

#[test]
fn catalog_incrementals_since() {
    let mut catalog = BackupCatalog::new();
    catalog.add_backup(full(1, 100, Some(200), true));
    let mut inc = Backup::new_at(2, 300, BackupType::Incremental, "/i".to_string(), "16".to_string(), Some(1));
    inc.complete_at(350, "0/4000000".to_string(), 10);
    catalog.add_backup(inc);
    let mut failed = Backup::new_at(3, 400, BackupType::Incremental, "/f".to_string(), "16".to_string(), Some(1));
    failed.fail_at(450, "boom".to_string());
    catalog.add_backup(failed);
    let mut other = Backup::new_at(4, 500, BackupType::Incremental, "/o".to_string(), "16".to_string(), Some(9));
    other.complete_at(550, "0/5000000".to_string(), 10);
    catalog.add_backup(other);
    let since = catalog.get_incremental_backups_since(1);
    assert_eq!(since.len(), 1);
    assert_eq!(since[0].id, 2);
    assert_eq!(since[0].status, BackupStatus::Completed);
    assert_eq!(since[0].end_time, Some(350));
}

#[test]
fn connection_string_settings() {
    let config = PostgresConfig {
        host: "db".to_string(),
        port: 5433,
        database: "app".to_string(),
        user: "me".to_string(),
        password: Some("pw".to_string()),
        ssl_mode: None,
        maintenance_db: None,
        ssh_host: None,
        ssh_user: None,
        ssh_port: None,
        ssh_password: None,
        ssh_key_path: None,
        ssh_local_port: None,
        ssh_remote_port: None,
    };
    assert_eq!(config.connection_string(), "host=db port=5433 dbname=app user=me password=pw");
}

fn decision(id: &str, size: u64, location: BackupLocation) -> BackupDecision {
    BackupDecision {
        backup_id: id.to_string(),
        backup_type: BackupItemType::Full,
        reason: "expired".to_string(),
        size_bytes: size,
        pinned: false,
        has_dependents: false,
        location,
    }
}

#[test]
fn purge_tally_counts_each_outcome() {
    let mut tally = PurgeTally::new();
    let a = decision("a", 100, BackupLocation::Local("/b/a".to_string()));
    tally.record_backup(&a, Some(Ok(())), None);
    let b = decision(
        "b",
        50,
        BackupLocation::Both { local: "/b/b".to_string(), remote: "k/b".to_string() },
    );
    tally.record_backup(&b, Some(Ok(())), Some(Err("denied".to_string())));
    let c = decision("c", 7, BackupLocation::Remote("k/c".to_string()));
    tally.record_backup(&c, None, None);
    assert_eq!(tally.backups_deleted, 1);
    assert_eq!(tally.space_freed, 100);
    assert_eq!(tally.failed, 1);
    assert_eq!(tally.errors, vec!["Failed to delete remote backup k/b: denied".to_string()]);

    let w = WalDecision {
        segment_name: "000000010000000000000001".to_string(),
        size_bytes: 16,
        location: BackupLocation::Local("/wal/1".to_string()),
    };
    tally.record_wal(&w, Some(Ok(())));
    assert_eq!(tally.wal_deleted, 1);
    assert_eq!(tally.space_freed, 116);
    assert_eq!(PurgeTally::deletions(&BackupLocation::Remote("k".to_string()), false), (false, false));
    assert_eq!(
        PurgeTally::deletions(&BackupLocation::Both { local: "l".to_string(), remote: "r".to_string() }, true),
        (true, true)
    );
}

fn evaluation(delete: Vec<BackupDecision>) -> RetentionResult {
    RetentionResult {
        timestamp: 0,
        total_backups: 3,
        total_wal_segments: 0,
        backups_to_keep: vec![decision("k", 1, BackupLocation::Local("/k".to_string()))],
        backups_to_delete: delete,
        wal_to_keep: vec![],
        wal_to_delete: vec![],
        warnings: vec![],
        estimated_space_freed: 0,
        pitr_window_start: None,
        pitr_window_end: None,
    }
}

#[test]
fn retention_apply_stages_and_report() {
    let none = evaluation(vec![]);
    assert_eq!(apply_stage(&none, false, false), ApplyStage::NothingToDelete);
    let some = evaluation(vec![decision("d", 5, BackupLocation::Local("/d".to_string()))]);
    assert_eq!(apply_stage(&some, true, false), ApplyStage::DryRun);
    assert_eq!(apply_stage(&some, false, false), ApplyStage::Confirm);
    assert_eq!(apply_stage(&some, false, true), ApplyStage::Delete);
    assert!(confirmation_accepted("  YES \n"));
    assert!(!confirmation_accepted("y"));

    let mut tally = PurgeTally::new();
    tally.record_backup(&some.backups_to_delete[0], Some(Ok(())), None);
    let report = report_of_deletions(&some, tally, 1_000, 2);
    assert!(!report.dry_run);
    assert_eq!(report.backups_deleted, 1);
    assert_eq!(report.backups_kept, 1);
    assert_eq!(report.space_freed, 5);
    assert_eq!(report.total_backups_evaluated, 3);
}

fn obj(key: &str, size: Option<u64>, at: Option<i64>, etag: Option<&str>) -> StoredObject {
    StoredObject { key: key.to_string(), size, last_modified: at, etag: etag.map(|e| e.to_string()) }
}

#[test]
fn metadata_reconstruction() {
    let objects = vec![
        obj("pfx/b1/base/data.tar", Some(100), Some(50), Some("e1")),
        obj("pfx/b1/pg_wal/0001", Some(16), Some(70), Some("e2")),
        obj("pfx/b2/dump.sql", Some(5), Some(10), None),
        obj("pfx/b2/backup_metadata.json", Some(1), Some(11), None),
        obj("pfx/b1/extra", None, None, Some("e3")),
    ];
    let ids = backup_ids_of(&objects, "pfx");
    assert_eq!(ids, vec!["b1".to_string(), "b2".to_string()]);
    assert_eq!(backups_missing_metadata(&objects, "pfx"), vec!["b1".to_string()]);
    assert_eq!(metadata_key_of("pfx", "b2"), "pfx/b2/backup_metadata.json");
    assert_eq!(metadata_key_of("", "b2"), "b2/backup_metadata.json");

    let r = reconstruct_backup(&objects, "pfx", "b1", "16.1", false, 999);
    assert_eq!(r.id, "b1");
    assert_eq!(r.backup_type, BackupType::Full);
    assert_eq!(r.size_bytes, 116);
    assert_eq!(r.start_time, 50);
    assert_eq!(r.end_time, Some(70));
    assert_eq!(r.files.len(), 3);
    assert_eq!(r.files[0].name, "base/data.tar");
    assert_eq!(r.files[0].checksum, Some("e1".to_string()));
    assert_eq!(r.tags, vec!["reconstructed".to_string()]);
    assert_eq!(r.status, BackupStatus::Completed);
    assert!(!r.pinned);
    // A dry run saves nothing; otherwise only the backups without metadata.
    assert!(metadata_to_save(&objects, "pfx", true).is_empty());
    assert_eq!(metadata_to_save(&objects, "pfx", false), vec!["b1".to_string()]);

    let s = reconstruct_backup(&objects, "pfx", "b2", "16.1", true, 999);
    assert_eq!(s.backup_type, BackupType::Snapshot);
    assert_eq!(s.files.len(), 1);
    assert_eq!(s.files[0].checksum, None);

    let none = reconstruct_backup(&objects, "pfx", "zz", "16.1", true, 999);
    assert_eq!(none.start_time, 999);
    assert_eq!(none.end_time, None);
    assert_eq!(none.size_bytes, 0);
}

#[test]
fn restore_decisions() {
    assert_eq!(after_plan(true, true, true), PlanStep::Stop);
    assert_eq!(after_plan(false, true, false), PlanStep::Confirm);
    assert_eq!(after_plan(false, true, true), PlanStep::Execute);
    assert!(restore_confirmed(" Y "));
    assert!(!restore_confirmed("no"));
    assert_eq!(download_path("/backups", "abc"), "/backups/abc");
    assert_eq!(plan_verdict(true, &vec![]), Ok(()));
    assert_eq!(
        plan_verdict(false, &vec!["a".to_string(), "b".to_string()]),
        Err("Recovery plan is invalid: a; b".to_string())
    );
}

#[test]
fn status_storage_config() {
    let mut opts = StatusStorageOptions {
        remote_storage: false,
        bucket: None,
        prefix: None,
        region: None,
        endpoint: None,
        access_key: None,
        secret_key: None,
        multi_tenant: MultiTenantOptions::default(),
    };
    assert!(matches!(create_storage_config(&opts), Ok(None)));
    opts.remote_storage = true;
    assert_eq!(
        create_storage_config(&opts).unwrap_err(),
        "--storage-bucket is required when --remote-storage is set"
    );
    opts.bucket = Some("bk".to_string());
    assert_eq!(create_storage_config(&opts).unwrap().unwrap().bucket, "bk");
}

#[test]
fn reconstruction_steps_and_summary() {
    assert_eq!(after_metadata_save("b1", 3, None), Ok(3));
    assert_eq!(after_metadata_save("b1", 3, Some(Ok(()))), Ok(4));
    assert_eq!(
        after_metadata_save("b1", 3, Some(Err("denied".to_string()))),
        Err("Failed to save metadata for b1: denied".to_string())
    );
    assert_eq!(nothing_to_reconstruct(), "✅ All backups already have metadata!");
    let rule = "=".repeat(60);
    assert_eq!(
        reconstruct_summary(true, 2, 0),
        format!("\n{}\n🔍 Dry run complete: Found 2 backups that need metadata\n   Run without --dry-run to create metadata files\n", rule)
    );
    assert_eq!(
        reconstruct_summary(false, 2, 2),
        format!("\n{}\n✅ Successfully reconstructed metadata for 2 backups\n", rule)
    );
}

#[test]
fn upload_outcomes() {
    assert_eq!(physical_upload_verdict(Ok(())), Ok(()));
    assert_eq!(
        physical_upload_verdict(Err("down".to_string())),
        Err("Failed to upload physical backup: down".to_string())
    );
    assert_eq!(
        logical_upload_verdict(Err("down".to_string())),
        Err("Failed to upload logical backup: down".to_string())
    );
}

#[test]
fn pitr_restore_confirmation() {
    assert!(restore_needs_confirmation(false));
    assert!(!restore_needs_confirmation(true));
    assert_eq!(after_restore_answer(true), None);
    assert_eq!(after_restore_answer(false), Some("Recovery cancelled."));
}
