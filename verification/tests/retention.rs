use postgres::cli::commands::retention::{
    extract_timestamp_from_name, infer_backup_from_directory, parse_local_metadata,
    rfc3339_from_stamp, BackupItemStatus, BackupItemType, BackupLocation, LocalMetadataFields,
};

#[test]
fn test_extract_timestamp_from_name() {
    // Test with standard format that should parse
    let name = "snapshot_backup_2025-01-15";
    let result = extract_timestamp_from_name(name);
    // Should extract a timestamp from the date portion
    assert!(result.is_some(), "Expected to parse date from '{}'", name);

    // Test with format that may not parse (documents current behavior)
    let name_with_time = "snapshot_backup_2025-01-15T10-30-00Z";
    let _result = extract_timestamp_from_name(name_with_time);

    // Test with no timestamp - should return None
    let name_no_date = "snapshot_backup_latest";
    let result = extract_timestamp_from_name(name_no_date);
    assert!(result.is_none(), "Expected None for name without date");
}

#[test]
fn test_infer_backup_type() {
    let backup = infer_backup_from_directory("full_backup_2025-01-15", "/backups/full_backup_2025-01-15", 0, 0);
    assert!(backup.is_some());
    let backup = backup.unwrap();
    assert_eq!(backup.backup_type, BackupItemType::Full);

    let backup = infer_backup_from_directory(
        "incremental_backup_2025-01-15",
        "/backups/incremental_backup_2025-01-15",
        0,
        0,
    );
    assert!(backup.is_some());
    assert_eq!(backup.unwrap().backup_type, BackupItemType::Incremental);

    let backup =
        infer_backup_from_directory("snapshot_backup_2025-01-15", "/backups/snapshot_backup_2025-01-15", 0, 0);
    assert!(backup.is_some());
    assert_eq!(backup.unwrap().backup_type, BackupItemType::Snapshot);

    let backup = infer_backup_from_directory("random_directory", "/backups/random_directory", 0, 0);
    assert!(backup.is_none());
}

#[test]
fn timestamps_in_directory_names() {
    assert_eq!(rfc3339_from_stamp("2025-01-15T10-30-00"), "2025-01-15T10:30:00Z");
    // 2025-01-15T10:30:00Z
    assert_eq!(extract_timestamp_from_name("snapshot_backup_2025-01-15T10-30-00Z"), Some(1_736_937_000_000));
    // Midnight of the date when no time is given.
    assert_eq!(extract_timestamp_from_name("full_backup_2025-01-15"), Some(1_736_899_200_000));
    // A stamp that is not a valid time gives none.
    assert_eq!(extract_timestamp_from_name("full_backup_2025-01-15T99-99-99"), None);
}

#[test]
fn inferred_backup_record() {
    let b = infer_backup_from_directory("full_backup_latest", "/b/full_backup_latest", 77, 5_000).unwrap();
    assert_eq!(b.id, "full_backup_latest");
    assert_eq!(b.start_time, 5_000);
    assert_eq!(b.end_time, Some(5_000));
    assert_eq!(b.size_bytes, 77);
    assert_eq!(b.status, BackupItemStatus::Completed);
    assert_eq!(b.tags, vec!["inferred".to_string()]);
    assert!(matches!(b.location, BackupLocation::Local(p) if p == "/b/full_backup_latest"));
}

fn empty_fields() -> LocalMetadataFields {
    LocalMetadataFields {
        backup_id: None,
        id: None,
        backup_type: None,
        status: None,
        start_time: None,
        end_time: None,
        size_bytes: None,
        base_backup_id: None,
        wal_start: None,
        wal_end: None,
        database: None,
        pinned: None,
        tags: None,
    }
}

#[test]
fn local_metadata_fields() {
    let empty = parse_local_metadata(&empty_fields(), Some("dir1"), "/b/dir1", 12, 99);
    assert_eq!(empty.id, "dir1");
    assert_eq!(empty.backup_type, BackupItemType::Snapshot);
    assert_eq!(empty.status, BackupItemStatus::Completed);
    assert_eq!(empty.start_time, 99);
    assert_eq!(empty.size_bytes, 12);
    assert!(!empty.pinned);
    let unnamed = parse_local_metadata(&empty_fields(), None, "/b/x", 0, 0);
    assert_eq!(unnamed.id, "unknown");

    let mut f = empty_fields();
    f.id = Some("id-2".to_string());
    f.backup_type = Some("Incremental".to_string());
    f.status = Some("failed".to_string());
    f.start_time = Some("2025-01-15T10:30:00Z".to_string());
    f.end_time = Some("bad".to_string());
    f.size_bytes = Some(5);
    f.pinned = Some(true);
    f.tags = Some(vec!["a".to_string()]);
    let item = parse_local_metadata(&f, Some("dir"), "/b/dir", 12, 99);
    assert_eq!(item.id, "id-2");
    assert_eq!(item.backup_type, BackupItemType::Incremental);
    assert_eq!(item.status, BackupItemStatus::Failed);
    assert_eq!(item.start_time, 1_736_937_000_000);
    assert_eq!(item.end_time, None);
    assert_eq!(item.size_bytes, 5);
    assert!(item.pinned);
    assert_eq!(item.tags, vec!["a".to_string()]);
    f.backup_id = Some("bid".to_string());
    f.backup_type = Some("FULL".to_string());
    let item = parse_local_metadata(&f, Some("dir"), "/b/dir", 12, 99);
    assert_eq!(item.id, "bid");
    assert_eq!(item.backup_type, BackupItemType::Snapshot);
}
