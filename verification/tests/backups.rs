use postgres::cli::commands::backups::{BackupFileEntry, StoredBackupMetadata};
use postgres::cli::commands::format_inspect_text;
use postgres::cli::commands::backups::{
    format_download_table, format_list_table, parse_backup_status, parse_backup_type,
    parse_datetime, BackupSummary, ChecksumMismatch, ChecksumVerification, DownloadResult,
    ListBackupsResult,
};
use postgres::common::{BackupStatus, BackupType};
use postgres::units::format_size;

#[test]
fn test_parse_backup_type() {
    assert!(matches!(parse_backup_type("full").unwrap(), BackupType::Full));
    assert!(matches!(parse_backup_type("FULL").unwrap(), BackupType::Full));
    assert!(matches!(parse_backup_type("snapshot").unwrap(), BackupType::Snapshot));
    assert!(matches!(parse_backup_type("incremental").unwrap(), BackupType::Incremental));
    assert!(parse_backup_type("invalid").is_err());
}

#[test]
fn test_parse_backup_status() {
    assert!(matches!(parse_backup_status("completed").unwrap(), BackupStatus::Completed));
    assert!(matches!(parse_backup_status("COMPLETE").unwrap(), BackupStatus::Completed));
    assert!(matches!(parse_backup_status("in_progress").unwrap(), BackupStatus::InProgress));
    assert!(matches!(parse_backup_status("failed").unwrap(), BackupStatus::Failed));
    assert!(parse_backup_status("invalid").is_err());
}

#[test]
fn test_parse_datetime() {
    // RFC3339
    assert!(parse_datetime("2025-01-15T10:30:00Z").is_ok());
    assert!(parse_datetime("2025-01-15T10:30:00+00:00").is_ok());

    // Date only
    assert!(parse_datetime("2025-01-15").is_ok());

    // Invalid
    assert!(parse_datetime("not-a-date").is_err());
}

#[test]
fn backups_test_format_size() {
    assert_eq!(format_size(500), "500 B");
    assert_eq!(format_size(1024), "1.00 KB");
    assert_eq!(format_size(1024 * 1024), "1.00 MB");
    assert_eq!(format_size(1024 * 1024 * 1024), "1.00 GB");
    assert_eq!(format_size(1024 * 1024 * 1024 * 1024), "1.00 TB");
}

#[test]
fn parse_datetime_values() {
    // 2025-01-15T10:30:00Z is 1736937000 seconds after the epoch.
    assert_eq!(parse_datetime("2025-01-15T10:30:00Z").unwrap(), 1_736_937_000_000);
    assert_eq!(parse_datetime("2025-01-15 10:30:00").unwrap(), 1_736_937_000_000);
    assert_eq!(parse_datetime("2025-01-15").unwrap(), 1_736_899_200_000);
    assert_eq!(
        parse_datetime("yesterday").unwrap_err(),
        "Invalid datetime format 'yesterday'. Use RFC3339 (e.g., 2025-01-15T10:30:00Z) or YYYY-MM-DD"
    );
}

#[test]
fn parse_filters_messages_and_aliases() {
    assert_eq!(
        parse_backup_type("weekly").unwrap_err(),
        "Invalid backup type 'weekly'. Valid values: full, incremental, snapshot"
    );
    assert!(matches!(parse_backup_status("Running").unwrap(), BackupStatus::InProgress));
    assert!(matches!(parse_backup_status("error").unwrap(), BackupStatus::Failed));
}

#[test]
fn format_size_rounding() {
    assert_eq!(format_size(0), "0 B");
    assert_eq!(format_size(1023), "1023 B");
    assert_eq!(format_size(1536), "1.50 KB");
    assert_eq!(format_size(1025), "1.00 KB");
    assert_eq!(format_size(1029), "1.00 KB");
    // Exact halves round to the even digit.
    assert_eq!(format_size(1152), "1.12 KB");
    assert_eq!(format_size(1408), "1.38 KB");
    assert_eq!(format_size(1031), "1.01 KB");
    assert_eq!(format_size(5 * 1024 * 1024 * 1024 * 1024 * 1024), "5120.00 TB");
}

#[test]
fn list_table_text() {
    let result = ListBackupsResult {
        backups: vec![BackupSummary {
            id: "abc".to_string(),
            backup_type: BackupType::Snapshot,
            status: BackupStatus::Completed,
            start_time: 1_736_937_000_000,
            size_bytes: 2048,
            server_version: "16.1".to_string(),
            pinned: true,
        }],
        total_count: 1,
        total_size_bytes: 2048,
    };
    let text = format_list_table(&result);
    let header = format!(
        "{:<38} {:<10} {:<10} {:<20} {:>12} {:<10}\n",
        "BACKUP ID", "TYPE", "STATUS", "TIMESTAMP", "SIZE", "PG VERSION"
    );
    let row = format!(
        "{:<38} {:<10} {:<10} {:<20} {:>12} {:<10}{}\n",
        "abc", "Snapshot", "Completed", "2025-01-15 10:30:00", "2.00 KB", "16.1", " 📌"
    );
    let expected = format!(
        "{}{}\n{}{}\nTotal: 1 backups, 2.00 KB total size\n",
        header,
        "-".repeat(110),
        row,
        "-".repeat(110)
    );
    assert_eq!(text, expected);
}

#[test]
fn download_table_text() {
    let mut result = DownloadResult {
        backup_id: "abc".to_string(),
        target_dir: "/tmp/abc".to_string(),
        files_downloaded: 3,
        bytes_downloaded: 500,
        duration_secs: 4,
        checksum_verified: None,
    };
    assert_eq!(
        format_download_table(&result),
        "=== Download Complete ===\n\nBackup ID:       abc\nTarget Dir:      /tmp/abc\nFiles:           3\nSize:            500 B\nDuration:        4s\n"
    );
    result.checksum_verified = Some(ChecksumVerification {
        all_matched: false,
        files_verified: 3,
        files_matched: 2,
        files_mismatched: 1,
        files_skipped: 0,
        mismatches: vec![ChecksumMismatch {
            file: "base.tar".to_string(),
            expected: "aa".to_string(),
            actual: "bb".to_string(),
        }],
    });
    let text = format_download_table(&result);
    assert!(text.ends_with(
        "\n=== Checksum Verification ===\n\nStatus:          ✗ FAILED\nFiles Verified:  3\nFiles Matched:   2\nFiles Mismatched: 1\nFiles Skipped:   0\n\nMismatched Files:\n  - base.tar\n    Expected: aa\n    Actual:   bb\n"
    ));
}

#[test]
fn inspect_text_shows_the_stored_metadata() {
    let m = StoredBackupMetadata {
        id: "b-7".to_string(),
        backup_type: BackupType::Incremental,
        status: BackupStatus::Completed,
        start_time: 0,
        end_time: Some(3_500),
        base_backup_id: Some("b-1".to_string()),
        wal_start: None,
        wal_end: Some("0/3000000".to_string()),
        size_bytes: 3 * 1024 * 1024 * 1024 / 2,
        server_version: "16.2".to_string(),
        checksum: None,
        files: vec![
            BackupFileEntry { name: "a.dump".to_string(), size: 10, checksum: Some("abc".to_string()) },
            BackupFileEntry { name: "b.dump".to_string(), size: 20, checksum: None },
        ],
        tags: vec!["x".to_string(), "y".to_string()],
        pinned: true,
    };
    assert_eq!(
        format_inspect_text(&m),
        "\n=== Backup Metadata ===\nID: b-7\nType: Incremental\nStatus: Completed\nStart Time: 1970-01-01 00:00:00 UTC\nEnd Time: 1970-01-01 00:00:03.500 UTC\nDuration: 3 seconds\nSize: 1610612736 bytes (1.50 GB)\nServer Version: 16.2\nBase Backup ID: b-1\nWAL End: 0/3000000\nPinned: true\nTags: x, y\n\n=== Files (2) ===\n  a.dump (10 bytes)\n    Checksum: abc\n  b.dump (20 bytes)\n"
    );
}
