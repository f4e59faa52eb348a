use postgres::cli::commands::pitr::{
    format_next_steps, format_pitr_plan, format_restore_summary, plan_verdict, recovery_listing,
    BackupChoice, PitrPlanResult, PlanDetails, RecoveryOptions, WalCoverage,
};

// 2025-01-15T10:30:00Z
const T: i64 = 1_736_937_000_000;

fn result(valid: bool) -> PitrPlanResult {
    PitrPlanResult {
        plan_id: "plan-1".to_string(),
        target_time: T,
        base_backup_id: "base-1".to_string(),
        base_backup_time: T - 3_600_000,
        wal_segment_count: 3,
        estimated_download_bytes: 3 * 1024 * 1024 / 2,
        is_valid: valid,
        errors: if valid { vec![] } else { vec!["gap".to_string()] },
        warnings: vec!["old backup".to_string()],
    }
}

#[test]
fn pitr_plan_report() {
    let details = PlanDetails {
        server_version: "16.1".to_string(),
        base_size_bytes: 1024 * 1024,
        base_is_remote: false,
        window_earliest: T - 3_600_000,
        window_latest: None,
    };
    let text = format_pitr_plan(&result(false), &details);
    let expected = [
        "\n=== PITR Recovery Plan ===\n\n",
        "Plan ID:           plan-1\n",
        "Target Time:       2025-01-15 10:30:00 UTC\n",
        "\n",
        "Base Backup:\n",
        "  ID:              base-1\n",
        "  Start Time:      2025-01-15 09:30:00 UTC\n",
        "  Server Version:  16.1\n",
        "  Size:            1048576 bytes (1.00 MB)\n",
        "  Remote:          false\n",
        "\n",
        "WAL Segments:      3\n",
        "Est. Download:     1572864 bytes (1.50 MB)\n",
        "\n",
        "Recovery Window:\n",
        "  Earliest:        2025-01-15 09:30:00 UTC\n",
        "  Latest:          (unknown - no WAL timestamps)\n",
        "\n",
        "Validation:        ✗ INVALID\n",
        "\nErrors:\n  ✗ gap\n",
        "\nWarnings:\n  ⚠ old backup\n",
        "\n",
    ]
    .concat();
    assert_eq!(text, expected);
    assert_eq!(plan_verdict(false, &vec!["gap".to_string()]), Err("Recovery plan is invalid: gap".to_string()));
}

#[test]
fn pitr_restore_texts() {
    let text = format_restore_summary("2025-01-15T10:30:00Z", "/restore", "base-1", T, 2, 1024 * 1024, true, &vec![]);
    assert_eq!(
        text,
        "\n=== PITR Recovery Plan ===\n\nTarget Time:       2025-01-15T10:30:00Z\nTarget Directory:  \"/restore\"\nBase Backup:       base-1 (2025-01-15 10:30:00 UTC)\nWAL Segments:      2\nEst. Download:     1.00 MB\nAuto-start:        true\n\n"
    );
    let with_warning = format_restore_summary("t", "/r", "b", T, 0, 0, false, &vec!["w".to_string()]);
    assert!(with_warning.ends_with("Auto-start:        false\n\nWarnings:\n  ⚠ w\n\n"));
    assert_eq!(
        format_next_steps(true, "/restore"),
        "PostgreSQL has been started in recovery mode.\nMonitor the logs at: \"/restore\"/postgresql.log\n"
    );
    assert!(format_next_steps(false, "/r").starts_with("To complete recovery:\n  1. Start PostgreSQL with: pg_ctl start -D \"/r\"\n"));
}

#[test]
fn recovery_listing_holds_rfc3339_times() {
    let options = RecoveryOptions {
        available_backups: vec![BackupChoice {
            id: "b1".to_string(),
            start_time: T,
            end_time: None,
            server_version: "16".to_string(),
            size_bytes: 7,
            is_remote: true,
            wal_start: Some("0/1".to_string()),
            wal_end: None,
        }],
        wal_coverage: WalCoverage {
            segment_count: 3,
            total_size_bytes: 48,
            earliest_lsn: None,
            latest_lsn: Some("0/3".to_string()),
            earliest_time: Some(T),
            latest_time: None,
            timelines: vec![1, 2],
            gap_count: 1,
        },
        earliest_recoverable: Some(T),
        latest_recoverable: None,
    };
    let l = recovery_listing(&options);
    assert_eq!(l.backups.len(), 1);
    assert_eq!(l.backups[0].start_time, "2025-01-15T10:30:00+00:00");
    assert_eq!(l.backups[0].end_time, None);
    assert_eq!(l.backups[0].wal_start.as_deref(), Some("0/1"));
    assert_eq!(l.wal_coverage.earliest_time.as_deref(), Some("2025-01-15T10:30:00+00:00"));
    assert_eq!(l.wal_coverage.timelines, vec![1, 2]);
    assert_eq!(l.wal_coverage.gaps, 1);
    assert_eq!(l.earliest.as_deref(), Some("2025-01-15T10:30:00+00:00"));
    assert_eq!(l.latest, None);
}
