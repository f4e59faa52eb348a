use postgres::cli::commands::schedule::{
    find_schedule, find_storage_profile, format_duration, format_duration_secs,
    format_next_runs_table, format_schedule_list_table, list_schedules, next_runs,
    profile_storage_options, schedule_backup_dir, schedule_run_labels, scheduled_backup_target,
    secret_source, BackupSchedule, BackupTarget, OutputFormat, RetentionSchedule, ScheduleConfig,
    ScheduleListResult, ScheduleRef, ScheduleType, ScheduledRun, SecretSource, StorageProfile,
};
use postgres::cluster::Label;
use postgres::cli::commands::schedule::schedule_validation_report;

#[test]
fn test_output_format_from_str() {
    assert_eq!(OutputFormat::from_str("json"), OutputFormat::Json);
    assert_eq!(OutputFormat::from_str("JSON"), OutputFormat::Json);
    assert_eq!(OutputFormat::from_str("table"), OutputFormat::Table);
    assert_eq!(OutputFormat::from_str("unknown"), OutputFormat::Table);
}

#[test]
fn test_format_duration() {
    assert_eq!(format_duration(&chrono::Duration::minutes(30)), "30m");
    assert_eq!(format_duration(&chrono::Duration::hours(2)), "2h 0m");
    assert_eq!(format_duration(&chrono::Duration::hours(25)), "1d 1h");
}

#[test]
fn format_duration_secs_values() {
    assert_eq!(format_duration_secs(-1), "overdue");
    assert_eq!(format_duration_secs(0), "0m");
    assert_eq!(format_duration_secs(59), "0m");
    assert_eq!(format_duration_secs(3 * 3600 + 7 * 60 + 5), "3h 7m");
    assert_eq!(format_duration_secs(2 * 86400 + 3599), "2d 0h");
}

fn backup(id: &str, enabled: bool) -> BackupSchedule {
    BackupSchedule {
        id: id.to_string(),
        name: None,
        cron: "0 2 * * *".to_string(),
        target: BackupTarget::Database {
            host: "db".to_string(),
            port: None,
            database: "app".to_string(),
            user: None,
        },
        backup_type: "snapshot".to_string(),
        storage_profile: None,
        enabled,
        labels: vec![],
        backup_dir: None,
    }
}

fn retention(id: &str, enabled: bool) -> RetentionSchedule {
    RetentionSchedule {
        id: id.to_string(),
        name: Some("nightly".to_string()),
        cron: "0 4 * * *".to_string(),
        apply: false,
        enabled,
        storage_profile: None,
        policy_file: None,
        backup_dir: None,
    }
}

fn config() -> ScheduleConfig {
    ScheduleConfig {
        backups: vec![backup("b1", true), backup("b2", false), backup("shared", true)],
        retention: vec![retention("r1", true), retention("shared", true)],
        storage_profiles: vec![],
        default_backup_dir: None,
    }
}

#[test]
fn schedules_listed_and_filtered() {
    let c = config();
    let all = list_schedules(&c, false, None);
    assert_eq!(all.backups.len(), 3);
    assert_eq!(all.retention.len(), 2);
    assert_eq!(all.backups[0].target, "db:5432/app");
    let enabled = list_schedules(&c, true, Some("BACKUP"));
    assert_eq!(enabled.backups.len(), 2);
    assert_eq!(enabled.retention.len(), 0);
    let ret = list_schedules(&c, false, Some("retention"));
    assert_eq!(ret.backups.len(), 0);
    assert_eq!(ret.retention.len(), 2);
}

#[test]
fn schedule_lookup() {
    let c = config();
    assert_eq!(find_schedule(&c, "b2"), Ok(ScheduleRef::Backup(1)));
    assert_eq!(find_schedule(&c, "r1"), Ok(ScheduleRef::Retention(0)));
    assert_eq!(find_schedule(&c, "zzz").unwrap_err(), "Schedule 'zzz' not found");
    assert_eq!(
        find_schedule(&c, "shared").unwrap_err(),
        "Ambiguous schedule ID 'shared' - found in both backup and retention"
    );
}

fn run(id: &str, at: i64) -> ScheduledRun {
    ScheduledRun {
        schedule_id: id.to_string(),
        schedule_name: None,
        schedule_type: ScheduleType::Backup,
        next_run: at,
        enabled: true,
    }
}

#[test]
fn next_runs_sorted_and_limited() {
    let runs = vec![run("c", 30), run("a", 10), run("b", 20), run("a2", 10), run("d", 40)];
    let r = next_runs(runs, 2);
    let ids: Vec<&str> = r.iter().map(|x| x.schedule_id.as_str()).collect();
    assert_eq!(ids, vec!["a", "a2", "b", "c"]);
    let r = next_runs(vec![run("x", 5)], 3);
    assert_eq!(r.len(), 1);
}

#[test]
fn schedule_list_table_text() {
    let empty = ScheduleListResult { backups: vec![], retention: vec![] };
    assert_eq!(format_schedule_list_table(&empty), "No schedules configured.\n");
    let c = config();
    let listed = list_schedules(&c, false, Some("backup"));
    let text = format_schedule_list_table(&listed);
    assert!(text.starts_with("\n=== Backup Schedules (3) ===\n\n"));
    let expected_row = format!(
        "{:<20} {:<30} {:<20} {:<12} {:<10} {:<8}\n",
        "b1", "0 2 * * *", "db:5432/app", "snapshot", "-", "✓"
    );
    assert!(text.contains(&expected_row));
    assert!(text.contains(&"-".repeat(100)));
    assert!(!text.contains("Retention Schedules"));
    assert!(text.ends_with("\n\n"));
    let ret = list_schedules(&c, false, Some("retention"));
    let text = format_schedule_list_table(&ret);
    let expected_row = format!("{:<20} {:<30} {:<10} {:<10} {:<8}\n", "r1", "0 4 * * *", "-", "dry-run", "✓");
    assert!(text.contains(&expected_row));
}

#[test]
fn long_targets_are_cut() {
    let mut b = backup("long", true);
    b.target = BackupTarget::Node { node_id: "a-very-long-node-identifier-0001".to_string() };
    let c = ScheduleConfig { backups: vec![b], retention: vec![], storage_profiles: vec![], default_backup_dir: None };
    let listed = list_schedules(&c, false, None);
    let text = format_schedule_list_table(&listed);
    assert!(text.contains("node:a-very-long-node-ide... "));
}

#[test]
fn next_runs_table_text() {
    assert_eq!(format_next_runs_table(&vec![], 0), "No upcoming scheduled runs.\n");
    // 2025-01-15T10:30:00Z, in 90 minutes
    let now = 1_736_937_000_000;
    let runs = vec![ScheduledRun {
        schedule_id: "b1".to_string(),
        schedule_name: None,
        schedule_type: ScheduleType::Retention,
        next_run: now + 90 * 60 * 1000,
        enabled: true,
    }];
    let text = format_next_runs_table(&runs, now);
    let row = format!("{:<20} {:<10} {:<25} {:<15}\n", "b1", "retention", "2025-01-15 12:00:00", "1h 30m");
    assert!(text.contains(&row));
    assert!(text.starts_with("\n=== Upcoming Scheduled Runs ===\n\n"));
}

#[test]
fn running_a_schedule() {
    assert!(matches!(secret_source("env:S3_KEY"), SecretSource::EnvVar(n) if n == "S3_KEY"));
    assert!(matches!(secret_source("plain"), SecretSource::Value(v) if v == "plain"));
    let mut c = config();
    c.storage_profiles = vec![StorageProfile {
        name: "s3".to_string(),
        provider: "s3".to_string(),
        bucket: "bk".to_string(),
        prefix: Some("p".to_string()),
        region: None,
        endpoint: None,
        access_key: Some("env:K".to_string()),
        secret_key: None,
    }];
    let p = find_storage_profile(&c, "s3");
    assert_eq!(p.unwrap().bucket, "bk");
    assert!(find_storage_profile(&c, "gcs").is_none());
    let opts = profile_storage_options(p, Some("key".to_string()), None);
    assert!(opts.remote_storage);
    assert_eq!(opts.bucket, Some("bk".to_string()));
    assert_eq!(opts.access_key, Some("key".to_string()));
    assert!(!profile_storage_options(None, None, None).remote_storage);
    assert_eq!(schedule_backup_dir(&None, &None), "./backups");
    assert_eq!(schedule_backup_dir(&None, &Some("/d".to_string())), "/d");
    assert_eq!(schedule_backup_dir(&Some("/s".to_string()), &Some("/d".to_string())), "/s");
    let labels = vec![
        Label { key: "manual_run".to_string(), value: "false".to_string() },
        Label { key: "env".to_string(), value: "prod".to_string() },
    ];
    let l = schedule_run_labels(&labels, "b1");
    let pairs: Vec<(String, String)> = l.iter().map(|x| (x.key.clone(), x.value.clone())).collect();
    assert_eq!(
        pairs,
        vec![
            ("env".to_string(), "prod".to_string()),
            ("schedule_id".to_string(), "b1".to_string()),
            ("manual_run".to_string(), "true".to_string()),
        ]
    );
    let t = scheduled_backup_target(&backup("x", true).target).unwrap();
    assert_eq!(t, ("db".to_string(), 5432, "app".to_string(), "postgres".to_string()));
    assert_eq!(
        scheduled_backup_target(&BackupTarget::Cluster { cluster_id: "c1".to_string() }).unwrap_err(),
        "Cluster-based backup scheduling not yet implemented for cluster 'c1'"
    );
    assert_eq!(
        scheduled_backup_target(&BackupTarget::Node { node_id: "n1".to_string() }).unwrap_err(),
        "Node-based backup scheduling not yet implemented for node 'n1'"
    );
}

#[test]
fn schedule_validation_reports() {
    let (text, outcome) = schedule_validation_report(&None, None);
    assert_eq!(text, "No schedules configured in warden configuration.\n");
    assert!(outcome.is_ok());
    let (text, outcome) = schedule_validation_report(&Some(config()), None);
    assert_eq!(
        text,
        "✓ Schedule configuration is valid.\n  - 3 backup schedule(s)\n  - 2 retention schedule(s)\n  - 0 storage profile(s)\n"
    );
    assert!(outcome.is_ok());
    let (text, outcome) = schedule_validation_report(&Some(config()), Some("bad cron".to_string()));
    assert_eq!(text, "✗ Schedule configuration is invalid:\n  Error: bad cron\n");
    assert_eq!(outcome.unwrap_err(), "Schedule validation failed: bad cron");
}
