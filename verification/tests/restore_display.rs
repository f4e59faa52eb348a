use postgres::cli::commands::full_restore::{
    format_mode, format_preflight_text, format_restore_plan_text, format_restore_result_text,
    PreflightBackupInfo, PreflightError, PreflightResult, PreflightWarning, RestoreMode,
    RestorePlan, RestoreResult, RestoreStep, RestoreTarget, RestoreTools, StepOutcome, ToolInfo,
};

fn tools() -> RestoreTools {
    RestoreTools {
        pg_restore: Some(ToolInfo { path: "/usr/bin/pg_restore".to_string() }),
        psql: Some(ToolInfo { path: "/usr/bin/psql".to_string() }),
        createdb: None,
        dropdb: None,
    }
}

#[test]
fn preflight_text_passed_without_backup() {
    let p = PreflightResult {
        passed: true,
        backup_info: None,
        target_state: "Empty".to_string(),
        tools: tools(),
        errors: Vec::new(),
        warnings: Vec::new(),
    };
    assert_eq!(
        format_preflight_text(&p),
        "\n=== Preflight Validation ===\nStatus: ✓ PASSED\n\n🎯 Target State: Empty\n\n🔧 Tools:\n   pg_restore: ✓ \"/usr/bin/pg_restore\"\n   psql: ✓ \"/usr/bin/psql\"\n   createdb: ✗ not found\n   dropdb: ✗ not found\n\n"
    );
}

#[test]
fn preflight_text_lists_backup_errors_and_warnings() {
    let p = PreflightResult {
        passed: false,
        backup_info: Some(PreflightBackupInfo {
            id: "b-1".to_string(),
            backup_type: "snapshot".to_string(),
            database: Some("app".to_string()),
            size_bytes: 3 * 1024 * 1024 / 2,
            created_at: 0,
            server_version: None,
        }),
        target_state: "Exists".to_string(),
        tools: tools(),
        errors: vec![PreflightError {
            code: "E1".to_string(),
            message: "no space".to_string(),
            details: Some("need 2 GB".to_string()),
        }],
        warnings: vec![PreflightWarning {
            code: "W1".to_string(),
            message: "old server".to_string(),
            recommendation: None,
        }],
    };
    let text = format_preflight_text(&p);
    assert!(text.starts_with("\n=== Preflight Validation ===\nStatus: ✗ FAILED\n\n📦 Backup Information:\n   ID: b-1\n   Type: snapshot\n   Database: app\n   Size: 1572864 bytes (1.50 MB)\n   Created: 1970-01-01 00:00:00 UTC\n\n🎯"));
    assert!(text.contains("\n❌ Errors:\n   [E1] no space\n      need 2 GB\n"));
    assert!(text.ends_with("\n⚠️  Warnings:\n   [W1] old server\n\n"));
}

#[test]
fn restore_plan_text_shows_steps_and_confirmation() {
    let p = RestorePlan {
        id: "plan-1".to_string(),
        backup_id: "b-1".to_string(),
        target_config: RestoreTarget {
            host: "db".to_string(),
            port: 5432,
            database: "app".to_string(),
        },
        mode: RestoreMode::NewDatabase { target_name: "app2".to_string() },
        estimated_duration_secs: Some(90),
        steps: vec![
            RestoreStep { order: 1, description: "Create database".to_string(), reversible: true },
            RestoreStep { order: 2, description: "Load data".to_string(), reversible: false },
        ],
        requires_confirmation: true,
        confirmation_reason: None,
    };
    assert_eq!(
        format_restore_plan_text(&p),
        "\n=== Restore Plan ===\nPlan ID: plan-1\nBackup ID: b-1\nTarget: db:5432/app\nMode: NewDatabase { target_name: \"app2\" }\nEstimated Duration: ~90s\n\n📋 Steps:\n   1. Create database (reversible)\n   2. Load data\n\n⚠️  Confirmation Required: Destructive operation\n\n"
    );
    assert_eq!(format_mode(&RestoreMode::Replace), "Replace");
}

#[test]
fn restore_result_text_shows_outcomes() {
    let r = RestoreResult {
        plan_id: "plan-1".to_string(),
        backup_id: "b-1".to_string(),
        database: "app".to_string(),
        success: false,
        started_at: 0,
        completed_at: 65_900,
        steps_completed: vec![
            StepOutcome { order: 1, success: true, duration_ms: 120, message: None },
            StepOutcome {
                order: 2,
                success: false,
                duration_ms: 5,
                message: Some("pg_restore failed".to_string()),
            },
        ],
        error: Some("step 2 failed".to_string()),
    };
    assert_eq!(
        format_restore_result_text(&r),
        "\n=== Restore Result ===\nStatus: ✗ FAILED\nPlan ID: plan-1\nBackup ID: b-1\nDatabase: app\nStarted: 1970-01-01 00:00:00 UTC\nCompleted: 1970-01-01 00:01:05.900 UTC\nDuration: 65s\n\n📋 Steps Completed:\n   ✓ Step 1: 120ms\n   ✗ Step 2: 5ms\n      pg_restore failed\n\n❌ Error: step 2 failed\n\n"
    );
}
