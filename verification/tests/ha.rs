use postgres::cli::commands::ha::{
    ha_command_step, ha_confirmed, ha_failure_message, parse_target_time, HaCommandStep,
};
use postgres::cluster::{Cluster, ClusterConfig, Node, NodeRole};
use postgres::ha::checks::{
    catchup_decision, is_streaming_output, is_true_flag, lag_is_acceptable, parse_lag_output,
    parse_u64_text, split_text, CatchupDecision, NodeHealthCheck, NodeHealthStatus,
};
use postgres::ha::clone::{pitr_conf_lines, CloneNodeOptions};
use postgres::ha::failover::FailoverOptions;
use postgres::ha::switchover::{SwitchoverOptions, SwitchoverOrchestrator};
use postgres::ha::types::{HaError, HaPlan, HaPlanStep, HaStepStatus};

#[test]
fn test_node_health_check() {
    let check = NodeHealthCheck::new("node-1", "localhost", 5432)
        .healthy(50)
        .with_role(NodeRole::Primary);

    assert_eq!(check.status, NodeHealthStatus::Healthy);
    assert_eq!(check.response_time_ms, Some(50));
    assert_eq!(check.detected_role, Some(NodeRole::Primary));
}

#[test]
fn test_replication_status_lag_acceptable() {
    let lag_bytes = Some(1000);
    assert!(lag_is_acceptable(lag_bytes, 1_000_000)); // 1MB
    assert!(!lag_is_acceptable(lag_bytes, 500)); // 500 bytes
    assert!(lag_is_acceptable(None, 0));
}

#[test]
fn test_clone_options_default() {
    let opts = CloneNodeOptions::default();
    assert!(!opts.dry_run);
    assert!(!opts.remote_storage);
    assert!(opts.backup_id.is_none());
}

#[test]
fn test_failover_options_default() {
    let opts = FailoverOptions::default();
    assert!(!opts.force);
    assert!(!opts.dry_run);
    assert!(opts.target_time.is_none());
}

#[test]
fn test_switchover_options_default() {
    let opts = SwitchoverOptions::default();
    assert_eq!(opts.max_lag_bytes, 1_048_576);
    assert_eq!(opts.catchup_timeout_secs, 60);
    assert_eq!(opts.pg_user, "postgres");
}

#[test]
fn test_plan_step_lifecycle() {
    let mut step = HaPlanStep::new(1, "test", "Test step");
    assert_eq!(step.status, HaStepStatus::Pending);

    step.start();
    assert_eq!(step.status, HaStepStatus::InProgress);
    assert!(step.started_at.is_some());

    step.complete();
    assert_eq!(step.status, HaStepStatus::Completed);
    assert!(step.completed_at.is_some());
}

#[test]
fn test_plan_completion() {
    let mut plan = HaPlan::new("switchover", "test-cluster", "node-2");
    plan.add_step(HaPlanStep::new(1, "step1", "First step"));
    plan.add_step(HaPlanStep::new(2, "step2", "Second step"));

    assert!(!plan.is_complete());

    plan.steps[0].complete();
    assert!(!plan.is_complete());

    plan.steps[1].complete();
    assert!(plan.is_complete());
}

#[test]
fn test_plan_has_failures() {
    let mut plan = HaPlan::new("failover", "test-cluster", "node-2");
    plan.add_step(HaPlanStep::new(1, "step1", "First step"));

    assert!(!plan.has_failures());

    plan.steps[0].fail("Something went wrong");
    assert!(plan.has_failures());
}

#[test]
fn plan_queries() {
    let mut plan = HaPlan::new("clone", "c", "n");
    assert!(plan.is_complete());
    assert_eq!(plan.estimated_total_duration_secs(), None);
    plan.add_step(HaPlanStep::new(1, "a", "A").with_duration(10));
    plan.add_step(HaPlanStep::new(2, "b", "B").destructive().with_duration(5));
    plan.add_step(HaPlanStep::new(3, "c", "C"));
    assert_eq!(plan.estimated_total_duration_secs(), Some(15));
    assert!(plan.has_destructive_steps());
    assert_eq!(plan.current_step_index(), Some(0));
    plan.steps[0].skip();
    assert_eq!(plan.current_step_index(), Some(1));
}

#[test]
fn psql_flags_and_catchup() {
    assert!(is_true_flag(" t\n"));
    assert!(is_true_flag("true"));
    assert!(!is_true_flag("f"));
    assert!(matches!(catchup_decision("n1", Some(10), 100, true), CatchupDecision::CaughtUp));
    assert!(matches!(catchup_decision("n1", Some(1000), 100, false), CatchupDecision::KeepWaiting));
    assert!(matches!(
        catchup_decision("n1", Some(1000), 100, true),
        CatchupDecision::GiveUp(HaError::ReplicationLagTooHigh { lag_bytes: 1000, .. })
    ));
}

fn node(id: &str, role: NodeRole) -> Node {
    Node {
        id: id.to_string(),
        cluster_id: "c1".to_string(),
        host: "h".to_string(),
        port: 5432,
        role,
        labels: vec![],
        has_ssh: false,
        has_connection: false,
    }
}

fn config() -> ClusterConfig {
    ClusterConfig {
        clusters: vec![Cluster {
            id: "c1".to_string(),
            name: None,
            environment: None,
            labels: vec![],
        }],
        nodes: vec![node("n1", NodeRole::Primary), node("n2", NodeRole::Replica)],
        protection_groups: vec![],
    }
}

#[test]
fn switchover_plan_checks_and_steps() {
    let mut opts = SwitchoverOptions::default();
    opts.cluster_id = "c1".to_string();
    opts.from_node_id = "n1".to_string();
    opts.to_node_id = "n2".to_string();
    let plan = SwitchoverOrchestrator::new(opts.clone(), config()).plan().unwrap();
    assert_eq!(plan.operation, "switchover");
    assert_eq!(plan.steps.len(), 8);
    assert_eq!(plan.warnings.len(), 2);
    assert_eq!(plan.warnings[0], "This will transfer the primary role from n1 to n2");

    let mut wrong = opts.clone();
    wrong.from_node_id = "n2".to_string();
    wrong.to_node_id = "n1".to_string();
    let err = SwitchoverOrchestrator::new(wrong, config()).plan().unwrap_err();
    assert!(matches!(err, HaError::InvalidNodeRole { .. }));

    let mut missing = opts;
    missing.cluster_id = "nope".to_string();
    let err = SwitchoverOrchestrator::new(missing, config()).plan().unwrap_err();
    assert!(matches!(err, HaError::ClusterNotFound(c) if c == "nope"));
}

#[test]
fn ha_command_decisions() {
    assert_eq!(parse_target_time(None), Ok(None));
    assert_eq!(parse_target_time(Some("2025-01-15T10:30:00Z")), Ok(Some(1_736_937_000_000)));
    let err = parse_target_time(Some("tomorrow")).unwrap_err();
    assert!(err.starts_with("Invalid target time format: "));
    assert!(err.ends_with(". Use RFC3339 format (e.g., 2025-01-15T10:30:00Z)"));
    assert_eq!(ha_command_step(true, false, false, true), HaCommandStep::DryRun);
    assert_eq!(ha_command_step(false, true, true, true), HaCommandStep::DryRun);
    assert_eq!(ha_command_step(false, false, false, true), HaCommandStep::Confirm);
    assert_eq!(ha_command_step(false, false, false, false), HaCommandStep::Execute);
    assert_eq!(ha_command_step(false, false, true, true), HaCommandStep::Execute);
    assert!(ha_confirmed(" Y\n"));
    assert!(!ha_confirmed("yes"));
    assert_eq!(ha_failure_message("Failover", "node down"), "Failover failed: node down");
}

#[test]
fn lag_query_output() {
    let r = parse_lag_output(" 1024|0.5|0/3000060|0/3000000\n").unwrap();
    assert_eq!(r.lag_bytes, Some(1024));
    assert_eq!(r.received_lsn, "0/3000060");
    assert_eq!(r.replayed_lsn, "0/3000000");
    let r = parse_lag_output("|| 0/1 | 0/2 ").unwrap();
    assert_eq!(r.lag_bytes, None);
    assert_eq!(r.received_lsn, "0/1");
    assert!(parse_lag_output("1|2|3").is_none());
    assert!(is_streaming_output("streaming\n"));
    assert!(!is_streaming_output("stopping"));
    assert_eq!(split_text("a||b", '|'), vec!["a", "", "b"]);
    assert_eq!(split_text("", '|'), vec![""]);
    assert_eq!(parse_u64_text("+42"), Some(42));
    assert_eq!(parse_u64_text("-1"), None);
    assert_eq!(parse_u64_text("18446744073709551615"), Some(u64::MAX));
    assert_eq!(parse_u64_text("18446744073709551616"), None);
    assert_eq!(parse_u64_text("4x"), None);
    assert_eq!(parse_u64_text(""), None);
}

#[test]
fn clone_pitr_configuration_lines() {
    assert_eq!(
        pitr_conf_lines(86_400_000),
        "\n# PITR configuration added by Warden\nrecovery_target_time = '1970-01-02 00:00:00 UTC'\nrecovery_target_action = 'promote'\n"
    );
}

#[test]
fn orchestrator_from_a_failed_load_is_a_configuration_error() {
    let err = SwitchoverOrchestrator::from_loaded(SwitchoverOptions::default(), Err("no such file".to_string()));
    assert!(matches!(err, Err(HaError::ConfigError(m)) if m == "no such file"));
    let mut opts = SwitchoverOptions::default();
    opts.cluster_id = "c1".to_string();
    opts.from_node_id = "n1".to_string();
    opts.to_node_id = "n2".to_string();
    let orch = SwitchoverOrchestrator::from_loaded(opts, Ok(config())).ok().unwrap();
    assert_eq!(orch.plan().unwrap().steps.len(), 8);
}
