use postgres::chaos::fault_injection::{FaultInjector, FaultResult, FaultType};
use postgres::chaos::scenarios::{
    storage_should_fail, DiskFullDuringBackup, PermissionDeniedDuringBackup, ScenarioResult,
    ScenarioStep, StorageOutageDuringUpload,
};
use postgres::chaos::simulators::{
    DiskSimulator, DiskWriteFailure, PostgresSimulator, WaitStep, WriteErrorKind,
};

#[test]
fn test_postgres_simulator_default() {
    let sim = PostgresSimulator::default();
    assert_eq!(sim.host, "localhost");
    assert_eq!(sim.port, 5432);
}

#[test]
fn test_disk_simulator_should_fail_write() {
    let sim = DiskSimulator::new("/tmp/test").with_available_space(1000);

    // Should succeed for small write
    assert!(sim.should_fail_write(500).is_none());

    // Should fail for large write
    assert!(sim.should_fail_write(2000).is_some());
}

#[test]
fn test_disk_simulator_permission_denied() {
    let sim = DiskSimulator::new("/tmp/test").with_permission_denied(true);

    let err = sim.should_fail_write(100).unwrap();
    assert_eq!(err.kind(), WriteErrorKind::PermissionDenied);
}

#[test]
fn test_disk_full_scenario() {
    let scenario = DiskFullDuringBackup::new("/tmp");
    let result = scenario.run();
    assert!(result.passed);
}

#[test]
fn test_permission_denied_scenario() {
    let scenario = PermissionDeniedDuringBackup::new("/tmp");
    let result = scenario.run();
    assert!(result.passed);
}

#[test]
fn disk_write_failure_order_and_messages() {
    // A denied permission wins over a read-only disk, which wins over a full one.
    let sim = DiskSimulator::new("/data")
        .with_available_space(10)
        .with_read_only(true)
        .with_permission_denied(true);
    assert!(matches!(sim.should_fail_write(100), Some(DiskWriteFailure::PermissionDenied)));
    let sim = DiskSimulator::new("/data").with_available_space(10).with_read_only(true);
    assert!(matches!(sim.should_fail_write(100), Some(DiskWriteFailure::ReadOnly)));
    let sim = DiskSimulator::new("/data").with_available_space(10);
    assert!(matches!(sim.should_fail_write(11), Some(DiskWriteFailure::DiskFull)));
    assert!(sim.should_fail_write(10).is_none());
    let err = sim.should_fail_write(11).unwrap();
    assert_eq!(err.kind(), WriteErrorKind::Other);
}

#[test]
fn postgres_wait_steps() {
    assert_eq!(PostgresSimulator::wait_step(true, true, 10, 100), WaitStep::Done);
    assert_eq!(PostgresSimulator::wait_step(true, false, 10, 100), WaitStep::Retry);
    assert_eq!(PostgresSimulator::wait_step(false, true, 100, 100), WaitStep::TimedOut);
    assert_eq!(PostgresSimulator::wait_step(false, false, 99, 100), WaitStep::Done);
}

#[test]
fn postgres_simulator_commands() {
    let sim = PostgresSimulator::new("db", 6543);
    let args = sim.pg_isready_args();
    assert_eq!(args, vec!["-h", "db", "-p", "6543"]);
    assert!(sim.postmaster_pid_path().is_none());
    let sim = sim.with_data_dir("/pg");
    assert_eq!(sim.postmaster_pid_path().unwrap(), "/pg/postmaster.pid");
    let guard = sim.connection_block();
    assert_eq!(guard.port(), 6543);
    let add = guard.iptables_args(true);
    assert_eq!(add, vec!["iptables", "-A", "INPUT", "-p", "tcp", "--dport", "6543", "-j", "DROP"]);
    let del = guard.iptables_args(false);
    assert_eq!(del[1], "-D");
}

#[test]
fn fault_names_and_results() {
    assert_eq!(FaultType::NetworkTimeout.name(), "network_timeout");
    let none = FaultResult::no_fault();
    assert!(!none.triggered);
    let hit = FaultResult::fault(FaultType::DiskFull, "disk is full");
    assert!(hit.triggered);
    assert_eq!(hit.error_message.unwrap(), "disk is full");
}

#[test]
fn scenario_result_records_steps() {
    let mut result = ScenarioResult::new_at("demo", 1_000);
    assert!(!result.passed);
    result.add_step(ScenarioStep::new(1, "first").success(5));
    result.add_step(ScenarioStep::new(2, "second").failure("boom", 7));
    assert_eq!(result.steps.len(), 2);
    assert!(result.steps[0].success);
    assert!(!result.steps[1].success);
    let result = result.pass_at(3_500);
    assert!(result.passed);
    assert_eq!(result.duration_ms, 2_500);
}

#[test]
fn test_fault_injector_registration() {
    let mut injector = FaultInjector::new();

    injector.register_fault("postgres", FaultType::ConnectionRefused, true, None);

    let result = injector.should_trigger("postgres", FaultType::ConnectionRefused, |_| true);
    assert!(result.is_some());

    let result = injector.should_trigger("postgres", FaultType::DiskFull, |_| true);
    assert!(result.is_none());
}

#[test]
fn test_fault_injector_disabled() {
    let mut injector = FaultInjector::new();

    injector.register_fault("postgres", FaultType::ConnectionRefused, true, None);

    injector.set_enabled(false);

    let result = injector.should_trigger("postgres", FaultType::ConnectionRefused, |_| true);
    assert!(result.is_none());
}

#[test]
fn test_fault_injector_counters() {
    let mut injector = FaultInjector::new();

    injector.register_fault("postgres", FaultType::ConnectionRefused, true, None);

    injector.should_trigger("postgres", FaultType::ConnectionRefused, |_| true);
    injector.should_trigger("postgres", FaultType::ConnectionRefused, |_| true);

    assert_eq!(injector.total_triggers(), 2);
    assert_eq!(injector.trigger_count(FaultType::ConnectionRefused), 2);
}

#[test]
fn fault_injector_limits_draws_and_reset() {
    let mut injector = FaultInjector::new();
    injector.register_fault("s3", FaultType::S3Unavailable, true, Some(1));
    injector.register_fault("s3", FaultType::S3Unavailable, false, None);
    injector.register_fault("s3", FaultType::S3Unavailable, true, None);
    // The first rule triggers once, then the third takes over.
    assert_eq!(injector.should_trigger("s3", FaultType::S3Unavailable, |_| true), Some(0));
    assert_eq!(injector.should_trigger("s3", FaultType::S3Unavailable, |_| true), Some(2));
    // A draw that does not pass skips the rule.
    assert_eq!(injector.should_trigger("s3", FaultType::S3Unavailable, |i| i != 2), None);
    assert_eq!(injector.total_triggers(), 2);
    let rules = injector.faults_of("s3");
    assert_eq!(rules[0].triggered, 1);
    assert_eq!(rules[2].triggered, 1);
    // Resetting the counters resets each fault's own count too: the used-up
    // first fault may trigger again.
    injector.reset_counters();
    assert_eq!(injector.total_triggers(), 0);
    assert_eq!(injector.trigger_count(FaultType::S3Unavailable), 0);
    assert_eq!(injector.faults_of("s3")[0].triggered, 0);
    assert_eq!(injector.faults_of("s3")[2].triggered, 0);
    assert_eq!(injector.should_trigger("s3", FaultType::S3Unavailable, |_| true), Some(0));
    assert_eq!(injector.should_trigger("s3", FaultType::S3Unavailable, |_| true), Some(2));
    injector.clear_faults("s3");
    assert!(injector.faults_of("s3").is_empty());
    assert_eq!(injector.should_trigger("s3", FaultType::S3Unavailable, |_| true), None);
    injector.register_fault("pg", FaultType::DiskFull, true, None);
    injector.clear_all_faults();
    assert!(injector.faults_of("pg").is_empty());
}

#[test]
fn test_storage_outage_scenario() {
    // The default simulator has no failure rate: once restored it does not fail.
    let scenario = StorageOutageDuringUpload::new("/tmp");
    let result = scenario.run(false);
    assert!(result.passed);
}

#[test]
fn storage_outage_records_a_failed_retry_and_still_passes() {
    let scenario = StorageOutageDuringUpload::new("/tmp").with_outage_duration(5_000);
    assert_eq!(scenario.outage_duration_ms, 5_000);
    let result = scenario.run(true);
    assert!(result.passed);
    assert_eq!(result.steps.len(), 5);
    assert!(result.steps[2].success);
    assert!(!result.steps[4].success);
    assert_eq!(result.steps[4].error.as_deref(), Some("Storage still failing after restore"));
    assert!(storage_should_fail(true, false));
    assert!(!storage_should_fail(false, false));
}

#[test]
fn limited_fault_fires_min_of_calls_and_limit() {
    let mut injector = FaultInjector::new();
    injector.register_fault("postgres", FaultType::ConnectionRefused, true, Some(2));
    let results: Vec<Option<usize>> = (0..4)
        .map(|_| injector.should_trigger("postgres", FaultType::ConnectionRefused, |_| true))
        .collect();
    assert_eq!(results, vec![Some(0), Some(0), None, None]);
    assert_eq!(injector.total_triggers(), 2);
    assert_eq!(injector.trigger_count(FaultType::ConnectionRefused), 2);
    // A reset lets the used-up fault trigger again.
    injector.reset_counters();
    assert_eq!(injector.should_trigger("postgres", FaultType::ConnectionRefused, |_| true), Some(0));
}

#[test]
fn disk_write_failure_errors() {
    let sim = DiskSimulator::new("/tmp").with_available_space(10);
    let err = sim.should_fail_write(11).unwrap();
    assert_eq!(err.kind(), WriteErrorKind::Other);
    assert_eq!(err.message(), "Simulated disk full (no space left on device)");
    let sim = DiskSimulator::new("/tmp").with_read_only(true);
    let err = sim.should_fail_write(1).unwrap();
    assert_eq!(err.kind(), WriteErrorKind::PermissionDenied);
    assert_eq!(err.message(), "Simulated read-only filesystem");
}
