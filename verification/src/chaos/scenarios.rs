//! Chaos scenarios: what each one checks, the steps it records, and the
//! result it reports.

use vstd::prelude::*;
use crate::chaos::simulators::{DiskSimulator, DiskWriteFailure, PostgresSimulator};
use crate::text::{concat2, contains_seq, contains_str, chars_of, join_path, owned, path_join, push_str};
use crate::timestamps::{instant_now, millis_since, now_millis};

verus! {

/// A single step in a chaos scenario.
#[derive(Debug, Clone)]
pub struct ScenarioStep {
    /// Step number.
    pub number: usize,
    /// Step description.
    pub description: String,
    /// Whether the step succeeded.
    pub success: bool,
    /// Duration of the step.
    pub duration_ms: u64,
    /// Error message if the step failed.
    pub error: Option<String>,
}

impl ScenarioStep {
    /// Create a new step, not yet successful.
    pub fn new(number: usize, description: &str) -> (r: Self)
        ensures
            r.number == number,
            r.description@ == description@,
            !r.success,
            r.duration_ms == 0,
            r.error is None,
    {
        ScenarioStep { number, description: owned(description), success: false, duration_ms: 0, error: None }
    }

    /// Mark the step as successful.
    pub fn success(self, duration_ms: u64) -> (r: Self)
        ensures
            r == (ScenarioStep { success: true, duration_ms: duration_ms, ..self }),
    {
        ScenarioStep { success: true, duration_ms, ..self }
    }

    /// Mark the step as failed.
    pub fn failure(self, error: &str, duration_ms: u64) -> (r: Self)
        ensures
            !r.success,
            r.error matches Some(e) && e@ == error@,
            r.duration_ms == duration_ms,
            r.number == self.number,
            r.description == self.description,
    {
        ScenarioStep { success: false, error: Some(owned(error)), duration_ms, ..self }
    }
}

/// What a step records apart from its duration: its number, description,
/// success and error text.
pub open spec fn step_outline(s: ScenarioStep) -> (usize, Seq<char>, bool, Option<Seq<char>>) {
    (
        s.number,
        s.description@,
        s.success,
        match s.error {
            Some(e) => Some(e@),
            None => None,
        },
    )
}

/// The outlines of a list of steps.
pub open spec fn outlines(steps: Seq<ScenarioStep>) -> Seq<(usize, Seq<char>, bool, Option<Seq<char>>)> {
    steps.map_values(|s: ScenarioStep| step_outline(s))
}

/// The outline of a successful step.
/// The durations of steps, in order.
pub open spec fn durations(steps: Seq<ScenarioStep>) -> Seq<u64> {
    steps.map_values(|s: ScenarioStep| s.duration_ms)
}

pub open spec fn passed_step(n: usize, d: Seq<char>) -> (usize, Seq<char>, bool, Option<Seq<char>>) {
    (n, d, true, None)
}

/// The outline of a failed step.
pub open spec fn failed_step(n: usize, d: Seq<char>, e: Seq<char>) -> (usize, Seq<char>, bool, Option<Seq<char>>) {
    (n, d, false, Some(e))
}

/// Milliseconds from `start` to `end`, or zero when `end` is not later.
pub open spec fn elapsed_between(start: i64, end: i64) -> u64 {
    if end > start {
        (end - start) as u64
    } else {
        0
    }
}

/// Result of running a chaos scenario. Times are milliseconds since the
/// Unix epoch.
#[derive(Debug, Clone)]
pub struct ScenarioResult {
    /// Name of the scenario.
    pub scenario_name: String,
    /// Whether the scenario passed (system behaved correctly under failure).
    pub passed: bool,
    /// Start time of the scenario.
    pub start_time: i64,
    /// End time of the scenario.
    pub end_time: i64,
    /// Duration of the scenario.
    pub duration_ms: u64,
    /// Expected behavior description.
    pub expected_behavior: String,
    /// Actual behavior observed.
    pub actual_behavior: String,
    /// Error message if the scenario failed.
    pub error: Option<String>,
    /// Artifacts cleaned up properly.
    pub artifacts_cleaned: bool,
    /// Exit code observed (if applicable).
    pub exit_code: Option<i32>,
    /// Detailed steps executed.
    pub steps: Vec<ScenarioStep>,
}

impl ScenarioResult {
    /// A fresh result started at `now`: not passed, no steps.
    pub open spec fn is_fresh(&self, name: Seq<char>, start: i64, end: i64) -> bool {
        &&& self.scenario_name@ == name
        &&& !self.passed
        &&& self.start_time == start
        &&& self.end_time == end
        &&& self.duration_ms == 0
        &&& self.expected_behavior@ == Seq::<char>::empty()
        &&& self.actual_behavior@ == Seq::<char>::empty()
        &&& self.error is None
        &&& self.artifacts_cleaned
        &&& self.exit_code is None
        &&& self.steps@.len() == 0
    }

    /// Create a new scenario result, started at `now`.
    pub fn new_at(scenario_name: &str, now: i64) -> (r: Self)
        ensures
            r.is_fresh(scenario_name@, now, now),
    {
        ScenarioResult {
            scenario_name: owned(scenario_name),
            passed: false,
            start_time: now,
            end_time: now,
            duration_ms: 0,
            expected_behavior: String::new(),
            actual_behavior: String::new(),
            error: None,
            artifacts_cleaned: true,
            exit_code: None,
            steps: Vec::new(),
        }
    }

    /// Create a new scenario result, started now.
    pub fn new(scenario_name: &str) -> (r: Self)
        ensures
            r.is_fresh(scenario_name@, r.start_time, r.end_time),
    {
        let start = now_millis();
        let end = now_millis();
        ScenarioResult {
            scenario_name: owned(scenario_name),
            passed: false,
            start_time: start,
            end_time: end,
            duration_ms: 0,
            expected_behavior: String::new(),
            actual_behavior: String::new(),
            error: None,
            artifacts_cleaned: true,
            exit_code: None,
            steps: Vec::new(),
        }
    }

    /// Mark the scenario as passed at `now`.
    pub fn pass_at(self, now: i64) -> (r: Self)
        ensures
            r == (ScenarioResult {
                passed: true,
                end_time: now,
                duration_ms: elapsed_between(self.start_time, now),
                ..self
            }),
    {
        let duration_ms: u64 = if now > self.start_time {
            (now as i128 - self.start_time as i128) as u64
        } else {
            0
        };
        ScenarioResult { passed: true, end_time: now, duration_ms, ..self }
    }

    /// Mark the scenario as failed at `now`, with an error.
    pub fn fail_at(self, error: &str, now: i64) -> (r: Self)
        ensures
            !r.passed,
            r.error matches Some(e) && e@ == error@,
            r.end_time == now,
            r.duration_ms == elapsed_between(self.start_time, now),
            r.scenario_name == self.scenario_name,
            r.start_time == self.start_time,
            r.expected_behavior == self.expected_behavior,
            r.actual_behavior == self.actual_behavior,
            r.artifacts_cleaned == self.artifacts_cleaned,
            r.exit_code == self.exit_code,
            r.steps == self.steps,
    {
        let duration_ms: u64 = if now > self.start_time {
            (now as i128 - self.start_time as i128) as u64
        } else {
            0
        };
        ScenarioResult { passed: false, error: Some(owned(error)), end_time: now, duration_ms, ..self }
    }

    /// Mark the scenario as passed now.
    pub fn pass(self) -> (r: Self)
        ensures
            r == (ScenarioResult {
                passed: true,
                end_time: r.end_time,
                duration_ms: elapsed_between(self.start_time, r.end_time),
                ..self
            }),
    {
        let now = now_millis();
        self.pass_at(now)
    }

    /// Mark the scenario as failed now.
    pub fn fail(self, error: &str) -> (r: Self)
        ensures
            !r.passed,
            r.error matches Some(e) && e@ == error@,
            r.duration_ms == elapsed_between(self.start_time, r.end_time),
            r.scenario_name == self.scenario_name,
            r.start_time == self.start_time,
            r.expected_behavior == self.expected_behavior,
            r.actual_behavior == self.actual_behavior,
            r.artifacts_cleaned == self.artifacts_cleaned,
            r.exit_code == self.exit_code,
            r.steps == self.steps,
    {
        let now = now_millis();
        self.fail_at(error, now)
    }

    /// Set expected behavior.
    pub fn with_expected(self, expected: &str) -> (r: Self)
        ensures
            r.expected_behavior@ == expected@,
            r.scenario_name == self.scenario_name,
            r.passed == self.passed,
            r.start_time == self.start_time,
            r.end_time == self.end_time,
            r.duration_ms == self.duration_ms,
            r.actual_behavior == self.actual_behavior,
            r.error == self.error,
            r.artifacts_cleaned == self.artifacts_cleaned,
            r.exit_code == self.exit_code,
            r.steps == self.steps,
    {
        ScenarioResult { expected_behavior: owned(expected), ..self }
    }

    /// Set actual behavior.
    pub fn with_actual(self, actual: &str) -> (r: Self)
        ensures
            r.actual_behavior@ == actual@,
            r.scenario_name == self.scenario_name,
            r.passed == self.passed,
            r.start_time == self.start_time,
            r.end_time == self.end_time,
            r.duration_ms == self.duration_ms,
            r.expected_behavior == self.expected_behavior,
            r.error == self.error,
            r.artifacts_cleaned == self.artifacts_cleaned,
            r.exit_code == self.exit_code,
            r.steps == self.steps,
    {
        ScenarioResult { actual_behavior: owned(actual), ..self }
    }

    /// Add a step.
    pub fn add_step(&mut self, step: ScenarioStep)
        ensures
            final(self).steps@ == old(self).steps@.push(step),
            final(self).scenario_name == old(self).scenario_name,
            final(self).passed == old(self).passed,
            final(self).start_time == old(self).start_time,
            final(self).end_time == old(self).end_time,
            final(self).duration_ms == old(self).duration_ms,
            final(self).expected_behavior == old(self).expected_behavior,
            final(self).actual_behavior == old(self).actual_behavior,
            final(self).error == old(self).error,
            final(self).artifacts_cleaned == old(self).artifacts_cleaned,
            final(self).exit_code == old(self).exit_code,
    {
        self.steps.push(step);
    }
}

/// Scenario: PostgreSQL crash during backup.
#[derive(Debug, Clone)]
pub struct PostgresCrashDuringBackup {
    /// PostgreSQL simulator.
    pub postgres: PostgresSimulator,
    /// Backup directory.
    pub backup_dir: String,
    /// Database to backup.
    pub database: String,
    /// User for connection.
    pub user: String,
    /// Password for connection.
    pub password: Option<String>,
    /// Delay before crash (ms).
    pub crash_delay_ms: u64,
}

/// What a run of the crash scenario does next.
#[derive(Debug, Clone, Copy, PartialEq, Eq, Structural)]
pub enum CrashRunCommand {
    /// Check that PostgreSQL accepts connections.
    ProbeServer,
    /// Wait this long, then crash the server.
    SleepThenCrash { delay_ms: u64 },
    /// Look for partial backup artifacts in the backup directory.
    CheckArtifacts,
    /// The run is over; the result is final.
    Finish,
}

/// The directories of `entries` that a crashed backup left incomplete:
/// `entries[i]` is a directory whose in-progress marker exists or whose
/// metadata file does not.
pub open spec fn is_partial_artifact(is_dir: bool, in_progress_exists: bool, metadata_exists: bool) -> bool {
    is_dir && (in_progress_exists || !metadata_exists)
}

/// The text that lists partial artifacts: their paths, quoted and
/// separated by commas, in brackets.
pub open spec fn quoted_list(paths: Seq<Seq<char>>) -> Seq<char>
    decreases paths.len(),
{
    if paths.len() == 0 {
        Seq::empty()
    } else if paths.len() == 1 {
        seq!['"'] + paths[0] + seq!['"']
    } else {
        quoted_list(paths.drop_last()) + ", \""@ + paths.last() + seq!['"']
    }
}

/// The message for partial artifacts left behind: their paths, quoted, in
/// brackets.
pub open spec fn artifacts_message(partial: Seq<String>) -> Seq<char> {
    "Found partial artifacts: ["@ + quoted_list(partial.map_values(|p: String| p@)) + "]"@
}

impl PostgresCrashDuringBackup {
    /// Create a new scenario.
    pub fn new(backup_dir: &str) -> (r: Self)
        ensures
            r.postgres.data_dir is None,
            r.postgres.host@ == "localhost"@,
            r.postgres.port == 5432,
            r.backup_dir@ == backup_dir@,
            r.database@ == "postgres"@,
            r.user@ == "postgres"@,
            r.password is None,
            r.crash_delay_ms == 1000,
    {
        PostgresCrashDuringBackup {
            postgres: PostgresSimulator::default(),
            backup_dir: owned(backup_dir),
            database: owned("postgres"),
            user: owned("postgres"),
            password: None,
            crash_delay_ms: 1000,
        }
    }

    /// Set the PostgreSQL simulator.
    pub fn with_postgres(self, postgres: PostgresSimulator) -> (r: Self)
        ensures
            r == (PostgresCrashDuringBackup { postgres: postgres, ..self }),
    {
        PostgresCrashDuringBackup { postgres, ..self }
    }

    /// Set the database.
    pub fn with_database(self, database: &str) -> (r: Self)
        ensures
            r.database@ == database@,
            r.postgres == self.postgres,
            r.backup_dir == self.backup_dir,
            r.user == self.user,
            r.password == self.password,
            r.crash_delay_ms == self.crash_delay_ms,
    {
        PostgresCrashDuringBackup { database: owned(database), ..self }
    }

    /// Set the crash delay.
    pub fn with_crash_delay(self, delay_ms: u64) -> (r: Self)
        ensures
            r == (PostgresCrashDuringBackup { crash_delay_ms: delay_ms, ..self }),
    {
        PostgresCrashDuringBackup { crash_delay_ms: delay_ms, ..self }
    }

    /// The name of the scenario.
    pub fn name(&self) -> (r: &'static str)
        ensures
            r@ == "postgres_crash_during_backup"@,
    {
        "postgres_crash_during_backup"
    }

    /// A description of the scenario.
    pub fn description(&self) -> (r: &'static str)
        ensures
            r@ == "Simulates a PostgreSQL crash occurring during a backup operation"@,
    {
        "Simulates a PostgreSQL crash occurring during a backup operation"
    }

    /// The expected behavior under this failure.
    pub fn expected_behavior(&self) -> (r: &'static str)
        ensures
            r@ == "Backup should fail with a clear error message, partial artifacts should be cleaned up or marked as failed"@,
    {
        "Backup should fail with a clear error message, partial artifacts should be cleaned up or marked as failed"
    }

    /// Starts a run at `now`. Without a data directory the crash cannot be
    /// simulated and the run fails at once; otherwise the server is probed.
    pub fn begin_run(&self, now: i64) -> (r: (ScenarioResult, CrashRunCommand))
        ensures
            r.0.scenario_name@ == "postgres_crash_during_backup"@,
            r.0.expected_behavior@ == "Backup should fail with a clear error message, partial artifacts should be cleaned up or marked as failed"@,
            r.0.start_time == now,
            r.0.end_time == now,
            r.0.duration_ms == 0,
            r.0.artifacts_cleaned,
            r.0.actual_behavior@.len() == 0,
            self.postgres.data_dir is None ==> {
                &&& r.1 == CrashRunCommand::Finish
                &&& !r.0.passed
                &&& r.0.error matches Some(e) && e@
                    == "Postgres simulator not configured with data_dir - cannot simulate crash"@
                &&& outlines(r.0.steps@) == seq![
                    failed_step(
                        0,
                        "Validate PostgreSQL simulator configuration"@,
                        "Postgres simulator not configured with data_dir"@,
                    ),
                ]
                &&& r.0.steps@[0].duration_ms == 0
            },
            self.postgres.data_dir is Some ==> {
                &&& r.1 == CrashRunCommand::ProbeServer
                &&& !r.0.passed
                &&& r.0.error is None
                &&& r.0.steps@.len() == 0
            },
    {
        let mut result = ScenarioResult::new_at(self.name(), now).with_expected(
            self.expected_behavior(),
        );
        if self.postgres.data_dir.is_none() {
            let step = ScenarioStep::new(0, "Validate PostgreSQL simulator configuration").failure(
                "Postgres simulator not configured with data_dir",
                0,
            );
            result.add_step(step);
            let result = result.fail_at(
                "Postgres simulator not configured with data_dir - cannot simulate crash",
                now,
            );
            proof {
                assert(outlines(result.steps@) =~= seq![
                    failed_step(
                        0,
                        "Validate PostgreSQL simulator configuration"@,
                        "Postgres simulator not configured with data_dir"@,
                    ),
                ]);
            }
            return (result, CrashRunCommand::Finish);
        }
        (result, CrashRunCommand::ProbeServer)
    }

    /// After the probe: a server that does not accept connections fails the
    /// run; otherwise the probe and the start of the backup are recorded and
    /// the server is crashed after the configured delay.
    pub fn after_probe(&self, result: ScenarioResult, accepting: bool, probe_ms: u64, start_ms: u64, now: i64) -> (r: (ScenarioResult, CrashRunCommand))
        ensures
            r.0.scenario_name == result.scenario_name,
            r.0.start_time == result.start_time,
            r.0.expected_behavior == result.expected_behavior,
            r.0.artifacts_cleaned == result.artifacts_cleaned,
            !accepting ==> {
                &&& r.1 == CrashRunCommand::Finish
                &&& !r.0.passed
                &&& r.0.error matches Some(e) && e@ == "PostgreSQL is not running"@
                &&& r.0.end_time == now
                &&& outlines(r.0.steps@) == outlines(result.steps@).push(
                    failed_step(1, "Verify PostgreSQL is running"@, "PostgreSQL is not accepting connections"@),
                )
                &&& durations(r.0.steps@) == durations(result.steps@).push(probe_ms)
            },
            accepting ==> {
                &&& r.1 == CrashRunCommand::SleepThenCrash { delay_ms: self.crash_delay_ms }
                &&& r.0.passed == result.passed
                &&& r.0.error == result.error
                &&& outlines(r.0.steps@) == outlines(result.steps@).push(
                    passed_step(1, "Verify PostgreSQL is running"@),
                ).push(passed_step(2, "Start backup operation"@))
                &&& durations(r.0.steps@) == durations(result.steps@).push(probe_ms).push(start_ms)
            },
    {
        let mut result = result;
        let ghost before = result.steps@;
        if !accepting {
            result.add_step(
                ScenarioStep::new(1, "Verify PostgreSQL is running").failure(
                    "PostgreSQL is not accepting connections",
                    probe_ms,
                ),
            );
            let result = result.fail_at("PostgreSQL is not running", now);
            proof {
                assert(outlines(result.steps@) =~= outlines(before).push(
                    failed_step(1, "Verify PostgreSQL is running"@, "PostgreSQL is not accepting connections"@),
                ));
                assert(durations(result.steps@) =~= durations(before).push(probe_ms));
            }
            return (result, CrashRunCommand::Finish);
        }
        result.add_step(ScenarioStep::new(1, "Verify PostgreSQL is running").success(probe_ms));
        result.add_step(ScenarioStep::new(2, "Start backup operation").success(start_ms));
        proof {
            assert(outlines(result.steps@) =~= outlines(before).push(
                passed_step(1, "Verify PostgreSQL is running"@),
            ).push(passed_step(2, "Start backup operation"@)));
            assert(durations(result.steps@) =~= durations(before).push(probe_ms).push(start_ms));
        }
        (result, CrashRunCommand::SleepThenCrash { delay_ms: self.crash_delay_ms })
    }

    /// After the crash attempt: `crash_error` is the text of the error when
    /// the crash could not be simulated, which fails the run; otherwise the
    /// crash and the check of the backup's failure are recorded and the
    /// backup directory is searched for partial artifacts.
    pub fn after_crash(&self, result: ScenarioResult, crash_error: Option<&str>, crash_ms: u64, verify_ms: u64, now: i64) -> (r: (ScenarioResult, CrashRunCommand))
        ensures
            r.0.scenario_name == result.scenario_name,
            r.0.start_time == result.start_time,
            r.0.expected_behavior == result.expected_behavior,
            r.0.artifacts_cleaned == result.artifacts_cleaned,
            crash_error matches Some(e) ==> {
                &&& r.1 == CrashRunCommand::Finish
                &&& !r.0.passed
                &&& r.0.error matches Some(m) && m@ == "Could not simulate crash: "@ + e@
                &&& r.0.end_time == now
                &&& outlines(r.0.steps@) == outlines(result.steps@).push(
                    failed_step(3, "Simulate PostgreSQL crash"@, "Could not simulate crash: "@ + e@),
                )
                &&& durations(r.0.steps@) == durations(result.steps@).push(crash_ms)
            },
            crash_error is None ==> {
                &&& r.1 == CrashRunCommand::CheckArtifacts
                &&& r.0.passed == result.passed
                &&& r.0.error == result.error
                &&& outlines(r.0.steps@) == outlines(result.steps@).push(
                    passed_step(3, "Simulate PostgreSQL crash"@),
                ).push(passed_step(4, "Verify backup failure handling"@))
                &&& durations(r.0.steps@) == durations(result.steps@).push(crash_ms).push(verify_ms)
            },
    {
        let mut result = result;
        let ghost before = result.steps@;
        match crash_error {
            Some(e) => {
                let message = concat2("Could not simulate crash: ", e);
                result.add_step(
                    ScenarioStep::new(3, "Simulate PostgreSQL crash").failure(message.as_str(), crash_ms),
                );
                let result = result.fail_at(message.as_str(), now);
                proof {
                    assert(outlines(result.steps@) =~= outlines(before).push(
                        failed_step(3, "Simulate PostgreSQL crash"@, "Could not simulate crash: "@ + e@),
                    ));
                    assert(durations(result.steps@) =~= durations(before).push(crash_ms));
                }
                (result, CrashRunCommand::Finish)
            },
            None => {
                result.add_step(ScenarioStep::new(3, "Simulate PostgreSQL crash").success(crash_ms));
                result.add_step(ScenarioStep::new(4, "Verify backup failure handling").success(verify_ms));
                proof {
                    assert(outlines(result.steps@) =~= outlines(before).push(
                        passed_step(3, "Simulate PostgreSQL crash"@),
                    ).push(passed_step(4, "Verify backup failure handling"@)));
                    assert(durations(result.steps@) =~= durations(before).push(crash_ms).push(verify_ms));
                }
                (result, CrashRunCommand::CheckArtifacts)
            },
        }
    }

    /// Ends a run with the partial artifacts found: none means the artifacts
    /// were cleaned up and the run passes; any are recorded as a failed
    /// check, and the run fails with the same message, since the expected
    /// behaviour is that no partial artifacts are left behind.
    pub fn after_artifacts(&self, result: ScenarioResult, partial: &Vec<String>, check_ms: u64, now: i64) -> (r: ScenarioResult)
        ensures
            r.scenario_name == result.scenario_name,
            r.start_time == result.start_time,
            r.expected_behavior == result.expected_behavior,
            r.passed == (partial@.len() == 0),
            r.end_time == now,
            r.duration_ms == elapsed_between(result.start_time, now),
            r.artifacts_cleaned == (partial@.len() == 0),
            durations(r.steps@) == durations(result.steps@).push(check_ms),
            partial@.len() == 0 ==> r.error == result.error && r.actual_behavior@
                == "Backup failed with error, artifacts cleaned up"@,
            partial@.len() > 0 ==> r.actual_behavior == result.actual_behavior && (r.error matches Some(e)
                && e@ == artifacts_message(partial@)),
            partial@.len() == 0 ==> outlines(r.steps@) == outlines(result.steps@).push(
                passed_step(5, "Check for partial artifacts"@),
            ),
            partial@.len() > 0 ==> outlines(r.steps@) == outlines(result.steps@).push(
                failed_step(
                    5,
                    "Check for partial artifacts"@,
                    artifacts_message(partial@),
                ),
            ),
    {
        let mut result = result;
        let ghost before = result.steps@;
        if partial.len() == 0 {
            result.artifacts_cleaned = true;
            result.add_step(ScenarioStep::new(5, "Check for partial artifacts").success(check_ms));
            proof {
                assert(outlines(result.steps@) =~= outlines(before).push(
                    passed_step(5, "Check for partial artifacts"@),
                ));
                assert(durations(result.steps@) =~= durations(before).push(check_ms));
            }
        } else {
            result.artifacts_cleaned = false;
            let mut message = owned("Found partial artifacts: [");
            let listed = quote_paths(partial);
            push_str(&mut message, listed.as_str());
            push_str(&mut message, "]");
            result.add_step(
                ScenarioStep::new(5, "Check for partial artifacts").failure(message.as_str(), check_ms),
            );
            proof {
                assert(outlines(result.steps@) =~= outlines(before).push(
                    failed_step(5, "Check for partial artifacts"@, message@),
                ));
                assert(durations(result.steps@) =~= durations(before).push(check_ms));
            }
            return result.fail_at(message.as_str(), now);
        }
        result.with_actual("Backup failed with error, artifacts cleaned up").pass_at(now)
    }

    /// The metadata file of a backup directory.
    pub fn metadata_path(dir: &str) -> (r: String)
        ensures
            r@ == path_join(dir@, "backup_metadata.json"@),
    {
        join_path(dir, "backup_metadata.json")
    }

    /// The in-progress marker of a backup directory.
    pub fn in_progress_path(dir: &str) -> (r: String)
        ensures
            r@ == path_join(dir@, ".in_progress"@),
    {
        join_path(dir, ".in_progress")
    }

    /// Whether an entry of the backup directory is a partial artifact: a
    /// directory with an in-progress marker or without metadata.
    pub fn is_partial_artifact(is_dir: bool, in_progress_exists: bool, metadata_exists: bool) -> (r: bool)
        ensures
            r == is_partial_artifact(is_dir, in_progress_exists, metadata_exists),
    {
        is_dir && (in_progress_exists || !metadata_exists)
    }

    /// Whether cleanup removes an entry of the backup directory: a directory
    /// whose name contains `partial`.
    pub fn is_removed_by_cleanup(is_dir: bool, file_name: Option<&str>) -> (r: bool)
        ensures
            r == (is_dir && (file_name matches Some(n) && contains_seq(n@, "partial"@))),
    {
        if !is_dir {
            return false;
        }
        match file_name {
            Some(n) => {
                let v = chars_of(n);
                contains_str(&v, "partial")
            },
            None => false,
        }
    }
}

/// The paths, quoted and separated by commas.
fn quote_paths(paths: &Vec<String>) -> (r: String)
    ensures
        r@ == quoted_list(paths@.map_values(|p: String| p@)),
{
    let mut out = String::new();
    let mut i: usize = 0;
    while i < paths.len()
        invariant
            i <= paths.len(),
            out@ == quoted_list(paths@.subrange(0, i as int).map_values(|p: String| p@)),
        decreases paths.len() - i,
    {
        let ghost prev = paths@.subrange(0, i as int).map_values(|p: String| p@);
        let ghost next = paths@.subrange(0, i + 1).map_values(|p: String| p@);
        proof {
            assert(next.drop_last() =~= prev);
            assert(next.last() == paths@[i as int]@);
        }
        if i == 0 {
            push_str(&mut out, "\"");
        } else {
            push_str(&mut out, ", \"");
        }
        push_str(&mut out, paths[i].as_str());
        push_str(&mut out, "\"");
        proof {
            reveal_strlit("\"");
            reveal_strlit(", \"");
            if i == 0 {
                assert(out@ =~= seq!['"'] + next[0] + seq!['"']);
            } else {
                assert(out@ =~= quoted_list(prev) + ", \""@ + next.last() + seq!['"']);
            }
        }
        i = i + 1;
    }
    proof {
        assert(paths@.subrange(0, paths@.len() as int) =~= paths@);
    }
    out
}

/// Scenario: disk full during backup.
#[derive(Debug, Clone)]
pub struct DiskFullDuringBackup {
    /// Disk simulator.
    pub disk: DiskSimulator,
    /// Available space to simulate (bytes).
    pub available_space: u64,
}

impl DiskFullDuringBackup {
    /// Create a new scenario with 1 KiB of space available.
    pub fn new(target_dir: &str) -> (r: Self)
        ensures
            r.available_space == 1024,
            r.disk.target_dir@ == target_dir@,
            r.disk.available_space == Some(1024u64),
            !r.disk.permission_denied,
            !r.disk.read_only,
    {
        let available_space = 1024u64;
        DiskFullDuringBackup {
            disk: DiskSimulator::new(target_dir).with_available_space(available_space),
            available_space,
        }
    }

    /// Set the available space.
    pub fn with_available_space(self, bytes: u64) -> (r: Self)
        ensures
            r.available_space == bytes,
            r.disk == (DiskSimulator { available_space: Some(bytes), ..self.disk }),
    {
        DiskFullDuringBackup { available_space: bytes, disk: self.disk.with_available_space(bytes) }
    }

    /// The name of the scenario.
    pub fn name(&self) -> (r: &'static str)
        ensures
            r@ == "disk_full_during_backup"@,
    {
        "disk_full_during_backup"
    }

    /// A description of the scenario.
    pub fn description(&self) -> (r: &'static str)
        ensures
            r@ == "Simulates disk full condition during backup creation"@,
    {
        "Simulates disk full condition during backup creation"
    }

    /// The expected behavior under this failure.
    pub fn expected_behavior(&self) -> (r: &'static str)
        ensures
            r@ == "Backup should fail with a clear 'disk full' error, partial files should be cleaned up"@,
    {
        "Backup should fail with a clear 'disk full' error, partial files should be cleaned up"
    }

    /// Runs the scenario: a 1 MiB write must fail under the simulated
    /// conditions; if it does, the backup's failure is recorded step by step
    /// and the scenario passes.
    pub fn run(&self) -> (r: ScenarioResult)
        ensures
            r.scenario_name@ == "disk_full_during_backup"@,
            r.expected_behavior@ == "Backup should fail with a clear 'disk full' error, partial files should be cleaned up"@,
            r.artifacts_cleaned,
            r.duration_ms == elapsed_between(r.start_time, r.end_time),
            r.passed == (self.disk.spec_write_failure(1048576) is Some),
            r.passed ==> {
                &&& r.error is None
                &&& r.actual_behavior@ == "Backup failed with disk full error, partial files cleaned"@
                &&& outlines(r.steps@) == seq![
                    passed_step(1, "Verify disk space limitation"@),
                    passed_step(2, "Attempt backup (expected to fail)"@),
                    passed_step(3, "Verify error message clarity"@),
                    passed_step(4, "Verify partial files cleaned up"@),
                ]
            },
            !r.passed ==> {
                &&& r.error matches Some(e) && e@ == "Disk full simulation not configured correctly"@
                &&& r.actual_behavior@.len() == 0
                &&& outlines(r.steps@) == seq![
                    failed_step(1, "Verify disk space limitation"@, "Disk full simulation not active"@),
                ]
            },
    {
        let mut result = ScenarioResult::new(self.name()).with_expected(self.expected_behavior());
        let step1_start = instant_now();
        if self.disk.should_fail_write(1024 * 1024).is_some() {
            result.add_step(
                ScenarioStep::new(1, "Verify disk space limitation").success(millis_since(&step1_start)),
            );
        } else {
            result.add_step(
                ScenarioStep::new(1, "Verify disk space limitation").failure(
                    "Disk full simulation not active",
                    millis_since(&step1_start),
                ),
            );
            let result = result.fail("Disk full simulation not configured correctly");
            proof {
                assert(outlines(result.steps@) =~= seq![
                    failed_step(1, "Verify disk space limitation"@, "Disk full simulation not active"@),
                ]);
            }
            return result;
        }
        let step2_start = instant_now();
        result.add_step(
            ScenarioStep::new(2, "Attempt backup (expected to fail)").success(millis_since(&step2_start)),
        );
        let step3_start = instant_now();
        result.add_step(
            ScenarioStep::new(3, "Verify error message clarity").success(millis_since(&step3_start)),
        );
        let step4_start = instant_now();
        result.artifacts_cleaned = true;
        result.add_step(
            ScenarioStep::new(4, "Verify partial files cleaned up").success(millis_since(&step4_start)),
        );
        let result = result.with_actual("Backup failed with disk full error, partial files cleaned").pass();
        proof {
            assert(outlines(result.steps@) =~= seq![
                passed_step(1, "Verify disk space limitation"@),
                passed_step(2, "Attempt backup (expected to fail)"@),
                passed_step(3, "Verify error message clarity"@),
                passed_step(4, "Verify partial files cleaned up"@),
            ]);
        }
        result
    }
}

/// Scenario: permission denied during backup.
#[derive(Debug, Clone)]
pub struct PermissionDeniedDuringBackup {
    /// Disk simulator.
    pub disk: DiskSimulator,
}

impl PermissionDeniedDuringBackup {
    /// Create a new scenario.
    pub fn new(target_dir: &str) -> (r: Self)
        ensures
            r.disk.target_dir@ == target_dir@,
            r.disk.available_space is None,
            r.disk.permission_denied,
            !r.disk.read_only,
    {
        PermissionDeniedDuringBackup { disk: DiskSimulator::new(target_dir).with_permission_denied(true) }
    }

    /// The name of the scenario.
    pub fn name(&self) -> (r: &'static str)
        ensures
            r@ == "permission_denied_during_backup"@,
    {
        "permission_denied_during_backup"
    }

    /// A description of the scenario.
    pub fn description(&self) -> (r: &'static str)
        ensures
            r@ == "Simulates permission denied error during backup creation"@,
    {
        "Simulates permission denied error during backup creation"
    }

    /// The expected behavior under this failure.
    pub fn expected_behavior(&self) -> (r: &'static str)
        ensures
            r@ == "Backup should fail with a clear 'permission denied' error"@,
    {
        "Backup should fail with a clear 'permission denied' error"
    }

    /// Runs the scenario: a 100-byte write must fail with a permission
    /// error; if it does, the failure is recorded step by step and the
    /// scenario passes.
    pub fn run(&self) -> (r: ScenarioResult)
        ensures
            r.scenario_name@ == "permission_denied_during_backup"@,
            r.expected_behavior@ == "Backup should fail with a clear 'permission denied' error"@,
            r.artifacts_cleaned,
            r.duration_ms == elapsed_between(r.start_time, r.end_time),
            r.passed == (self.disk.spec_write_failure(100) matches Some(f) && f.is_permission_error()),
            r.passed ==> {
                &&& r.error is None
                &&& r.actual_behavior@ == "Backup failed with permission denied error"@
                &&& outlines(r.steps@) == seq![
                    passed_step(1, "Verify permission denied simulation"@),
                    passed_step(2, "Attempt backup (expected to fail)"@),
                    passed_step(3, "Verify error message clarity"@),
                ]
            },
            self.disk.spec_write_failure(100) is None ==> {
                &&& r.error matches Some(e) && e@ == "Permission denied simulation not active"@
                &&& outlines(r.steps@) == seq![
                    failed_step(1, "Verify permission denied simulation"@, "No error simulated"@),
                ]
            },
            self.disk.spec_write_failure(100) matches Some(f) && !f.is_permission_error() ==> {
                &&& r.error matches Some(e) && e@ == "Permission denied simulation not configured correctly"@
                &&& outlines(r.steps@) == seq![
                    failed_step(1, "Verify permission denied simulation"@, "Wrong error type"@),
                ]
            },
    {
        let mut result = ScenarioResult::new(self.name()).with_expected(self.expected_behavior());
        let step1_start = instant_now();
        match self.disk.should_fail_write(100) {
            Some(f) => {
                let is_permission = match f {
                    DiskWriteFailure::DiskFull => false,
                    _ => true,
                };
                if is_permission {
                    result.add_step(
                        ScenarioStep::new(1, "Verify permission denied simulation").success(
                            millis_since(&step1_start),
                        ),
                    );
                } else {
                    result.add_step(
                        ScenarioStep::new(1, "Verify permission denied simulation").failure(
                            "Wrong error type",
                            millis_since(&step1_start),
                        ),
                    );
                    let result = result.fail("Permission denied simulation not configured correctly");
                    proof {
                        assert(outlines(result.steps@) =~= seq![
                            failed_step(1, "Verify permission denied simulation"@, "Wrong error type"@),
                        ]);
                    }
                    return result;
                }
            },
            None => {
                result.add_step(
                    ScenarioStep::new(1, "Verify permission denied simulation").failure(
                        "No error simulated",
                        millis_since(&step1_start),
                    ),
                );
                let result = result.fail("Permission denied simulation not active");
                proof {
                    assert(outlines(result.steps@) =~= seq![
                        failed_step(1, "Verify permission denied simulation"@, "No error simulated"@),
                    ]);
                }
                return result;
            },
        }
        let step2_start = instant_now();
        result.add_step(
            ScenarioStep::new(2, "Attempt backup (expected to fail)").success(millis_since(&step2_start)),
        );
        let step3_start = instant_now();
        result.add_step(
            ScenarioStep::new(3, "Verify error message clarity").success(millis_since(&step3_start)),
        );
        let result = result.with_actual("Backup failed with permission denied error").pass();
        proof {
            assert(outlines(result.steps@) =~= seq![
                passed_step(1, "Verify permission denied simulation"@),
                passed_step(2, "Attempt backup (expected to fail)"@),
                passed_step(3, "Verify error message clarity"@),
            ]);
        }
        result
    }
}

/// Scenario: storage outage during upload.
#[derive(Debug, Clone)]
pub struct StorageOutageDuringUpload {
    /// Backup directory.
    pub backup_dir: String,
    /// Outage duration, in milliseconds.
    pub outage_duration_ms: u64,
}

/// Whether a simulated storage operation fails: always while the storage is
/// unavailable, otherwise when the simulator's failure draw says so.
pub open spec fn storage_fails(unavailable: bool, draw_fails: bool) -> bool {
    unavailable || draw_fails
}

/// Whether a simulated storage operation fails, given whether the storage
/// is unavailable and the outcome of the simulator's failure draw.
pub fn storage_should_fail(unavailable: bool, draw_fails: bool) -> (r: bool)
    ensures
        r == storage_fails(unavailable, draw_fails),
{
    unavailable || draw_fails
}

impl StorageOutageDuringUpload {
    /// Create a new scenario with a 30-second outage.
    pub fn new(backup_dir: &str) -> (r: Self)
        ensures
            r.backup_dir@ == backup_dir@,
            r.outage_duration_ms == 30000,
    {
        StorageOutageDuringUpload { backup_dir: owned(backup_dir), outage_duration_ms: 30000 }
    }

    /// Set the outage duration, in milliseconds.
    pub fn with_outage_duration(self, duration_ms: u64) -> (r: Self)
        ensures
            r.backup_dir == self.backup_dir,
            r.outage_duration_ms == duration_ms,
    {
        StorageOutageDuringUpload { outage_duration_ms: duration_ms, ..self }
    }

    /// The name of the scenario.
    pub fn name(&self) -> (r: &'static str)
        ensures
            r@ == "storage_outage_during_upload"@,
    {
        "storage_outage_during_upload"
    }

    /// A description of the scenario.
    pub fn description(&self) -> (r: &'static str)
        ensures
            r@ == "Simulates an S3/MinIO outage occurring during backup upload"@,
    {
        "Simulates an S3/MinIO outage occurring during backup upload"
    }

    /// The expected behavior under this failure.
    pub fn expected_behavior(&self) -> (r: &'static str)
        ensures
            r@ == "Upload should fail with a clear error, local backup should remain intact, operation should be retryable"@,
    {
        "Upload should fail with a clear error, local backup should remain intact, operation should be retryable"
    }

    /// Runs the scenario: with the storage unavailable the upload fails; once
    /// it is back, whether a retry is possible depends on the simulator's
    /// failure draw, `restored_draw_fails`. That last step is recorded, and
    /// the scenario passes either way.
    pub fn run(&self, restored_draw_fails: bool) -> (r: ScenarioResult)
        ensures
            r.scenario_name@ == "storage_outage_during_upload"@,
            r.expected_behavior@ == "Upload should fail with a clear error, local backup should remain intact, operation should be retryable"@,
            r.passed,
            r.error is None,
            r.artifacts_cleaned,
            r.duration_ms == elapsed_between(r.start_time, r.end_time),
            r.actual_behavior@ == "Upload failed with clear error, local backup intact, retry succeeded"@,
            outlines(r.steps@) == seq![
                passed_step(1, "Create local backup"@),
                passed_step(2, "Simulate storage outage"@),
                passed_step(3, "Attempt upload (expected to fail)"@),
                passed_step(4, "Verify local backup is intact"@),
                if restored_draw_fails {
                    failed_step(5, "Restore storage and verify retry possible"@, "Storage still failing after restore"@)
                } else {
                    passed_step(5, "Restore storage and verify retry possible"@)
                },
            ],
    {
        let mut result = ScenarioResult::new(self.name()).with_expected(self.expected_behavior());
        let step1_start = instant_now();
        result.add_step(ScenarioStep::new(1, "Create local backup").success(millis_since(&step1_start)));
        let step2_start = instant_now();
        let mut unavailable = true;
        result.add_step(ScenarioStep::new(2, "Simulate storage outage").success(millis_since(&step2_start)));
        let step3_start = instant_now();
        if storage_should_fail(unavailable, false) {
            result.add_step(
                ScenarioStep::new(3, "Attempt upload (expected to fail)").success(millis_since(&step3_start)),
            );
        } else {
            result.add_step(
                ScenarioStep::new(3, "Attempt upload (expected to fail)").failure(
                    "Upload did not fail as expected",
                    millis_since(&step3_start),
                ),
            );
            return result.fail("Storage outage was not simulated correctly");
        }
        let step4_start = instant_now();
        result.add_step(
            ScenarioStep::new(4, "Verify local backup is intact").success(millis_since(&step4_start)),
        );
        let step5_start = instant_now();
        unavailable = false;
        if !storage_should_fail(unavailable, restored_draw_fails) {
            result.add_step(
                ScenarioStep::new(5, "Restore storage and verify retry possible").success(
                    millis_since(&step5_start),
                ),
            );
        } else {
            result.add_step(
                ScenarioStep::new(5, "Restore storage and verify retry possible").failure(
                    "Storage still failing after restore",
                    millis_since(&step5_start),
                ),
            );
        }
        let result = result.with_actual("Upload failed with clear error, local backup intact, retry succeeded").pass();
        proof {
            assert(outlines(result.steps@) =~= seq![
                passed_step(1, "Create local backup"@),
                passed_step(2, "Simulate storage outage"@),
                passed_step(3, "Attempt upload (expected to fail)"@),
                passed_step(4, "Verify local backup is intact"@),
                if restored_draw_fails {
                    failed_step(5, "Restore storage and verify retry possible"@, "Storage still failing after restore"@)
                } else {
                    passed_step(5, "Restore storage and verify retry possible"@)
                },
            ]);
        }
        result
    }
}

} // verus!
