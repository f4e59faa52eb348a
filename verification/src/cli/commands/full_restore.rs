//! Full restore: the restore mode, the options, the connection to the
//! target and the decisions between the steps of a restore.

use vstd::prelude::*;
use crate::cli::commands::{connection_config, SshOptions, StorageOptions};
use crate::common::PostgresConfig;
use crate::text::{decimal, decimal_i64, decimal_u64, push_str, quote_text, quoted, signed_decimal};
use crate::timestamps::{display_utc, utc_display};
use crate::units::{fixed_text, format_fixed_pow2};
use crate::cli::commands::whole_seconds_between;
use crate::cli::commands::schedule::seconds_between;
use crate::text::{chars_of, join_path, lowercase, owned, path_join, str_eq, string_of, to_lowercase, trim_chars, trim_seq};

verus! {

/// How a backup is restored onto the target server.
#[derive(Debug, Clone, PartialEq, Eq)]
pub enum RestoreMode {
    /// Replace the existing database.
    Replace,
    /// Restore into a new database of this name.
    NewDatabase { target_name: String },
}

/// The restore mode a target database name asks for: a new database when
/// one is named that differs from the backed-up database, else replacing
/// it.
pub fn restore_mode_for(database: &str, target_database: Option<String>) -> (r: RestoreMode)
    ensures
        match target_database {
            Some(t) => if t@ != database@ {
                r matches RestoreMode::NewDatabase { target_name } && target_name@ == t@
            } else {
                r matches RestoreMode::Replace
            },
            None => r matches RestoreMode::Replace,
        },
{
    match target_database {
        Some(t) => if !str_eq(t.as_str(), database) {
            RestoreMode::NewDatabase { target_name: t }
        } else {
            RestoreMode::Replace
        },
        None => RestoreMode::Replace,
    }
}

/// Options for the full restore command
#[derive(Debug, Clone)]
pub struct FullRestoreOptions {
    /// Backup identifier (UUID or path)
    pub backup_id: String,
    /// Target PostgreSQL host
    pub host: String,
    /// Target PostgreSQL port
    pub port: u16,
    /// Target database name
    pub database: String,
    /// PostgreSQL user
    pub user: String,
    /// PostgreSQL password
    pub password: Option<String>,
    /// SSL mode
    pub ssl_mode: Option<String>,
    /// Local backup directory
    pub backup_dir: String,
    /// Restore mode: replace existing or create new database
    pub mode: RestoreMode,
    /// Skip confirmation prompts
    pub yes: bool,
    /// Dry run - show plan without executing
    pub dry_run: bool,
    /// Output format (table, json)
    pub format: String,
    /// SSH options for remote target
    pub ssh: SshOptions,
    /// Storage options for remote backup
    pub storage: StorageOptions,
}

/// The connection to the restore target: as for any command, with
/// `postgres` as the maintenance database.
pub fn restore_connection_config(
    host: &str,
    port: u16,
    database: &str,
    user: &str,
    password: Option<String>,
    ssl_mode: Option<String>,
    ssh: &SshOptions,
) -> (r: PostgresConfig)
    ensures
        ssh.host is Some ==> r.host@ == "localhost"@ && r.port == match ssh.local_port {
            Some(p) => p,
            None => crate::cli::commands::DEFAULT_TUNNEL_PORT,
        },
        ssh.host is None ==> r.host@ == host@ && r.port == port,
        r.database@ == database@,
        r.user@ == user@,
        r.password == password,
        r.ssl_mode == ssl_mode,
        r.maintenance_db matches Some(m) && m@ == "postgres"@,
        r.ssh_host == ssh.host,
        r.ssh_user == ssh.user,
        r.ssh_port == ssh.port,
        r.ssh_password == ssh.password,
        r.ssh_key_path == ssh.key_path,
        r.ssh_local_port == ssh.local_port,
        r.ssh_remote_port == ssh.remote_port,
{
    let c = connection_config(host, port, database, user, password, ssl_mode, ssh);
    PostgresConfig { maintenance_db: Some(owned("postgres")), ..c }
}

/// Where a downloaded backup is kept: its identifier under the backup
/// directory.
pub fn download_path(backup_dir: &str, backup_id: &str) -> (r: String)
    ensures
        r@ == path_join(backup_dir@, backup_id@),
{
    join_path(backup_dir, backup_id)
}

/// The answer to the confirmation prompt goes ahead: trimmed and in lower
/// case, it is `y` or `yes`.
pub fn restore_confirmed(input: &str) -> (r: bool)
    ensures
        r == (lowercase(trim_seq(input@)) == "y"@ || lowercase(trim_seq(input@)) == "yes"@),
{
    let v = chars_of(input);
    let t = trim_chars(&v);
    let ts = string_of(&t);
    let l = to_lowercase(ts.as_str());
    str_eq(l.as_str(), "y") || str_eq(l.as_str(), "yes")
}

/// What a restore does after its plan is made.
#[derive(Debug, Clone, Copy, PartialEq, Eq, Structural)]
pub enum PlanStep {
    /// A dry run: stop after showing the plan.
    Stop,
    /// Ask for confirmation before executing.
    Confirm,
    /// Execute the plan.
    Execute,
}

/// Decides what follows the plan: a dry run stops; a plan that needs
/// confirmation asks for it unless `yes` was given; otherwise it runs.
pub fn after_plan(dry_run: bool, requires_confirmation: bool, yes: bool) -> (r: PlanStep)
    ensures
        r == if dry_run {
            PlanStep::Stop
        } else if requires_confirmation && !yes {
            PlanStep::Confirm
        } else {
            PlanStep::Execute
        },
{
    if dry_run {
        PlanStep::Stop
    } else if requires_confirmation && !yes {
        PlanStep::Confirm
    } else {
        PlanStep::Execute
    }
}

// ---------------------------------------------------------------------------
// What the restore shows: the preflight checks, the plan and the result
// ---------------------------------------------------------------------------

/// The backup that a preflight check found. `created_at` is in
/// milliseconds since the Unix epoch.
#[derive(Debug, Clone)]
pub struct PreflightBackupInfo {
    pub id: String,
    pub backup_type: String,
    pub database: Option<String>,
    pub size_bytes: u64,
    pub created_at: i64,
    pub server_version: Option<String>,
}

/// A client tool found on the restoring machine.
#[derive(Debug, Clone)]
pub struct ToolInfo {
    pub path: String,
}

/// The client tools a restore uses, where they were found.
#[derive(Debug, Clone)]
pub struct RestoreTools {
    pub pg_restore: Option<ToolInfo>,
    pub psql: Option<ToolInfo>,
    pub createdb: Option<ToolInfo>,
    pub dropdb: Option<ToolInfo>,
}

/// A problem that stops the restore.
#[derive(Debug, Clone)]
pub struct PreflightError {
    pub code: String,
    pub message: String,
    pub details: Option<String>,
}

/// A problem that does not stop the restore.
#[derive(Debug, Clone)]
pub struct PreflightWarning {
    pub code: String,
    pub message: String,
    pub recommendation: Option<String>,
}

/// What the checks before a restore found. `target_state` is the state of
/// the target database as the checks name it.
#[derive(Debug, Clone)]
pub struct PreflightResult {
    pub passed: bool,
    pub backup_info: Option<PreflightBackupInfo>,
    pub target_state: String,
    pub tools: RestoreTools,
    pub errors: Vec<PreflightError>,
    pub warnings: Vec<PreflightWarning>,
}

/// The line for a client tool: its quoted path, or that it was not found.
pub open spec fn tool_line(name: Seq<char>, t: Option<ToolInfo>) -> Seq<char> {
    match t {
        Some(x) => "   "@ + name + ": ✓ "@ + quoted(x.path@) + "\n"@,
        None => "   "@ + name + ": ✗ not found\n"@,
    }
}

/// The lines of an error: code and message, then its details if any.
pub open spec fn error_entry(e: PreflightError) -> Seq<char> {
    "   ["@ + e.code@ + "] "@ + e.message@ + "\n"@ + match e.details {
        Some(d) => "      "@ + d@ + "\n"@,
        None => Seq::empty(),
    }
}

/// The lines of a list of errors.
pub open spec fn error_entries(v: Seq<PreflightError>) -> Seq<char>
    decreases v.len(),
{
    if v.len() == 0 {
        Seq::empty()
    } else {
        error_entries(v.drop_last()) + error_entry(v.last())
    }
}

/// The lines of a warning: code and message, then its recommendation if
/// any.
pub open spec fn warning_entry(w: PreflightWarning) -> Seq<char> {
    "   ["@ + w.code@ + "] "@ + w.message@ + "\n"@ + match w.recommendation {
        Some(r) => "      Recommendation: "@ + r@ + "\n"@,
        None => Seq::empty(),
    }
}

/// The lines of a list of warnings.
pub open spec fn warning_entries(v: Seq<PreflightWarning>) -> Seq<char>
    decreases v.len(),
{
    if v.len() == 0 {
        Seq::empty()
    } else {
        warning_entries(v.drop_last()) + warning_entry(v.last())
    }
}

/// The backup section: identifier, type, database, size in bytes and MiB,
/// creation time and server version.
pub open spec fn backup_info_text(b: PreflightBackupInfo) -> Seq<char> {
    "\n📦 Backup Information:\n"@ + "   ID: "@ + b.id@ + "\n"@ + "   Type: "@ + b.backup_type@ + "\n"@
        + match b.database {
        Some(d) => "   Database: "@ + d@ + "\n"@,
        None => Seq::empty(),
    } + "   Size: "@ + decimal(b.size_bytes as nat) + " bytes ("@ + fixed_text(b.size_bytes as nat, 20, 2)
        + " MB)\n"@ + "   Created: "@ + utc_display(b.created_at) + "\n"@ + match b.server_version {
        Some(v) => "   Server Version: "@ + v@ + "\n"@,
        None => Seq::empty(),
    }
}

/// The preflight report as the restore prints it in text form.
pub open spec fn preflight_text(p: PreflightResult) -> Seq<char> {
    "\n=== Preflight Validation ===\n"@ + "Status: "@ + (if p.passed {
        "✓ PASSED"@
    } else {
        "✗ FAILED"@
    }) + "\n"@ + match p.backup_info {
        Some(b) => backup_info_text(b),
        None => Seq::empty(),
    } + "\n🎯 Target State: "@ + p.target_state@ + "\n"@ + "\n🔧 Tools:\n"@
        + tool_line("pg_restore"@, p.tools.pg_restore) + tool_line("psql"@, p.tools.psql)
        + tool_line("createdb"@, p.tools.createdb) + tool_line("dropdb"@, p.tools.dropdb) + (if p.errors@.len()
        > 0 {
        "\n❌ Errors:\n"@ + error_entries(p.errors@)
    } else {
        Seq::empty()
    }) + (if p.warnings@.len() > 0 {
        "\n⚠️  Warnings:\n"@ + warning_entries(p.warnings@)
    } else {
        Seq::empty()
    }) + "\n"@
}

/// Appends the line for a client tool.
fn push_tool_line(out: &mut String, name: &str, t: &Option<ToolInfo>)
    ensures
        final(out)@ == old(out)@ + tool_line(name@, *t),
{
    let ghost s0 = out@;
    push_str(out, "   ");
    push_str(out, name);
    match t {
        Some(x) => {
            push_str(out, ": ✓ ");
            let q = quote_text(x.path.as_str());
            push_str(out, q.as_str());
            push_str(out, "\n");
        },
        None => {
            push_str(out, ": ✗ not found\n");
        },
    }
    proof {
        assert(out@ =~= s0 + tool_line(name@, *t));
    }
}

/// Appends the backup section.
fn push_backup_info(out: &mut String, b: &PreflightBackupInfo)
    ensures
        final(out)@ == old(out)@ + backup_info_text(*b),
{
    let ghost s0 = out@;
    push_str(out, "\n📦 Backup Information:\n");
    push_str(out, "   ID: ");
    push_str(out, b.id.as_str());
    push_str(out, "\n");
    push_str(out, "   Type: ");
    push_str(out, b.backup_type.as_str());
    push_str(out, "\n");
    let ghost s1 = out@;
    match &b.database {
        Some(d) => {
            push_str(out, "   Database: ");
            push_str(out, d.as_str());
            push_str(out, "\n");
        },
        None => {},
    }
    let ghost s2 = out@;
    push_str(out, "   Size: ");
    let n = decimal_u64(b.size_bytes);
    push_str(out, n.as_str());
    push_str(out, " bytes (");
    let m = format_fixed_pow2(b.size_bytes, 20, 2);
    push_str(out, m.as_str());
    push_str(out, " MB)\n");
    push_str(out, "   Created: ");
    let c = display_utc(b.created_at);
    push_str(out, c.as_str());
    push_str(out, "\n");
    let ghost s3 = out@;
    match &b.server_version {
        Some(v) => {
            push_str(out, "   Server Version: ");
            push_str(out, v.as_str());
            push_str(out, "\n");
        },
        None => {},
    }
    proof {
        assert(out@ =~= s0 + backup_info_text(*b));
    }
}

/// Appends the errors.
fn push_error_entries(out: &mut String, v: &Vec<PreflightError>)
    ensures
        final(out)@ == old(out)@ + error_entries(v@),
{
    let ghost s0 = out@;
    let mut i: usize = 0;
    while i < v.len()
        invariant
            i <= v@.len(),
            out@ == s0 + error_entries(v@.take(i as int)),
        decreases v@.len() - i,
    {
        proof {
            assert(v@.take(i + 1).drop_last() =~= v@.take(i as int));
        }
        let e = &v[i];
        let ghost before = out@;
        push_str(out, "   [");
        push_str(out, e.code.as_str());
        push_str(out, "] ");
        push_str(out, e.message.as_str());
        push_str(out, "\n");
        match &e.details {
            Some(d) => {
                push_str(out, "      ");
                push_str(out, d.as_str());
                push_str(out, "\n");
            },
            None => {},
        }
        proof {
            assert(out@ =~= before + error_entry(v@[i as int]));
        }
        i = i + 1;
    }
    proof {
        assert(v@.take(v@.len() as int) =~= v@);
    }
}

/// Appends the warnings.
fn push_warning_entries(out: &mut String, v: &Vec<PreflightWarning>)
    ensures
        final(out)@ == old(out)@ + warning_entries(v@),
{
    let ghost s0 = out@;
    let mut i: usize = 0;
    while i < v.len()
        invariant
            i <= v@.len(),
            out@ == s0 + warning_entries(v@.take(i as int)),
        decreases v@.len() - i,
    {
        proof {
            assert(v@.take(i + 1).drop_last() =~= v@.take(i as int));
        }
        let w = &v[i];
        let ghost before = out@;
        push_str(out, "   [");
        push_str(out, w.code.as_str());
        push_str(out, "] ");
        push_str(out, w.message.as_str());
        push_str(out, "\n");
        match &w.recommendation {
            Some(r) => {
                push_str(out, "      Recommendation: ");
                push_str(out, r.as_str());
                push_str(out, "\n");
            },
            None => {},
        }
        proof {
            assert(out@ =~= before + warning_entry(v@[i as int]));
        }
        i = i + 1;
    }
    proof {
        assert(v@.take(v@.len() as int) =~= v@);
    }
}

/// The preflight report in text form.
pub fn format_preflight_text(p: &PreflightResult) -> (r: String)
    ensures
        r@ == preflight_text(*p),
{
    let mut out = owned("\n=== Preflight Validation ===\n");
    push_str(&mut out, "Status: ");
    push_str(&mut out, if p.passed {
        "✓ PASSED"
    } else {
        "✗ FAILED"
    });
    push_str(&mut out, "\n");
    let ghost s1 = out@;
    match &p.backup_info {
        Some(b) => {
            push_backup_info(&mut out, b);
        },
        None => {},
    }
    let ghost s2 = out@;
    push_str(&mut out, "\n🎯 Target State: ");
    push_str(&mut out, p.target_state.as_str());
    push_str(&mut out, "\n");
    push_str(&mut out, "\n🔧 Tools:\n");
    push_tool_line(&mut out, "pg_restore", &p.tools.pg_restore);
    push_tool_line(&mut out, "psql", &p.tools.psql);
    push_tool_line(&mut out, "createdb", &p.tools.createdb);
    push_tool_line(&mut out, "dropdb", &p.tools.dropdb);
    let ghost s3 = out@;
    if p.errors.len() > 0 {
        push_str(&mut out, "\n❌ Errors:\n");
        push_error_entries(&mut out, &p.errors);
    }
    let ghost s4 = out@;
    if p.warnings.len() > 0 {
        push_str(&mut out, "\n⚠️  Warnings:\n");
        push_warning_entries(&mut out, &p.warnings);
    }
    push_str(&mut out, "\n");
    proof {
        assert(out@ =~= preflight_text(*p));
    }
    out
}

/// The target of a restore plan.
#[derive(Debug, Clone)]
pub struct RestoreTarget {
    pub host: String,
    pub port: u16,
    pub database: String,
}

/// A step of a restore plan.
#[derive(Debug, Clone)]
pub struct RestoreStep {
    pub order: u32,
    pub description: String,
    pub reversible: bool,
}

/// The plan of a restore.
#[derive(Debug, Clone)]
pub struct RestorePlan {
    pub id: String,
    pub backup_id: String,
    pub target_config: RestoreTarget,
    pub mode: RestoreMode,
    pub estimated_duration_secs: Option<u64>,
    pub steps: Vec<RestoreStep>,
    pub requires_confirmation: bool,
    pub confirmation_reason: Option<String>,
}

/// The debug form of a restore mode.
pub open spec fn mode_text(m: RestoreMode) -> Seq<char> {
    match m {
        RestoreMode::Replace => "Replace"@,
        RestoreMode::NewDatabase { target_name } => "NewDatabase { target_name: "@ + quoted(target_name@)
            + " }"@,
    }
}

/// The debug form of a restore mode.
pub fn format_mode(m: &RestoreMode) -> (r: String)
    ensures
        r@ == mode_text(*m),
{
    match m {
        RestoreMode::Replace => owned("Replace"),
        RestoreMode::NewDatabase { target_name } => {
            let mut out = owned("NewDatabase { target_name: ");
            let q = quote_text(target_name.as_str());
            push_str(&mut out, q.as_str());
            push_str(&mut out, " }");
            out
        },
    }
}

/// The line of a plan step.
pub open spec fn plan_step_line(s: RestoreStep) -> Seq<char> {
    "   "@ + decimal(s.order as nat) + ". "@ + s.description@ + (if s.reversible {
        " (reversible)"@
    } else {
        Seq::empty()
    }) + "\n"@
}

/// The lines of the plan steps.
pub open spec fn plan_step_lines(v: Seq<RestoreStep>) -> Seq<char>
    decreases v.len(),
{
    if v.len() == 0 {
        Seq::empty()
    } else {
        plan_step_lines(v.drop_last()) + plan_step_line(v.last())
    }
}

/// The restore plan as the restore prints it in text form.
pub open spec fn restore_plan_text(p: RestorePlan) -> Seq<char> {
    "\n=== Restore Plan ===\n"@ + "Plan ID: "@ + p.id@ + "\n"@ + "Backup ID: "@ + p.backup_id@ + "\n"@
        + "Target: "@ + p.target_config.host@ + ":"@ + decimal(p.target_config.port as nat) + "/"@
        + p.target_config.database@ + "\n"@ + "Mode: "@ + mode_text(p.mode) + "\n"@
        + match p.estimated_duration_secs {
        Some(d) => "Estimated Duration: ~"@ + decimal(d as nat) + "s\n"@,
        None => Seq::empty(),
    } + "\n📋 Steps:\n"@ + plan_step_lines(p.steps@) + (if p.requires_confirmation {
        "\n⚠️  Confirmation Required: "@ + match p.confirmation_reason {
            Some(r) => r@,
            None => "Destructive operation"@,
        } + "\n"@
    } else {
        Seq::empty()
    }) + "\n"@
}

/// Appends the lines of the plan steps.
fn push_plan_steps(out: &mut String, v: &Vec<RestoreStep>)
    ensures
        final(out)@ == old(out)@ + plan_step_lines(v@),
{
    let ghost s0 = out@;
    let mut i: usize = 0;
    while i < v.len()
        invariant
            i <= v@.len(),
            out@ == s0 + plan_step_lines(v@.take(i as int)),
        decreases v@.len() - i,
    {
        proof {
            assert(v@.take(i + 1).drop_last() =~= v@.take(i as int));
        }
        let s = &v[i];
        let ghost before = out@;
        push_str(out, "   ");
        let n = decimal_u64(s.order as u64);
        push_str(out, n.as_str());
        push_str(out, ". ");
        push_str(out, s.description.as_str());
        if s.reversible {
            push_str(out, " (reversible)");
        }
        push_str(out, "\n");
        proof {
            assert(out@ =~= before + plan_step_line(v@[i as int]));
        }
        i = i + 1;
    }
    proof {
        assert(v@.take(v@.len() as int) =~= v@);
    }
}

/// The restore plan in text form.
pub fn format_restore_plan_text(p: &RestorePlan) -> (r: String)
    ensures
        r@ == restore_plan_text(*p),
{
    let mut out = owned("\n=== Restore Plan ===\n");
    push_str(&mut out, "Plan ID: ");
    push_str(&mut out, p.id.as_str());
    push_str(&mut out, "\n");
    push_str(&mut out, "Backup ID: ");
    push_str(&mut out, p.backup_id.as_str());
    push_str(&mut out, "\n");
    push_str(&mut out, "Target: ");
    push_str(&mut out, p.target_config.host.as_str());
    push_str(&mut out, ":");
    let port = decimal_u64(p.target_config.port as u64);
    push_str(&mut out, port.as_str());
    push_str(&mut out, "/");
    push_str(&mut out, p.target_config.database.as_str());
    push_str(&mut out, "\n");
    push_str(&mut out, "Mode: ");
    let m = format_mode(&p.mode);
    push_str(&mut out, m.as_str());
    push_str(&mut out, "\n");
    let ghost s1 = out@;
    match p.estimated_duration_secs {
        Some(d) => {
            push_str(&mut out, "Estimated Duration: ~");
            let t = decimal_u64(d);
            push_str(&mut out, t.as_str());
            push_str(&mut out, "s\n");
        },
        None => {},
    }
    push_str(&mut out, "\n📋 Steps:\n");
    push_plan_steps(&mut out, &p.steps);
    let ghost s2 = out@;
    if p.requires_confirmation {
        push_str(&mut out, "\n⚠️  Confirmation Required: ");
        match &p.confirmation_reason {
            Some(r) => push_str(&mut out, r.as_str()),
            None => push_str(&mut out, "Destructive operation"),
        }
        push_str(&mut out, "\n");
    }
    push_str(&mut out, "\n");
    proof {
        assert(out@ =~= restore_plan_text(*p));
    }
    out
}

/// The outcome of a step of a restore.
#[derive(Debug, Clone)]
pub struct StepOutcome {
    pub order: u32,
    pub success: bool,
    pub duration_ms: u64,
    pub message: Option<String>,
}

/// The result of a restore. `started_at` and `completed_at` are in
/// milliseconds since the Unix epoch.
#[derive(Debug, Clone)]
pub struct RestoreResult {
    pub plan_id: String,
    pub backup_id: String,
    pub database: String,
    pub success: bool,
    pub started_at: i64,
    pub completed_at: i64,
    pub steps_completed: Vec<StepOutcome>,
    pub error: Option<String>,
}

/// The lines of a step outcome: its mark, order and duration, then its
/// message if any.
pub open spec fn outcome_entry(s: StepOutcome) -> Seq<char> {
    "   "@ + (if s.success {
        "✓"@
    } else {
        "✗"@
    }) + " Step "@ + decimal(s.order as nat) + ": "@ + decimal(s.duration_ms as nat) + "ms\n"@
        + match s.message {
        Some(m) => "      "@ + m@ + "\n"@,
        None => Seq::empty(),
    }
}

/// The lines of the step outcomes.
pub open spec fn outcome_entries(v: Seq<StepOutcome>) -> Seq<char>
    decreases v.len(),
{
    if v.len() == 0 {
        Seq::empty()
    } else {
        outcome_entries(v.drop_last()) + outcome_entry(v.last())
    }
}

/// The restore result as the restore prints it in text form; the duration
/// is in whole seconds, rounded toward zero.
pub open spec fn restore_result_text(r: RestoreResult) -> Seq<char> {
    "\n=== Restore Result ===\n"@ + "Status: "@ + (if r.success {
        "✓ SUCCESS"@
    } else {
        "✗ FAILED"@
    }) + "\n"@ + "Plan ID: "@ + r.plan_id@ + "\n"@ + "Backup ID: "@ + r.backup_id@ + "\n"@
        + "Database: "@ + r.database@ + "\n"@ + "Started: "@ + utc_display(r.started_at) + "\n"@
        + "Completed: "@ + utc_display(r.completed_at) + "\n"@ + "Duration: "@ + signed_decimal(
        whole_seconds_between(r.started_at, r.completed_at),
    ) + "s\n"@ + "\n📋 Steps Completed:\n"@ + outcome_entries(r.steps_completed@) + match r.error {
        Some(e) => "\n❌ Error: "@ + e@ + "\n"@,
        None => Seq::empty(),
    } + "\n"@
}

/// Appends the step outcomes.
fn push_outcomes(out: &mut String, v: &Vec<StepOutcome>)
    ensures
        final(out)@ == old(out)@ + outcome_entries(v@),
{
    let ghost s0 = out@;
    let mut i: usize = 0;
    while i < v.len()
        invariant
            i <= v@.len(),
            out@ == s0 + outcome_entries(v@.take(i as int)),
        decreases v@.len() - i,
    {
        proof {
            assert(v@.take(i + 1).drop_last() =~= v@.take(i as int));
        }
        let s = &v[i];
        let ghost before = out@;
        push_str(out, "   ");
        push_str(out, if s.success {
            "✓"
        } else {
            "✗"
        });
        push_str(out, " Step ");
        let n = decimal_u64(s.order as u64);
        push_str(out, n.as_str());
        push_str(out, ": ");
        let d = decimal_u64(s.duration_ms);
        push_str(out, d.as_str());
        push_str(out, "ms\n");
        match &s.message {
            Some(m) => {
                push_str(out, "      ");
                push_str(out, m.as_str());
                push_str(out, "\n");
            },
            None => {},
        }
        proof {
            assert(out@ =~= before + outcome_entry(v@[i as int]));
        }
        i = i + 1;
    }
    proof {
        assert(v@.take(v@.len() as int) =~= v@);
    }
}

/// The restore result in text form.
pub fn format_restore_result_text(r: &RestoreResult) -> (out: String)
    ensures
        out@ == restore_result_text(*r),
{
    let mut out = owned("\n=== Restore Result ===\n");
    push_str(&mut out, "Status: ");
    push_str(&mut out, if r.success {
        "✓ SUCCESS"
    } else {
        "✗ FAILED"
    });
    push_str(&mut out, "\n");
    push_str(&mut out, "Plan ID: ");
    push_str(&mut out, r.plan_id.as_str());
    push_str(&mut out, "\n");
    push_str(&mut out, "Backup ID: ");
    push_str(&mut out, r.backup_id.as_str());
    push_str(&mut out, "\n");
    push_str(&mut out, "Database: ");
    push_str(&mut out, r.database.as_str());
    push_str(&mut out, "\n");
    push_str(&mut out, "Started: ");
    let a = display_utc(r.started_at);
    push_str(&mut out, a.as_str());
    push_str(&mut out, "\n");
    push_str(&mut out, "Completed: ");
    let b = display_utc(r.completed_at);
    push_str(&mut out, b.as_str());
    push_str(&mut out, "\n");
    push_str(&mut out, "Duration: ");
    let secs = seconds_between(r.started_at, r.completed_at);
    let d = decimal_i64(secs);
    push_str(&mut out, d.as_str());
    push_str(&mut out, "s\n");
    push_str(&mut out, "\n📋 Steps Completed:\n");
    push_outcomes(&mut out, &r.steps_completed);
    let ghost s1 = out@;
    match &r.error {
        Some(e) => {
            push_str(&mut out, "\n❌ Error: ");
            push_str(&mut out, e.as_str());
            push_str(&mut out, "\n");
        },
        None => {},
    }
    push_str(&mut out, "\n");
    proof {
        assert(out@ =~= restore_result_text(*r));
    }
    out
}

} // verus!
