//! Retention: the plan that a retention policy produced, its display, and
//! the bookkeeping of applying it.

use vstd::prelude::*;
use crate::text::{
    concat_all, concat2, concat3, decimal, decimal_u64, lemma_concat_all_push, lowercase, owned,
    path_join, join_path, push_str, str_eq, texts, to_lowercase, trim_chars, trim_seq, chars_of,
    string_of,
};
use crate::timestamps::{
    display_utc, naive_date_instant, parse_naive_date_millis, parse_rfc3339_millis,
    rfc3339_instant, utc_display,
};
use crate::text::{contains_seq, contains_str};
use crate::units::{fixed_text, format_fixed_pow2};

verus! {

/// Type of a backup under retention.
#[derive(Debug, Clone, Copy, PartialEq, Eq, Structural)]
pub enum BackupItemType {
    Full,
    Incremental,
    Snapshot,
}

impl BackupItemType {
    /// The variant's name, as `{:?}` prints it.
    pub open spec fn spec_name(self) -> Seq<char> {
        match self {
            BackupItemType::Full => "Full"@,
            BackupItemType::Incremental => "Incremental"@,
            BackupItemType::Snapshot => "Snapshot"@,
        }
    }

    /// The variant's name, as `{:?}` prints it.
    pub fn name(self) -> (r: String)
        ensures
            r@ == self.spec_name(),
    {
        match self {
            BackupItemType::Full => owned("Full"),
            BackupItemType::Incremental => owned("Incremental"),
            BackupItemType::Snapshot => owned("Snapshot"),
        }
    }
}

/// Status of a backup under retention.
#[derive(Debug, Clone, Copy, PartialEq, Eq, Structural)]
pub enum BackupItemStatus {
    Completed,
    Failed,
    InProgress,
}

/// Where a backup or WAL segment is kept.
#[derive(Debug, Clone)]
pub enum BackupLocation {
    /// A local path.
    Local(String),
    /// A remote key.
    Remote(String),
    /// Both a local path and a remote key.
    Both { local: String, remote: String },
}

/// A retention decision about a backup.
#[derive(Debug, Clone)]
pub struct BackupDecision {
    pub backup_id: String,
    pub backup_type: BackupItemType,
    pub reason: String,
    pub size_bytes: u64,
    pub pinned: bool,
    pub has_dependents: bool,
    pub location: BackupLocation,
}

/// A retention decision about a WAL segment.
#[derive(Debug, Clone)]
pub struct WalDecision {
    pub segment_name: String,
    pub size_bytes: u64,
    pub location: BackupLocation,
}

/// What evaluating a retention policy concluded. Times are milliseconds
/// since the Unix epoch.
#[derive(Debug, Clone)]
pub struct RetentionResult {
    pub timestamp: i64,
    pub total_backups: usize,
    pub total_wal_segments: usize,
    pub backups_to_keep: Vec<BackupDecision>,
    pub backups_to_delete: Vec<BackupDecision>,
    pub wal_to_keep: Vec<WalDecision>,
    pub wal_to_delete: Vec<WalDecision>,
    pub warnings: Vec<String>,
    pub estimated_space_freed: u64,
    pub pitr_window_start: Option<i64>,
    pub pitr_window_end: Option<i64>,
}

/// Result of a retention plan operation
#[derive(Debug, Clone)]
pub struct RetentionPlanResult {
    /// The evaluation result
    pub evaluation: RetentionResult,
    /// Policy used for evaluation
    pub policy_source: String,
    /// Whether local backups were included
    pub includes_local: bool,
    /// Whether remote backups were included
    pub includes_remote: bool,
}

/// Options for retention operations
#[derive(Debug, Clone)]
pub struct RetentionOptions {
    /// Path to policy file (if not using remote policy)
    pub policy_file: Option<String>,
    /// Local backup directory
    pub backup_dir: String,
    /// WAL archive directory (if separate)
    pub wal_archive_dir: Option<String>,
    /// Include local backups in evaluation
    pub include_local: bool,
    /// Include remote backups in evaluation
    pub include_remote: bool,
    /// Output format (table, json, yaml)
    pub format: String,
}

impl RetentionOptions {
    /// Remote backups are evaluated when asked for and remote storage is on.
    pub fn includes_remote(&self, remote_storage: bool) -> (r: bool)
        ensures
            r == (self.include_remote && remote_storage),
    {
        self.include_remote && remote_storage
    }

    /// The WAL archive to scan when none is given: `wal_archive` under the
    /// backup directory.
    pub fn default_wal_dir(&self) -> (r: String)
        ensures
            r@ == path_join(self.backup_dir@, "wal_archive"@),
    {
        join_path(self.backup_dir.as_str(), "wal_archive")
    }
}

/// Where the policy came from: a policy file, a bucket's stored policy, or
/// the built-in default.
pub enum PolicySource {
    File(String),
    Remote { bucket: Option<String> },
    Default,
}

/// The description of a policy's source.
pub fn policy_source_text(source: &PolicySource) -> (r: String)
    ensures
        r@ == match source {
            PolicySource::File(p) => "file:"@ + p@,
            PolicySource::Remote { bucket } => "remote:"@ + match bucket {
                Some(b) => b@,
                None => "unknown"@,
            },
            PolicySource::Default => "default"@,
        },
{
    match source {
        PolicySource::File(p) => concat2("file:", p.as_str()),
        PolicySource::Remote { bucket } => match bucket {
            Some(b) => concat2("remote:", b.as_str()),
            None => concat2("remote:", "unknown"),
        },
        PolicySource::Default => owned("default"),
    }
}

/// What applying a plan does before deleting anything.
#[derive(Debug, Clone, Copy, PartialEq, Eq, Structural)]
pub enum ApplyStage {
    /// Nothing is to be deleted: report at once.
    NothingToDelete,
    /// A dry run: list what would be deleted and report.
    DryRun,
    /// Ask for confirmation, then delete.
    Confirm,
    /// Delete at once.
    Delete,
}

/// Decides how applying a plan proceeds.
pub fn apply_stage(evaluation: &RetentionResult, dry_run: bool, skip_confirmation: bool) -> (r: ApplyStage)
    ensures
        r == if evaluation.backups_to_delete@.len() == 0 && evaluation.wal_to_delete@.len() == 0 {
            ApplyStage::NothingToDelete
        } else if dry_run {
            ApplyStage::DryRun
        } else if !skip_confirmation {
            ApplyStage::Confirm
        } else {
            ApplyStage::Delete
        },
{
    if evaluation.backups_to_delete.len() == 0 && evaluation.wal_to_delete.len() == 0 {
        ApplyStage::NothingToDelete
    } else if dry_run {
        ApplyStage::DryRun
    } else if !skip_confirmation {
        ApplyStage::Confirm
    } else {
        ApplyStage::Delete
    }
}

/// The answer to the confirmation prompt goes ahead: trimmed and in lower
/// case, it is `yes`.
pub fn confirmation_accepted(input: &str) -> (r: bool)
    ensures
        r == (lowercase(trim_seq(input@)) == "yes"@),
{
    let v = chars_of(input);
    let t = trim_chars(&v);
    let ts = string_of(&t);
    let l = to_lowercase(ts.as_str());
    str_eq(l.as_str(), "yes")
}

/// Report of applying a retention plan. Times are milliseconds since the
/// Unix epoch.
#[derive(Debug, Clone)]
pub struct PurgeReport {
    pub timestamp: i64,
    pub dry_run: bool,
    pub total_backups_evaluated: usize,
    pub total_wal_evaluated: usize,
    pub backups_kept: usize,
    pub backups_deleted: usize,
    pub wal_kept: usize,
    pub wal_deleted: usize,
    pub failed: usize,
    pub space_freed: u64,
    pub duration_secs: u64,
    pub errors: Vec<String>,
    pub pitr_window_start: Option<i64>,
    pub pitr_window_end: Option<i64>,
}

/// The deletions of a run so far: what was deleted, what failed, and the
/// space freed.
#[derive(Debug, Clone)]
pub struct PurgeTally {
    pub backups_deleted: usize,
    pub wal_deleted: usize,
    pub failed: usize,
    pub space_freed: u64,
    pub errors: Vec<String>,
}

/// Which deletions a backup decision calls for: the local copy, the remote
/// one (only when remote storage is available), or both.
pub open spec fn spec_deletions(location: BackupLocation, remote_available: bool) -> (bool, bool) {
    match location {
        BackupLocation::Local(_) => (true, false),
        BackupLocation::Remote(_) => (false, remote_available),
        BackupLocation::Both { .. } => (true, remote_available),
    }
}

/// The error text of a failed local deletion.
pub open spec fn local_failure(path: Seq<char>, e: Seq<char>) -> Seq<char> {
    "Failed to delete local backup "@ + path + ": "@ + e
}

/// The error text of a failed remote deletion.
pub open spec fn remote_failure(key: Seq<char>, e: Seq<char>) -> Seq<char> {
    "Failed to delete remote backup "@ + key + ": "@ + e
}

impl PurgeTally {
    /// Nothing deleted yet.
    pub fn new() -> (r: Self)
        ensures
            r.backups_deleted == 0,
            r.wal_deleted == 0,
            r.failed == 0,
            r.space_freed == 0,
            r.errors@.len() == 0,
    {
        PurgeTally { backups_deleted: 0, wal_deleted: 0, failed: 0, space_freed: 0, errors: Vec::new() }
    }

    /// Which deletions a backup decision calls for: `(local, remote)`.
    pub fn deletions(location: &BackupLocation, remote_available: bool) -> (r: (bool, bool))
        ensures
            r == spec_deletions(*location, remote_available),
    {
        match location {
            BackupLocation::Local(_) => (true, false),
            BackupLocation::Remote(_) => (false, remote_available),
            BackupLocation::Both { .. } => (true, remote_available),
        }
    }

    /// Records the outcome of deleting a backup: `local` and `remote` are
    /// the outcomes of the deletions that `deletions` called for (an error
    /// text on failure). Each failure counts once and is reported; the
    /// backup counts as deleted, and its size as freed, when every deletion
    /// it had succeeded and there was at least one.
    pub fn record_backup(
        &mut self,
        decision: &BackupDecision,
        local: Option<Result<(), String>>,
        remote: Option<Result<(), String>>,
    )
        requires
            old(self).failed + 2 <= usize::MAX,
            old(self).backups_deleted + 1 <= usize::MAX,
            old(self).space_freed + decision.size_bytes <= u64::MAX,
        ensures
            final(self).failed == old(self).failed + failure_count(local, remote),
            final(self).backups_deleted == old(self).backups_deleted + if deleted_outcome(local, remote) {
                1int
            } else {
                0
            },
            final(self).space_freed == old(self).space_freed + if deleted_outcome(local, remote) {
                decision.size_bytes as int
            } else {
                0
            },
            final(self).wal_deleted == old(self).wal_deleted,
            texts(final(self).errors@) == texts(old(self).errors@) + failure_texts(
                decision.location,
                local,
                remote,
            ),
    {
        let ghost before = texts(self.errors@);
        let (local_name, remote_name) = match &decision.location {
            BackupLocation::Local(p) => (p.clone(), p.clone()),
            BackupLocation::Remote(k) => (k.clone(), k.clone()),
            BackupLocation::Both { local: p, remote: k } => (p.clone(), k.clone()),
        };
        proof {
            assert(local_name@ == local_name_of(decision.location));
            assert(remote_name@ == remote_name_of(decision.location));
        }
        let mut lf = false;
        let mut rf = false;
        if let Some(Err(e)) = &local {
            lf = true;
            self.failed = self.failed + 1;
            let mut m = owned("Failed to delete local backup ");
            push_str(&mut m, local_name.as_str());
            push_str(&mut m, ": ");
            push_str(&mut m, e.as_str());
            self.errors.push(m);
        }
        let ghost after_local = texts(self.errors@);
        proof {
            assert(after_local =~= before + local_failure_texts(decision.location, local));
        }
        if let Some(Err(e)) = &remote {
            rf = true;
            self.failed = self.failed + 1;
            let mut m = owned("Failed to delete remote backup ");
            push_str(&mut m, remote_name.as_str());
            push_str(&mut m, ": ");
            push_str(&mut m, e.as_str());
            self.errors.push(m);
        }
        proof {
            assert(texts(self.errors@) =~= after_local + remote_failure_texts(decision.location, remote));
            assert(texts(self.errors@) =~= before + failure_texts(decision.location, local, remote));
        }
        if !lf && !rf && (local.is_some() || remote.is_some()) {
            self.backups_deleted = self.backups_deleted + 1;
            self.space_freed = self.space_freed + decision.size_bytes;
        }
    }

    /// Records the outcome of deleting a WAL segment: only local segments
    /// are deleted; `outcome` is the outcome of that deletion (an error text
    /// on failure), none for segments elsewhere.
    pub fn record_wal(&mut self, decision: &WalDecision, outcome: Option<Result<(), String>>)
        requires
            old(self).failed + 1 <= usize::MAX,
            old(self).wal_deleted + 1 <= usize::MAX,
            old(self).space_freed + decision.size_bytes <= u64::MAX,
        ensures
            final(self).backups_deleted == old(self).backups_deleted,
            (decision.location is Local && outcome matches Some(Ok(_))) ==> {
                &&& final(self).wal_deleted == old(self).wal_deleted + 1
                &&& final(self).space_freed == old(self).space_freed + decision.size_bytes
                &&& final(self).failed == old(self).failed
                &&& final(self).errors@ == old(self).errors@
            },
            decision.location is Local ==> (outcome matches Some(Err(e)) ==> {
                &&& final(self).wal_deleted == old(self).wal_deleted
                &&& final(self).space_freed == old(self).space_freed
                &&& final(self).failed == old(self).failed + 1
                &&& texts(final(self).errors@) == texts(old(self).errors@).push(
                    "Failed to delete WAL segment "@ + local_name_of(decision.location) + ": "@ + e@,
                )
            }),
            !(decision.location is Local && outcome is Some) ==> {
                &&& final(self).wal_deleted == old(self).wal_deleted
                &&& final(self).space_freed == old(self).space_freed
                &&& final(self).failed == old(self).failed
                &&& final(self).errors@ == old(self).errors@
            },
    {
        if let BackupLocation::Local(path) = &decision.location {
            match &outcome {
                Some(Ok(())) => {
                    self.wal_deleted = self.wal_deleted + 1;
                    self.space_freed = self.space_freed + decision.size_bytes;
                },
                Some(Err(e)) => {
                    self.failed = self.failed + 1;
                    let ghost before = texts(self.errors@);
                    let mut m = owned("Failed to delete WAL segment ");
                    push_str(&mut m, path.as_str());
                    push_str(&mut m, ": ");
                    push_str(&mut m, e.as_str());
                    self.errors.push(m);
                    proof {
                        assert(texts(self.errors@) =~= before.push(
                            "Failed to delete WAL segment "@ + path@ + ": "@ + e@,
                        ));
                    }
                },
                None => {},
            }
        }
    }
}

/// The local path of a location (its only name when it has one).
pub open spec fn local_name_of(location: BackupLocation) -> Seq<char> {
    match location {
        BackupLocation::Local(p) => p@,
        BackupLocation::Remote(k) => k@,
        BackupLocation::Both { local, .. } => local@,
    }
}

/// The remote key of a location (its only name when it has one).
pub open spec fn remote_name_of(location: BackupLocation) -> Seq<char> {
    match location {
        BackupLocation::Local(p) => p@,
        BackupLocation::Remote(k) => k@,
        BackupLocation::Both { remote, .. } => remote@,
    }
}

/// The report of a failed local deletion, if it failed.
pub open spec fn local_failure_texts(location: BackupLocation, local: Option<Result<(), String>>) -> Seq<Seq<char>> {
    match local {
        Some(Err(e)) => seq![local_failure(local_name_of(location), e@)],
        _ => Seq::empty(),
    }
}

/// The report of a failed remote deletion, if it failed.
pub open spec fn remote_failure_texts(location: BackupLocation, remote: Option<Result<(), String>>) -> Seq<Seq<char>> {
    match remote {
        Some(Err(e)) => seq![remote_failure(remote_name_of(location), e@)],
        _ => Seq::empty(),
    }
}

/// The reports of the failed deletions of a backup, local first.
pub open spec fn failure_texts(
    location: BackupLocation,
    local: Option<Result<(), String>>,
    remote: Option<Result<(), String>>,
) -> Seq<Seq<char>> {
    local_failure_texts(location, local) + remote_failure_texts(location, remote)
}

/// The number of failed deletions.
pub open spec fn failure_count(local: Option<Result<(), String>>, remote: Option<Result<(), String>>) -> int {
    (if local matches Some(Err(_)) {
        1int
    } else {
        0
    }) + (if remote matches Some(Err(_)) {
        1int
    } else {
        0
    })
}

/// The backup is gone: some deletion ran and none failed.
pub open spec fn deleted_outcome(local: Option<Result<(), String>>, remote: Option<Result<(), String>>) -> bool {
    !(local matches Some(Err(_))) && !(remote matches Some(Err(_))) && (local is Some || remote is Some)
}

/// The report of a run that deleted nothing (nothing to delete, or a dry
/// run), made at `now` after `duration_secs`.
pub fn report_without_deletions(evaluation: &RetentionResult, dry_run: bool, now: i64, duration_secs: u64) -> (r: PurgeReport)
    ensures
        r.timestamp == now,
        r.dry_run == dry_run,
        r.total_backups_evaluated == evaluation.total_backups,
        r.total_wal_evaluated == evaluation.total_wal_segments,
        r.backups_kept == evaluation.backups_to_keep@.len(),
        r.backups_deleted == 0,
        r.wal_kept == evaluation.wal_to_keep@.len(),
        r.wal_deleted == 0,
        r.failed == 0,
        r.space_freed == 0,
        r.duration_secs == duration_secs,
        r.errors@.len() == 0,
        r.pitr_window_start == evaluation.pitr_window_start,
        r.pitr_window_end == evaluation.pitr_window_end,
{
    PurgeReport {
        timestamp: now,
        dry_run,
        total_backups_evaluated: evaluation.total_backups,
        total_wal_evaluated: evaluation.total_wal_segments,
        backups_kept: evaluation.backups_to_keep.len(),
        backups_deleted: 0,
        wal_kept: evaluation.wal_to_keep.len(),
        wal_deleted: 0,
        failed: 0,
        space_freed: 0,
        duration_secs,
        errors: Vec::new(),
        pitr_window_start: evaluation.pitr_window_start,
        pitr_window_end: evaluation.pitr_window_end,
    }
}

/// The report of a run that carried out its deletions, as `tally` counted
/// them, made at `now` after `duration_secs`.
pub fn report_of_deletions(evaluation: &RetentionResult, tally: PurgeTally, now: i64, duration_secs: u64) -> (r: PurgeReport)
    ensures
        r.timestamp == now,
        !r.dry_run,
        r.total_backups_evaluated == evaluation.total_backups,
        r.total_wal_evaluated == evaluation.total_wal_segments,
        r.backups_kept == evaluation.backups_to_keep@.len(),
        r.backups_deleted == tally.backups_deleted,
        r.wal_kept == evaluation.wal_to_keep@.len(),
        r.wal_deleted == tally.wal_deleted,
        r.failed == tally.failed,
        r.space_freed == tally.space_freed,
        r.duration_secs == duration_secs,
        r.errors == tally.errors,
        r.pitr_window_start == evaluation.pitr_window_start,
        r.pitr_window_end == evaluation.pitr_window_end,
{
    PurgeReport {
        timestamp: now,
        dry_run: false,
        total_backups_evaluated: evaluation.total_backups,
        total_wal_evaluated: evaluation.total_wal_segments,
        backups_kept: evaluation.backups_to_keep.len(),
        backups_deleted: tally.backups_deleted,
        wal_kept: evaluation.wal_to_keep.len(),
        wal_deleted: tally.wal_deleted,
        failed: tally.failed,
        space_freed: tally.space_freed,
        duration_secs,
        errors: tally.errors,
        pitr_window_start: evaluation.pitr_window_start,
        pitr_window_end: evaluation.pitr_window_end,
    }
}

/// Total size of WAL decisions.
pub open spec fn wal_size(ws: Seq<WalDecision>) -> nat
    decreases ws.len(),
{
    if ws.len() == 0 {
        0
    } else {
        wal_size(ws.drop_last()) + ws.last().size_bytes as nat
    }
}

/// A kept backup's line of the plan.
pub open spec fn keep_line(d: BackupDecision) -> Seq<char> {
    "  ✅ "@ + d.backup_id@ + " ("@ + d.backup_type.spec_name() + ") - "@ + d.reason@ + " - "@
        + fixed_text(d.size_bytes as nat, 20, 2) + " MB"@ + (if d.pinned {
        " 📌"@
    } else {
        Seq::empty()
    }) + (if d.has_dependents {
        " [has deps]"@
    } else {
        Seq::empty()
    }) + "\n"@
}

/// A deleted backup's line of the plan.
pub open spec fn delete_line(d: BackupDecision) -> Seq<char> {
    "  🗑️  "@ + d.backup_id@ + " ("@ + d.backup_type.spec_name() + ") - "@ + d.reason@ + " - "@
        + fixed_text(d.size_bytes as nat, 20, 2) + " MB\n"@
}

/// A warning's line.
pub open spec fn warning_line(w: String) -> Seq<char> {
    "  - "@ + w@ + "\n"@
}

/// The count and total size of a list of WAL decisions.
pub open spec fn wal_summary(ws: Seq<WalDecision>) -> Seq<char> {
    "  "@ + decimal(ws.len()) + " segments, "@ + fixed_text(wal_size(ws), 20, 2) + " MB total\n"@
}

/// The heading of the plan: its source, time and totals.
pub open spec fn plan_header(result: RetentionPlanResult) -> Seq<char> {
    let e = result.evaluation;
    "\n=== Retention Plan ===\n"@ + "Policy source: "@ + result.policy_source@ + "\n"@
        + "Evaluation time: "@ + utc_display(e.timestamp) + "\n"@ + "Total backups: "@ + decimal(
        e.total_backups as nat,
    ) + "\n"@ + "Total WAL segments: "@ + decimal(e.total_wal_segments as nat) + "\n"@
}

/// The point-in-time window of the plan, when both its ends are known.
pub open spec fn plan_window(e: RetentionResult) -> Seq<char> {
    match (e.pitr_window_start, e.pitr_window_end) {
        (Some(s), Some(t)) => "\nPITR Window: "@ + utc_display(s) + " to "@ + utc_display(t) + "\n"@,
        _ => Seq::empty(),
    }
}

/// The warnings of the plan, when it has any.
pub open spec fn plan_warnings(e: RetentionResult) -> Seq<char> {
    if e.warnings@.len() > 0 {
        "\n⚠️  Warnings:\n"@ + concat_all(e.warnings@.map_values(|w: String| warning_line(w)))
    } else {
        Seq::empty()
    }
}

/// The backups kept and deleted.
pub open spec fn plan_backups(e: RetentionResult) -> Seq<char> {
    "\n=== Backups to Keep ("@ + decimal(e.backups_to_keep@.len()) + ") ===\n"@ + concat_all(
        e.backups_to_keep@.map_values(|d: BackupDecision| keep_line(d)),
    ) + "\n=== Backups to Delete ("@ + decimal(e.backups_to_delete@.len()) + ") ===\n"@
        + concat_all(e.backups_to_delete@.map_values(|d: BackupDecision| delete_line(d)))
}

/// The WAL kept and deleted, when there is any.
pub open spec fn plan_wal(e: RetentionResult) -> Seq<char> {
    if e.wal_to_keep@.len() > 0 || e.wal_to_delete@.len() > 0 {
        "\n=== WAL to Keep ("@ + decimal(e.wal_to_keep@.len()) + ") ===\n"@ + wal_summary(
            e.wal_to_keep@,
        ) + "\n=== WAL to Delete ("@ + decimal(e.wal_to_delete@.len()) + ") ===\n"@ + wal_summary(
            e.wal_to_delete@,
        )
    } else {
        Seq::empty()
    }
}

/// The plan's estimate of the space freed.
pub open spec fn plan_summary(e: RetentionResult) -> Seq<char> {
    "\n=== Summary ===\nEstimated space to free: "@ + fixed_text(e.estimated_space_freed as nat, 30, 2)
        + " GB\n"@
}

/// The plan as a table of text.
pub open spec fn plan_table(result: RetentionPlanResult) -> Seq<char> {
    let e = result.evaluation;
    plan_header(result) + plan_window(e) + plan_warnings(e) + plan_backups(e) + plan_wal(e)
        + plan_summary(e)
}

/// A kept backup's line.
fn keep_line_text(d: &BackupDecision) -> (r: String)
    ensures
        r@ == keep_line(*d),
{
    let mut out = owned("  ✅ ");
    push_str(&mut out, d.backup_id.as_str());
    push_str(&mut out, " (");
    let t = d.backup_type.name();
    push_str(&mut out, t.as_str());
    push_str(&mut out, ") - ");
    push_str(&mut out, d.reason.as_str());
    push_str(&mut out, " - ");
    let mb = format_fixed_pow2(d.size_bytes, 20, 2);
    push_str(&mut out, mb.as_str());
    push_str(&mut out, " MB");
    let ghost base = out@;
    if d.pinned {
        push_str(&mut out, " 📌");
    }
    let ghost pinned = out@;
    if d.has_dependents {
        push_str(&mut out, " [has deps]");
    }
    let ghost deps = out@;
    push_str(&mut out, "\n");
    proof {
        assert(pinned =~= base + (if d.pinned { " 📌"@ } else { Seq::empty() }));
        assert(deps =~= pinned + (if d.has_dependents { " [has deps]"@ } else { Seq::empty() }));
        assert(out@ =~= keep_line(*d));
    }
    out
}

/// A deleted backup's line.
fn delete_line_text(d: &BackupDecision) -> (r: String)
    ensures
        r@ == delete_line(*d),
{
    let mut out = owned("  🗑️  ");
    push_str(&mut out, d.backup_id.as_str());
    push_str(&mut out, " (");
    let t = d.backup_type.name();
    push_str(&mut out, t.as_str());
    push_str(&mut out, ") - ");
    push_str(&mut out, d.reason.as_str());
    push_str(&mut out, " - ");
    let mb = format_fixed_pow2(d.size_bytes, 20, 2);
    push_str(&mut out, mb.as_str());
    push_str(&mut out, " MB\n");
    out
}

/// Appends the lines of kept backups.
fn push_keep_lines(out: &mut String, ds: &Vec<BackupDecision>)
    ensures
        final(out)@ == old(out)@ + concat_all(ds@.map_values(|d: BackupDecision| keep_line(d))),
{
    let ghost start = out@;
    let ghost lines = ds@.map_values(|d: BackupDecision| keep_line(d));
    let mut i: usize = 0;
    while i < ds.len()
        invariant
            i <= ds@.len(),
            lines == ds@.map_values(|d: BackupDecision| keep_line(d)),
            out@ == start + concat_all(lines.take(i as int)),
        decreases ds@.len() - i,
    {
        let line = keep_line_text(&ds[i]);
        push_str(out, line.as_str());
        proof {
            assert(lines.take(i + 1) =~= lines.take(i as int).push(lines[i as int]));
            lemma_concat_all_push(lines.take(i as int), lines[i as int]);
        }
        i = i + 1;
    }
    proof {
        assert(lines.take(lines.len() as int) =~= lines);
    }
}

/// Appends the lines of deleted backups.
fn push_delete_lines(out: &mut String, ds: &Vec<BackupDecision>)
    ensures
        final(out)@ == old(out)@ + concat_all(ds@.map_values(|d: BackupDecision| delete_line(d))),
{
    let ghost start = out@;
    let ghost lines = ds@.map_values(|d: BackupDecision| delete_line(d));
    let mut i: usize = 0;
    while i < ds.len()
        invariant
            i <= ds@.len(),
            lines == ds@.map_values(|d: BackupDecision| delete_line(d)),
            out@ == start + concat_all(lines.take(i as int)),
        decreases ds@.len() - i,
    {
        let line = delete_line_text(&ds[i]);
        push_str(out, line.as_str());
        proof {
            assert(lines.take(i + 1) =~= lines.take(i as int).push(lines[i as int]));
            lemma_concat_all_push(lines.take(i as int), lines[i as int]);
        }
        i = i + 1;
    }
    proof {
        assert(lines.take(lines.len() as int) =~= lines);
    }
}

/// Appends the warning lines.
fn push_warning_lines(out: &mut String, ws: &Vec<String>)
    ensures
        final(out)@ == old(out)@ + concat_all(ws@.map_values(|w: String| warning_line(w))),
{
    let ghost start = out@;
    let ghost lines = ws@.map_values(|w: String| warning_line(w));
    let mut i: usize = 0;
    while i < ws.len()
        invariant
            i <= ws@.len(),
            lines == ws@.map_values(|w: String| warning_line(w)),
            out@ == start + concat_all(lines.take(i as int)),
        decreases ws@.len() - i,
    {
        let line = concat3("  - ", ws[i].as_str(), "\n");
        push_str(out, line.as_str());
        proof {
            assert(lines.take(i + 1) =~= lines.take(i as int).push(lines[i as int]));
            lemma_concat_all_push(lines.take(i as int), lines[i as int]);
        }
        i = i + 1;
    }
    proof {
        assert(lines.take(lines.len() as int) =~= lines);
    }
}

/// Total size of WAL decisions, which must fit in a `u64`.
fn wal_total(ws: &Vec<WalDecision>) -> (r: u64)
    requires
        wal_size(ws@) <= u64::MAX,
    ensures
        r == wal_size(ws@),
{
    let mut total: u64 = 0;
    let mut i: usize = 0;
    while i < ws.len()
        invariant
            i <= ws@.len(),
            wal_size(ws@) <= u64::MAX,
            total == wal_size(ws@.take(i as int)),
        decreases ws@.len() - i,
    {
        proof {
            assert(ws@.take(i + 1).drop_last() =~= ws@.take(i as int));
            lemma_wal_size_prefix(ws@, i + 1);
        }
        total = total + ws[i].size_bytes;
        i = i + 1;
    }
    proof {
        assert(ws@.take(ws@.len() as int) =~= ws@);
    }
    total
}

proof fn lemma_wal_size_prefix(ws: Seq<WalDecision>, j: int)
    requires
        0 <= j <= ws.len(),
    ensures
        wal_size(ws.take(j)) <= wal_size(ws),
    decreases ws.len() - j,
{
    if j < ws.len() {
        assert(ws.drop_last().take(j) =~= ws.take(j));
        lemma_wal_size_prefix(ws.drop_last(), j);
    } else {
        assert(ws.take(j) =~= ws);
    }
}

/// The count and total size of a list of WAL decisions.
fn wal_summary_text(ws: &Vec<WalDecision>) -> (r: String)
    requires
        wal_size(ws@) <= u64::MAX,
    ensures
        r@ == wal_summary(ws@),
{
    let mut out = owned("  ");
    let n = decimal_u64(ws.len() as u64);
    push_str(&mut out, n.as_str());
    push_str(&mut out, " segments, ");
    let total = wal_total(ws);
    let mb = format_fixed_pow2(total, 20, 2);
    push_str(&mut out, mb.as_str());
    push_str(&mut out, " MB total\n");
    out
}

/// The heading of the plan.
fn plan_header_text(result: &RetentionPlanResult) -> (r: String)
    ensures
        r@ == plan_header(*result),
{
    let e = &result.evaluation;
    let mut out = owned("\n=== Retention Plan ===\n");
    push_str(&mut out, "Policy source: ");
    push_str(&mut out, result.policy_source.as_str());
    push_str(&mut out, "\n");
    push_str(&mut out, "Evaluation time: ");
    let ts = display_utc(e.timestamp);
    push_str(&mut out, ts.as_str());
    push_str(&mut out, "\n");
    push_str(&mut out, "Total backups: ");
    let tb = decimal_u64(e.total_backups as u64);
    push_str(&mut out, tb.as_str());
    push_str(&mut out, "\n");
    push_str(&mut out, "Total WAL segments: ");
    let tw = decimal_u64(e.total_wal_segments as u64);
    push_str(&mut out, tw.as_str());
    push_str(&mut out, "\n");
    out
}

/// The point-in-time window of the plan.
fn plan_window_text(e: &RetentionResult) -> (r: String)
    ensures
        r@ == plan_window(*e),
{
    match (e.pitr_window_start, e.pitr_window_end) {
        (Some(s), Some(t)) => {
            let mut out = owned("\nPITR Window: ");
            let ss = display_utc(s);
            push_str(&mut out, ss.as_str());
            push_str(&mut out, " to ");
            let st = display_utc(t);
            push_str(&mut out, st.as_str());
            push_str(&mut out, "\n");
            out
        },
        _ => String::new(),
    }
}

/// The warnings of the plan.
fn plan_warnings_text(e: &RetentionResult) -> (r: String)
    ensures
        r@ == plan_warnings(*e),
{
    let mut out = String::new();
    if e.warnings.len() > 0 {
        push_str(&mut out, "\n⚠️  Warnings:\n");
        push_warning_lines(&mut out, &e.warnings);
    }
    out
}

/// The backups kept and deleted.
fn plan_backups_text(e: &RetentionResult) -> (r: String)
    ensures
        r@ == plan_backups(*e),
{
    let mut out = owned("\n=== Backups to Keep (");
    let nk = decimal_u64(e.backups_to_keep.len() as u64);
    push_str(&mut out, nk.as_str());
    push_str(&mut out, ") ===\n");
    push_keep_lines(&mut out, &e.backups_to_keep);
    push_str(&mut out, "\n=== Backups to Delete (");
    let nd = decimal_u64(e.backups_to_delete.len() as u64);
    push_str(&mut out, nd.as_str());
    push_str(&mut out, ") ===\n");
    push_delete_lines(&mut out, &e.backups_to_delete);
    out
}

/// The WAL kept and deleted.
fn plan_wal_text(e: &RetentionResult) -> (r: String)
    requires
        wal_size(e.wal_to_keep@) <= u64::MAX,
        wal_size(e.wal_to_delete@) <= u64::MAX,
    ensures
        r@ == plan_wal(*e),
{
    let mut out = String::new();
    if e.wal_to_keep.len() > 0 || e.wal_to_delete.len() > 0 {
        push_str(&mut out, "\n=== WAL to Keep (");
        let wk = decimal_u64(e.wal_to_keep.len() as u64);
        push_str(&mut out, wk.as_str());
        push_str(&mut out, ") ===\n");
        let keep = wal_summary_text(&e.wal_to_keep);
        push_str(&mut out, keep.as_str());
        push_str(&mut out, "\n=== WAL to Delete (");
        let wd = decimal_u64(e.wal_to_delete.len() as u64);
        push_str(&mut out, wd.as_str());
        push_str(&mut out, ") ===\n");
        let del = wal_summary_text(&e.wal_to_delete);
        push_str(&mut out, del.as_str());
    }
    out
}

/// The plan as a table of text, for display.
pub fn format_retention_plan_table(result: &RetentionPlanResult) -> (r: String)
    requires
        wal_size(result.evaluation.wal_to_keep@) <= u64::MAX,
        wal_size(result.evaluation.wal_to_delete@) <= u64::MAX,
    ensures
        r@ == plan_table(*result),
{
    let e = &result.evaluation;
    let mut out = plan_header_text(result);
    let w = plan_window_text(e);
    push_str(&mut out, w.as_str());
    let ws = plan_warnings_text(e);
    push_str(&mut out, ws.as_str());
    let b = plan_backups_text(e);
    push_str(&mut out, b.as_str());
    let wal = plan_wal_text(e);
    push_str(&mut out, wal.as_str());
    push_str(&mut out, "\n=== Summary ===\nEstimated space to free: ");
    let gb = format_fixed_pow2(e.estimated_space_freed, 30, 2);
    push_str(&mut out, gb.as_str());
    push_str(&mut out, " GB\n");
    out
}


/// The first group that a regular expression captures in a text: what
/// `regex::Regex::new(pattern)` followed by `captures(text)` and `get(1)`
/// finds; none when the pattern does not compile, does not match, or the
/// group took no part in the match.
pub uninterp spec fn regex_capture(pattern: Seq<char>, text: Seq<char>) -> Option<Seq<char>>;

/// `regex::Regex::new`, then `Regex::captures` and `Captures::get(1)`: the
/// text of the first group of the leftmost match; the result is a function
/// of the pattern and the text alone.
#[verifier::external_body]
fn first_capture(pattern: &str, text: &str) -> (r: Option<String>)
    ensures
        match r {
            Some(c) => regex_capture(pattern@, text@) == Some(c@),
            None => regex_capture(pattern@, text@) is None,
        },
{
    match regex::Regex::new(pattern) {
        Ok(re) => re.captures(text).and_then(|caps| caps.get(1)).map(|m| m.as_str().to_string()),
        Err(_) => None,
    }
}

/// A backup under retention, as collected from a backup directory. Times
/// are milliseconds since the Unix epoch.
#[derive(Debug, Clone)]
pub struct BackupItem {
    pub id: String,
    pub backup_type: BackupItemType,
    pub status: BackupItemStatus,
    pub start_time: i64,
    pub end_time: Option<i64>,
    pub base_backup_id: Option<String>,
    pub wal_start: Option<String>,
    pub wal_end: Option<String>,
    pub size_bytes: u64,
    pub database: Option<String>,
    pub pinned: bool,
    pub tags: Vec<String>,
    pub location: BackupLocation,
}

/// The pattern of a date and time stamp in a directory name,
/// `YYYY-MM-DDTHH-MM-SS`.
pub open spec fn stamp_pattern() -> Seq<char> {
    "(\\d{4}-\\d{2}-\\d{2}T\\d{2}-\\d{2}-\\d{2})"@
}

/// The pattern of a date in a directory name, `YYYY-MM-DD`.
pub open spec fn date_pattern() -> Seq<char> {
    "(\\d{4}-\\d{2}-\\d{2})"@
}

/// Every `-` turned into `:`.
pub open spec fn dashes_to_colons(s: Seq<char>) -> Seq<char> {
    Seq::new(s.len(), |i: int| if s[i] == '-' { ':' } else { s[i] })
}

/// The first `k` colons turned back into `-`.
pub open spec fn first_colons_to_dashes(s: Seq<char>, k: nat) -> Seq<char>
    decreases s.len(),
{
    if s.len() == 0 {
        s
    } else if s[0] == ':' && k > 0 {
        seq!['-'] + first_colons_to_dashes(s.drop_first(), (k - 1) as nat)
    } else {
        seq![s[0]] + first_colons_to_dashes(s.drop_first(), k)
    }
}

/// The RFC 3339 text of a `YYYY-MM-DDTHH-MM-SS` stamp: the time's dashes
/// become colons, and a `Z` is added.
pub open spec fn stamp_rfc3339(stamp: Seq<char>) -> Seq<char> {
    first_colons_to_dashes(dashes_to_colons(stamp), 2) + "Z"@
}

/// The instant a backup directory's name holds: its date and time stamp
/// read as UTC when it has one; otherwise the midnight (UTC) of the date it
/// holds, if any.
pub open spec fn timestamp_in_name(name: Seq<char>) -> Option<i64> {
    match regex_capture(stamp_pattern(), name) {
        Some(c) => rfc3339_instant(stamp_rfc3339(c)),
        None => match regex_capture(date_pattern(), name) {
            Some(d) => naive_date_instant(d, "%Y-%m-%d"@),
            None => None,
        },
    }
}

/// The RFC 3339 text of a `YYYY-MM-DDTHH-MM-SS` stamp.
pub fn rfc3339_from_stamp(stamp: &str) -> (r: String)
    ensures
        r@ == stamp_rfc3339(stamp@),
{
    let v = chars_of(stamp);
    let ghost m = dashes_to_colons(v@);
    let mut out = String::new();
    let mut left: u32 = 2;
    let mut i: usize = 0;
    proof {
        assert(m.skip(0) =~= m);
    }
    while i < v.len()
        invariant
            i <= v@.len(),
            m == dashes_to_colons(v@),
            left <= 2,
            out@ + first_colons_to_dashes(m.skip(i as int), left as nat) == first_colons_to_dashes(m, 2),
        decreases v@.len() - i,
    {
        let c = if v[i] == '-' {
            ':'
        } else {
            v[i]
        };
        proof {
            assert(m.skip(i as int)[0] == c);
            assert(m.skip(i as int).drop_first() =~= m.skip(i + 1));
        }
        let ghost before = out@;
        if c == ':' && left > 0 {
            push_char_to(&mut out, '-');
            left = left - 1;
            proof {
                assert(out@ =~= before + seq!['-']);
            }
        } else {
            push_char_to(&mut out, c);
            proof {
                assert(out@ =~= before + seq![c]);
            }
        }
        i = i + 1;
    }
    proof {
        assert(m.skip(v@.len() as int).len() == 0);
        assert(out@ =~= first_colons_to_dashes(m, 2));
    }
    push_str(&mut out, "Z");
    out
}

/// `c` added at the end of `s`.
fn push_char_to(s: &mut String, c: char)
    ensures
        final(s)@ == old(s)@.push(c),
{
    crate::text::push_char(s, c);
}

/// Extract timestamp from backup directory name
pub fn extract_timestamp_from_name(name: &str) -> (r: Option<i64>)
    ensures
        r == timestamp_in_name(name@),
{
    match first_capture("(\\d{4}-\\d{2}-\\d{2}T\\d{2}-\\d{2}-\\d{2})", name) {
        Some(c) => {
            let text = rfc3339_from_stamp(c.as_str());
            match parse_rfc3339_millis(text.as_str()) {
                Ok(t) => Some(t),
                Err(_) => None,
            }
        },
        None => match first_capture("(\\d{4}-\\d{2}-\\d{2})", name) {
            Some(d) => parse_naive_date_millis(d.as_str(), "%Y-%m-%d"),
            None => None,
        },
    }
}

/// The type a backup directory's name shows: `full_backup`,
/// `incremental_backup` or `snapshot_backup`, checked in that order.
pub open spec fn type_in_name(name: Seq<char>) -> Option<BackupItemType> {
    if contains_seq(name, "full_backup"@) {
        Some(BackupItemType::Full)
    } else if contains_seq(name, "incremental_backup"@) {
        Some(BackupItemType::Incremental)
    } else if contains_seq(name, "snapshot_backup"@) {
        Some(BackupItemType::Snapshot)
    } else {
        None
    }
}

/// Infer backup info from directory name when no metadata exists: the
/// directory `name` at `path`, whose files hold `size_bytes`. The backup is
/// taken as completed at the time its name holds (`now` when it holds
/// none), and tagged `inferred`.
pub fn infer_backup_from_directory(name: &str, path: &str, size_bytes: u64, now: i64) -> (r: Option<BackupItem>)
    ensures
        match type_in_name(name@) {
            None => r is None,
            Some(t) => r matches Some(b) && {
                let ts = match timestamp_in_name(name@) {
                    Some(x) => x,
                    None => now,
                };
                &&& b.id@ == name@
                &&& b.backup_type == t
                &&& b.status == BackupItemStatus::Completed
                &&& b.start_time == ts
                &&& b.end_time == Some(ts)
                &&& b.base_backup_id is None
                &&& b.wal_start is None
                &&& b.wal_end is None
                &&& b.size_bytes == size_bytes
                &&& b.database is None
                &&& !b.pinned
                &&& texts(b.tags@) == seq!["inferred"@]
                &&& b.location matches BackupLocation::Local(p) && p@ == path@
            },
        },
{
    let v = chars_of(name);
    let t = if contains_str(&v, "full_backup") {
        BackupItemType::Full
    } else if contains_str(&v, "incremental_backup") {
        BackupItemType::Incremental
    } else if contains_str(&v, "snapshot_backup") {
        BackupItemType::Snapshot
    } else {
        return None;
    };
    let ts = match extract_timestamp_from_name(name) {
        Some(x) => x,
        None => now,
    };
    let mut tags: Vec<String> = Vec::new();
    tags.push(owned("inferred"));
    proof {
        assert(texts(tags@) =~= seq!["inferred"@]);
    }
    Some(
        BackupItem {
            id: owned(name),
            backup_type: t,
            status: BackupItemStatus::Completed,
            start_time: ts,
            end_time: Some(ts),
            base_backup_id: None,
            wal_start: None,
            wal_end: None,
            size_bytes,
            database: None,
            pinned: false,
            tags,
            location: BackupLocation::Local(owned(path)),
        },
    )
}

/// The fields of a backup's `backup_metadata.json` that retention reads,
/// each present when the file has it with the expected JSON type (`tags`:
/// its string elements).
#[derive(Debug, Clone)]
pub struct LocalMetadataFields {
    pub backup_id: Option<String>,
    pub id: Option<String>,
    pub backup_type: Option<String>,
    pub status: Option<String>,
    pub start_time: Option<String>,
    pub end_time: Option<String>,
    pub size_bytes: Option<u64>,
    pub base_backup_id: Option<String>,
    pub wal_start: Option<String>,
    pub wal_end: Option<String>,
    pub database: Option<String>,
    pub pinned: Option<bool>,
    pub tags: Option<Vec<String>>,
}

/// The backup type a metadata file names (`full`, `incremental`,
/// `snapshot`, lower-case or capitalized); a snapshot otherwise.
pub open spec fn metadata_type(t: Option<String>) -> BackupItemType {
    match t {
        Some(s) => if s@ == "full"@ || s@ == "Full"@ {
            BackupItemType::Full
        } else if s@ == "incremental"@ || s@ == "Incremental"@ {
            BackupItemType::Incremental
        } else {
            BackupItemType::Snapshot
        },
        None => BackupItemType::Snapshot,
    }
}

/// The status a metadata file names; completed unless it says failed.
pub open spec fn metadata_status(s: Option<String>) -> BackupItemStatus {
    match s {
        Some(x) => if x@ == "Failed"@ || x@ == "failed"@ {
            BackupItemStatus::Failed
        } else {
            BackupItemStatus::Completed
        },
        None => BackupItemStatus::Completed,
    }
}

/// An RFC 3339 field read as an instant, when present and valid.
pub open spec fn metadata_instant(s: Option<String>) -> Option<i64> {
    match s {
        Some(x) => rfc3339_instant(x@),
        None => None,
    }
}

/// An RFC 3339 field read as an instant.
fn read_instant(s: &Option<String>) -> (r: Option<i64>)
    ensures
        r == metadata_instant(*s),
{
    match s {
        Some(x) => match parse_rfc3339_millis(x.as_str()) {
            Ok(t) => Some(t),
            Err(_) => None,
        },
        None => None,
    }
}

/// The backup a metadata file describes, for the backup directory at
/// `path` named `dir_name` (when the name is text). The identifier is
/// `backup_id`, else `id`, else the directory's name, else `unknown`; a
/// missing start time is `now`; a missing size is `dir_size`, the size of
/// the directory's files.
pub fn parse_local_metadata(
    m: &LocalMetadataFields,
    dir_name: Option<&str>,
    path: &str,
    dir_size: u64,
    now: i64,
) -> (r: BackupItem)
    ensures
        r.id@ == match m.backup_id {
            Some(x) => x@,
            None => match m.id {
                Some(x) => x@,
                None => match dir_name {
                    Some(n) => n@,
                    None => "unknown"@,
                },
            },
        },
        r.backup_type == metadata_type(m.backup_type),
        r.status == metadata_status(m.status),
        r.start_time == match metadata_instant(m.start_time) {
            Some(t) => t,
            None => now,
        },
        r.end_time == metadata_instant(m.end_time),
        r.base_backup_id == m.base_backup_id,
        r.wal_start == m.wal_start,
        r.wal_end == m.wal_end,
        r.size_bytes == match m.size_bytes {
            Some(x) => x,
            None => dir_size,
        },
        r.database == m.database,
        r.pinned == match m.pinned {
            Some(p) => p,
            None => false,
        },
        r.tags@ == match m.tags {
            Some(t) => t@,
            None => Seq::<String>::empty(),
        },
        r.location matches BackupLocation::Local(p) && p@ == path@,
{
    let id = match &m.backup_id {
        Some(x) => x.clone(),
        None => match &m.id {
            Some(x) => x.clone(),
            None => match dir_name {
                Some(n) => owned(n),
                None => owned("unknown"),
            },
        },
    };
    let backup_type = match &m.backup_type {
        Some(s) => if str_eq(s.as_str(), "full") || str_eq(s.as_str(), "Full") {
            BackupItemType::Full
        } else if str_eq(s.as_str(), "incremental") || str_eq(s.as_str(), "Incremental") {
            BackupItemType::Incremental
        } else {
            BackupItemType::Snapshot
        },
        None => BackupItemType::Snapshot,
    };
    let status = match &m.status {
        Some(s) => if str_eq(s.as_str(), "Failed") || str_eq(s.as_str(), "failed") {
            BackupItemStatus::Failed
        } else {
            BackupItemStatus::Completed
        },
        None => BackupItemStatus::Completed,
    };
    let start_time = match read_instant(&m.start_time) {
        Some(t) => t,
        None => now,
    };
    let end_time = read_instant(&m.end_time);
    let size_bytes = match m.size_bytes {
        Some(x) => x,
        None => dir_size,
    };
    let pinned = match m.pinned {
        Some(p) => p,
        None => false,
    };
    let tags = match &m.tags {
        Some(t) => t.clone(),
        None => Vec::new(),
    };
    BackupItem {
        id,
        backup_type,
        status,
        start_time,
        end_time,
        base_backup_id: m.base_backup_id.clone(),
        wal_start: m.wal_start.clone(),
        wal_end: m.wal_end.clone(),
        size_bytes,
        database: m.database.clone(),
        pinned,
        tags,
        location: BackupLocation::Local(owned(path)),
    }
}

} // verus!
