//! Point-in-time recovery commands: the plan's report and verdict, the
//! summary before a recovery and the report after it, and the listing of
//! recovery options.

use vstd::prelude::*;
use crate::text::{
    concat2, concat3, concat_all, decimal, decimal_u64, join_strings, join_with,
    lemma_concat_all_push, owned, pad_left, pad_right, push_padded_left, push_padded_right,
    push_repeat, push_str, repeat_char, texts,
};
use crate::timestamps::{display_utc, format_utc, rfc3339_utc, utc_display, utc_formatted, utc_rfc3339};
use crate::cluster::copy_text;
use crate::units::{fixed_text, format_fixed_pow2};
use crate::text::{prefixed_lines, push_prefixed_lines, quote_text, quoted};

verus! {

/// A base backup that recovery can start from. Times are milliseconds
/// since the Unix epoch.
#[derive(Debug, Clone)]
pub struct BackupChoice {
    pub id: String,
    pub start_time: i64,
    pub end_time: Option<i64>,
    pub server_version: String,
    pub size_bytes: u64,
    pub is_remote: bool,
    pub wal_start: Option<String>,
    pub wal_end: Option<String>,
}

/// The WAL that is archived.
#[derive(Debug, Clone)]
pub struct WalCoverage {
    pub segment_count: usize,
    pub total_size_bytes: u64,
    pub earliest_lsn: Option<String>,
    pub latest_lsn: Option<String>,
    pub earliest_time: Option<i64>,
    pub latest_time: Option<i64>,
    pub timelines: Vec<u32>,
    pub gap_count: usize,
}

/// What recovery can reach.
#[derive(Debug, Clone)]
pub struct RecoveryOptions {
    pub available_backups: Vec<BackupChoice>,
    pub wal_coverage: WalCoverage,
    pub earliest_recoverable: Option<i64>,
    pub latest_recoverable: Option<i64>,
}

/// `{:?}` of a list of numbers.
pub open spec fn number_list(v: Seq<u32>) -> Seq<char> {
    "["@ + join_with(v.map_values(|n: u32| decimal(n as nat)), ", "@) + "]"@
}

/// A backup's row of the listing.
pub open spec fn choice_row(b: BackupChoice) -> Seq<char> {
    "  "@ + pad_right(b.id@, 36) + "  "@ + pad_right(utc_formatted(b.start_time, "%Y-%m-%d %H:%M:%S"@), 24)
        + "  "@ + pad_left(fixed_text(b.size_bytes as nat, 20, 2), 10) + "  "@ + pad_right(
        if b.is_remote {
            "yes"@
        } else {
            "no"@
        },
        8,
    ) + "\n"@
}

/// The base backups of the listing.
pub open spec fn backups_section(o: RecoveryOptions) -> Seq<char> {
    let bs = o.available_backups@;
    "Base Backups ("@ + decimal(bs.len()) + "):\n"@ + if bs.len() == 0 {
        "  (none found)\n"@
    } else {
        "  "@ + pad_right("ID"@, 36) + "  "@ + pad_right("Start Time"@, 24) + "  "@ + pad_right(
            "Size (MB)"@,
            10,
        ) + "  "@ + pad_right("Remote"@, 8) + "\n"@ + "  "@ + repeat_char('-', 82) + "\n"@ + concat_all(
            bs.map_values(|b: BackupChoice| choice_row(b)),
        )
    } + "\n"@
}

/// A line for a value that may be absent.
pub open spec fn maybe_line(label: Seq<char>, value: Option<Seq<char>>) -> Seq<char> {
    match value {
        Some(v) => label + v + "\n"@,
        None => Seq::empty(),
    }
}

/// The text of an optional string.
pub open spec fn opt_text(o: Option<String>) -> Option<Seq<char>> {
    match o {
        Some(s) => Some(s@),
        None => None,
    }
}

/// The displayed form of an optional time.
pub open spec fn opt_time(o: Option<i64>) -> Option<Seq<char>> {
    match o {
        Some(t) => Some(utc_display(t)),
        None => None,
    }
}

/// The WAL coverage of the listing.
pub open spec fn coverage_section(w: WalCoverage) -> Seq<char> {
    "WAL Coverage:\n"@ + "  Segments:        "@ + decimal(w.segment_count as nat) + "\n"@
        + "  Total Size:      "@ + fixed_text(w.total_size_bytes as nat, 20, 2) + " MB\n"@ + maybe_line(
        "  Earliest LSN:    "@,
        opt_text(w.earliest_lsn),
    ) + maybe_line("  Latest LSN:      "@, opt_text(w.latest_lsn)) + maybe_line(
        "  Earliest Time:   "@,
        opt_time(w.earliest_time),
    ) + maybe_line("  Latest Time:     "@, opt_time(w.latest_time)) + "  Timelines:       "@
        + number_list(w.timelines@) + "\n"@ + (if w.gap_count > 0 {
        "  Gaps:            "@ + decimal(w.gap_count as nat)
            + " (recovery may fail if target falls in a gap)\n"@
    } else {
        Seq::empty()
    }) + "\n"@
}

/// The recovery window of the listing.
pub open spec fn window_section(o: RecoveryOptions) -> Seq<char> {
    "Recovery Window:\n"@ + "  Earliest:        "@ + match o.earliest_recoverable {
        Some(t) => utc_display(t),
        None => "(no backups available)"@,
    } + "\n"@ + "  Latest:          "@ + match o.latest_recoverable {
        Some(t) => utc_display(t),
        None => "(no WAL coverage)"@,
    } + "\n"@ + "\n"@
}

/// The recovery options as text.
pub open spec fn options_table(o: RecoveryOptions) -> Seq<char> {
    "\n=== Available Recovery Options ===\n\n"@ + backups_section(o) + coverage_section(o.wal_coverage)
        + window_section(o)
}

fn choice_row_text(b: &BackupChoice) -> (r: String)
    ensures
        r@ == choice_row(*b),
{
    let mut out = owned("  ");
    push_padded_right(&mut out, b.id.as_str(), 36);
    push_str(&mut out, "  ");
    let t = format_utc(b.start_time, "%Y-%m-%d %H:%M:%S");
    push_padded_right(&mut out, t.as_str(), 24);
    push_str(&mut out, "  ");
    let mb = format_fixed_pow2(b.size_bytes, 20, 2);
    push_padded_left(&mut out, mb.as_str(), 10);
    push_str(&mut out, "  ");
    push_padded_right(&mut out, if b.is_remote { "yes" } else { "no" }, 8);
    push_str(&mut out, "\n");
    out
}

fn backups_section_text(o: &RecoveryOptions) -> (r: String)
    ensures
        r@ == backups_section(*o),
{
    let bs = &o.available_backups;
    let mut out = owned("Base Backups (");
    let n = decimal_u64(bs.len() as u64);
    push_str(&mut out, n.as_str());
    push_str(&mut out, "):\n");
    if bs.len() == 0 {
        push_str(&mut out, "  (none found)\n");
    } else {
        push_str(&mut out, "  ");
        push_padded_right(&mut out, "ID", 36);
        push_str(&mut out, "  ");
        push_padded_right(&mut out, "Start Time", 24);
        push_str(&mut out, "  ");
        push_padded_right(&mut out, "Size (MB)", 10);
        push_str(&mut out, "  ");
        push_padded_right(&mut out, "Remote", 8);
        push_str(&mut out, "\n");
        push_str(&mut out, "  ");
        push_repeat(&mut out, '-', 82);
        push_str(&mut out, "\n");
        let ghost start = out@;
        let ghost lines = bs@.map_values(|b: BackupChoice| choice_row(b));
        let mut i: usize = 0;
        while i < bs.len()
            invariant
                i <= bs@.len(),
                lines == bs@.map_values(|b: BackupChoice| choice_row(b)),
                out@ == start + concat_all(lines.take(i as int)),
            decreases bs@.len() - i,
        {
            let line = choice_row_text(&bs[i]);
            push_str(&mut out, line.as_str());
            proof {
                assert(lines.take(i + 1) =~= lines.take(i as int).push(lines[i as int]));
                lemma_concat_all_push(lines.take(i as int), lines[i as int]);
            }
            i = i + 1;
        }
        proof {
            assert(lines.take(lines.len() as int) =~= lines);
        }
    }
    push_str(&mut out, "\n");
    out
}

/// `{:?}` of a list of numbers.
fn number_list_text(v: &Vec<u32>) -> (r: String)
    ensures
        r@ == number_list(v@),
{
    let mut parts: Vec<String> = Vec::new();
    let ghost want = v@.map_values(|n: u32| decimal(n as nat));
    let mut i: usize = 0;
    while i < v.len()
        invariant
            i <= v@.len(),
            want == v@.map_values(|n: u32| decimal(n as nat)),
            texts(parts@) == want.take(i as int),
        decreases v@.len() - i,
    {
        let d = decimal_u64(v[i] as u64);
        let ghost before = parts@;
        parts.push(d);
        proof {
            assert(texts(parts@) =~= texts(before).push(d@));
            assert(want.take(i + 1) =~= want.take(i as int).push(want[i as int]));
        }
        i = i + 1;
    }
    proof {
        assert(want.take(want.len() as int) =~= want);
    }
    let j = join_strings(&parts, ", ");
    concat3("[", j.as_str(), "]")
}

fn push_maybe_text(out: &mut String, label: &str, value: &Option<String>)
    ensures
        final(out)@ == old(out)@ + maybe_line(label@, opt_text(*value)),
{
    if let Some(v) = value {
        push_str(out, label);
        push_str(out, v.as_str());
        push_str(out, "\n");
    }
}

fn push_maybe_time(out: &mut String, label: &str, value: Option<i64>)
    ensures
        final(out)@ == old(out)@ + maybe_line(label@, opt_time(value)),
{
    if let Some(t) = value {
        push_str(out, label);
        let d = display_utc(t);
        push_str(out, d.as_str());
        push_str(out, "\n");
    }
}

fn coverage_section_text(w: &WalCoverage) -> (r: String)
    ensures
        r@ == coverage_section(*w),
{
    let mut out = owned("WAL Coverage:\n");
    push_str(&mut out, "  Segments:        ");
    let n = decimal_u64(w.segment_count as u64);
    push_str(&mut out, n.as_str());
    push_str(&mut out, "\n");
    push_str(&mut out, "  Total Size:      ");
    let mb = format_fixed_pow2(w.total_size_bytes, 20, 2);
    push_str(&mut out, mb.as_str());
    push_str(&mut out, " MB\n");
    push_maybe_text(&mut out, "  Earliest LSN:    ", &w.earliest_lsn);
    push_maybe_text(&mut out, "  Latest LSN:      ", &w.latest_lsn);
    push_maybe_time(&mut out, "  Earliest Time:   ", w.earliest_time);
    push_maybe_time(&mut out, "  Latest Time:     ", w.latest_time);
    push_str(&mut out, "  Timelines:       ");
    let tl = number_list_text(&w.timelines);
    push_str(&mut out, tl.as_str());
    push_str(&mut out, "\n");
    let ghost before_gaps = out@;
    if w.gap_count > 0 {
        push_str(&mut out, "  Gaps:            ");
        let g = decimal_u64(w.gap_count as u64);
        push_str(&mut out, g.as_str());
        push_str(&mut out, " (recovery may fail if target falls in a gap)\n");
    }
    push_str(&mut out, "\n");
    out
}

fn window_section_text(o: &RecoveryOptions) -> (r: String)
    ensures
        r@ == window_section(*o),
{
    let mut out = owned("Recovery Window:\n");
    push_str(&mut out, "  Earliest:        ");
    match o.earliest_recoverable {
        Some(t) => {
            let d = display_utc(t);
            push_str(&mut out, d.as_str());
        },
        None => push_str(&mut out, "(no backups available)"),
    }
    push_str(&mut out, "\n");
    push_str(&mut out, "  Latest:          ");
    match o.latest_recoverable {
        Some(t) => {
            let d = display_utc(t);
            push_str(&mut out, d.as_str());
        },
        None => push_str(&mut out, "(no WAL coverage)"),
    }
    push_str(&mut out, "\n");
    push_str(&mut out, "\n");
    out
}

/// The recovery options as a table of text.
pub fn format_recovery_options(options: &RecoveryOptions) -> (r: String)
    ensures
        r@ == options_table(*options),
{
    let mut out = owned("\n=== Available Recovery Options ===\n\n");
    let a = backups_section_text(options);
    push_str(&mut out, a.as_str());
    let b = coverage_section_text(&options.wal_coverage);
    push_str(&mut out, b.as_str());
    let c = window_section_text(options);
    push_str(&mut out, c.as_str());
    out
}

/// Result of PITR plan command. Times are milliseconds since the Unix epoch.
#[derive(Debug, Clone)]
pub struct PitrPlanResult {
    pub plan_id: String,
    pub target_time: i64,
    pub base_backup_id: String,
    pub base_backup_time: i64,
    pub wal_segment_count: usize,
    pub estimated_download_bytes: u64,
    pub is_valid: bool,
    pub errors: Vec<String>,
    pub warnings: Vec<String>,
}

/// A plan that does not validate cannot be carried out: its errors, joined
/// with `; `, say why.
pub fn plan_verdict(is_valid: bool, errors: &Vec<String>) -> (r: Result<(), String>)
    ensures
        is_valid ==> r is Ok,
        !is_valid ==> (r matches Err(m) && m@ == "Recovery plan is invalid: "@ + join_with(texts(errors@), "; "@)),
{
    if is_valid {
        Ok(())
    } else {
        let j = join_strings(errors, "; ");
        Err(concat2("Recovery plan is invalid: ", j.as_str()))
    }
}


/// What the plan report shows of a plan beyond its result: the base
/// backup's server version, size and place, and the recovery window.
#[derive(Debug, Clone)]
pub struct PlanDetails {
    pub server_version: String,
    pub base_size_bytes: u64,
    pub base_is_remote: bool,
    pub window_earliest: i64,
    pub window_latest: Option<i64>,
}

/// A byte count with its size in MiB to two decimals.
pub open spec fn bytes_and_mib(n: u64) -> Seq<char> {
    decimal(n as nat) + " bytes ("@ + fixed_text(n as nat, 20, 2) + " MB)"@
}

/// `true` or `false`.
pub open spec fn bool_text(b: bool) -> Seq<char> {
    if b {
        "true"@
    } else {
        "false"@
    }
}

/// The head of the plan report: identity and base backup.
pub open spec fn plan_report_head(r: PitrPlanResult, d: PlanDetails) -> Seq<char> {
    "\n=== PITR Recovery Plan ===\n\n"@ + "Plan ID:           "@ + r.plan_id@ + "\n"@ + "Target Time:       "@
        + utc_display(r.target_time) + "\n"@ + "\n"@ + "Base Backup:\n"@ + "  ID:              "@
        + r.base_backup_id@ + "\n"@ + "  Start Time:      "@ + utc_display(r.base_backup_time) + "\n"@
        + "  Server Version:  "@ + d.server_version@ + "\n"@ + "  Size:            "@ + bytes_and_mib(
        d.base_size_bytes,
    ) + "\n"@ + "  Remote:          "@ + bool_text(d.base_is_remote) + "\n"@ + "\n"@
}

/// The tail of the plan report: WAL, window and verdict.
pub open spec fn plan_report_tail(r: PitrPlanResult, d: PlanDetails) -> Seq<char> {
    "WAL Segments:      "@ + decimal(r.wal_segment_count as nat) + "\n"@ + "Est. Download:     "@
        + bytes_and_mib(r.estimated_download_bytes) + "\n"@ + "\n"@ + "Recovery Window:\n"@
        + "  Earliest:        "@ + utc_display(d.window_earliest) + "\n"@ + match d.window_latest {
        Some(t) => "  Latest:          "@ + utc_display(t) + "\n"@,
        None => "  Latest:          (unknown - no WAL timestamps)\n"@,
    } + "\n"@ + "Validation:        "@ + (if r.is_valid {
        "✓ VALID"@
    } else {
        "✗ INVALID"@
    }) + "\n"@ + (if r.errors@.len() > 0 {
        "\nErrors:\n"@ + prefixed_lines("  ✗ "@, texts(r.errors@))
    } else {
        Seq::empty()
    }) + (if r.warnings@.len() > 0 {
        "\nWarnings:\n"@ + prefixed_lines("  ⚠ "@, texts(r.warnings@))
    } else {
        Seq::empty()
    }) + "\n"@
}

/// A byte count with its size in MiB.
fn bytes_and_mib_text(n: u64) -> (r: String)
    ensures
        r@ == bytes_and_mib(n),
{
    let mut out = decimal_u64(n);
    push_str(&mut out, " bytes (");
    let m = format_fixed_pow2(n, 20, 2);
    push_str(&mut out, m.as_str());
    push_str(&mut out, " MB)");
    out
}

/// The head of the plan report.
#[verifier::rlimit(50)]
fn plan_report_head_text(r: &PitrPlanResult, d: &PlanDetails) -> (s: String)
    ensures
        s@ == plan_report_head(*r, *d),
{
    let mut out = owned("\n=== PITR Recovery Plan ===\n\n");
    push_str(&mut out, "Plan ID:           ");
    push_str(&mut out, r.plan_id.as_str());
    push_str(&mut out, "\n");
    push_str(&mut out, "Target Time:       ");
    let t = display_utc(r.target_time);
    push_str(&mut out, t.as_str());
    push_str(&mut out, "\n");
    push_str(&mut out, "\n");
    push_str(&mut out, "Base Backup:\n");
    push_str(&mut out, "  ID:              ");
    push_str(&mut out, r.base_backup_id.as_str());
    push_str(&mut out, "\n");
    push_str(&mut out, "  Start Time:      ");
    let b = display_utc(r.base_backup_time);
    push_str(&mut out, b.as_str());
    push_str(&mut out, "\n");
    push_str(&mut out, "  Server Version:  ");
    push_str(&mut out, d.server_version.as_str());
    push_str(&mut out, "\n");
    push_str(&mut out, "  Size:            ");
    let z = bytes_and_mib_text(d.base_size_bytes);
    push_str(&mut out, z.as_str());
    push_str(&mut out, "\n");
    push_str(&mut out, "  Remote:          ");
    push_str(&mut out, if d.base_is_remote {
        "true"
    } else {
        "false"
    });
    push_str(&mut out, "\n");
    push_str(&mut out, "\n");
    proof {
        assert(out@ =~= plan_report_head(*r, *d));
    }
    out
}

/// The tail of the plan report.
#[verifier::rlimit(50)]
fn plan_report_tail_text(r: &PitrPlanResult, d: &PlanDetails) -> (s: String)
    ensures
        s@ == plan_report_tail(*r, *d),
{
    let mut out = owned("WAL Segments:      ");
    let n = decimal_u64(r.wal_segment_count as u64);
    push_str(&mut out, n.as_str());
    push_str(&mut out, "\n");
    push_str(&mut out, "Est. Download:     ");
    let e = bytes_and_mib_text(r.estimated_download_bytes);
    push_str(&mut out, e.as_str());
    push_str(&mut out, "\n");
    push_str(&mut out, "\n");
    push_str(&mut out, "Recovery Window:\n");
    push_str(&mut out, "  Earliest:        ");
    let w = display_utc(d.window_earliest);
    push_str(&mut out, w.as_str());
    push_str(&mut out, "\n");
    let ghost a = out@;
    match d.window_latest {
        Some(t) => {
            push_str(&mut out, "  Latest:          ");
            let l = display_utc(t);
            push_str(&mut out, l.as_str());
            push_str(&mut out, "\n");
        },
        None => push_str(&mut out, "  Latest:          (unknown - no WAL timestamps)\n"),
    }
    push_str(&mut out, "\n");
    push_str(&mut out, "Validation:        ");
    push_str(&mut out, if r.is_valid {
        "✓ VALID"
    } else {
        "✗ INVALID"
    });
    push_str(&mut out, "\n");
    let ghost b = out@;
    if r.errors.len() > 0 {
        push_str(&mut out, "\nErrors:\n");
        push_prefixed_lines(&mut out, "  ✗ ", &r.errors);
    }
    let ghost c = out@;
    if r.warnings.len() > 0 {
        push_str(&mut out, "\nWarnings:\n");
        push_prefixed_lines(&mut out, "  ⚠ ", &r.warnings);
    }
    push_str(&mut out, "\n");
    proof {
        assert(out@ =~= plan_report_tail(*r, *d));
    }
    out
}

/// The report of a recovery plan, as `pitr plan` prints it.
pub fn format_pitr_plan(result: &PitrPlanResult, details: &PlanDetails) -> (r: String)
    ensures
        r@ == plan_report_head(*result, *details) + plan_report_tail(*result, *details),
{
    let mut out = plan_report_head_text(result, details);
    let t = plan_report_tail_text(result, details);
    push_str(&mut out, t.as_str());
    out
}

/// The summary shown before a recovery is carried out.
pub open spec fn restore_summary(
    target_time: Seq<char>,
    target_dir: Seq<char>,
    base_id: Seq<char>,
    base_start: i64,
    wal_count: usize,
    download_bytes: u64,
    auto_start: bool,
    warnings: Seq<Seq<char>>,
) -> Seq<char> {
    "\n=== PITR Recovery Plan ===\n\n"@ + "Target Time:       "@ + target_time + "\n"@ + "Target Directory:  "@
        + quoted(target_dir) + "\n"@ + "Base Backup:       "@ + base_id + " ("@ + utc_display(base_start)
        + ")\n"@ + "WAL Segments:      "@ + decimal(wal_count as nat) + "\n"@ + "Est. Download:     "@
        + fixed_text(download_bytes as nat, 20, 2) + " MB\n"@ + "Auto-start:        "@ + bool_text(auto_start)
        + "\n"@ + "\n"@ + if warnings.len() > 0 {
        "Warnings:\n"@ + prefixed_lines("  ⚠ "@, warnings) + "\n"@
    } else {
        Seq::empty()
    }
}

/// The summary `pitr restore` shows of its plan before asking to proceed.
pub fn format_restore_summary(
    target_time: &str,
    target_dir: &str,
    base_id: &str,
    base_start: i64,
    wal_count: usize,
    download_bytes: u64,
    auto_start: bool,
    warnings: &Vec<String>,
) -> (r: String)
    ensures
        r@ == restore_summary(
            target_time@,
            target_dir@,
            base_id@,
            base_start,
            wal_count,
            download_bytes,
            auto_start,
            texts(warnings@),
        ),
{
    let mut out = owned("\n=== PITR Recovery Plan ===\n\n");
    push_str(&mut out, "Target Time:       ");
    push_str(&mut out, target_time);
    push_str(&mut out, "\n");
    push_str(&mut out, "Target Directory:  ");
    let q = quote_text(target_dir);
    push_str(&mut out, q.as_str());
    push_str(&mut out, "\n");
    push_str(&mut out, "Base Backup:       ");
    push_str(&mut out, base_id);
    push_str(&mut out, " (");
    let s = display_utc(base_start);
    push_str(&mut out, s.as_str());
    push_str(&mut out, ")\n");
    push_str(&mut out, "WAL Segments:      ");
    let n = decimal_u64(wal_count as u64);
    push_str(&mut out, n.as_str());
    push_str(&mut out, "\n");
    push_str(&mut out, "Est. Download:     ");
    let m = format_fixed_pow2(download_bytes, 20, 2);
    push_str(&mut out, m.as_str());
    push_str(&mut out, " MB\n");
    push_str(&mut out, "Auto-start:        ");
    push_str(&mut out, if auto_start {
        "true"
    } else {
        "false"
    });
    push_str(&mut out, "\n");
    push_str(&mut out, "\n");
    let ghost head = out@;
    if warnings.len() > 0 {
        push_str(&mut out, "Warnings:\n");
        push_prefixed_lines(&mut out, "  ⚠ ", warnings);
        push_str(&mut out, "\n");
    }
    proof {
        assert(out@ =~= restore_summary(
            target_time@,
            target_dir@,
            base_id@,
            base_start,
            wal_count,
            download_bytes,
            auto_start,
            texts(warnings@),
        ));
    }
    out
}

/// What to do after a recovery: watch the logs when the server was
/// started, else the steps that finish the recovery.
pub open spec fn recovery_next_steps(auto_start: bool, target_dir: Seq<char>) -> Seq<char> {
    if auto_start {
        "PostgreSQL has been started in recovery mode.\n"@ + "Monitor the logs at: "@ + quoted(target_dir)
            + "/postgresql.log\n"@
    } else {
        "To complete recovery:\n"@ + "  1. Start PostgreSQL with: pg_ctl start -D "@ + quoted(target_dir) + "\n"@
            + "  2. PostgreSQL will replay WAL and pause at the target time\n"@
            + "  3. Verify the data, then promote: SELECT pg_wal_replay_resume();\n"@
    }
}

/// The closing advice of `pitr restore`.
pub fn format_next_steps(auto_start: bool, target_dir: &str) -> (r: String)
    ensures
        r@ == recovery_next_steps(auto_start, target_dir@),
{
    let q = quote_text(target_dir);
    if auto_start {
        let mut out = owned("PostgreSQL has been started in recovery mode.\n");
        push_str(&mut out, "Monitor the logs at: ");
        push_str(&mut out, q.as_str());
        push_str(&mut out, "/postgresql.log\n");
        out
    } else {
        let mut out = owned("To complete recovery:\n");
        push_str(&mut out, "  1. Start PostgreSQL with: pg_ctl start -D ");
        push_str(&mut out, q.as_str());
        push_str(&mut out, "\n");
        push_str(&mut out, "  2. PostgreSQL will replay WAL and pause at the target time\n");
        push_str(&mut out, "  3. Verify the data, then promote: SELECT pg_wal_replay_resume();\n");
        out
    }
}

/// Whether `pitr restore` asks before restoring: unless `--yes` was given.
pub fn restore_needs_confirmation(yes: bool) -> (r: bool)
    ensures
        r == !yes,
{
    !yes
}

/// After the question: a refusal cancels the recovery with this line; an
/// acceptance lets it go ahead.
pub fn after_restore_answer(accepted: bool) -> (r: Option<&'static str>)
    ensures
        accepted ==> r is None,
        !accepted ==> (r matches Some(m) && m@ == "Recovery cancelled."@),
{
    if accepted {
        None
    } else {
        Some("Recovery cancelled.")
    }
}

// ---------------------------------------------------------------------------
// The recovery options as data, for the JSON listing
// ---------------------------------------------------------------------------

/// A backup of the listing, with its times as RFC 3339 text.
#[derive(Debug, Clone)]
pub struct BackupChoiceListing {
    pub id: String,
    pub start_time: String,
    pub end_time: Option<String>,
    pub server_version: String,
    pub size_bytes: u64,
    pub is_remote: bool,
    pub wal_start: Option<String>,
    pub wal_end: Option<String>,
}

/// The WAL coverage of the listing, with its times as RFC 3339 text and the
/// number of gaps.
#[derive(Debug, Clone)]
pub struct WalCoverageListing {
    pub segment_count: usize,
    pub total_size_bytes: u64,
    pub earliest_lsn: Option<String>,
    pub latest_lsn: Option<String>,
    pub earliest_time: Option<String>,
    pub latest_time: Option<String>,
    pub timelines: Vec<u32>,
    pub gaps: usize,
}

/// The recovery options as the JSON listing holds them.
#[derive(Debug, Clone)]
pub struct RecoveryListing {
    pub backups: Vec<BackupChoiceListing>,
    pub wal_coverage: WalCoverageListing,
    pub earliest: Option<String>,
    pub latest: Option<String>,
}

/// The RFC 3339 text of an optional time.
pub open spec fn opt_rfc3339(t: Option<i64>) -> Option<Seq<char>> {
    match t {
        Some(x) => Some(utc_rfc3339(x)),
        None => None,
    }
}

/// A backup of the listing is the backup with its times as RFC 3339 text.
pub open spec fn choice_listed(l: BackupChoiceListing, b: BackupChoice) -> bool {
    &&& l.id@ == b.id@
    &&& l.start_time@ == utc_rfc3339(b.start_time)
    &&& opt_text(l.end_time) == opt_rfc3339(b.end_time)
    &&& l.server_version@ == b.server_version@
    &&& l.size_bytes == b.size_bytes
    &&& l.is_remote == b.is_remote
    &&& l.wal_start == b.wal_start
    &&& l.wal_end == b.wal_end
}

/// The RFC 3339 text of an optional time.
fn rfc3339_opt(t: Option<i64>) -> (r: Option<String>)
    ensures
        opt_text(r) == opt_rfc3339(t),
{
    match t {
        Some(x) => Some(rfc3339_utc(x)),
        None => None,
    }
}

/// A backup of the listing.
fn choice_listing(b: &BackupChoice) -> (r: BackupChoiceListing)
    ensures
        choice_listed(r, *b),
{
    BackupChoiceListing {
        id: b.id.clone(),
        start_time: rfc3339_utc(b.start_time),
        end_time: rfc3339_opt(b.end_time),
        server_version: b.server_version.clone(),
        size_bytes: b.size_bytes,
        is_remote: b.is_remote,
        wal_start: copy_text(&b.wal_start),
        wal_end: copy_text(&b.wal_end),
    }
}

/// The recovery options as the JSON listing holds them: each backup with
/// its times as RFC 3339 text, the WAL coverage with the number of its gaps,
/// and the recovery window.
pub fn recovery_listing(options: &RecoveryOptions) -> (r: RecoveryListing)
    ensures
        r.backups@.len() == options.available_backups@.len(),
        forall|i: int|
            0 <= i < r.backups@.len() ==> choice_listed(#[trigger] r.backups@[i], options.available_backups@[i]),
        r.wal_coverage.segment_count == options.wal_coverage.segment_count,
        r.wal_coverage.total_size_bytes == options.wal_coverage.total_size_bytes,
        r.wal_coverage.earliest_lsn == options.wal_coverage.earliest_lsn,
        r.wal_coverage.latest_lsn == options.wal_coverage.latest_lsn,
        opt_text(r.wal_coverage.earliest_time) == opt_rfc3339(options.wal_coverage.earliest_time),
        opt_text(r.wal_coverage.latest_time) == opt_rfc3339(options.wal_coverage.latest_time),
        r.wal_coverage.timelines@ == options.wal_coverage.timelines@,
        r.wal_coverage.gaps == options.wal_coverage.gap_count,
        opt_text(r.earliest) == opt_rfc3339(options.earliest_recoverable),
        opt_text(r.latest) == opt_rfc3339(options.latest_recoverable),
{
    let mut backups: Vec<BackupChoiceListing> = Vec::new();
    let mut i: usize = 0;
    while i < options.available_backups.len()
        invariant
            i <= options.available_backups@.len(),
            backups@.len() == i,
            forall|k: int| 0 <= k < i ==> choice_listed(#[trigger] backups@[k], options.available_backups@[k]),
        decreases options.available_backups@.len() - i,
    {
        backups.push(choice_listing(&options.available_backups[i]));
        i = i + 1;
    }
    let w = &options.wal_coverage;
    let mut timelines: Vec<u32> = Vec::new();
    let mut j: usize = 0;
    while j < w.timelines.len()
        invariant
            j <= w.timelines@.len(),
            timelines@ == w.timelines@.take(j as int),
        decreases w.timelines@.len() - j,
    {
        timelines.push(w.timelines[j]);
        proof {
            assert(timelines@ =~= w.timelines@.take(j + 1));
        }
        j = j + 1;
    }
    proof {
        assert(w.timelines@.take(w.timelines@.len() as int) =~= w.timelines@);
    }
    RecoveryListing {
        backups,
        wal_coverage: WalCoverageListing {
            segment_count: w.segment_count,
            total_size_bytes: w.total_size_bytes,
            earliest_lsn: copy_text(&w.earliest_lsn),
            latest_lsn: copy_text(&w.latest_lsn),
            earliest_time: rfc3339_opt(w.earliest_time),
            latest_time: rfc3339_opt(w.latest_time),
            timelines,
            gaps: w.gap_count,
        },
        earliest: rfc3339_opt(options.earliest_recoverable),
        latest: rfc3339_opt(options.latest_recoverable),
    }
}

} // verus!
