//! Schedule commands: listing, the next runs, finding a schedule and what
//! running one amounts to.

use vstd::prelude::*;
use crate::cluster::{copy_text, Label};
use crate::text::{
    byte_len, byte_len_of, chars_of, chars_starting_before, concat2, concat3, decimal,
    decimal_u64, lowercase, owned, push_str, starts_with_seq, starts_with_str, str_eq,
    strip_prefix_or_self, strip_prefix_or_self_str, to_lowercase,
};
use crate::timestamps::{delta_secs, delta_seconds, format_utc, utc_formatted};
use crate::text::{
    is_char_boundary, prefix_bytes, push_repeat, push_table_row, repeat_char, table_row, texts,
};
use crate::cli::commands::{label_pairs, whole_seconds_between, MultiTenantOptions, StorageOptions};

verus! {

/// Output format for schedule commands.
#[derive(Debug, Clone, Copy, PartialEq, Eq, Structural)]
pub enum OutputFormat {
    Table,
    Json,
}

impl OutputFormat {
    /// `json` in any case selects JSON; anything else a table.
    pub fn from_str(s: &str) -> (r: OutputFormat)
        ensures
            r == if lowercase(s@) == "json"@ {
                OutputFormat::Json
            } else {
                OutputFormat::Table
            },
    {
        let l = to_lowercase(s);
        if str_eq(l.as_str(), "json") {
            OutputFormat::Json
        } else {
            OutputFormat::Table
        }
    }
}

/// What a backup schedule backs up.
#[derive(Debug, Clone)]
pub enum BackupTarget {
    /// A database of a server.
    Database { host: String, port: Option<u16>, database: String, user: Option<String> },
    /// A cluster of the cluster configuration.
    Cluster { cluster_id: String },
    /// A node of the cluster configuration.
    Node { node_id: String },
}

/// A configured backup schedule.
#[derive(Debug, Clone)]
pub struct BackupSchedule {
    pub id: String,
    pub name: Option<String>,
    pub cron: String,
    pub target: BackupTarget,
    /// The backup type, as the configuration names it.
    pub backup_type: String,
    pub storage_profile: Option<String>,
    pub enabled: bool,
    pub labels: Vec<Label>,
    pub backup_dir: Option<String>,
}

/// A configured retention schedule.
#[derive(Debug, Clone)]
pub struct RetentionSchedule {
    pub id: String,
    pub name: Option<String>,
    pub cron: String,
    pub apply: bool,
    pub enabled: bool,
    pub storage_profile: Option<String>,
    pub policy_file: Option<String>,
    pub backup_dir: Option<String>,
}

/// A named remote storage configuration.
#[derive(Debug, Clone)]
pub struct StorageProfile {
    pub name: String,
    pub provider: String,
    pub bucket: String,
    pub prefix: Option<String>,
    pub region: Option<String>,
    pub endpoint: Option<String>,
    /// A key, or `env:NAME` for the value of an environment variable.
    pub access_key: Option<String>,
    /// A secret, or `env:NAME` for the value of an environment variable.
    pub secret_key: Option<String>,
}

/// The schedules of the configuration.
#[derive(Debug, Clone)]
pub struct ScheduleConfig {
    pub backups: Vec<BackupSchedule>,
    pub retention: Vec<RetentionSchedule>,
    pub storage_profiles: Vec<StorageProfile>,
    pub default_backup_dir: Option<String>,
}

/// Information about a backup schedule for display.
#[derive(Debug, Clone)]
pub struct BackupScheduleInfo {
    pub id: String,
    pub name: Option<String>,
    pub cron: String,
    pub backup_type: String,
    pub target: String,
    pub enabled: bool,
    pub storage_profile: Option<String>,
}

/// The description of a backup target: `host:port/database` (port 5432 by
/// default), `cluster:ID` or `node:ID`.
pub open spec fn target_text(t: BackupTarget) -> Seq<char> {
    match t {
        BackupTarget::Database { host, port, database, .. } => host@ + ":"@ + decimal(
            match port {
                Some(p) => p as nat,
                None => 5432,
            },
        ) + "/"@ + database@,
        BackupTarget::Cluster { cluster_id } => "cluster:"@ + cluster_id@,
        BackupTarget::Node { node_id } => "node:"@ + node_id@,
    }
}

impl BackupScheduleInfo {
    /// The display information of a backup schedule.
    pub fn from_schedule(s: &BackupSchedule) -> (r: Self)
        ensures
            r.id@ == s.id@,
            r.name == s.name,
            r.cron@ == s.cron@,
            r.backup_type@ == s.backup_type@,
            r.target@ == target_text(s.target),
            r.enabled == s.enabled,
            r.storage_profile == s.storage_profile,
    {
        let target = match &s.target {
            BackupTarget::Database { host, port, database, .. } => {
                let p: u16 = match port {
                    Some(p) => *p,
                    None => 5432,
                };
                let mut t = host.clone();
                push_str(&mut t, ":");
                let ps = decimal_u64(p as u64);
                push_str(&mut t, ps.as_str());
                push_str(&mut t, "/");
                push_str(&mut t, database.as_str());
                t
            },
            BackupTarget::Cluster { cluster_id } => concat2("cluster:", cluster_id.as_str()),
            BackupTarget::Node { node_id } => concat2("node:", node_id.as_str()),
        };
        BackupScheduleInfo {
            id: s.id.clone(),
            name: copy_text(&s.name),
            cron: s.cron.clone(),
            backup_type: s.backup_type.clone(),
            target,
            enabled: s.enabled,
            storage_profile: copy_text(&s.storage_profile),
        }
    }
}

/// Information about a retention schedule for display.
#[derive(Debug, Clone)]
pub struct RetentionScheduleInfo {
    pub id: String,
    pub name: Option<String>,
    pub cron: String,
    pub apply: bool,
    pub enabled: bool,
    pub storage_profile: Option<String>,
    pub policy_file: Option<String>,
}

impl RetentionScheduleInfo {
    /// The display information of a retention schedule.
    pub fn from_schedule(s: &RetentionSchedule) -> (r: Self)
        ensures
            r.id@ == s.id@,
            r.name == s.name,
            r.cron@ == s.cron@,
            r.apply == s.apply,
            r.enabled == s.enabled,
            r.storage_profile == s.storage_profile,
            r.policy_file == s.policy_file,
    {
        RetentionScheduleInfo {
            id: s.id.clone(),
            name: copy_text(&s.name),
            cron: s.cron.clone(),
            apply: s.apply,
            enabled: s.enabled,
            storage_profile: copy_text(&s.storage_profile),
            policy_file: copy_text(&s.policy_file),
        }
    }
}

/// Combined schedule list result.
#[derive(Debug, Clone)]
pub struct ScheduleListResult {
    pub backups: Vec<BackupScheduleInfo>,
    pub retention: Vec<RetentionScheduleInfo>,
}

/// A schedule is listed: enabled or not asked to be, and of the kind the
/// type filter (already in lower case) names, when there is one.
pub open spec fn listed(enabled: bool, enabled_only: bool, type_filter: Option<Seq<char>>, kind: Seq<char>) -> bool {
    (!enabled_only || enabled) && (type_filter matches Some(t) ==> t == kind)
}

/// The type filter in lower case.
pub open spec fn type_filter_of(schedule_type: Option<&str>) -> Option<Seq<char>> {
    match schedule_type {
        Some(t) => Some(lowercase(t@)),
        None => None,
    }
}

/// Lists the schedules, in order, that are enabled (when `enabled_only`)
/// and of the type `schedule_type` names (`backup` or `retention`, in any
/// case) when one is given.
pub fn list_schedules(config: &ScheduleConfig, enabled_only: bool, schedule_type: Option<&str>) -> (r: ScheduleListResult)
    ensures
        ({
            let f = type_filter_of(schedule_type);
            let bs = config.backups@.filter(|s: BackupSchedule| listed(s.enabled, enabled_only, f, "backup"@));
            let rs = config.retention@.filter(
                |s: RetentionSchedule| listed(s.enabled, enabled_only, f, "retention"@),
            );
            &&& r.backups@.len() == bs.len()
            &&& forall|i: int| 0 <= i < bs.len() ==> (#[trigger] r.backups@[i]).id@ == bs[i].id@
                && r.backups@[i].target@ == target_text(bs[i].target) && r.backups@[i].enabled == bs[i].enabled
                && r.backups@[i].cron@ == bs[i].cron@ && r.backups@[i].backup_type@ == bs[i].backup_type@
                && r.backups@[i].name == bs[i].name && r.backups@[i].storage_profile == bs[i].storage_profile
            &&& r.retention@.len() == rs.len()
            &&& forall|i: int| 0 <= i < rs.len() ==> (#[trigger] r.retention@[i]).id@ == rs[i].id@
                && r.retention@[i].enabled == rs[i].enabled && r.retention@[i].apply == rs[i].apply
                && r.retention@[i].cron@ == rs[i].cron@ && r.retention@[i].name == rs[i].name
                && r.retention@[i].storage_profile == rs[i].storage_profile
                && r.retention@[i].policy_file == rs[i].policy_file
        }),
{
    let filter: Option<String> = match schedule_type {
        Some(t) => Some(to_lowercase(t)),
        None => None,
    };
    let ghost f = type_filter_of(schedule_type);
    let backup_kind = match &filter {
        Some(t) => str_eq(t.as_str(), "backup"),
        None => true,
    };
    let retention_kind = match &filter {
        Some(t) => str_eq(t.as_str(), "retention"),
        None => true,
    };
    let ghost bp = |s: BackupSchedule| listed(s.enabled, enabled_only, f, "backup"@);
    let mut backups: Vec<BackupScheduleInfo> = Vec::new();
    let mut i: usize = 0;
    while i < config.backups.len()
        invariant
            i <= config.backups@.len(),
            bp == (|s: BackupSchedule| listed(s.enabled, enabled_only, f, "backup"@)),
            backup_kind == (f matches Some(t) ==> t == "backup"@),
            backups@.len() == config.backups@.take(i as int).filter(bp).len(),
            forall|j: int| 0 <= j < backups@.len() ==> {
                let s = config.backups@.take(i as int).filter(bp)[j];
                (#[trigger] backups@[j]).id@ == s.id@ && backups@[j].target@ == target_text(s.target)
                    && backups@[j].enabled == s.enabled && backups@[j].cron@ == s.cron@
                    && backups@[j].backup_type@ == s.backup_type@ && backups@[j].name == s.name
                    && backups@[j].storage_profile == s.storage_profile
            },
        decreases config.backups@.len() - i,
    {
        proof {
            assert(config.backups@.take(i + 1) =~= config.backups@.take(i as int).push(config.backups@[i as int]));
            config.backups@.take(i as int).lemma_filter_push(config.backups@[i as int], bp);
        }
        let s = &config.backups[i];
        if (!enabled_only || s.enabled) && backup_kind {
            backups.push(BackupScheduleInfo::from_schedule(s));
        }
        i = i + 1;
    }
    proof {
        assert(config.backups@.take(config.backups@.len() as int) =~= config.backups@);
    }
    let ghost rp = |s: RetentionSchedule| listed(s.enabled, enabled_only, f, "retention"@);
    let mut retention: Vec<RetentionScheduleInfo> = Vec::new();
    let mut k: usize = 0;
    while k < config.retention.len()
        invariant
            k <= config.retention@.len(),
            rp == (|s: RetentionSchedule| listed(s.enabled, enabled_only, f, "retention"@)),
            retention_kind == (f matches Some(t) ==> t == "retention"@),
            retention@.len() == config.retention@.take(k as int).filter(rp).len(),
            forall|j: int| 0 <= j < retention@.len() ==> {
                let s = config.retention@.take(k as int).filter(rp)[j];
                (#[trigger] retention@[j]).id@ == s.id@ && retention@[j].enabled == s.enabled
                    && retention@[j].apply == s.apply && retention@[j].cron@ == s.cron@
                    && retention@[j].name == s.name && retention@[j].storage_profile == s.storage_profile
                    && retention@[j].policy_file == s.policy_file
            },
        decreases config.retention@.len() - k,
    {
        proof {
            assert(config.retention@.take(k + 1) =~= config.retention@.take(k as int).push(
                config.retention@[k as int],
            ));
            config.retention@.take(k as int).lemma_filter_push(config.retention@[k as int], rp);
        }
        let s = &config.retention[k];
        if (!enabled_only || s.enabled) && retention_kind {
            retention.push(RetentionScheduleInfo::from_schedule(s));
        }
        k = k + 1;
    }
    proof {
        assert(config.retention@.take(config.retention@.len() as int) =~= config.retention@);
    }
    ScheduleListResult { backups, retention }
}

/// How long until a run, for display: `overdue` when it is past, else
/// days and hours, hours and minutes, or minutes.
pub open spec fn duration_text(total_secs: int) -> Seq<char> {
    if total_secs < 0 {
        "overdue"@
    } else {
        let days = total_secs / 86400;
        let hours = (total_secs % 86400) / 3600;
        let minutes = (total_secs % 3600) / 60;
        if days > 0 {
            decimal(days as nat) + "d "@ + decimal(hours as nat) + "h"@
        } else if hours > 0 {
            decimal(hours as nat) + "h "@ + decimal(minutes as nat) + "m"@
        } else {
            decimal(minutes as nat) + "m"@
        }
    }
}

/// How long a span of `total_secs` seconds is, for display.
pub fn format_duration_secs(total_secs: i64) -> (r: String)
    ensures
        r@ == duration_text(total_secs as int),
{
    if total_secs < 0 {
        return owned("overdue");
    }
    let days = total_secs / 86400;
    let hours = (total_secs % 86400) / 3600;
    let minutes = (total_secs % 3600) / 60;
    if days > 0 {
        let mut out = decimal_u64(days as u64);
        push_str(&mut out, "d ");
        let h = decimal_u64(hours as u64);
        push_str(&mut out, h.as_str());
        push_str(&mut out, "h");
        out
    } else if hours > 0 {
        let mut out = decimal_u64(hours as u64);
        push_str(&mut out, "h ");
        let m = decimal_u64(minutes as u64);
        push_str(&mut out, m.as_str());
        push_str(&mut out, "m");
        out
    } else {
        let mut out = decimal_u64(minutes as u64);
        push_str(&mut out, "m");
        out
    }
}

/// How long a span of time is, for display, by its whole seconds.
pub fn format_duration(duration: &chrono::TimeDelta) -> (r: String)
    ensures
        r@ == duration_text(delta_secs(*duration) as int),
{
    let secs = delta_seconds(duration);
    format_duration_secs(secs)
}

/// The kind of a scheduled run.
#[derive(Debug, Clone, Copy, PartialEq, Eq, Structural)]
pub enum ScheduleType {
    Backup,
    Retention,
}

/// An upcoming run of a schedule; `next_run` is in milliseconds since the
/// Unix epoch.
#[derive(Debug, Clone)]
pub struct ScheduledRun {
    pub schedule_id: String,
    pub schedule_name: Option<String>,
    pub schedule_type: ScheduleType,
    pub next_run: i64,
    pub enabled: bool,
}

/// `sorted` with `x` inserted after every run that is not later than it.
pub open spec fn insert_by_time(sorted: Seq<ScheduledRun>, x: ScheduledRun) -> Seq<ScheduledRun>
    decreases sorted.len(),
{
    if sorted.len() == 0 {
        seq![x]
    } else if sorted.last().next_run <= x.next_run {
        sorted.push(x)
    } else {
        insert_by_time(sorted.drop_last(), x).push(sorted.last())
    }
}

/// The runs in order of time; runs at the same time keep their order
/// (the stable sort by time).
pub open spec fn sort_by_time(runs: Seq<ScheduledRun>) -> Seq<ScheduledRun>
    decreases runs.len(),
{
    if runs.len() == 0 {
        Seq::empty()
    } else {
        insert_by_time(sort_by_time(runs.drop_last()), runs.last())
    }
}

proof fn lemma_insert_by_time_at(s: Seq<ScheduledRun>, x: ScheduledRun, p: int)
    requires
        0 <= p <= s.len(),
        forall|k: int| p <= k < s.len() ==> s[k].next_run > x.next_run,
        p == 0 || s[p - 1].next_run <= x.next_run,
    ensures
        insert_by_time(s, x) == s.insert(p, x),
    decreases s.len() - p,
{
    if s.len() == 0 {
        assert(s.insert(p, x) =~= seq![x]);
    } else if p == s.len() {
        assert(s.insert(p, x) =~= s.push(x));
    } else {
        let t = s.drop_last();
        lemma_insert_by_time_at(t, x, p);
        assert(s.insert(p, x) =~= t.insert(p, x).push(s.last()));
    }
}

/// The runs are in order of time.
pub open spec fn sorted_by_time(s: Seq<ScheduledRun>) -> bool {
    forall|i: int, j: int| 0 <= i <= j < s.len() ==> s[i].next_run <= s[j].next_run
}

/// Inserting into runs in order of time keeps them in order, and adds
/// exactly the run inserted.
proof fn lemma_insert_by_time_sorted(s: Seq<ScheduledRun>, x: ScheduledRun)
    requires
        sorted_by_time(s),
    ensures
        sorted_by_time(insert_by_time(s, x)),
        insert_by_time(s, x).to_multiset() =~= s.to_multiset().insert(x),
    decreases s.len(),
{
    broadcast use vstd::seq_lib::group_to_multiset_ensures;

    if s.len() == 0 {
        assert(seq![x] =~= Seq::<ScheduledRun>::empty().push(x));
    } else if s.last().next_run <= x.next_run {
    } else {
        let t = s.drop_last();
        let l = s.last();
        assert(s =~= t.push(l));
        lemma_insert_by_time_sorted(t, x);
        let u = insert_by_time(t, x);
        assert forall|i: int| 0 <= i < u.len() implies u[i].next_run <= l.next_run by {
            assert(u.to_multiset().count(u[i]) > 0);
            assert(u.contains(u[i]));
            if u[i] != x {
                assert(t.to_multiset().count(u[i]) > 0);
                assert(t.contains(u[i]));
                let k = choose|k: int| 0 <= k < t.len() && t[k] == u[i];
                assert(t[k] == s[k]);
            }
        }
        assert(insert_by_time(s, x) == u.push(l));
    }
}

/// `next_runs` orders the upcoming runs: the runs in order of time are in
/// order, and they are the runs given, each as often as it was given.
pub proof fn lemma_sort_by_time_sorts(runs: Seq<ScheduledRun>)
    ensures
        sorted_by_time(sort_by_time(runs)),
        sort_by_time(runs).to_multiset() =~= runs.to_multiset(),
        sort_by_time(runs).len() == runs.len(),
    decreases runs.len(),
{
    broadcast use vstd::seq_lib::group_to_multiset_ensures;

    if runs.len() > 0 {
        let t = runs.drop_last();
        assert(runs =~= t.push(runs.last()));
        lemma_sort_by_time_sorts(t);
        lemma_insert_by_time_sorted(sort_by_time(t), runs.last());
    }
    assert(sort_by_time(runs).to_multiset().len() == runs.to_multiset().len());
}

/// The upcoming runs in order of time (runs at the same time in the order
/// given), the first `2 * count` of them.
pub fn next_runs(runs: Vec<ScheduledRun>, count: usize) -> (r: Vec<ScheduledRun>)
    requires
        count * 2 <= usize::MAX,
    ensures
        r@ == sort_by_time(runs@).take(
            if sort_by_time(runs@).len() < count * 2 {
                sort_by_time(runs@).len() as int
            } else {
                count * 2
            },
        ),
{
    let ghost input = runs@;
    let mut sorted: Vec<ScheduledRun> = Vec::new();
    let mut rest = runs;
    let mut taken: Vec<ScheduledRun> = Vec::new();
    let n = rest.len();
    let mut i: usize = 0;
    while rest.len() > 0
        invariant
            rest@.len() + i == n == input.len(),
            rest@ == input.skip(i as int),
            sorted@ == sort_by_time(input.take(i as int)),
        decreases rest@.len(),
    {
        proof {
            assert(input.take(i + 1) =~= input.take(i as int).push(input[i as int]));
            assert(input.take(i + 1).drop_last() =~= input.take(i as int));
        }
        let x = rest.remove(0);
        proof {
            assert(x == input[i as int]);
            assert(rest@ =~= input.skip(i + 1));
        }
        let mut p = sorted.len();
        while p > 0 && sorted[p - 1].next_run > x.next_run
            invariant
                p <= sorted@.len(),
                forall|k: int| p <= k < sorted@.len() ==> sorted@[k].next_run > x.next_run,
            decreases p,
        {
            p = p - 1;
        }
        proof {
            lemma_insert_by_time_at(sorted@, x, p as int);
        }
        sorted.insert(p, x);
        i = i + 1;
    }
    proof {
        assert(input.take(n as int) =~= input);
    }
    let limit = count * 2;
    let ghost full = sorted@;
    let mut k: usize = 0;
    while k < sorted.len() && k < limit
        invariant
            sorted@ == full,
            full == sort_by_time(input),
            limit == count * 2,
            k <= full.len(),
            k <= limit,
            taken@ == full.take(k as int),
        decreases full.len() - k,
    {
        let run = ScheduledRun {
            schedule_id: sorted[k].schedule_id.clone(),
            schedule_name: copy_text(&sorted[k].schedule_name),
            schedule_type: sorted[k].schedule_type,
            next_run: sorted[k].next_run,
            enabled: sorted[k].enabled,
        };
        proof {
            assert(run == full[k as int]);
        }
        taken.push(run);
        proof {
            assert(taken@ =~= full.take(k + 1));
        }
        k = k + 1;
    }
    taken
}

/// Which schedule an identifier names.
#[derive(Debug, Clone, Copy, PartialEq, Eq, Structural)]
pub enum ScheduleRef {
    /// The backup schedule at this position.
    Backup(usize),
    /// The retention schedule at this position.
    Retention(usize),
}

/// The position of the first backup schedule with identifier `id`.
fn backup_position(v: &Vec<BackupSchedule>, id: &str) -> (r: Option<usize>)
    ensures
        match r {
            Some(i) => i < v@.len() && v@[i as int].id@ == id@ && forall|j: int| 0 <= j < i ==> v@[j].id@ != id@,
            None => forall|j: int| 0 <= j < v@.len() ==> v@[j].id@ != id@,
        },
{
    let mut i: usize = 0;
    while i < v.len()
        invariant
            i <= v@.len(),
            forall|j: int| 0 <= j < i ==> v@[j].id@ != id@,
        decreases v@.len() - i,
    {
        if str_eq(v[i].id.as_str(), id) {
            return Some(i);
        }
        i = i + 1;
    }
    None
}

/// The position of the first retention schedule with identifier `id`.
fn retention_position(v: &Vec<RetentionSchedule>, id: &str) -> (r: Option<usize>)
    ensures
        match r {
            Some(i) => i < v@.len() && v@[i as int].id@ == id@ && forall|j: int| 0 <= j < i ==> v@[j].id@ != id@,
            None => forall|j: int| 0 <= j < v@.len() ==> v@[j].id@ != id@,
        },
{
    let mut i: usize = 0;
    while i < v.len()
        invariant
            i <= v@.len(),
            forall|j: int| 0 <= j < i ==> v@[j].id@ != id@,
        decreases v@.len() - i,
    {
        if str_eq(v[i].id.as_str(), id) {
            return Some(i);
        }
        i = i + 1;
    }
    None
}

/// Finds the schedule to run: the backup or the retention schedule with
/// identifier `id`; none, or one of each, is an error.
pub fn find_schedule(config: &ScheduleConfig, id: &str) -> (r: Result<ScheduleRef, String>)
    ensures
        ({
            let in_backups = exists|i: int| 0 <= i < config.backups@.len() && config.backups@[i].id@ == id@;
            let in_retention = exists|i: int| 0 <= i < config.retention@.len() && config.retention@[i].id@ == id@;
            &&& (in_backups && !in_retention) ==> (r matches Ok(ScheduleRef::Backup(i)) && i < config.backups@.len()
                && config.backups@[i as int].id@ == id@
                && forall|j: int| 0 <= j < i ==> config.backups@[j].id@ != id@)
            &&& (!in_backups && in_retention) ==> (r matches Ok(ScheduleRef::Retention(i)) && i < config.retention@.len()
                && config.retention@[i as int].id@ == id@
                && forall|j: int| 0 <= j < i ==> config.retention@[j].id@ != id@)
            &&& (!in_backups && !in_retention) ==> (r matches Err(m) && m@ == "Schedule '"@ + id@ + "' not found"@)
            &&& (in_backups && in_retention) ==> (r matches Err(m) && m@ == "Ambiguous schedule ID '"@ + id@
                + "' - found in both backup and retention"@)
        }),
{
    let b = backup_position(&config.backups, id);
    let t = retention_position(&config.retention, id);
    match (b, t) {
        (Some(i), None) => Ok(ScheduleRef::Backup(i)),
        (None, Some(k)) => Ok(ScheduleRef::Retention(k)),
        (None, None) => Err(concat3("Schedule '", id, "' not found")),
        (Some(_), Some(_)) => Err(concat3("Ambiguous schedule ID '", id, "' - found in both backup and retention")),
    }
}


// ---------------------------------------------------------------------------
// The listing and next-runs tables
// ---------------------------------------------------------------------------

/// A backup target as the listing shows it: over 28 bytes, its first 25
/// bytes and `...`.
pub open spec fn listed_target(t: Seq<char>) -> Seq<char> {
    if byte_len(t) > 28 {
        t.take(chars_starting_before(t, 25) as int) + "..."@
    } else {
        t
    }
}

/// A long target can be cut after its 25th byte: a character ends there.
pub open spec fn target_cut_ok(t: Seq<char>) -> bool {
    byte_len(t) > 28 ==> is_char_boundary(t, 25)
}

/// An optional value, or `-`.
pub open spec fn or_dash(v: Option<String>) -> Seq<char> {
    match v {
        Some(x) => x@,
        None => "-"@,
    }
}

/// The mark of an enabled (`✓`) or disabled (`✗`) schedule.
pub open spec fn enabled_mark(enabled: bool) -> Seq<char> {
    if enabled {
        "✓"@
    } else {
        "✗"@
    }
}

/// The column widths of the backup schedules.
pub open spec fn backup_widths() -> Seq<usize> {
    seq![20usize, 30usize, 20usize, 12usize, 10usize, 8usize]
}

/// The column widths of the retention schedules.
pub open spec fn retention_widths() -> Seq<usize> {
    seq![20usize, 30usize, 10usize, 10usize, 8usize]
}

/// The row of a backup schedule.
pub open spec fn backup_row(s: BackupScheduleInfo) -> Seq<char> {
    table_row(
        seq![s.id@, s.cron@, listed_target(s.target@), s.backup_type@, or_dash(s.storage_profile), enabled_mark(s.enabled)],
        backup_widths(),
    )
}

/// The row of a retention schedule.
pub open spec fn retention_row(s: RetentionScheduleInfo) -> Seq<char> {
    table_row(
        seq![s.id@, s.cron@, or_dash(s.storage_profile), if s.apply {
            "yes"@
        } else {
            "dry-run"@
        }, enabled_mark(s.enabled)],
        retention_widths(),
    )
}

/// The rows of the backup schedules, in order.
pub open spec fn backup_rows(v: Seq<BackupScheduleInfo>) -> Seq<char>
    decreases v.len(),
{
    if v.len() == 0 {
        Seq::empty()
    } else {
        backup_rows(v.drop_last()) + backup_row(v.last())
    }
}

/// The rows of the retention schedules, in order.
pub open spec fn retention_rows(v: Seq<RetentionScheduleInfo>) -> Seq<char>
    decreases v.len(),
{
    if v.len() == 0 {
        Seq::empty()
    } else {
        retention_rows(v.drop_last()) + retention_row(v.last())
    }
}

/// The listing of the schedules, as `schedule list` prints it.
pub open spec fn schedule_list_text(r: ScheduleListResult) -> Seq<char> {
    if r.backups@.len() == 0 && r.retention@.len() == 0 {
        "No schedules configured.\n"@
    } else {
        (if r.backups@.len() > 0 {
            "\n=== Backup Schedules ("@ + decimal(r.backups@.len()) + ") ===\n\n"@ + table_row(
                seq!["ID"@, "CRON"@, "TARGET"@, "TYPE"@, "STORAGE"@, "ENABLED"@],
                backup_widths(),
            ) + repeat_char('-', 100) + "\n"@ + backup_rows(r.backups@)
        } else {
            Seq::empty()
        }) + (if r.retention@.len() > 0 {
            "\n=== Retention Schedules ("@ + decimal(r.retention@.len()) + ") ===\n\n"@ + table_row(
                seq!["ID"@, "CRON"@, "STORAGE"@, "APPLY"@, "ENABLED"@],
                retention_widths(),
            ) + repeat_char('-', 78) + "\n"@ + retention_rows(r.retention@)
        } else {
            Seq::empty()
        }) + "\n"@
    }
}

/// The widths as a vector.
fn widths_of(w: &[usize]) -> (r: Vec<usize>)
    ensures
        r@ == w@,
{
    let mut v: Vec<usize> = Vec::new();
    let mut i: usize = 0;
    while i < w.len()
        invariant
            i <= w@.len(),
            v@ == w@.take(i as int),
        decreases w@.len() - i,
    {
        proof {
            assert(w@.take(i + 1) =~= w@.take(i as int).push(w@[i as int]));
        }
        v.push(w[i]);
        i = i + 1;
    }
    proof {
        assert(w@.take(w@.len() as int) =~= w@);
    }
    v
}

/// The listed form of a target.
fn listed_target_of(t: &str) -> (r: String)
    requires
        target_cut_ok(t@),
    ensures
        r@ == listed_target(t@),
{
    let v = chars_of(t);
    let n = byte_len_of(&v);
    if n > 28 {
        let mut r = prefix_bytes(t, 25);
        push_str(&mut r, "...");
        r
    } else {
        owned(t)
    }
}

/// An optional value, or `-`.
fn or_dash_of(v: &Option<String>) -> (r: String)
    ensures
        r@ == or_dash(*v),
{
    match v {
        Some(x) => x.clone(),
        None => owned("-"),
    }
}

/// The enabled mark.
fn enabled_mark_of(enabled: bool) -> (r: String)
    ensures
        r@ == enabled_mark(enabled),
{
    if enabled {
        owned("✓")
    } else {
        owned("✗")
    }
}

/// A vector of the given texts.
fn cells6(a: String, b: String, c: String, d: String, e: String, f: String) -> (r: Vec<String>)
    ensures
        texts(r@) == seq![a@, b@, c@, d@, e@, f@],
        r@.len() == 6,
{
    let mut v: Vec<String> = Vec::new();
    v.push(a);
    v.push(b);
    v.push(c);
    v.push(d);
    v.push(e);
    v.push(f);
    proof {
        assert(texts(v@) =~= seq![a@, b@, c@, d@, e@, f@]);
    }
    v
}

/// A vector of the given texts.
fn cells5(a: String, b: String, c: String, d: String, e: String) -> (r: Vec<String>)
    ensures
        texts(r@) == seq![a@, b@, c@, d@, e@],
        r@.len() == 5,
{
    let mut v: Vec<String> = Vec::new();
    v.push(a);
    v.push(b);
    v.push(c);
    v.push(d);
    v.push(e);
    proof {
        assert(texts(v@) =~= seq![a@, b@, c@, d@, e@]);
    }
    v
}

/// A vector of the given texts.
fn cells4(a: String, b: String, c: String, d: String) -> (r: Vec<String>)
    ensures
        texts(r@) == seq![a@, b@, c@, d@],
        r@.len() == 4,
{
    let mut v: Vec<String> = Vec::new();
    v.push(a);
    v.push(b);
    v.push(c);
    v.push(d);
    proof {
        assert(texts(v@) =~= seq![a@, b@, c@, d@]);
    }
    v
}

/// Appends the rows of the backup schedules.
fn push_backup_rows(out: &mut String, v: &Vec<BackupScheduleInfo>)
    requires
        forall|i: int| 0 <= i < v@.len() ==> target_cut_ok(#[trigger] v@[i].target@),
    ensures
        final(out)@ == old(out)@ + backup_rows(v@),
{
    let widths = widths_of(&[20, 30, 20, 12, 10, 8]);
    proof {
        assert(widths@ =~= backup_widths());
    }
    let ghost start = out@;
    let mut i: usize = 0;
    while i < v.len()
        invariant
            i <= v@.len(),
            widths@ == backup_widths(),
            forall|j: int| 0 <= j < v@.len() ==> target_cut_ok(#[trigger] v@[j].target@),
            out@ == start + backup_rows(v@.take(i as int)),
        decreases v@.len() - i,
    {
        proof {
            assert(v@.take(i + 1).drop_last() =~= v@.take(i as int));
            assert(target_cut_ok(v@[i as int].target@));
        }
        let s = &v[i];
        let cells = cells6(
            s.id.clone(),
            s.cron.clone(),
            listed_target_of(s.target.as_str()),
            s.backup_type.clone(),
            or_dash_of(&s.storage_profile),
            enabled_mark_of(s.enabled),
        );
        push_table_row(out, &cells, &widths);
        proof {
            assert(start + backup_rows(v@.take(i as int)) + backup_row(*s) =~= start + backup_rows(
                v@.take(i + 1),
            ));
        }
        i = i + 1;
    }
    proof {
        assert(v@.take(v@.len() as int) =~= v@);
    }
}

/// Appends the rows of the retention schedules.
fn push_retention_rows(out: &mut String, v: &Vec<RetentionScheduleInfo>)
    ensures
        final(out)@ == old(out)@ + retention_rows(v@),
{
    let widths = widths_of(&[20, 30, 10, 10, 8]);
    proof {
        assert(widths@ =~= retention_widths());
    }
    let ghost start = out@;
    let mut i: usize = 0;
    while i < v.len()
        invariant
            i <= v@.len(),
            widths@ == retention_widths(),
            out@ == start + retention_rows(v@.take(i as int)),
        decreases v@.len() - i,
    {
        proof {
            assert(v@.take(i + 1).drop_last() =~= v@.take(i as int));
        }
        let s = &v[i];
        let cells = cells5(
            s.id.clone(),
            s.cron.clone(),
            or_dash_of(&s.storage_profile),
            if s.apply {
                owned("yes")
            } else {
                owned("dry-run")
            },
            enabled_mark_of(s.enabled),
        );
        push_table_row(out, &cells, &widths);
        proof {
            assert(start + retention_rows(v@.take(i as int)) + retention_row(*s) =~= start
                + retention_rows(v@.take(i + 1)));
        }
        i = i + 1;
    }
    proof {
        assert(v@.take(v@.len() as int) =~= v@);
    }
}

/// The table `schedule list` prints: the backup schedules, then the
/// retention schedules, each under a heading with their count.
pub fn format_schedule_list_table(result: &ScheduleListResult) -> (r: String)
    requires
        forall|i: int| 0 <= i < result.backups@.len() ==> target_cut_ok(#[trigger] result.backups@[i].target@),
    ensures
        r@ == schedule_list_text(*result),
{
    if result.backups.len() == 0 && result.retention.len() == 0 {
        return owned("No schedules configured.\n");
    }
    let mut out = String::new();
    let ghost b_part = if result.backups@.len() > 0 {
        "\n=== Backup Schedules ("@ + decimal(result.backups@.len()) + ") ===\n\n"@ + table_row(
            seq!["ID"@, "CRON"@, "TARGET"@, "TYPE"@, "STORAGE"@, "ENABLED"@],
            backup_widths(),
        ) + repeat_char('-', 100) + "\n"@ + backup_rows(result.backups@)
    } else {
        Seq::<char>::empty()
    };
    if result.backups.len() > 0 {
        push_str(&mut out, "\n=== Backup Schedules (");
        let n = decimal_u64(result.backups.len() as u64);
        push_str(&mut out, n.as_str());
        push_str(&mut out, ") ===\n\n");
        let widths = widths_of(&[20, 30, 20, 12, 10, 8]);
        let header = cells6(
            owned("ID"),
            owned("CRON"),
            owned("TARGET"),
            owned("TYPE"),
            owned("STORAGE"),
            owned("ENABLED"),
        );
        proof {
            assert(widths@ =~= backup_widths());
        }
        push_table_row(&mut out, &header, &widths);
        push_repeat(&mut out, '-', 100);
        push_str(&mut out, "\n");
        push_backup_rows(&mut out, &result.backups);
    }
    proof {
        assert(out@ =~= b_part);
    }
    let ghost r_part = if result.retention@.len() > 0 {
        "\n=== Retention Schedules ("@ + decimal(result.retention@.len()) + ") ===\n\n"@ + table_row(
            seq!["ID"@, "CRON"@, "STORAGE"@, "APPLY"@, "ENABLED"@],
            retention_widths(),
        ) + repeat_char('-', 78) + "\n"@ + retention_rows(result.retention@)
    } else {
        Seq::<char>::empty()
    };
    if result.retention.len() > 0 {
        push_str(&mut out, "\n=== Retention Schedules (");
        let n = decimal_u64(result.retention.len() as u64);
        push_str(&mut out, n.as_str());
        push_str(&mut out, ") ===\n\n");
        let widths = widths_of(&[20, 30, 10, 10, 8]);
        let header = cells5(owned("ID"), owned("CRON"), owned("STORAGE"), owned("APPLY"), owned("ENABLED"));
        proof {
            assert(widths@ =~= retention_widths());
        }
        push_table_row(&mut out, &header, &widths);
        push_repeat(&mut out, '-', 78);
        push_str(&mut out, "\n");
        push_retention_rows(&mut out, &result.retention);
    }
    proof {
        assert(out@ =~= b_part + r_part);
    }
    push_str(&mut out, "\n");
    out
}

impl ScheduleType {
    /// The kind's name, as the tables show it.
    pub open spec fn spec_name(self) -> Seq<char> {
        match self {
            ScheduleType::Backup => "backup"@,
            ScheduleType::Retention => "retention"@,
        }
    }

    /// The kind's name, as the tables show it.
    pub fn name(self) -> (r: String)
        ensures
            r@ == self.spec_name(),
    {
        match self {
            ScheduleType::Backup => owned("backup"),
            ScheduleType::Retention => owned("retention"),
        }
    }
}

/// The row of an upcoming run, seen at `now`.
pub open spec fn run_row(run: ScheduledRun, now: i64) -> Seq<char> {
    table_row(
        seq![
            run.schedule_id@,
            run.schedule_type.spec_name(),
            utc_formatted(run.next_run, "%Y-%m-%d %H:%M:%S"@),
            duration_text(whole_seconds_between(now, run.next_run)),
        ],
        seq![20usize, 10usize, 25usize, 15usize],
    )
}

/// The rows of the upcoming runs, in order.
pub open spec fn run_rows(v: Seq<ScheduledRun>, now: i64) -> Seq<char>
    decreases v.len(),
{
    if v.len() == 0 {
        Seq::empty()
    } else {
        run_rows(v.drop_last(), now) + run_row(v.last(), now)
    }
}

/// The table `schedule next-runs` prints at `now`.
pub open spec fn next_runs_text(runs: Seq<ScheduledRun>, now: i64) -> Seq<char> {
    if runs.len() == 0 {
        "No upcoming scheduled runs.\n"@
    } else {
        "\n=== Upcoming Scheduled Runs ===\n\n"@ + table_row(
            seq!["SCHEDULE ID"@, "TYPE"@, "NEXT RUN (UTC)"@, "IN"@],
            seq![20usize, 10usize, 25usize, 15usize],
        ) + repeat_char('-', 70) + "\n"@ + run_rows(runs, now) + "\n"@
    }
}

/// Whole seconds from `start` to `end`, rounded toward zero.
pub(crate) fn seconds_between(start: i64, end: i64) -> (r: i64)
    ensures
        r == whole_seconds_between(start, end),
{
    let d: i128 = end as i128 - start as i128;
    let s: i128 = if d >= 0 {
        d / 1000
    } else {
        -((-d) / 1000)
    };
    proof {
        assert(-0x8000_0000_0000_0000 <= s <= 0x7fff_ffff_ffff_ffff) by (nonlinear_arith)
            requires
                -0x1_0000_0000_0000_0000 < d < 0x1_0000_0000_0000_0000,
                d >= 0 ==> s == d / 1000,
                d < 0 ==> s == -((-d) / 1000),
        ;
    }
    s as i64
}

/// The table of upcoming runs, seen at `now` (milliseconds since the Unix
/// epoch): each run's schedule, kind, time and how long until it.
pub fn format_next_runs_table(runs: &Vec<ScheduledRun>, now: i64) -> (r: String)
    ensures
        r@ == next_runs_text(runs@, now),
{
    if runs.len() == 0 {
        return owned("No upcoming scheduled runs.\n");
    }
    let mut out = owned("\n=== Upcoming Scheduled Runs ===\n\n");
    let widths = widths_of(&[20, 10, 25, 15]);
    let header = cells4(owned("SCHEDULE ID"), owned("TYPE"), owned("NEXT RUN (UTC)"), owned("IN"));
    proof {
        assert(widths@ =~= seq![20usize, 10usize, 25usize, 15usize]);
    }
    push_table_row(&mut out, &header, &widths);
    push_repeat(&mut out, '-', 70);
    push_str(&mut out, "\n");
    let ghost start = out@;
    let mut i: usize = 0;
    while i < runs.len()
        invariant
            i <= runs@.len(),
            widths@ == seq![20usize, 10usize, 25usize, 15usize],
            out@ == start + run_rows(runs@.take(i as int), now),
        decreases runs@.len() - i,
    {
        proof {
            assert(runs@.take(i + 1).drop_last() =~= runs@.take(i as int));
        }
        let run = &runs[i];
        let secs = seconds_between(now, run.next_run);
        let cells = cells4(
            run.schedule_id.clone(),
            run.schedule_type.name(),
            format_utc(run.next_run, "%Y-%m-%d %H:%M:%S"),
            format_duration_secs(secs),
        );
        push_table_row(&mut out, &cells, &widths);
        proof {
            assert(start + run_rows(runs@.take(i as int), now) + run_row(*run, now) =~= start + run_rows(
                runs@.take(i + 1),
                now,
            ));
        }
        i = i + 1;
    }
    proof {
        assert(runs@.take(runs@.len() as int) =~= runs@);
    }
    push_str(&mut out, "\n");
    out
}

// ---------------------------------------------------------------------------
// Running a schedule
// ---------------------------------------------------------------------------

/// Where a configured secret comes from.
#[derive(Debug, Clone)]
pub enum SecretSource {
    /// The secret itself.
    Value(String),
    /// The environment variable of this name (`env:NAME`).
    EnvVar(String),
}

/// Reads a configured secret: `env:NAME` names an environment variable;
/// anything else is the secret itself.
pub fn secret_source(value: &str) -> (r: SecretSource)
    ensures
        starts_with_seq(value@, "env:"@) ==> (r matches SecretSource::EnvVar(n) && n@ == value@.skip(4)),
        !starts_with_seq(value@, "env:"@) ==> (r matches SecretSource::Value(v) && v@ == value@),
{
    if starts_with_str(value, "env:") {
        let n = strip_prefix_or_self_str(value, "env:");
        proof {
            reveal_strlit("env:");
            assert(strip_prefix_or_self(value@, "env:"@) =~= value@.skip(4));
        }
        SecretSource::EnvVar(n)
    } else {
        SecretSource::Value(owned(value))
    }
}

/// The first storage profile of the configuration with this name.
pub fn find_storage_profile<'a>(config: &'a ScheduleConfig, name: &str) -> (r: Option<&'a StorageProfile>)
    ensures
        match r {
            Some(p) => exists|i: int|
                0 <= i < config.storage_profiles@.len() && config.storage_profiles@[i] == *p && p.name@ == name@
                    && forall|j: int| 0 <= j < i ==> config.storage_profiles@[j].name@ != name@,
            None => forall|j: int| 0 <= j < config.storage_profiles@.len() ==> config.storage_profiles@[j].name@ != name@,
        },
{
    let mut i: usize = 0;
    while i < config.storage_profiles.len()
        invariant
            i <= config.storage_profiles@.len(),
            forall|j: int| 0 <= j < i ==> config.storage_profiles@[j].name@ != name@,
        decreases config.storage_profiles@.len() - i,
    {
        if str_eq(config.storage_profiles[i].name.as_str(), name) {
            return Some(&config.storage_profiles[i]);
        }
        i = i + 1;
    }
    None
}

/// The storage options a scheduled run uses: remote storage through the
/// profile, when there is one, with its keys as resolved; otherwise the
/// defaults (no remote storage).
pub fn profile_storage_options(
    profile: Option<&StorageProfile>,
    access_key: Option<String>,
    secret_key: Option<String>,
) -> (r: StorageOptions)
    ensures
        match profile {
            Some(p) => {
                &&& r.remote_storage
                &&& r.provider_type == Some(p.provider)
                &&& r.bucket == Some(p.bucket)
                &&& r.prefix == p.prefix
                &&& r.region == p.region
                &&& r.endpoint == p.endpoint
                &&& r.access_key == access_key
                &&& r.secret_key == secret_key
            },
            None => {
                &&& !r.remote_storage
                &&& r.provider_type is None
                &&& r.bucket is None
                &&& r.prefix is None
                &&& r.region is None
                &&& r.endpoint is None
                &&& r.access_key is None
                &&& r.secret_key is None
            },
        },
        r.multi_tenant.tenant is None,
        r.multi_tenant.cluster is None,
        r.multi_tenant.protection_group is None,
        !r.multi_tenant.include_legacy,
{
    match profile {
        Some(p) => StorageOptions {
            remote_storage: true,
            provider_type: Some(p.provider.clone()),
            bucket: Some(p.bucket.clone()),
            prefix: copy_text(&p.prefix),
            region: copy_text(&p.region),
            endpoint: copy_text(&p.endpoint),
            access_key,
            secret_key,
            multi_tenant: MultiTenantOptions::default(),
        },
        None => StorageOptions::default(),
    }
}

/// The backup directory of a scheduled backup: the schedule's, else the
/// configuration's default, else `./backups`.
pub fn schedule_backup_dir(schedule_dir: &Option<String>, default_dir: &Option<String>) -> (r: String)
    ensures
        r@ == match schedule_dir {
            Some(d) => d@,
            None => match default_dir {
                Some(d) => d@,
                None => "./backups"@,
            },
        },
{
    match schedule_dir {
        Some(d) => d.clone(),
        None => match default_dir {
            Some(d) => d.clone(),
            None => owned("./backups"),
        },
    }
}

/// Labels (as key/value pairs) with the label `key` set to `value`: any
/// label with that key gives way, and the label is added at the end.
pub open spec fn with_label(pairs: Seq<(Seq<char>, Seq<char>)>, key: Seq<char>, value: Seq<char>) -> Seq<
    (Seq<char>, Seq<char>),
> {
    pairs.filter(|p: (Seq<char>, Seq<char>)| p.0 != key).push((key, value))
}

/// The labels with `key` set to `value`.
fn set_label(labels: &Vec<Label>, key: &str, value: &str) -> (r: Vec<Label>)
    ensures
        label_pairs(r@) == with_label(label_pairs(labels@), key@, value@),
{
    let ghost pred = |p: (Seq<char>, Seq<char>)| p.0 != key@;
    let mut out: Vec<Label> = Vec::new();
    let mut i: usize = 0;
    while i < labels.len()
        invariant
            i <= labels@.len(),
            pred == (|p: (Seq<char>, Seq<char>)| p.0 != key@),
            label_pairs(out@) == label_pairs(labels@).take(i as int).filter(pred),
        decreases labels@.len() - i,
    {
        proof {
            assert(label_pairs(labels@).take(i + 1) =~= label_pairs(labels@).take(i as int).push(
                (labels@[i as int].key@, labels@[i as int].value@),
            ));
            label_pairs(labels@).take(i as int).lemma_filter_push(
                (labels@[i as int].key@, labels@[i as int].value@),
                pred,
            );
        }
        if !str_eq(labels[i].key.as_str(), key) {
            let ghost before = out@;
            out.push(Label { key: labels[i].key.clone(), value: labels[i].value.clone() });
            proof {
                assert(label_pairs(out@) =~= label_pairs(before).push(
                    (labels@[i as int].key@, labels@[i as int].value@),
                ));
            }
        }
        i = i + 1;
    }
    proof {
        assert(label_pairs(labels@).take(labels@.len() as int) =~= label_pairs(labels@));
    }
    let ghost before = out@;
    out.push(Label { key: owned(key), value: owned(value) });
    proof {
        assert(label_pairs(out@) =~= label_pairs(before).push((key@, value@)));
    }
    out
}

/// The labels of a scheduled backup run by hand: the schedule's, with
/// `schedule_id` and `manual_run=true` set.
pub fn schedule_run_labels(labels: &Vec<Label>, schedule_id: &str) -> (r: Vec<Label>)
    ensures
        label_pairs(r@) == with_label(
            with_label(label_pairs(labels@), "schedule_id"@, schedule_id@),
            "manual_run"@,
            "true"@,
        ),
{
    let a = set_label(labels, "schedule_id", schedule_id);
    set_label(&a, "manual_run", "true")
}

/// What a scheduled backup of a target runs: a snapshot backup of a
/// database (host, port, database, user), with the defaults port 5432 and
/// user `postgres`. Cluster and node targets cannot be run yet.
pub fn scheduled_backup_target(target: &BackupTarget) -> (r: Result<(String, u16, String, String), String>)
    ensures
        match *target {
            BackupTarget::Database { host, port, database, user } => r matches Ok((h, p, d, u)) && h@ == host@
                && p == match port {
                Some(x) => x,
                None => 5432u16,
            } && d@ == database@ && u@ == match user {
                Some(x) => x@,
                None => "postgres"@,
            },
            BackupTarget::Cluster { cluster_id } => r matches Err(m) && m@
                == "Cluster-based backup scheduling not yet implemented for cluster '"@ + cluster_id@ + "'"@,
            BackupTarget::Node { node_id } => r matches Err(m) && m@
                == "Node-based backup scheduling not yet implemented for node '"@ + node_id@ + "'"@,
        },
{
    match target {
        BackupTarget::Database { host, port, database, user } => {
            let p = match port {
                Some(x) => *x,
                None => 5432,
            };
            let u = match user {
                Some(x) => x.clone(),
                None => owned("postgres"),
            };
            Ok((host.clone(), p, database.clone(), u))
        },
        BackupTarget::Cluster { cluster_id } => Err(concat3(
            "Cluster-based backup scheduling not yet implemented for cluster '",
            cluster_id.as_str(),
            "'",
        )),
        BackupTarget::Node { node_id } => Err(concat3(
            "Node-based backup scheduling not yet implemented for node '",
            node_id.as_str(),
            "'",
        )),
    }
}

/// What validating the schedule configuration reports: that none is
/// configured; that it is valid, with how many backup schedules, retention
/// schedules and storage profiles it has; or the problem the validation
/// found, which also fails the command.
pub open spec fn validation_report(config: Option<ScheduleConfig>, problem: Option<String>) -> (Seq<char>, Result<(), Seq<char>>) {
    match config {
        None => ("No schedules configured in warden configuration.\n"@, Ok(())),
        Some(c) => match problem {
            None => (
                "✓ Schedule configuration is valid.\n"@ + "  - "@ + decimal(c.backups@.len())
                    + " backup schedule(s)\n"@ + "  - "@ + decimal(c.retention@.len())
                    + " retention schedule(s)\n"@ + "  - "@ + decimal(c.storage_profiles@.len())
                    + " storage profile(s)\n"@,
                Ok(()),
            ),
            Some(e) => (
                "✗ Schedule configuration is invalid:\n"@ + "  Error: "@ + e@ + "\n"@,
                Err("Schedule validation failed: "@ + e@),
            ),
        },
    }
}

/// The text of an error, if there is one.
pub open spec fn result_view(r: Result<(), String>) -> Result<(), Seq<char>> {
    match r {
        Ok(()) => Ok(()),
        Err(e) => Err(e@),
    }
}

/// The report of validating the schedule configuration (`problem` is what
/// the validation found, if anything), and whether the command succeeds.
pub fn schedule_validation_report(config: &Option<ScheduleConfig>, problem: Option<String>) -> (r: (
    String,
    Result<(), String>,
))
    ensures
        (r.0@, result_view(r.1)) == validation_report(*config, problem),
{
    match config {
        None => (owned("No schedules configured in warden configuration.\n"), Ok(())),
        Some(c) => match problem {
            None => {
                let mut out = owned("✓ Schedule configuration is valid.\n");
                push_str(&mut out, "  - ");
                let b = decimal_u64(c.backups.len() as u64);
                push_str(&mut out, b.as_str());
                push_str(&mut out, " backup schedule(s)\n");
                push_str(&mut out, "  - ");
                let r = decimal_u64(c.retention.len() as u64);
                push_str(&mut out, r.as_str());
                push_str(&mut out, " retention schedule(s)\n");
                push_str(&mut out, "  - ");
                let p = decimal_u64(c.storage_profiles.len() as u64);
                push_str(&mut out, p.as_str());
                push_str(&mut out, " storage profile(s)\n");
                (out, Ok(()))
            },
            Some(e) => {
                let mut out = owned("✗ Schedule configuration is invalid:\n");
                push_str(&mut out, "  Error: ");
                push_str(&mut out, e.as_str());
                push_str(&mut out, "\n");
                (out, Err(concat2("Schedule validation failed: ", e.as_str())))
            },
        },
    }
}

} // verus!
