//! Backup catalog commands: the filters of a listing and the tables of a
//! listing, a backup's details and a download.

use vstd::prelude::*;
use crate::common::{BackupStatus, BackupType};
use crate::text::{
    chars_starting_before, concat3, concat_all, decimal, decimal_i64, decimal_u64,
    lemma_concat_all_push, lowercase, owned, pad_left, pad_right, push_padded_left,
    push_padded_right, push_repeat, push_str, repeat_char, signed_decimal, str_eq, to_lowercase,
};
use crate::timestamps::{
    format_utc, naive_date_instant, naive_datetime_instant, parse_naive_date_millis,
    parse_naive_datetime_millis, parse_rfc3339_millis, rfc3339_instant, utc_formatted,
};
use crate::units::{format_size, size_text};
use crate::cli::commands::whole_seconds_between;
use crate::text::{is_char_boundary, prefix_bytes};

verus! {

/// Options for storage configuration
#[derive(Clone, Debug)]
pub struct BackupStorageOptions {
    pub provider_type: Option<String>,
    pub bucket: Option<String>,
    pub prefix: Option<String>,
    pub region: Option<String>,
    pub endpoint: Option<String>,
    pub access_key: Option<String>,
    pub secret_key: Option<String>,
}

impl Default for BackupStorageOptions {
    fn default() -> (r: Self)
        ensures
            r.provider_type is None,
            r.bucket is None,
            r.prefix is None,
            r.region is None,
            r.endpoint is None,
            r.access_key is None,
            r.secret_key is None,
    {
        BackupStorageOptions {
            provider_type: None,
            bucket: None,
            prefix: None,
            region: None,
            endpoint: None,
            access_key: None,
            secret_key: None,
        }
    }
}

/// Options for filtering backups in list command
#[derive(Clone, Debug)]
pub struct BackupListOptions {
    pub backup_type: Option<String>,
    pub database: Option<String>,
    pub status: Option<String>,
    pub after: Option<String>,
    pub before: Option<String>,
    pub labels: Vec<(String, String)>,
    pub limit: Option<usize>,
    pub format: String,
}

impl Default for BackupListOptions {
    fn default() -> (r: Self)
        ensures
            r.backup_type is None,
            r.database is None,
            r.status is None,
            r.after is None,
            r.before is None,
            r.labels@.len() == 0,
            r.limit is None,
            r.format@.len() == 0,
    {
        BackupListOptions {
            backup_type: None,
            database: None,
            status: None,
            after: None,
            before: None,
            labels: Vec::new(),
            limit: None,
            format: String::new(),
        }
    }
}

/// The backup type a name gives, in any case.
pub open spec fn backup_type_named(s: Seq<char>) -> Option<BackupType> {
    let l = lowercase(s);
    if l == "full"@ {
        Some(BackupType::Full)
    } else if l == "incremental"@ {
        Some(BackupType::Incremental)
    } else if l == "snapshot"@ {
        Some(BackupType::Snapshot)
    } else {
        None
    }
}

/// Reads a backup type filter: `full`, `incremental` or `snapshot`, in any
/// case.
pub fn parse_backup_type(s: &str) -> (r: Result<BackupType, String>)
    ensures
        match backup_type_named(s@) {
            Some(t) => r == Ok::<BackupType, String>(t),
            None => r matches Err(m) && m@ == "Invalid backup type '"@ + s@
                + "'. Valid values: full, incremental, snapshot"@,
        },
{
    let l = to_lowercase(s);
    let t = l.as_str();
    if str_eq(t, "full") {
        Ok(BackupType::Full)
    } else if str_eq(t, "incremental") {
        Ok(BackupType::Incremental)
    } else if str_eq(t, "snapshot") {
        Ok(BackupType::Snapshot)
    } else {
        Err(concat3("Invalid backup type '", s, "'. Valid values: full, incremental, snapshot"))
    }
}

/// The backup status a name gives, in any case.
pub open spec fn backup_status_named(s: Seq<char>) -> Option<BackupStatus> {
    let l = lowercase(s);
    if l == "completed"@ || l == "complete"@ {
        Some(BackupStatus::Completed)
    } else if l == "in_progress"@ || l == "inprogress"@ || l == "running"@ {
        Some(BackupStatus::InProgress)
    } else if l == "failed"@ || l == "error"@ {
        Some(BackupStatus::Failed)
    } else {
        None
    }
}

/// Reads a backup status filter: `completed` (or `complete`),
/// `in_progress` (or `inprogress`, `running`), `failed` (or `error`), in
/// any case.
pub fn parse_backup_status(s: &str) -> (r: Result<BackupStatus, String>)
    ensures
        match backup_status_named(s@) {
            Some(t) => r == Ok::<BackupStatus, String>(t),
            None => r matches Err(m) && m@ == "Invalid backup status '"@ + s@
                + "'. Valid values: completed, in_progress, failed"@,
        },
{
    let l = to_lowercase(s);
    let t = l.as_str();
    if str_eq(t, "completed") || str_eq(t, "complete") {
        Ok(BackupStatus::Completed)
    } else if str_eq(t, "in_progress") || str_eq(t, "inprogress") || str_eq(t, "running") {
        Ok(BackupStatus::InProgress)
    } else if str_eq(t, "failed") || str_eq(t, "error") {
        Ok(BackupStatus::Failed)
    } else {
        Err(concat3("Invalid backup status '", s, "'. Valid values: completed, in_progress, failed"))
    }
}

/// The instant a date-time filter names: RFC 3339 first, then
/// `YYYY-MM-DD HH:MM:SS` and `YYYY-MM-DDTHH:MM:SS` in UTC, then a date
/// (its midnight, UTC).
pub open spec fn datetime_named(s: Seq<char>) -> Option<i64> {
    if rfc3339_instant(s) is Some {
        rfc3339_instant(s)
    } else if naive_datetime_instant(s, "%Y-%m-%d %H:%M:%S"@) is Some {
        naive_datetime_instant(s, "%Y-%m-%d %H:%M:%S"@)
    } else if naive_datetime_instant(s, "%Y-%m-%dT%H:%M:%S"@) is Some {
        naive_datetime_instant(s, "%Y-%m-%dT%H:%M:%S"@)
    } else {
        naive_date_instant(s, "%Y-%m-%d"@)
    }
}

/// Reads a date-time filter, as milliseconds since the Unix epoch.
pub fn parse_datetime(s: &str) -> (r: Result<i64, String>)
    ensures
        match datetime_named(s@) {
            Some(t) => r == Ok::<i64, String>(t),
            None => r matches Err(m) && m@ == "Invalid datetime format '"@ + s@
                + "'. Use RFC3339 (e.g., 2025-01-15T10:30:00Z) or YYYY-MM-DD"@,
        },
{
    if let Ok(t) = parse_rfc3339_millis(s) {
        return Ok(t);
    }
    if let Some(t) = parse_naive_datetime_millis(s, "%Y-%m-%d %H:%M:%S") {
        return Ok(t);
    }
    if let Some(t) = parse_naive_datetime_millis(s, "%Y-%m-%dT%H:%M:%S") {
        return Ok(t);
    }
    if let Some(t) = parse_naive_date_millis(s, "%Y-%m-%d") {
        return Ok(t);
    }
    Err(concat3(
        "Invalid datetime format '",
        s,
        "'. Use RFC3339 (e.g., 2025-01-15T10:30:00Z) or YYYY-MM-DD",
    ))
}

/// The filter of a backup listing.
#[derive(Debug, Clone)]
pub struct BackupFilter {
    pub backup_type: Option<BackupType>,
    pub database: Option<String>,
    pub status: Option<BackupStatus>,
    pub after: Option<i64>,
    pub before: Option<i64>,
    pub labels: Vec<(String, String)>,
    pub limit: Option<usize>,
}

/// The filter that the listing options ask for; the first option that
/// does not read is the error.
pub fn build_filter(opts: &BackupListOptions) -> (r: Result<BackupFilter, String>)
    ensures
        r matches Ok(f) ==> {
            &&& (match opts.backup_type {
                Some(t) => f.backup_type == backup_type_named(t@),
                None => f.backup_type is None,
            })
            &&& (match opts.status {
                Some(t) => f.status == backup_status_named(t@),
                None => f.status is None,
            })
            &&& (match opts.after {
                Some(t) => f.after == datetime_named(t@),
                None => f.after is None,
            })
            &&& (match opts.before {
                Some(t) => f.before == datetime_named(t@),
                None => f.before is None,
            })
            &&& f.database == opts.database
            &&& f.labels@ == opts.labels@
            &&& f.limit == opts.limit
        },
        r is Err <==> ((opts.backup_type matches Some(t) && backup_type_named(t@) is None)
            || (opts.status matches Some(t) && backup_status_named(t@) is None)
            || (opts.after matches Some(t) && datetime_named(t@) is None)
            || (opts.before matches Some(t) && datetime_named(t@) is None)),
{
    let backup_type = match &opts.backup_type {
        Some(t) => Some(parse_backup_type(t.as_str())?),
        None => None,
    };
    let status = match &opts.status {
        Some(t) => Some(parse_backup_status(t.as_str())?),
        None => None,
    };
    let after = match &opts.after {
        Some(t) => Some(parse_datetime(t.as_str())?),
        None => None,
    };
    let before = match &opts.before {
        Some(t) => Some(parse_datetime(t.as_str())?),
        None => None,
    };
    let mut labels: Vec<(String, String)> = Vec::new();
    let mut i: usize = 0;
    while i < opts.labels.len()
        invariant
            i <= opts.labels@.len(),
            labels@ == opts.labels@.take(i as int),
        decreases opts.labels@.len() - i,
    {
        labels.push((opts.labels[i].0.clone(), opts.labels[i].1.clone()));
        proof {
            assert(labels@ =~= opts.labels@.take(i + 1));
        }
        i = i + 1;
    }
    proof {
        assert(opts.labels@.take(opts.labels@.len() as int) =~= opts.labels@);
    }
    Ok(
        BackupFilter {
            backup_type,
            database: crate::cluster::copy_text(&opts.database),
            status,
            after,
            before,
            labels,
            limit: opts.limit,
        },
    )
}

/// The name of a backup type, as listings show it.
pub open spec fn type_label(t: BackupType) -> Seq<char> {
    t.spec_name()
}

/// The name of a backup status, as listings show it.
pub open spec fn status_label(s: BackupStatus) -> Seq<char> {
    match s {
        BackupStatus::Completed => "Completed"@,
        BackupStatus::InProgress => "InProgress"@,
        BackupStatus::Failed => "Failed"@,
    }
}

/// The name of a backup status, as listings show it.
pub fn format_backup_status(s: BackupStatus) -> (r: String)
    ensures
        r@ == status_label(s),
{
    match s {
        BackupStatus::Completed => owned("Completed"),
        BackupStatus::InProgress => owned("InProgress"),
        BackupStatus::Failed => owned("Failed"),
    }
}

/// A file of a backup's metadata.
#[derive(Debug, Clone)]
pub struct BackupFileEntry {
    pub name: String,
    pub size: u64,
    pub checksum: Option<String>,
}

/// A backup's metadata as stored beside it. Times are milliseconds since
/// the Unix epoch.
#[derive(Debug, Clone)]
pub struct StoredBackupMetadata {
    pub id: String,
    pub backup_type: BackupType,
    pub status: BackupStatus,
    pub start_time: i64,
    pub end_time: Option<i64>,
    pub base_backup_id: Option<String>,
    pub wal_start: Option<String>,
    pub wal_end: Option<String>,
    pub size_bytes: u64,
    pub server_version: String,
    pub checksum: Option<String>,
    pub files: Vec<BackupFileEntry>,
    pub tags: Vec<String>,
    pub pinned: bool,
}

/// What storage knows of one backup: its metadata, how many objects it
/// has and their total size, and where they are.
#[derive(Debug, Clone)]
pub struct BackupDetails {
    pub metadata: StoredBackupMetadata,
    pub object_count: usize,
    pub total_storage_size: u64,
    pub bucket: String,
    pub storage_key: String,
}

/// Result of show backup operation
#[derive(Debug, Clone)]
pub struct ShowBackupResult {
    pub details: BackupDetails,
}

/// The time format of the details.
pub open spec fn long_time(t: i64) -> Seq<char> {
    utc_formatted(t, "%Y-%m-%d %H:%M:%S UTC"@)
}

/// A labelled line of the details.
pub open spec fn field(label: Seq<char>, value: Seq<char>) -> Seq<char> {
    label + value + "\n"@
}

/// A labelled line for a value that may be absent.
pub open spec fn optional_field(label: Seq<char>, value: Option<String>) -> Seq<char> {
    match value {
        Some(v) => field(label, v@),
        None => Seq::empty(),
    }
}

/// The identity of the backup.
pub open spec fn show_basic(m: StoredBackupMetadata) -> Seq<char> {
    "=== Backup Details ===\n\n"@ + field("Backup ID:       "@, m.id@) + field(
        "Type:            "@,
        type_label(m.backup_type),
    ) + field("Status:          "@, status_label(m.status)) + field(
        "Pinned:          "@,
        if m.pinned {
            "Yes"@
        } else {
            "No"@
        },
    ) + "\n"@
}

/// When the backup ran.
pub open spec fn show_times(m: StoredBackupMetadata) -> Seq<char> {
    "=== Timestamps ===\n\n"@ + field("Start Time:      "@, long_time(m.start_time)) + match m.end_time {
        Some(e) => field("End Time:        "@, long_time(e)) + "Duration:        "@ + signed_decimal(
            whole_seconds_between(m.start_time, e),
        ) + "s\n"@,
        None => Seq::empty(),
    } + "\n"@
}

/// How big the backup is.
pub open spec fn show_sizes(d: BackupDetails) -> Seq<char> {
    "=== Size Information ===\n\n"@ + field("Metadata Size:   "@, size_text(d.metadata.size_bytes as nat))
        + field("Storage Size:    "@, size_text(d.total_storage_size as nat)) + field(
        "File Count:      "@,
        decimal(d.metadata.files@.len()),
    ) + field("Object Count:    "@, decimal(d.object_count as nat)) + "\n"@
}

/// Where the backup is stored.
pub open spec fn show_location(d: BackupDetails) -> Seq<char> {
    "=== Storage Location ===\n\n"@ + field("Bucket:          "@, d.bucket@) + field(
        "Key Prefix:      "@,
        d.storage_key@,
    ) + "\n"@
}

/// What the backup holds of PostgreSQL.
pub open spec fn show_postgres(m: StoredBackupMetadata) -> Seq<char> {
    "=== PostgreSQL Info ===\n\n"@ + field("Server Version:  "@, m.server_version@) + optional_field(
        "WAL Start:       "@,
        m.wal_start,
    ) + optional_field("WAL End:         "@, m.wal_end) + optional_field(
        "Base Backup ID:  "@,
        m.base_backup_id,
    ) + "\n"@
}

/// The backup's checksum, when it has one.
pub open spec fn show_integrity(m: StoredBackupMetadata) -> Seq<char> {
    match m.checksum {
        Some(c) => "=== Integrity ===\n\n"@ + field("Checksum (SHA256): "@, c@) + "\n"@,
        None => Seq::empty(),
    }
}

/// A tag's line.
pub open spec fn tag_line(t: String) -> Seq<char> {
    "  - "@ + t@ + "\n"@
}

/// The backup's tags, when it has any.
pub open spec fn show_tags(m: StoredBackupMetadata) -> Seq<char> {
    if m.tags@.len() > 0 {
        "=== Tags/Labels ===\n\n"@ + concat_all(m.tags@.map_values(|t: String| tag_line(t))) + "\n"@
    } else {
        Seq::empty()
    }
}

/// A file's line: name, size and the first eight bytes of its checksum.
pub open spec fn file_line(f: BackupFileEntry) -> Seq<char> {
    "  - "@ + f.name@ + " ("@ + size_text(f.size as nat) + ")"@ + match f.checksum {
        Some(c) => " ["@ + c@.take(chars_starting_before(c@, 8) as int) + "]"@,
        None => Seq::empty(),
    } + "\n"@
}

/// The files of the backup: the first twenty, and how many more there are.
pub open spec fn show_files(m: StoredBackupMetadata) -> Seq<char> {
    let n = m.files@.len();
    "=== Files ===\n\n"@ + concat_all(
        m.files@.take(if n < 20 { n as int } else { 20 }).map_values(|f: BackupFileEntry| file_line(f)),
    ) + if n > 20 {
        "  ... and "@ + decimal((n - 20) as nat) + " more files\n"@
    } else {
        Seq::empty()
    }
}

/// The details of a backup as text.
pub open spec fn show_table(r: ShowBackupResult) -> Seq<char> {
    let d = r.details;
    let m = d.metadata;
    show_basic(m) + show_times(m) + show_sizes(d) + show_location(d) + show_postgres(m) + show_integrity(m)
        + show_tags(m) + show_files(m)
}

/// The checksums shown are cut at a character boundary: each of the first
/// twenty files' checksums has one at byte 8.
pub open spec fn checksums_displayable(m: StoredBackupMetadata) -> bool {
    forall|i: int|
        0 <= i < m.files@.len() && i < 20 ==> ((#[trigger] m.files@[i]).checksum matches Some(c)
            ==> is_char_boundary(c@, 8))
}

fn push_field(out: &mut String, label: &str, value: &str)
    ensures
        final(out)@ == old(out)@ + field(label@, value@),
{
    push_str(out, label);
    push_str(out, value);
    push_str(out, "\n");
}

fn show_basic_text(m: &StoredBackupMetadata) -> (r: String)
    ensures
        r@ == show_basic(*m),
{
    let mut out = owned("=== Backup Details ===\n\n");
    push_field(&mut out, "Backup ID:       ", m.id.as_str());
    let t = m.backup_type.name();
    push_field(&mut out, "Type:            ", t.as_str());
    let st = format_backup_status(m.status);
    push_field(&mut out, "Status:          ", st.as_str());
    push_field(&mut out, "Pinned:          ", if m.pinned { "Yes" } else { "No" });
    push_str(&mut out, "\n");
    out
}

fn show_times_text(m: &StoredBackupMetadata) -> (r: String)
    ensures
        r@ == show_times(*m),
{
    let mut out = owned("=== Timestamps ===\n\n");
    let s = format_utc(m.start_time, "%Y-%m-%d %H:%M:%S UTC");
    push_field(&mut out, "Start Time:      ", s.as_str());
    let ghost head = out@;
    if let Some(e) = m.end_time {
        let et = format_utc(e, "%Y-%m-%d %H:%M:%S UTC");
        push_field(&mut out, "End Time:        ", et.as_str());
        push_str(&mut out, "Duration:        ");
        let d: i128 = e as i128 - m.start_time as i128;
        let secs: i128 = if d >= 0 {
            d / 1000
        } else {
            -((-d) / 1000)
        };
        let ds = decimal_i64(secs as i64);
        push_str(&mut out, ds.as_str());
        push_str(&mut out, "s\n");
    }
    push_str(&mut out, "\n");
    out
}

fn show_sizes_text(d: &BackupDetails) -> (r: String)
    ensures
        r@ == show_sizes(*d),
{
    let mut out = owned("=== Size Information ===\n\n");
    let a = format_size(d.metadata.size_bytes);
    push_field(&mut out, "Metadata Size:   ", a.as_str());
    let b = format_size(d.total_storage_size);
    push_field(&mut out, "Storage Size:    ", b.as_str());
    let c = decimal_u64(d.metadata.files.len() as u64);
    push_field(&mut out, "File Count:      ", c.as_str());
    let e = decimal_u64(d.object_count as u64);
    push_field(&mut out, "Object Count:    ", e.as_str());
    push_str(&mut out, "\n");
    out
}

fn show_location_text(d: &BackupDetails) -> (r: String)
    ensures
        r@ == show_location(*d),
{
    let mut out = owned("=== Storage Location ===\n\n");
    push_field(&mut out, "Bucket:          ", d.bucket.as_str());
    push_field(&mut out, "Key Prefix:      ", d.storage_key.as_str());
    push_str(&mut out, "\n");
    out
}

fn push_optional_field(out: &mut String, label: &str, value: &Option<String>)
    ensures
        final(out)@ == old(out)@ + optional_field(label@, *value),
{
    if let Some(v) = value {
        push_field(out, label, v.as_str());
    }
}

fn show_postgres_text(m: &StoredBackupMetadata) -> (r: String)
    ensures
        r@ == show_postgres(*m),
{
    let mut out = owned("=== PostgreSQL Info ===\n\n");
    push_field(&mut out, "Server Version:  ", m.server_version.as_str());
    push_optional_field(&mut out, "WAL Start:       ", &m.wal_start);
    push_optional_field(&mut out, "WAL End:         ", &m.wal_end);
    push_optional_field(&mut out, "Base Backup ID:  ", &m.base_backup_id);
    push_str(&mut out, "\n");
    out
}

fn show_integrity_text(m: &StoredBackupMetadata) -> (r: String)
    ensures
        r@ == show_integrity(*m),
{
    let mut out = String::new();
    if let Some(c) = &m.checksum {
        push_str(&mut out, "=== Integrity ===\n\n");
        push_field(&mut out, "Checksum (SHA256): ", c.as_str());
        push_str(&mut out, "\n");
    }
    out
}

fn show_tags_text(m: &StoredBackupMetadata) -> (r: String)
    ensures
        r@ == show_tags(*m),
{
    let mut out = String::new();
    if m.tags.len() > 0 {
        push_str(&mut out, "=== Tags/Labels ===\n\n");
        let ghost start = out@;
        let ghost lines = m.tags@.map_values(|t: String| tag_line(t));
        let mut i: usize = 0;
        while i < m.tags.len()
            invariant
                i <= m.tags@.len(),
                lines == m.tags@.map_values(|t: String| tag_line(t)),
                out@ == start + concat_all(lines.take(i as int)),
            decreases m.tags@.len() - i,
        {
            let line = concat3("  - ", m.tags[i].as_str(), "\n");
            push_str(&mut out, line.as_str());
            proof {
                assert(lines.take(i + 1) =~= lines.take(i as int).push(lines[i as int]));
                lemma_concat_all_push(lines.take(i as int), lines[i as int]);
            }
            i = i + 1;
        }
        proof {
            assert(lines.take(lines.len() as int) =~= lines);
        }
        push_str(&mut out, "\n");
    }
    out
}

fn file_line_text(f: &BackupFileEntry) -> (r: String)
    requires
        f.checksum matches Some(c) ==> is_char_boundary(c@, 8),
    ensures
        r@ == file_line(*f),
{
    let mut out = owned("  - ");
    push_str(&mut out, f.name.as_str());
    push_str(&mut out, " (");
    let sz = format_size(f.size);
    push_str(&mut out, sz.as_str());
    push_str(&mut out, ")");
    let ghost head = out@;
    if let Some(c) = &f.checksum {
        push_str(&mut out, " [");
        let p = prefix_bytes(c.as_str(), 8);
        push_str(&mut out, p.as_str());
        push_str(&mut out, "]");
    }
    push_str(&mut out, "\n");
    out
}

fn show_files_text(m: &StoredBackupMetadata) -> (r: String)
    requires
        checksums_displayable(*m),
    ensures
        r@ == show_files(*m),
{
    let mut out = owned("=== Files ===\n\n");
    let n = m.files.len();
    let shown: usize = if n < 20 { n } else { 20 };
    let ghost start = out@;
    let ghost lines = m.files@.take(shown as int).map_values(|f: BackupFileEntry| file_line(f));
    let mut i: usize = 0;
    while i < shown
        invariant
            i <= shown <= m.files@.len(),
            shown <= 20,
            n == m.files@.len(),
            shown == if n < 20 { n } else { 20 },
            checksums_displayable(*m),
            lines == m.files@.take(shown as int).map_values(|f: BackupFileEntry| file_line(f)),
            out@ == start + concat_all(lines.take(i as int)),
        decreases shown - i,
    {
        proof {
            assert(m.files@[i as int] == m.files@[i as int]);
        }
        let line = file_line_text(&m.files[i]);
        push_str(&mut out, line.as_str());
        proof {
            assert(lines[i as int] == file_line(m.files@[i as int]));
            assert(lines.take(i + 1) =~= lines.take(i as int).push(lines[i as int]));
            lemma_concat_all_push(lines.take(i as int), lines[i as int]);
        }
        i = i + 1;
    }
    proof {
        assert(lines.take(lines.len() as int) =~= lines);
    }
    if n > 20 {
        push_str(&mut out, "  ... and ");
        let more = decimal_u64((n - 20) as u64);
        push_str(&mut out, more.as_str());
        push_str(&mut out, " more files\n");
    }
    out
}

/// The details of a backup as a table of text.
pub fn format_show_table(result: &ShowBackupResult) -> (r: String)
    requires
        checksums_displayable(result.details.metadata),
    ensures
        r@ == show_table(*result),
{
    let d = &result.details;
    let m = &d.metadata;
    let mut out = show_basic_text(m);
    let a = show_times_text(m);
    push_str(&mut out, a.as_str());
    let b = show_sizes_text(d);
    push_str(&mut out, b.as_str());
    let c = show_location_text(d);
    push_str(&mut out, c.as_str());
    let e = show_postgres_text(m);
    push_str(&mut out, e.as_str());
    let f = show_integrity_text(m);
    push_str(&mut out, f.as_str());
    let g = show_tags_text(m);
    push_str(&mut out, g.as_str());
    let h = show_files_text(m);
    push_str(&mut out, h.as_str());
    out
}


/// One backup of a listing. Times are milliseconds since the Unix epoch.
#[derive(Debug, Clone)]
pub struct BackupSummary {
    pub id: String,
    pub backup_type: BackupType,
    pub status: BackupStatus,
    pub start_time: i64,
    pub size_bytes: u64,
    pub server_version: String,
    pub pinned: bool,
}

/// Result of list backups operation
#[derive(Debug, Clone)]
pub struct ListBackupsResult {
    pub backups: Vec<BackupSummary>,
    pub total_count: usize,
    pub total_size_bytes: u64,
}

/// The row of a listed backup: identifier, type, status, start time, size
/// (right-aligned), server version, and a pin for pinned backups.
pub open spec fn list_row(b: BackupSummary) -> Seq<char> {
    pad_right(b.id@, 38) + " "@ + pad_right(type_label(b.backup_type), 10) + " "@ + pad_right(
        status_label(b.status),
        10,
    ) + " "@ + pad_right(utc_formatted(b.start_time, "%Y-%m-%d %H:%M:%S"@), 20) + " "@ + pad_left(
        size_text(b.size_bytes as nat),
        12,
    ) + " "@ + pad_right(b.server_version@, 10) + (if b.pinned {
        " 📌"@
    } else {
        Seq::empty()
    }) + "\n"@
}

/// The rows of the listed backups, in order.
pub open spec fn list_rows(v: Seq<BackupSummary>) -> Seq<char>
    decreases v.len(),
{
    if v.len() == 0 {
        Seq::empty()
    } else {
        list_rows(v.drop_last()) + list_row(v.last())
    }
}

/// The header of a listing.
pub open spec fn list_header() -> Seq<char> {
    pad_right("BACKUP ID"@, 38) + " "@ + pad_right("TYPE"@, 10) + " "@ + pad_right("STATUS"@, 10) + " "@
        + pad_right("TIMESTAMP"@, 20) + " "@ + pad_left("SIZE"@, 12) + " "@ + pad_right("PG VERSION"@, 10)
        + "\n"@
}

/// A listing as text: header, rule, one row per backup, rule, totals.
pub open spec fn list_table(r: ListBackupsResult) -> Seq<char> {
    list_header() + repeat_char('-', 110) + "\n"@ + list_rows(r.backups@) + repeat_char('-', 110) + "\n"@
        + "Total: "@ + decimal(r.total_count as nat) + " backups, "@ + size_text(r.total_size_bytes as nat)
        + " total size\n"@
}

/// The first columns of a listed backup's row.
pub open spec fn list_row_head(b: BackupSummary) -> Seq<char> {
    pad_right(b.id@, 38) + " "@ + pad_right(type_label(b.backup_type), 10) + " "@ + pad_right(
        status_label(b.status),
        10,
    ) + " "@
}

/// The last columns of a listed backup's row.
pub open spec fn list_row_tail(b: BackupSummary) -> Seq<char> {
    pad_right(utc_formatted(b.start_time, "%Y-%m-%d %H:%M:%S"@), 20) + " "@ + pad_left(
        size_text(b.size_bytes as nat),
        12,
    ) + " "@ + pad_right(b.server_version@, 10) + (if b.pinned {
        " 📌"@
    } else {
        Seq::empty()
    }) + "\n"@
}

/// Appends the first columns of a row of the listing.
fn push_list_row_head(out: &mut String, b: &BackupSummary)
    ensures
        final(out)@ == old(out)@ + list_row_head(*b),
{
    let ghost s0 = out@;
    push_padded_right(out, b.id.as_str(), 38);
    push_str(out, " ");
    let t = b.backup_type.name();
    push_padded_right(out, t.as_str(), 10);
    push_str(out, " ");
    let st = format_backup_status(b.status);
    push_padded_right(out, st.as_str(), 10);
    push_str(out, " ");
    proof {
        assert(out@ =~= s0 + list_row_head(*b));
    }
}

/// Appends the last columns of a row of the listing.
fn push_list_row_tail(out: &mut String, b: &BackupSummary)
    ensures
        final(out)@ == old(out)@ + list_row_tail(*b),
{
    let ghost s0 = out@;
    let ts = format_utc(b.start_time, "%Y-%m-%d %H:%M:%S");
    push_padded_right(out, ts.as_str(), 20);
    push_str(out, " ");
    let size = format_size(b.size_bytes);
    push_padded_left(out, size.as_str(), 12);
    push_str(out, " ");
    push_padded_right(out, b.server_version.as_str(), 10);
    let ghost s1 = out@;
    if b.pinned {
        push_str(out, " 📌");
    }
    push_str(out, "\n");
    proof {
        assert(out@ =~= s0 + list_row_tail(*b));
    }
}

/// Appends a row of the listing.
fn push_list_row(out: &mut String, b: &BackupSummary)
    ensures
        final(out)@ == old(out)@ + list_row(*b),
{
    let ghost start = out@;
    push_list_row_head(out, b);
    push_list_row_tail(out, b);
    proof {
        assert(list_row(*b) =~= list_row_head(*b) + list_row_tail(*b));
        assert(out@ =~= start + list_row(*b));
    }
}

/// Format list results as a table
pub fn format_list_table(result: &ListBackupsResult) -> (r: String)
    ensures
        r@ == list_table(*result),
{
    let mut out = String::new();
    push_padded_right(&mut out, "BACKUP ID", 38);
    push_str(&mut out, " ");
    push_padded_right(&mut out, "TYPE", 10);
    push_str(&mut out, " ");
    push_padded_right(&mut out, "STATUS", 10);
    push_str(&mut out, " ");
    push_padded_right(&mut out, "TIMESTAMP", 20);
    push_str(&mut out, " ");
    push_padded_left(&mut out, "SIZE", 12);
    push_str(&mut out, " ");
    push_padded_right(&mut out, "PG VERSION", 10);
    push_str(&mut out, "\n");
    push_repeat(&mut out, '-', 110);
    push_str(&mut out, "\n");
    proof {
        assert(out@ =~= list_header() + repeat_char('-', 110) + "\n"@);
    }
    let ghost head = out@;
    let mut i: usize = 0;
    while i < result.backups.len()
        invariant
            i <= result.backups@.len(),
            out@ == head + list_rows(result.backups@.take(i as int)),
        decreases result.backups@.len() - i,
    {
        proof {
            assert(result.backups@.take(i + 1).drop_last() =~= result.backups@.take(i as int));
        }
        push_list_row(&mut out, &result.backups[i]);
        proof {
            assert(head + list_rows(result.backups@.take(i as int)) + list_row(result.backups@[i as int])
                =~= head + list_rows(result.backups@.take(i + 1)));
        }
        i = i + 1;
    }
    proof {
        assert(result.backups@.take(result.backups@.len() as int) =~= result.backups@);
    }
    push_repeat(&mut out, '-', 110);
    push_str(&mut out, "\n");
    push_str(&mut out, "Total: ");
    let n = decimal_u64(result.total_count as u64);
    push_str(&mut out, n.as_str());
    push_str(&mut out, " backups, ");
    let size = format_size(result.total_size_bytes);
    push_str(&mut out, size.as_str());
    push_str(&mut out, " total size\n");
    proof {
        assert(out@ =~= list_table(*result));
    }
    out
}

/// A file whose checksum did not match.
#[derive(Debug, Clone)]
pub struct ChecksumMismatch {
    pub file: String,
    pub expected: String,
    pub actual: String,
}

/// What verifying the checksums of a download found.
#[derive(Debug, Clone)]
pub struct ChecksumVerification {
    pub all_matched: bool,
    pub files_verified: usize,
    pub files_matched: usize,
    pub files_mismatched: usize,
    pub files_skipped: usize,
    pub mismatches: Vec<ChecksumMismatch>,
}

/// Result of a backup download.
#[derive(Debug, Clone)]
pub struct DownloadResult {
    pub backup_id: String,
    pub target_dir: String,
    pub files_downloaded: usize,
    pub bytes_downloaded: u64,
    pub duration_secs: u64,
    pub checksum_verified: Option<ChecksumVerification>,
}

/// The lines of a mismatched file.
pub open spec fn mismatch_lines(m: ChecksumMismatch) -> Seq<char> {
    "  - "@ + m.file@ + "\n"@ + "    Expected: "@ + m.expected@ + "\n"@ + "    Actual:   "@ + m.actual@ + "\n"@
}

/// The lines of the mismatched files, in order.
pub open spec fn mismatches_text(v: Seq<ChecksumMismatch>) -> Seq<char>
    decreases v.len(),
{
    if v.len() == 0 {
        Seq::empty()
    } else {
        mismatches_text(v.drop_last()) + mismatch_lines(v.last())
    }
}

/// The checksum section of a download report.
pub open spec fn checksum_text(c: ChecksumVerification) -> Seq<char> {
    "\n"@ + "=== Checksum Verification ===\n\n"@ + field(
        "Status:          "@,
        if c.all_matched {
            "✓ PASSED"@
        } else {
            "✗ FAILED"@
        },
    ) + field("Files Verified:  "@, decimal(c.files_verified as nat)) + field(
        "Files Matched:   "@,
        decimal(c.files_matched as nat),
    ) + field("Files Mismatched: "@, decimal(c.files_mismatched as nat)) + field(
        "Files Skipped:   "@,
        decimal(c.files_skipped as nat),
    ) + if c.mismatches@.len() > 0 {
        "\n"@ + "Mismatched Files:\n"@ + mismatches_text(c.mismatches@)
    } else {
        Seq::empty()
    }
}

/// A download report as text.
pub open spec fn download_table(r: DownloadResult) -> Seq<char> {
    "=== Download Complete ===\n\n"@ + field("Backup ID:       "@, r.backup_id@) + field(
        "Target Dir:      "@,
        r.target_dir@,
    ) + field("Files:           "@, decimal(r.files_downloaded as nat)) + field(
        "Size:            "@,
        size_text(r.bytes_downloaded as nat),
    ) + "Duration:        "@ + decimal(r.duration_secs as nat) + "s\n"@ + match r.checksum_verified {
        Some(c) => checksum_text(c),
        None => Seq::empty(),
    }
}

/// The checksum section of a download report.
fn checksum_section(c: &ChecksumVerification) -> (r: String)
    ensures
        r@ == checksum_text(*c),
{
    let mut out = owned("\n");
    push_str(&mut out, "=== Checksum Verification ===\n\n");
    push_field(&mut out, "Status:          ", if c.all_matched {
        "✓ PASSED"
    } else {
        "✗ FAILED"
    });
    let a = decimal_u64(c.files_verified as u64);
    push_field(&mut out, "Files Verified:  ", a.as_str());
    let b = decimal_u64(c.files_matched as u64);
    push_field(&mut out, "Files Matched:   ", b.as_str());
    let d = decimal_u64(c.files_mismatched as u64);
    push_field(&mut out, "Files Mismatched: ", d.as_str());
    let e = decimal_u64(c.files_skipped as u64);
    push_field(&mut out, "Files Skipped:   ", e.as_str());
    let ghost head = out@;
    if c.mismatches.len() > 0 {
        push_str(&mut out, "\n");
        push_str(&mut out, "Mismatched Files:\n");
        let ghost rows_start = out@;
        let mut i: usize = 0;
        while i < c.mismatches.len()
            invariant
                i <= c.mismatches@.len(),
                out@ == rows_start + mismatches_text(c.mismatches@.take(i as int)),
            decreases c.mismatches@.len() - i,
        {
            proof {
                assert(c.mismatches@.take(i + 1).drop_last() =~= c.mismatches@.take(i as int));
            }
            let m = &c.mismatches[i];
            let ghost before = out@;
            push_str(&mut out, "  - ");
            push_str(&mut out, m.file.as_str());
            push_str(&mut out, "\n");
            push_str(&mut out, "    Expected: ");
            push_str(&mut out, m.expected.as_str());
            push_str(&mut out, "\n");
            push_str(&mut out, "    Actual:   ");
            push_str(&mut out, m.actual.as_str());
            push_str(&mut out, "\n");
            proof {
                assert(out@ =~= before + mismatch_lines(*m));
                assert(rows_start + mismatches_text(c.mismatches@.take(i as int)) + mismatch_lines(*m)
                    =~= rows_start + mismatches_text(c.mismatches@.take(i + 1)));
            }
            i = i + 1;
        }
        proof {
            assert(c.mismatches@.take(c.mismatches@.len() as int) =~= c.mismatches@);
        }
    }
    proof {
        assert(out@ =~= checksum_text(*c));
    }
    out
}

/// Format download results as a table
pub fn format_download_table(result: &DownloadResult) -> (r: String)
    ensures
        r@ == download_table(*result),
{
    let mut out = owned("=== Download Complete ===\n\n");
    push_field(&mut out, "Backup ID:       ", result.backup_id.as_str());
    push_field(&mut out, "Target Dir:      ", result.target_dir.as_str());
    let f = decimal_u64(result.files_downloaded as u64);
    push_field(&mut out, "Files:           ", f.as_str());
    let s = format_size(result.bytes_downloaded);
    push_field(&mut out, "Size:            ", s.as_str());
    push_str(&mut out, "Duration:        ");
    let d = decimal_u64(result.duration_secs);
    push_str(&mut out, d.as_str());
    push_str(&mut out, "s\n");
    let ghost head = out@;
    if let Some(c) = &result.checksum_verified {
        let t = checksum_section(c);
        push_str(&mut out, t.as_str());
    }
    proof {
        assert(out@ =~= download_table(*result));
    }
    out
}

} // verus!
