//! The pure parts of the commands: what they compute from what the front end
//! read, and what they hand back to be written or sent.

pub mod metadata;
pub mod retention;
pub mod cluster;
pub mod schedule;

use vstd::prelude::*;
use crate::common::PostgresConfig;
use crate::text::{
    chars_of, concat2, concat3, latest_matching, lex_lt, has_any_prefix, owned, push_str,
    str_eq, texts, lowercase, to_lowercase, contains_seq, contains_str,
};
use crate::timestamps::{
    rfc3339_of, seconds_from, text_or_empty, utc_rfc3339_at, utc_time_wf, whole_seconds_from, UtcTime,
};
use crate::timestamps::{display_utc, format_utc, rfc3339_utc, utc_display, utc_formatted, utc_rfc3339};
use crate::cluster::{copy_labels, copy_text, Label};
use crate::text::decimal_u64;
use crate::cli::commands::backups::{
    format_backup_status, status_label, type_label, BackupFileEntry, StoredBackupMetadata,
};

verus! {

/// SSH access to a database server's host.
#[derive(Clone, Debug)]
pub struct SshOptions {
    pub host: Option<String>,
    pub user: Option<String>,
    pub port: Option<u16>,
    pub password: Option<String>,
    pub key_path: Option<String>,
    pub local_port: Option<u16>,
    pub remote_port: Option<u16>,
}

impl Default for SshOptions {
    fn default() -> (r: Self)
        ensures
            r.host is None,
            r.user is None,
            r.port is None,
            r.password is None,
            r.key_path is None,
            r.local_port is None,
            r.remote_port is None,
    {
        SshOptions {
            host: None,
            user: None,
            port: None,
            password: None,
            key_path: None,
            local_port: None,
            remote_port: None,
        }
    }
}

/// Options for multi-tenant storage organization.
///
/// When tenant, cluster and protection group are set, backups are organized
/// as `<tenant>/<cluster>/<protection_group>/<database>/<backup_id>/...`;
/// when they are not, the flat layout `<prefix>/<backup_id>/...` is used.
#[derive(Clone, Debug)]
pub struct MultiTenantOptions {
    /// Tenant identifier (organization/project)
    pub tenant: Option<String>,
    /// Cluster identifier from cluster.yaml
    pub cluster: Option<String>,
    /// Protection group identifier from cluster.yaml
    pub protection_group: Option<String>,
    /// Include legacy backups in discovery operations
    pub include_legacy: bool,
}

impl Default for MultiTenantOptions {
    fn default() -> (r: Self)
        ensures
            r.tenant is None,
            r.cluster is None,
            r.protection_group is None,
            !r.include_legacy,
    {
        MultiTenantOptions { tenant: None, cluster: None, protection_group: None, include_legacy: false }
    }
}

/// Remote storage settings of a command.
#[derive(Clone, Debug)]
pub struct StorageOptions {
    pub remote_storage: bool,
    pub provider_type: Option<String>,
    pub bucket: Option<String>,
    pub prefix: Option<String>,
    pub region: Option<String>,
    pub endpoint: Option<String>,
    pub access_key: Option<String>,
    pub secret_key: Option<String>,
    /// Multi-tenant organization options
    pub multi_tenant: MultiTenantOptions,
}

impl Default for StorageOptions {
    fn default() -> (r: Self)
        ensures
            !r.remote_storage,
            r.provider_type is None,
            r.bucket is None,
            r.prefix is None,
            r.region is None,
            r.endpoint is None,
            r.access_key is None,
            r.secret_key is None,
            r.multi_tenant.tenant is None,
            r.multi_tenant.cluster is None,
            r.multi_tenant.protection_group is None,
            !r.multi_tenant.include_legacy,
    {
        StorageOptions {
            remote_storage: false,
            provider_type: None,
            bucket: None,
            prefix: None,
            region: None,
            endpoint: None,
            access_key: None,
            secret_key: None,
            multi_tenant: MultiTenantOptions::default(),
        }
    }
}

/// The local port of an SSH tunnel when none is configured.
pub const DEFAULT_TUNNEL_PORT: u16 = 6969;

/// The connection settings of a command: through an SSH tunnel, the server
/// is reached on `localhost` at the tunnel's local port (6969 by default);
/// otherwise at its own host and port.
pub fn connection_config(
    host: &str,
    port: u16,
    database: &str,
    user: &str,
    password: Option<String>,
    ssl_mode: Option<String>,
    ssh: &SshOptions,
) -> (r: PostgresConfig)
    ensures
        ssh.host is Some ==> r.host@ == "localhost"@ && r.port == match ssh.local_port {
            Some(p) => p,
            None => DEFAULT_TUNNEL_PORT,
        },
        ssh.host is None ==> r.host@ == host@ && r.port == port,
        r.database@ == database@,
        r.user@ == user@,
        r.password == password,
        r.ssl_mode == ssl_mode,
        r.maintenance_db is None,
        r.ssh_host == ssh.host,
        r.ssh_user == ssh.user,
        r.ssh_port == ssh.port,
        r.ssh_password == ssh.password,
        r.ssh_key_path == ssh.key_path,
        r.ssh_local_port == ssh.local_port,
        r.ssh_remote_port == ssh.remote_port,
{
    let (h, p) = if ssh.host.is_some() {
        (
            owned("localhost"),
            match ssh.local_port {
                Some(p) => p,
                None => DEFAULT_TUNNEL_PORT,
            },
        )
    } else {
        (owned(host), port)
    };
    PostgresConfig {
        host: h,
        port: p,
        database: owned(database),
        user: owned(user),
        password,
        ssl_mode,
        maintenance_db: None,
        ssh_host: crate::cluster::copy_text(&ssh.host),
        ssh_user: crate::cluster::copy_text(&ssh.user),
        ssh_port: ssh.port,
        ssh_password: crate::cluster::copy_text(&ssh.password),
        ssh_key_path: crate::cluster::copy_text(&ssh.key_path),
        ssh_local_port: ssh.local_port,
        ssh_remote_port: ssh.remote_port,
    }
}

/// `s` without the `/` characters at its end.
pub open spec fn trim_trailing_slashes(s: Seq<char>) -> Seq<char>
    decreases s.len(),
{
    if s.len() > 0 && s.last() == '/' {
        trim_trailing_slashes(s.drop_last())
    } else {
        s
    }
}

/// The object key of a backup: `{prefix}/{database}/{date}/{backup_id}`,
/// the prefix without its trailing slashes; without a prefix (or with an
/// empty one), `{database}/{date}/{backup_id}`.
pub open spec fn backup_s3_key(prefix: Option<Seq<char>>, database: Seq<char>, backup_id: Seq<char>, date: Seq<char>) -> Seq<char> {
    match prefix {
        Some(p) => if p.len() > 0 {
            trim_trailing_slashes(p) + "/"@ + database + "/"@ + date + "/"@ + backup_id
        } else {
            database + "/"@ + date + "/"@ + backup_id
        },
        None => database + "/"@ + date + "/"@ + backup_id,
    }
}

/// Generate a deterministic S3 object key for a backup taken at
/// `timestamp` (milliseconds since the Unix epoch).
pub fn generate_backup_s3_key(prefix: Option<&str>, database: &str, backup_id: &str, timestamp: i64) -> (r: String)
    ensures
        r@ == backup_s3_key(
            match prefix {
                Some(p) => Some(p@),
                None => None,
            },
            database@,
            backup_id@,
            utc_formatted(timestamp, "%Y-%m-%d"@),
        ),
{
    let date = format_utc(timestamp, "%Y-%m-%d");
    backup_s3_key_on(prefix, database, backup_id, date.as_str())
}

/// The object key of a backup taken on `date` (`YYYY-MM-DD`).
pub fn backup_s3_key_on(prefix: Option<&str>, database: &str, backup_id: &str, date: &str) -> (r: String)
    ensures
        r@ == backup_s3_key(
            match prefix {
                Some(p) => Some(p@),
                None => None,
            },
            database@,
            backup_id@,
            date@,
        ),
{
    let mut out = String::new();
    match prefix {
        Some(p) => {
            let v = chars_of(p);
            if v.len() > 0 {
                let mut end = v.len();
                proof {
                    assert(v@.take(end as int) =~= v@);
                }
                while end > 0 && v[end - 1] == '/'
                    invariant
                        end <= v@.len(),
                        trim_trailing_slashes(v@) == trim_trailing_slashes(v@.take(end as int)),
                    decreases end,
                {
                    proof {
                        assert(v@.take(end as int).drop_last() =~= v@.take(end - 1));
                    }
                    end = end - 1;
                }
                proof {
                    if end > 0 {
                        assert(v@.take(end as int).last() == v@[end - 1]);
                    }
                }
                crate::text::push_range(&mut out, &v, 0, end);
                proof {
                    assert(v@.subrange(0, end as int) =~= v@.take(end as int));
                    assert(v@.take(v@.len() as int) =~= v@);
                }
                push_str(&mut out, "/");
            }
        },
        None => {},
    }
    push_str(&mut out, database);
    push_str(&mut out, "/");
    push_str(&mut out, date);
    push_str(&mut out, "/");
    push_str(&mut out, backup_id);
    out
}

/// Result of a successful snapshot backup operation. Times are
/// milliseconds since the Unix epoch.
#[derive(Debug, Clone)]
pub struct SnapshotBackupResult {
    /// Unique backup identifier (UUID)
    pub backup_id: String,
    /// Local path where the backup is stored
    pub local_path: String,
    /// Remote S3 path/key if uploaded to remote storage
    pub remote_path: Option<String>,
    /// Database name that was backed up
    pub database: String,
    /// Backup start time
    pub start_time: UtcTime,
    /// Backup end time
    pub end_time: UtcTime,
    /// Size of the backup in bytes
    pub size_bytes: u64,
}

/// The most recent backup directory: of the directories whose names start
/// with `prefix`, the one with the greatest name (the names carry the
/// time). `dir_names` are the names of the directories of the backup
/// directory.
pub fn find_backup_directory(dir_names: &Vec<String>, prefix: &str) -> (r: Result<usize, String>)
    ensures
        match r {
            Ok(i) => i < dir_names@.len() && crate::text::starts_with_seq(dir_names@[i as int]@, prefix@)
                && forall|j: int|
                0 <= j < dir_names@.len() && crate::text::starts_with_seq(#[trigger] dir_names@[j]@, prefix@)
                    ==> !lex_lt(dir_names@[i as int]@, dir_names@[j]@),
            Err(m) => m@ == "No backup directory found matching prefix '"@ + prefix@ + "'"@ && forall|j: int|
                0 <= j < dir_names@.len() ==> !crate::text::starts_with_seq(#[trigger] dir_names@[j]@, prefix@),
        },
{
    let mut prefixes: Vec<&str> = Vec::new();
    prefixes.push(prefix);
    let ghost ps = prefixes@.map_values(|p: &str| p@);
    proof {
        assert(ps =~= seq![prefix@]);
        assert forall|n: Seq<char>| has_any_prefix(n, ps) == crate::text::starts_with_seq(n, prefix@) by {
            if crate::text::starts_with_seq(n, prefix@) {
                assert(crate::text::starts_with_seq(n, ps[0]));
            }
        }
    }
    match latest_matching(dir_names, &prefixes) {
        Some(i) => Ok(i),
        None => Err(concat3("No backup directory found matching prefix '", prefix, "'")),
    }
}

/// The first directory, in listing order, whose name contains `marker`
/// (such as `full_backup_`).
pub fn first_dir_containing(dir_names: &Vec<String>, marker: &str) -> (r: Option<usize>)
    ensures
        match r {
            Some(i) => i < dir_names@.len() && contains_seq(dir_names@[i as int]@, marker@) && forall|j: int|
                0 <= j < i ==> !contains_seq(#[trigger] dir_names@[j]@, marker@),
            None => forall|j: int| 0 <= j < dir_names@.len() ==> !contains_seq(#[trigger] dir_names@[j]@, marker@),
        },
{
    let mut i: usize = 0;
    while i < dir_names.len()
        invariant
            i <= dir_names@.len(),
            forall|j: int| 0 <= j < i ==> !contains_seq(#[trigger] dir_names@[j]@, marker@),
        decreases dir_names@.len() - i,
    {
        let v = chars_of(dir_names[i].as_str());
        if contains_str(&v, marker) {
            return Some(i);
        }
        i = i + 1;
    }
    None
}

/// The name has the extension `dump`, as `Path::extension` reads it: the
/// text after its last dot, which must not be the first character.
pub open spec fn has_dump_extension(name: Seq<char>) -> bool {
    exists|i: int|
        0 < i < name.len() && name[i] == '.' && name.skip(i + 1) == "dump"@ && forall|j: int|
            i < j < name.len() ==> name[j] != '.'
}

/// Whether a file name has the extension `dump`.
pub fn is_dump_file_name(name: &str) -> (r: bool)
    ensures
        r == has_dump_extension(name@),
{
    proof {
        reveal_strlit("dump");
    }
    let v = chars_of(name);
    let n = v.len();
    if n < 6 {
        proof {
            assert forall|i: int| 0 < i < name@.len() && name@[i] == '.' implies name@.skip(i + 1) != "dump"@ by {
                assert(name@.skip(i + 1).len() < 4);
            }
        }
        return false;
    }
    let ok = v[n - 5] == '.' && v[n - 4] == 'd' && v[n - 3] == 'u' && v[n - 2] == 'm' && v[n - 1] == 'p';
    proof {
        if ok {
            assert(name@.skip(n - 4) =~= "dump"@);
        } else {
            assert forall|i: int|
                0 < i < name@.len() && name@[i] == '.' && name@.skip(i + 1) == "dump"@ implies !(forall|j: int|
                i < j < name@.len() ==> name@[j] != '.') by {
                assert(name@.skip(i + 1).len() == 4);
                assert(i == n - 5);
                assert(name@.skip(i + 1)[0] == name@[i + 1]);
                assert(name@.skip(i + 1)[1] == name@[i + 2]);
                assert(name@.skip(i + 1)[2] == name@[i + 3]);
                assert(name@.skip(i + 1)[3] == name@[i + 4]);
            }
        }
    }
    ok
}

/// Which dump file of a backup to upload.
#[derive(Debug, Clone, Copy, PartialEq, Eq, Structural)]
pub enum DumpChoice {
    /// `{database}.dump`.
    DatabaseDump,
    /// `pg_dump.dump`.
    GenericDump,
    /// The entry at this position of the listing, the first with the
    /// extension `dump`.
    Listed(usize),
}

/// Chooses the dump file of a backup: `{database}.dump` if it exists, else
/// `pg_dump.dump` if it exists, else the first entry of the directory
/// listing with the extension `dump`; `None` when there is none.
pub fn find_dump_file(database_dump_exists: bool, generic_dump_exists: bool, entry_names: &Vec<String>) -> (r: Option<DumpChoice>)
    ensures
        database_dump_exists ==> r == Some(DumpChoice::DatabaseDump),
        !database_dump_exists && generic_dump_exists ==> r == Some(DumpChoice::GenericDump),
        !database_dump_exists && !generic_dump_exists ==> match r {
            Some(DumpChoice::Listed(i)) => i < entry_names@.len() && has_dump_extension(entry_names@[i as int]@)
                && forall|j: int| 0 <= j < i ==> !has_dump_extension(#[trigger] entry_names@[j]@),
            Some(_) => false,
            None => forall|j: int| 0 <= j < entry_names@.len() ==> !has_dump_extension(#[trigger] entry_names@[j]@),
        },
{
    if database_dump_exists {
        return Some(DumpChoice::DatabaseDump);
    }
    if generic_dump_exists {
        return Some(DumpChoice::GenericDump);
    }
    let mut i: usize = 0;
    while i < entry_names.len()
        invariant
            i <= entry_names@.len(),
            !database_dump_exists,
            !generic_dump_exists,
            forall|j: int| 0 <= j < i ==> !has_dump_extension(#[trigger] entry_names@[j]@),
        decreases entry_names@.len() - i,
    {
        if is_dump_file_name(entry_names[i].as_str()) {
            return Some(DumpChoice::Listed(i));
        }
        i = i + 1;
    }
    None
}

/// The error when a backup directory holds no dump file.
pub fn no_dump_file(backup_path: &str) -> (r: String)
    ensures
        r@ == "No dump file found in backup directory: "@ + backup_path@,
{
    concat2("No dump file found in backup directory: ", backup_path)
}

/// The name of a database's dump file.
pub fn database_dump_name(database: &str) -> (r: String)
    ensures
        r@ == database@ + ".dump"@,
{
    concat2(database, ".dump")
}

/// A key/value pair of object metadata.
pub open spec fn pair(k: Seq<char>, v: Seq<char>) -> (Seq<char>, Seq<char>) {
    (k, v)
}

/// The views of a list of labels.
pub open spec fn label_pairs(labels: Seq<Label>) -> Seq<(Seq<char>, Seq<char>)> {
    labels.map_values(|l: Label| pair(l.key@, l.value@))
}

/// The metadata attached to the objects of a snapshot upload: identifier,
/// type, database and time, then each label under `label_` and its key.
pub open spec fn snapshot_object_metadata(
    backup_id: Seq<char>,
    database: Seq<char>,
    timestamp: i64,
    labels: Seq<Label>,
) -> Seq<(Seq<char>, Seq<char>)> {
    seq![
        pair("backup_id"@, backup_id),
        pair("backup_type"@, "snapshot"@),
        pair("database"@, database),
        pair("timestamp"@, utc_rfc3339(timestamp)),
    ] + labels.map_values(|l: Label| pair("label_"@ + l.key@, l.value@))
}

/// The views of a list of key/value pairs.
pub open spec fn pair_views(v: Seq<(String, String)>) -> Seq<(Seq<char>, Seq<char>)> {
    v.map_values(|p: (String, String)| pair(p.0@, p.1@))
}

/// The metadata attached to the objects of a snapshot upload.
pub fn snapshot_upload_metadata(backup_id: &str, database: &str, timestamp: i64, labels: &Vec<Label>) -> (r: Vec<(String, String)>)
    ensures
        pair_views(r@) == snapshot_object_metadata(backup_id@, database@, timestamp, labels@),
{
    let mut out: Vec<(String, String)> = Vec::new();
    out.push((owned("backup_id"), owned(backup_id)));
    out.push((owned("backup_type"), owned("snapshot")));
    out.push((owned("database"), owned(database)));
    out.push((owned("timestamp"), rfc3339_utc(timestamp)));
    let ghost head = seq![
        pair("backup_id"@, backup_id@),
        pair("backup_type"@, "snapshot"@),
        pair("database"@, database@),
        pair("timestamp"@, utc_rfc3339(timestamp)),
    ];
    let ghost tail = labels@.map_values(|l: Label| pair("label_"@ + l.key@, l.value@));
    proof {
        assert(pair_views(out@) =~= head);
    }
    let mut i: usize = 0;
    while i < labels.len()
        invariant
            i <= labels@.len(),
            tail == labels@.map_values(|l: Label| pair("label_"@ + l.key@, l.value@)),
            pair_views(out@) == head + tail.take(i as int),
        decreases labels@.len() - i,
    {
        let k = concat2("label_", labels[i].key.as_str());
        let v = labels[i].value.clone();
        let ghost before = out@;
        out.push((k, v));
        proof {
            assert(pair_views(out@) =~= pair_views(before).push(pair(k@, v@)));
            assert(tail.take(i + 1) =~= tail.take(i as int).push(tail[i as int]));
        }
        i = i + 1;
    }
    proof {
        assert(tail.take(tail.len() as int) =~= tail);
    }
    out
}

/// The metadata attached to the objects of a full or incremental upload:
/// identifier, type (as `{:?}` prints it), database and start time.
pub fn physical_upload_metadata(backup_id: &str, backup_type: crate::common::BackupType, database: &str, start_time: i64) -> (r: Vec<(String, String)>)
    ensures
        pair_views(r@) == seq![
            pair("backup_id"@, backup_id@),
            pair("backup_type"@, backup_type.spec_name()),
            pair("database"@, database@),
            pair("start_time"@, utc_display(start_time)),
        ],
{
    let mut out: Vec<(String, String)> = Vec::new();
    out.push((owned("backup_id"), owned(backup_id)));
    out.push((owned("backup_type"), backup_type.name()));
    out.push((owned("database"), owned(database)));
    out.push((owned("start_time"), display_utc(start_time)));
    proof {
        assert(pair_views(out@) =~= seq![
            pair("backup_id"@, backup_id@),
            pair("backup_type"@, backup_type.spec_name()),
            pair("database"@, database@),
            pair("start_time"@, utc_display(start_time)),
        ]);
    }
    out
}

/// The tags of a backup: its labels as `key=value`.
pub fn label_tags(labels: &Vec<Label>) -> (r: Vec<String>)
    ensures
        texts(r@) == labels@.map_values(|l: Label| l.key@ + "="@ + l.value@),
{
    let ghost want = labels@.map_values(|l: Label| l.key@ + "="@ + l.value@);
    let mut out: Vec<String> = Vec::new();
    let mut i: usize = 0;
    while i < labels.len()
        invariant
            i <= labels@.len(),
            want == labels@.map_values(|l: Label| l.key@ + "="@ + l.value@),
            texts(out@) == want.take(i as int),
        decreases labels@.len() - i,
    {
        let t = concat3(labels[i].key.as_str(), "=", labels[i].value.as_str());
        let ghost before = out@;
        out.push(t);
        proof {
            assert(texts(out@) =~= texts(before).push(t@));
            assert(want.take(i + 1) =~= want.take(i as int).push(want[i as int]));
        }
        i = i + 1;
    }
    proof {
        assert(want.take(want.len() as int) =~= want);
    }
    out
}

/// Where an uploaded backup lives: `s3://{bucket}/{key}` (`unknown` when no
/// bucket is set).
pub fn remote_url(bucket: Option<&str>, key: &str) -> (r: String)
    ensures
        r@ == "s3://"@ + match bucket {
            Some(b) => b@,
            None => "unknown"@,
        } + "/"@ + key@,
{
    let mut out = owned("s3://");
    match bucket {
        Some(b) => push_str(&mut out, b),
        None => push_str(&mut out, "unknown"),
    }
    push_str(&mut out, "/");
    push_str(&mut out, key);
    out
}

/// The metadata file written beside a snapshot backup. Times are written as
/// RFC 3339 text.
#[derive(Debug, Clone)]
pub struct LocalBackupMetadata {
    pub backup_id: String,
    pub backup_type: String,
    pub database: String,
    pub host: String,
    pub port: u16,
    pub start_time: String,
    pub end_time: String,
    pub duration_seconds: i64,
    pub size_bytes: u64,
    pub server_version: String,
    pub labels: Vec<Label>,
    pub created_by: String,
    pub version: String,
}

/// Whole seconds from `start` to `end` (milliseconds), rounded toward zero.
pub open spec fn whole_seconds_between(start: i64, end: i64) -> int {
    let d = end - start;
    if d >= 0 {
        d / 1000
    } else {
        -((-d) / 1000)
    }
}

/// The metadata of a snapshot backup, as written beside it: the duration
/// is the whole seconds from start to end, rounded toward zero.
pub fn create_local_metadata(
    backup_id: &str,
    database: &str,
    host: &str,
    port: u16,
    start_time: UtcTime,
    end_time: UtcTime,
    size_bytes: u64,
    server_version: String,
    labels: &Vec<Label>,
) -> (r: LocalBackupMetadata)
    requires
        utc_time_wf(start_time),
        utc_time_wf(end_time),
        i64::MIN < end_time.secs - start_time.secs < i64::MAX,
    ensures
        r.backup_id@ == backup_id@,
        r.backup_type@ == "snapshot"@,
        r.database@ == database@,
        r.host@ == host@,
        r.port == port,
        r.start_time@ == text_or_empty(utc_rfc3339_at(start_time.secs, start_time.nanos)),
        r.end_time@ == text_or_empty(utc_rfc3339_at(end_time.secs, end_time.nanos)),
        r.duration_seconds == whole_seconds_from(start_time, end_time),
        r.size_bytes == size_bytes,
        r.server_version == server_version,
        r.labels@ == labels@,
        r.created_by@ == "warden"@,
        r.version@ == "1.0"@,
{
    LocalBackupMetadata {
        backup_id: owned(backup_id),
        backup_type: owned("snapshot"),
        database: owned(database),
        host: owned(host),
        port,
        start_time: rfc3339_of(start_time),
        end_time: rfc3339_of(end_time),
        duration_seconds: seconds_from(start_time, end_time),
        size_bytes,
        server_version,
        labels: copy_labels(labels),
        created_by: owned("warden"),
        version: owned("1.0"),
    }
}

/// Why remote storage cannot be set up from the options.
pub open spec fn storage_setup_error(s: StorageOptions) -> Option<Seq<char>> {
    if !s.remote_storage {
        None
    } else if s.bucket is None {
        Some("Storage bucket name is required for remote storage"@)
    } else {
        match s.provider_type {
            Some(p) => if lowercase(p@) == "s3"@ {
                None
            } else {
                Some("Unsupported storage provider type: "@ + p@)
            },
            None => None,
        }
    }
}

/// Checks that remote storage can be set up from the options: a bucket is
/// named and the provider, if named, is S3 (in any case). `Ok(false)` when
/// remote storage is off.
pub fn check_storage_options(s: &StorageOptions) -> (r: Result<bool, String>)
    ensures
        match storage_setup_error(*s) {
            Some(m) => r matches Err(e) && e@ == m,
            None => r == Ok::<bool, String>(s.remote_storage),
        },
{
    if !s.remote_storage {
        return Ok(false);
    }
    if s.bucket.is_none() {
        return Err(owned("Storage bucket name is required for remote storage"));
    }
    match &s.provider_type {
        Some(p) => {
            let l = to_lowercase(p.as_str());
            if str_eq(l.as_str(), "s3") {
                Ok(true)
            } else {
                Err(concat2("Unsupported storage provider type: ", p.as_str()))
            }
        },
        None => Ok(true),
    }
}

// ---------------------------------------------------------------------------
// Inspecting a stored backup
// ---------------------------------------------------------------------------

/// The lines of a file of a backup: its name and size, then its checksum
/// if any.
pub open spec fn inspect_file_entry(f: BackupFileEntry) -> Seq<char> {
    "  "@ + f.name@ + " ("@ + crate::text::decimal(f.size as nat) + " bytes)\n"@ + match f.checksum {
        Some(c) => "    Checksum: "@ + c@ + "\n"@,
        None => Seq::empty(),
    }
}

/// The lines of the files of a backup.
pub open spec fn inspect_file_entries(v: Seq<BackupFileEntry>) -> Seq<char>
    decreases v.len(),
{
    if v.len() == 0 {
        Seq::empty()
    } else {
        inspect_file_entries(v.drop_last()) + inspect_file_entry(v.last())
    }
}

/// A line for an optional text.
pub open spec fn optional_line(label: Seq<char>, o: Option<String>) -> Seq<char> {
    match o {
        Some(v) => label + v@ + "\n"@,
        None => Seq::empty(),
    }
}

/// A stored backup's metadata as the `inspect` command prints it: identity,
/// times (with the duration in whole seconds when it ended), size in bytes
/// and GiB, server, chain and WAL positions, checksum, pin, tags, and each
/// file.
pub open spec fn inspect_text(m: StoredBackupMetadata) -> Seq<char> {
    inspect_head(m) + inspect_tail(m)
}

/// The identity, times and size of a stored backup.
pub open spec fn inspect_head(m: StoredBackupMetadata) -> Seq<char> {
    "\n=== Backup Metadata ===\n"@ + "ID: "@ + m.id@ + "\n"@ + "Type: "@ + type_label(m.backup_type) + "\n"@
        + "Status: "@ + status_label(m.status) + "\n"@ + "Start Time: "@ + utc_display(m.start_time)
        + "\n"@ + match m.end_time {
        Some(e) => "End Time: "@ + utc_display(e) + "\n"@ + "Duration: "@ + crate::text::signed_decimal(
            whole_seconds_between(m.start_time, e),
        ) + " seconds\n"@,
        None => Seq::empty(),
    } + "Size: "@ + crate::text::decimal(m.size_bytes as nat) + " bytes ("@ + crate::units::fixed_text(
        m.size_bytes as nat,
        30,
        2,
    ) + " GB)\n"@
}

/// The server, chain, WAL, checksum, pin, tags and files of a stored
/// backup.
pub open spec fn inspect_tail(m: StoredBackupMetadata) -> Seq<char> {
    "Server Version: "@ + m.server_version@ + "\n"@ + optional_line("Base Backup ID: "@, m.base_backup_id)
        + optional_line("WAL Start: "@, m.wal_start) + optional_line("WAL End: "@, m.wal_end)
        + optional_line("Checksum: "@, m.checksum) + "Pinned: "@ + (if m.pinned {
        "true"@
    } else {
        "false"@
    }) + "\n"@ + (if m.tags@.len() > 0 {
        "Tags: "@ + crate::text::join_with(texts(m.tags@), ", "@) + "\n"@
    } else {
        Seq::empty()
    }) + "\n=== Files ("@ + crate::text::decimal(m.files@.len()) + ") ===\n"@ + inspect_file_entries(
        m.files@,
    )
}

/// Appends a line for an optional text.
fn push_optional_line(out: &mut String, label: &str, o: &Option<String>)
    ensures
        final(out)@ == old(out)@ + optional_line(label@, *o),
{
    match o {
        Some(v) => {
            push_str(out, label);
            push_str(out, v.as_str());
            push_str(out, "\n");
        },
        None => {},
    }
}

/// Appends the lines of the files of a backup.
fn push_inspect_files(out: &mut String, v: &Vec<BackupFileEntry>)
    ensures
        final(out)@ == old(out)@ + inspect_file_entries(v@),
{
    let ghost s0 = out@;
    let mut i: usize = 0;
    while i < v.len()
        invariant
            i <= v@.len(),
            out@ == s0 + inspect_file_entries(v@.take(i as int)),
        decreases v@.len() - i,
    {
        proof {
            assert(v@.take(i + 1).drop_last() =~= v@.take(i as int));
        }
        let f = &v[i];
        let ghost before = out@;
        push_str(out, "  ");
        push_str(out, f.name.as_str());
        push_str(out, " (");
        let n = decimal_u64(f.size);
        push_str(out, n.as_str());
        push_str(out, " bytes)\n");
        match &f.checksum {
            Some(c) => {
                push_str(out, "    Checksum: ");
                push_str(out, c.as_str());
                push_str(out, "\n");
            },
            None => {},
        }
        proof {
            assert(out@ =~= before + inspect_file_entry(v@[i as int]));
        }
        i = i + 1;
    }
    proof {
        assert(v@.take(v@.len() as int) =~= v@);
    }
}

/// Appends the identity, times and size of a stored backup.
#[verifier::rlimit(40)]
fn push_inspect_head(out: &mut String, m: &StoredBackupMetadata)
    ensures
        final(out)@ == old(out)@ + inspect_head(*m),
{
    let ghost s0 = out@;
    push_str(out, "\n=== Backup Metadata ===\n");
    push_str(out, "ID: ");
    push_str(out, m.id.as_str());
    push_str(out, "\n");
    push_str(out, "Type: ");
    let t = m.backup_type.name();
    push_str(out, t.as_str());
    push_str(out, "\n");
    push_str(out, "Status: ");
    let st = format_backup_status(m.status);
    push_str(out, st.as_str());
    push_str(out, "\n");
    push_str(out, "Start Time: ");
    let a = display_utc(m.start_time);
    push_str(out, a.as_str());
    push_str(out, "\n");
    let ghost s1 = out@;
    match m.end_time {
        Some(e) => {
            push_str(out, "End Time: ");
            let b = display_utc(e);
            push_str(out, b.as_str());
            push_str(out, "\n");
            push_str(out, "Duration: ");
            let secs = crate::cli::commands::schedule::seconds_between(m.start_time, e);
            let d = crate::text::decimal_i64(secs);
            push_str(out, d.as_str());
            push_str(out, " seconds\n");
        },
        None => {},
    }
    let ghost s2 = out@;
    push_str(out, "Size: ");
    let n = decimal_u64(m.size_bytes);
    push_str(out, n.as_str());
    push_str(out, " bytes (");
    let g = crate::units::format_fixed_pow2(m.size_bytes, 30, 2);
    push_str(out, g.as_str());
    push_str(out, " GB)\n");
    proof {
        assert(out@ =~= s0 + inspect_head(*m));
    }
}

/// Appends the server, chain, WAL, checksum, pin, tags and files of a
/// stored backup.
#[verifier::rlimit(40)]
fn push_inspect_tail(out: &mut String, m: &StoredBackupMetadata)
    ensures
        final(out)@ == old(out)@ + inspect_tail(*m),
{
    let ghost s0 = out@;
    push_str(out, "Server Version: ");
    push_str(out, m.server_version.as_str());
    push_str(out, "\n");
    push_optional_line(out, "Base Backup ID: ", &m.base_backup_id);
    push_optional_line(out, "WAL Start: ", &m.wal_start);
    push_optional_line(out, "WAL End: ", &m.wal_end);
    push_optional_line(out, "Checksum: ", &m.checksum);
    push_str(out, "Pinned: ");
    push_str(out, if m.pinned {
        "true"
    } else {
        "false"
    });
    push_str(out, "\n");
    let ghost s3 = out@;
    if m.tags.len() > 0 {
        push_str(out, "Tags: ");
        let j = crate::text::join_strings(&m.tags, ", ");
        push_str(out, j.as_str());
        push_str(out, "\n");
    }
    let ghost s4 = out@;
    push_str(out, "\n=== Files (");
    let c = decimal_u64(m.files.len() as u64);
    push_str(out, c.as_str());
    push_str(out, ") ===\n");
    push_inspect_files(out, &m.files);
    proof {
        assert(out@ =~= s0 + inspect_tail(*m));
    }
}

/// A stored backup's metadata in the form the `inspect` command prints.
pub fn format_inspect_text(m: &StoredBackupMetadata) -> (r: String)
    ensures
        r@ == inspect_text(*m),
{
    let mut out = String::new();
    push_inspect_head(&mut out, m);
    push_inspect_tail(&mut out, m);
    proof {
        assert(out@ =~= inspect_text(*m));
    }
    out
}

// ---------------------------------------------------------------------------
// What an upload's outcome means for a backup
// ---------------------------------------------------------------------------

/// Where a snapshot backup's upload put it, if it did: with remote storage
/// on and a successful upload of key `k`, `s3://{bucket}/{k}`; nothing
/// otherwise. A failed upload does not fail the backup, whose local copy
/// stays valid.
pub open spec fn snapshot_remote_text(storage: StorageOptions, upload: Option<Result<String, String>>) -> Option<Seq<char>> {
    if storage.remote_storage {
        match upload {
            Some(Ok(k)) => Some(
                "s3://"@ + match storage.bucket {
                    Some(b) => b@,
                    None => "unknown"@,
                } + "/"@ + k@,
            ),
            _ => None,
        }
    } else {
        None
    }
}

/// What a finished snapshot backup reports, and the metadata written
/// beside it, both built from the same backup: its identifier, its
/// directory, the database, the start and end times, its size, and where
/// its upload put it. `upload` is the outcome of the upload (the storage key
/// on success), if one was made; it counts only with remote storage on.
pub fn snapshot_outcome(
    backup_id: &str,
    local_path: &str,
    database: &str,
    host: &str,
    port: u16,
    start_time: UtcTime,
    end_time: UtcTime,
    size_bytes: u64,
    server_version: String,
    labels: &Vec<Label>,
    storage: &StorageOptions,
    upload: Option<Result<String, String>>,
) -> (r: (SnapshotBackupResult, LocalBackupMetadata))
    requires
        utc_time_wf(start_time),
        utc_time_wf(end_time),
        i64::MIN < end_time.secs - start_time.secs < i64::MAX,
    ensures
        r.0.backup_id@ == backup_id@,
        r.0.local_path@ == local_path@,
        r.0.database@ == database@,
        r.0.start_time == start_time,
        r.0.end_time == end_time,
        r.0.size_bytes == size_bytes,
        match r.0.remote_path {
            Some(p) => snapshot_remote_text(*storage, upload) == Some(p@),
            None => snapshot_remote_text(*storage, upload) is None,
        },
        r.1.backup_id@ == backup_id@,
        r.1.backup_type@ == "snapshot"@,
        r.1.database@ == database@,
        r.1.host@ == host@,
        r.1.port == port,
        r.1.start_time@ == text_or_empty(utc_rfc3339_at(start_time.secs, start_time.nanos)),
        r.1.end_time@ == text_or_empty(utc_rfc3339_at(end_time.secs, end_time.nanos)),
        r.1.duration_seconds == whole_seconds_from(start_time, end_time),
        r.1.size_bytes == size_bytes,
        r.1.server_version == server_version,
        r.1.labels@ == labels@,
        r.1.created_by@ == "warden"@,
        r.1.version@ == "1.0"@,
{
    let metadata = create_local_metadata(
        backup_id,
        database,
        host,
        port,
        start_time,
        end_time,
        size_bytes,
        server_version,
        labels,
    );
    let remote_path = if storage.remote_storage {
        match upload {
            Some(Ok(k)) => {
                let b = match &storage.bucket {
                    Some(b) => Some(b.as_str()),
                    None => None,
                };
                Some(remote_url(b, k.as_str()))
            },
            _ => None,
        }
    } else {
        None
    };
    let result = SnapshotBackupResult {
        backup_id: owned(backup_id),
        local_path: owned(local_path),
        remote_path,
        database: owned(database),
        start_time,
        end_time,
        size_bytes,
    };
    (result, metadata)
}

/// A tunnel is set up before a command runs exactly when the connection
/// goes through SSH.
pub fn needs_tunnel(config: &PostgresConfig) -> (r: bool)
    ensures
        r == config.ssh_host is Some,
{
    config.ssh_host.is_some()
}

/// After setting up the SSH tunnel of a snapshot backup: a failure stops
/// the backup before it starts.
pub fn snapshot_tunnel_verdict(outcome: Result<(), String>) -> (r: Result<(), String>)
    ensures
        match outcome {
            Ok(()) => r is Ok,
            Err(e) => r matches Err(m) && m@ == "SSH tunnel setup failed: "@ + e@,
        },
{
    match outcome {
        Ok(()) => Ok(()),
        Err(e) => Err(concat2("SSH tunnel setup failed: ", e.as_str())),
    }
}

/// After setting up the SSH tunnel of a full or incremental backup or of a
/// restore: a failure stops the command before it starts.
pub fn tunnel_verdict(outcome: Result<(), String>) -> (r: Result<(), String>)
    ensures
        match outcome {
            Ok(()) => r is Ok,
            Err(e) => r matches Err(m) && m@ == "Failed to setup SSH tunnel: "@ + e@,
        },
{
    match outcome {
        Ok(()) => Ok(()),
        Err(e) => Err(concat2("Failed to setup SSH tunnel: ", e.as_str())),
    }
}

/// After a full backup's upload of its physical files: a failure fails the
/// whole backup.
pub fn physical_upload_verdict(outcome: Result<(), String>) -> (r: Result<(), String>)
    ensures
        match outcome {
            Ok(()) => r is Ok,
            Err(e) => r matches Err(m) && m@ == "Failed to upload physical backup: "@ + e@,
        },
{
    match outcome {
        Ok(()) => Ok(()),
        Err(e) => Err(concat2("Failed to upload physical backup: ", e.as_str())),
    }
}

/// After a full or incremental backup's upload of its logical dump: a
/// failure fails the whole backup.
pub fn logical_upload_verdict(outcome: Result<(), String>) -> (r: Result<(), String>)
    ensures
        match outcome {
            Ok(()) => r is Ok,
            Err(e) => r matches Err(m) && m@ == "Failed to upload logical backup: "@ + e@,
        },
{
    match outcome {
        Ok(()) => Ok(()),
        Err(e) => Err(concat2("Failed to upload logical backup: ", e.as_str())),
    }
}

} // verus!
pub mod migration;
pub mod backups;
pub mod pitr;
pub mod full_restore;
pub mod status;
pub mod ha;
