//! Migration: what discovering an existing server found, the advice drawn
//! from it, and the choices that shape the generated configuration.

use vstd::prelude::*;
use crate::cluster::{copy_text, Cluster, ClusterConfig, Label, Node, NodeRole, ProtectionGroup};
use crate::cli::commands::{label_pairs, pair};
use crate::text::{quote_text, quoted};
use crate::timestamps::{rfc3339_utc, utc_rfc3339};
use crate::cli::commands::schedule::{BackupSchedule, BackupTarget, RetentionSchedule, ScheduleConfig, StorageProfile};
use crate::text::{
    byte_len, byte_len_of, chars_of, chars_starting_before, concat2, concat3, count_chars_starting_before,
    decimal, decimal_i64, decimal_u64, join_strings, join_with, lowercase, owned, push_range, push_str,
    signed_decimal, str_eq, texts, to_lowercase,
};
use crate::units::{f64_value, fixed_text, format_fixed_pow2, format_size, size_text, two_pow};
use crate::text::{pad_left, pad_right, push_padded_left, push_padded_right};
use crate::text::{is_ws, is_whitespace, push_char, to_lowercase as lower_text};

verus! {

/// Information about a discovered database
#[derive(Debug, Clone)]
pub struct DatabaseInfo {
    /// Database name
    pub name: String,
    /// Database size in bytes
    pub size_bytes: u64,
    /// Database owner
    pub owner: String,
    /// Encoding
    pub encoding: String,
    /// Number of tables (approximate)
    pub table_count: Option<i64>,
    /// Whether the database is a template
    pub is_template: bool,
    /// Whether connections are allowed
    pub allow_connections: bool,
}

/// Information about a connected replica
#[derive(Debug, Clone)]
pub struct ReplicaInfo {
    pub application_name: String,
    pub client_addr: Option<String>,
    pub state: String,
    pub sent_lsn: Option<String>,
    pub write_lsn: Option<String>,
    pub flush_lsn: Option<String>,
    pub replay_lsn: Option<String>,
}

/// Replication status information
#[derive(Debug, Clone)]
pub struct ReplicationInfo {
    /// Node role: primary, replica, or standalone
    pub role: String,
    /// Whether WAL archiving is enabled
    pub wal_archiving_enabled: bool,
    /// Archive command (if configured)
    pub archive_command: Option<String>,
    /// Connected replicas (if primary)
    pub replicas: Vec<ReplicaInfo>,
    /// Primary connection info (if replica)
    pub primary_conninfo: Option<String>,
    /// Current WAL position
    pub current_wal_lsn: Option<String>,
    /// Replication lag (if replica)
    pub replication_lag_bytes: Option<i64>,
}

/// Detected backup configuration
#[derive(Debug, Clone)]
pub struct DetectedBackupConfig {
    pub has_pg_dump: bool,
    pub has_pg_basebackup: bool,
    pub backup_directory: Option<String>,
    pub archive_directory: Option<String>,
    pub schedule: Option<String>,
}

/// Result of discovering an existing PostgreSQL instance. `discovered_at`
/// is in milliseconds since the Unix epoch.
#[derive(Debug, Clone)]
pub struct DiscoveryResult {
    pub version: String,
    pub host: String,
    pub port: u16,
    pub databases: Vec<DatabaseInfo>,
    pub replication: ReplicationInfo,
    pub backup_config: Option<DetectedBackupConfig>,
    pub recommendations: Vec<String>,
    pub discovered_at: i64,
}

/// SSH connection options
#[derive(Debug, Clone)]
pub struct SshOptions {
    pub host: Option<String>,
    pub user: Option<String>,
    pub port: Option<u16>,
    pub password: Option<String>,
    pub key_path: Option<String>,
    pub local_port: Option<u16>,
    pub remote_port: Option<u16>,
}

impl Default for SshOptions {
    fn default() -> (r: Self)
        ensures
            r.host is None,
            r.user is None,
            r.port is None,
            r.password is None,
            r.key_path is None,
            r.local_port is None,
            r.remote_port is None,
    {
        SshOptions {
            host: None,
            user: None,
            port: None,
            password: None,
            key_path: None,
            local_port: None,
            remote_port: None,
        }
    }
}

/// Options for generating Warden configuration
#[derive(Debug, Clone)]
pub struct GenerateConfigOptions {
    pub host: String,
    pub port: u16,
    pub user: String,
    pub password: Option<String>,
    pub ssl_mode: Option<String>,
    pub cluster_name: Option<String>,
    pub tenant: Option<String>,
    pub output_path: Option<String>,
    pub interactive: bool,
    pub ssh: SshOptions,
}

/// Generated configuration files
#[derive(Debug, Clone)]
pub struct GeneratedConfig {
    pub cluster_yaml: String,
    pub schedule_config: String,
    pub retention_policy: String,
    pub output_path: Option<String>,
}

/// Type of backup being imported
#[derive(Debug, Clone, Copy, PartialEq, Eq, Structural)]
pub enum ImportBackupType {
    /// pg_dump output (.sql, .dump, .tar)
    PgDump,
    /// pg_basebackup directory
    PgBasebackup,
    /// Custom format (e.g., from another backup tool)
    Custom,
}

impl ImportBackupType {
    /// The type a name gives, in any case: `pg_dump`, `pgdump` or `dump`;
    /// `pg_basebackup`, `pgbasebackup`, `basebackup` or `base`; `custom`.
    pub open spec fn spec_parse(s: Seq<char>) -> Option<ImportBackupType> {
        let l = lowercase(s);
        if l == "pg_dump"@ || l == "pgdump"@ || l == "dump"@ {
            Some(ImportBackupType::PgDump)
        } else if l == "pg_basebackup"@ || l == "pgbasebackup"@ || l == "basebackup"@ || l == "base"@ {
            Some(ImportBackupType::PgBasebackup)
        } else if l == "custom"@ {
            Some(ImportBackupType::Custom)
        } else {
            None
        }
    }

    /// Reads a backup type; an unknown name is an error that lists the
    /// valid ones.
    pub fn parse(s: &str) -> (r: Result<ImportBackupType, String>)
        ensures
            match Self::spec_parse(s@) {
                Some(t) => r == Ok::<ImportBackupType, String>(t),
                None => r matches Err(m) && m@ == "Unknown backup type: "@ + s@
                    + ". Valid types: pg_dump, pg_basebackup, custom"@,
            },
    {
        let l = to_lowercase(s);
        let t = l.as_str();
        if str_eq(t, "pg_dump") || str_eq(t, "pgdump") || str_eq(t, "dump") {
            Ok(ImportBackupType::PgDump)
        } else if str_eq(t, "pg_basebackup") || str_eq(t, "pgbasebackup") || str_eq(t, "basebackup")
            || str_eq(t, "base") {
            Ok(ImportBackupType::PgBasebackup)
        } else if str_eq(t, "custom") {
            Ok(ImportBackupType::Custom)
        } else {
            Err(concat3("Unknown backup type: ", s, ". Valid types: pg_dump, pg_basebackup, custom"))
        }
    }

    /// The type's name.
    pub open spec fn spec_name(self) -> Seq<char> {
        match self {
            ImportBackupType::PgDump => "pg_dump"@,
            ImportBackupType::PgBasebackup => "pg_basebackup"@,
            ImportBackupType::Custom => "custom"@,
        }
    }

    /// The type's name, as it is displayed.
    pub fn name(self) -> (r: String)
        ensures
            r@ == self.spec_name(),
    {
        match self {
            ImportBackupType::PgDump => owned("pg_dump"),
            ImportBackupType::PgBasebackup => owned("pg_basebackup"),
            ImportBackupType::Custom => owned("custom"),
        }
    }
}

impl std::str::FromStr for ImportBackupType {
    type Err = String;

    fn from_str(s: &str) -> Result<Self, Self::Err> {
        ImportBackupType::parse(s)
    }
}

/// Storage options for backup operations
#[derive(Debug, Clone)]
pub struct StorageOptions {
    pub enabled: bool,
    pub provider: Option<String>,
    pub bucket: Option<String>,
    pub prefix: Option<String>,
    pub region: Option<String>,
    pub endpoint: Option<String>,
    pub access_key: Option<String>,
    pub secret_key: Option<String>,
}

impl Default for StorageOptions {
    fn default() -> (r: Self)
        ensures
            !r.enabled,
            r.provider is None,
            r.bucket is None,
            r.prefix is None,
            r.region is None,
            r.endpoint is None,
            r.access_key is None,
            r.secret_key is None,
    {
        StorageOptions {
            enabled: false,
            provider: None,
            bucket: None,
            prefix: None,
            region: None,
            endpoint: None,
            access_key: None,
            secret_key: None,
        }
    }
}

/// Options for importing a backup
#[derive(Debug, Clone)]
pub struct ImportBackupOptions {
    pub source: String,
    pub backup_type: ImportBackupType,
    pub database: String,
    pub tenant: Option<String>,
    pub cluster: Option<String>,
    pub storage_profile: Option<String>,
    pub backup_dir: String,
    pub storage: Option<StorageOptions>,
}

/// Result of importing a backup. `imported_at` is in milliseconds since the
/// Unix epoch.
#[derive(Debug, Clone)]
pub struct ImportResult {
    pub backup_id: String,
    pub local_path: String,
    pub remote_path: Option<String>,
    pub database: String,
    pub backup_type: String,
    pub size_bytes: u64,
    pub imported_at: i64,
    pub original_source: String,
}

/// `s` shortened to at most `max_len` bytes: unchanged when it fits,
/// otherwise the characters that start before byte `max_len - 3` followed
/// by `...`.
pub open spec fn truncated(s: Seq<char>, max_len: nat) -> Seq<char> {
    if byte_len(s) <= max_len {
        s
    } else {
        s.take(chars_starting_before(s, max_len - 3) as int) + "..."@
    }
}

/// Shortens `s` for display, never cutting a character.
pub fn truncate_str(s: &str, max_len: usize) -> (r: String)
    requires
        byte_len(s@) <= max_len || max_len >= 3,
    ensures
        r@ == truncated(s@, max_len as nat),
{
    let v = chars_of(s);
    let n = byte_len_of(&v);
    if n <= max_len as u128 {
        return owned(s);
    }
    let k = count_chars_starting_before(&v, (max_len - 3) as u128);
    let mut out = String::new();
    push_range(&mut out, &v, 0, k);
    push_str(&mut out, "...");
    proof {
        assert(v@.subrange(0, k as int) =~= v@.take(k as int));
    }
    out
}

/// A user database: not a template and not `postgres`.
pub open spec fn is_user_database(d: DatabaseInfo) -> bool {
    !d.is_template && d.name@ != "postgres"@
}

/// Total size of the databases that `pred` selects.
pub open spec fn selected_size(dbs: Seq<DatabaseInfo>, connectable_only: bool) -> nat
    decreases dbs.len(),
{
    if dbs.len() == 0 {
        0
    } else {
        let d = dbs.last();
        selected_size(dbs.drop_last(), connectable_only) + if is_user_database(d) && (connectable_only
            ==> d.allow_connections) {
            d.size_bytes as nat
        } else {
            0
        }
    }
}

/// The user databases, in order (only those accepting connections, when
/// `connectable_only`).
pub open spec fn selected_databases(dbs: Seq<DatabaseInfo>, connectable_only: bool) -> Seq<DatabaseInfo> {
    dbs.filter(|d: DatabaseInfo| is_user_database(d) && (connectable_only ==> d.allow_connections))
}

/// The user databases, in order.
pub open spec fn user_databases(dbs: Seq<DatabaseInfo>) -> Seq<DatabaseInfo> {
    selected_databases(dbs, false)
}

/// The names of a list of databases.
pub open spec fn database_names(dbs: Seq<DatabaseInfo>) -> Seq<Seq<char>> {
    dbs.map_values(|d: DatabaseInfo| d.name@)
}

/// More than 100 GiB, as the `f64` quotient by 2^30 compares with 100.
pub open spec fn over_gib(total: nat, gib: nat) -> bool {
    f64_value(total) > gib * two_pow(30)
}

/// The advice about databases.
pub open spec fn database_advice(dbs: Seq<DatabaseInfo>) -> Seq<Seq<char>> {
    let user = user_databases(dbs);
    if user.len() == 0 {
        seq!["No user databases found. Create databases before configuring backups."@]
    } else {
        let total = selected_size(dbs, false);
        (if over_gib(total, 100) {
            seq![
                "Large database footprint ("@ + fixed_text(total, 30, 1)
                    + " GB). Consider incremental backups and parallel pg_dump."@,
            ]
        } else {
            Seq::empty()
        }) + seq![
            "Configure backup schedules for "@ + decimal(user.len()) + " user database(s): "@ + join_with(
                database_names(user),
                ", "@,
            ),
        ]
    }
}

/// The advice about replication.
pub open spec fn replication_advice(r: ReplicationInfo) -> Seq<Seq<char>> {
    if r.role@ == "primary"@ {
        seq![
            "Primary node with "@ + decimal(r.replicas@.len())
                + " replica(s). Consider backing up from a replica to reduce primary load."@,
        ]
    } else if r.role@ == "replica"@ {
        seq!["This is a replica node. Ideal for running backups without impacting the primary."@] + match r.replication_lag_bytes {
            Some(lag) => if lag > 1024 * 1024 {
                seq![
                    "Warning: Replication lag is "@ + signed_decimal(lag as int)
                        + " bytes. Ensure replica is caught up before backup."@,
                ]
            } else {
                Seq::empty()
            },
            None => Seq::empty(),
        }
    } else if r.role@ == "standalone"@ {
        seq!["Standalone instance (no replication). Consider setting up a replica for HA."@]
    } else {
        Seq::empty()
    }
}

/// The advice about WAL archiving and an existing archive.
pub open spec fn archive_advice(r: ReplicationInfo, cfg: Option<DetectedBackupConfig>) -> Seq<Seq<char>> {
    (if !r.wal_archiving_enabled {
        seq!["WAL archiving is not enabled. Enable it for point-in-time recovery (PITR) capability."@]
    } else {
        seq!["WAL archiving is enabled. PITR will be available for backups."@]
    }) + match cfg {
        Some(c) => if c.archive_directory is Some {
            seq!["Existing WAL archive detected. Consider importing existing WAL files."@]
        } else {
            Seq::empty()
        },
        None => Seq::empty(),
    }
}

/// The line opens as the two lines about WAL archiving do.
spec fn opens_like_archiving_line(s: Seq<char>) -> bool {
    s.len() >= 2 && s[0] == 'W' && s[1] == 'A'
}

proof fn lemma_database_advice_not_archiving(dbs: Seq<DatabaseInfo>)
    ensures
        forall|i: int|
            0 <= i < database_advice(dbs).len() ==> !opens_like_archiving_line(
                #[trigger] database_advice(dbs)[i],
            ),
{
    reveal_strlit("No user databases found. Create databases before configuring backups.");
    reveal_strlit("Large database footprint (");
    reveal_strlit("Configure backup schedules for ");
    let user = user_databases(dbs);
    if user.len() != 0 {
        let total = selected_size(dbs, false);
        let large = "Large database footprint ("@ + fixed_text(total, 30, 1)
            + " GB). Consider incremental backups and parallel pg_dump."@;
        let configure = "Configure backup schedules for "@ + decimal(user.len()) + " user database(s): "@
            + join_with(database_names(user), ", "@);
        assert(large[0] == 'L');
        assert(configure[0] == 'C');
        if over_gib(total, 100) {
            assert(database_advice(dbs) =~= seq![large, configure]);
        } else {
            assert(database_advice(dbs) =~= seq![configure]);
        }
    }
}

proof fn lemma_replication_advice_not_archiving(r: ReplicationInfo)
    ensures
        forall|i: int|
            0 <= i < replication_advice(r).len() ==> !opens_like_archiving_line(
                #[trigger] replication_advice(r)[i],
            ),
{
    reveal_strlit("Primary node with ");
    reveal_strlit("This is a replica node. Ideal for running backups without impacting the primary.");
    reveal_strlit("Warning: Replication lag is ");
    reveal_strlit("Standalone instance (no replication). Consider setting up a replica for HA.");
    if r.role@ == "primary"@ {
        let line = "Primary node with "@ + decimal(r.replicas@.len())
            + " replica(s). Consider backing up from a replica to reduce primary load."@;
        assert(line[0] == 'P');
        assert(replication_advice(r) =~= seq![line]);
    } else if r.role@ == "replica"@ {
        let first = "This is a replica node. Ideal for running backups without impacting the primary."@;
        match r.replication_lag_bytes {
            Some(lag) => {
                let warning = "Warning: Replication lag is "@ + signed_decimal(lag as int)
                    + " bytes. Ensure replica is caught up before backup."@;
                assert(warning[1] == 'a');
                if lag > 1024 * 1024 {
                    assert(replication_advice(r) =~= seq![first, warning]);
                } else {
                    assert(replication_advice(r) =~= seq![first]);
                }
            },
            None => {
                assert(replication_advice(r) =~= seq![first]);
            },
        }
    }
}

/// The advice reports WAL archiving as the server has it: the line saying
/// that archiving is not enabled appears exactly when it is disabled, and the
/// line saying that it is enabled exactly when it is enabled.
pub proof fn lemma_recommendations_report_archiving(
    databases: Seq<DatabaseInfo>,
    replication: ReplicationInfo,
    backup_config: Option<DetectedBackupConfig>,
    advice: Seq<Seq<char>>,
)
    requires
        advice == database_advice(databases) + replication_advice(replication) + archive_advice(
            replication,
            backup_config,
        ),
    ensures
        advice.contains(
            "WAL archiving is not enabled. Enable it for point-in-time recovery (PITR) capability."@,
        ) <==> !replication.wal_archiving_enabled,
        advice.contains("WAL archiving is enabled. PITR will be available for backups."@)
            <==> replication.wal_archiving_enabled,
{
    let off = "WAL archiving is not enabled. Enable it for point-in-time recovery (PITR) capability."@;
    let on = "WAL archiving is enabled. PITR will be available for backups."@;
    let existing = "Existing WAL archive detected. Consider importing existing WAL files."@;
    reveal_strlit("WAL archiving is not enabled. Enable it for point-in-time recovery (PITR) capability.");
    reveal_strlit("WAL archiving is enabled. PITR will be available for backups.");
    reveal_strlit("Existing WAL archive detected. Consider importing existing WAL files.");
    lemma_database_advice_not_archiving(databases);
    lemma_replication_advice_not_archiving(replication);
    let a = database_advice(databases);
    let b = replication_advice(replication);
    let c = archive_advice(replication, backup_config);
    let n = (a.len() + b.len()) as int;
    assert(opens_like_archiving_line(off));
    assert(opens_like_archiving_line(on));
    assert(off.len() != on.len());
    assert(existing[0] == 'E');
    let line = if replication.wal_archiving_enabled { on } else { off };
    let extra: Seq<Seq<char>> = match backup_config {
        Some(cf) => if cf.archive_directory is Some {
            seq![existing]
        } else {
            Seq::empty()
        },
        None => Seq::empty(),
    };
    assert(c =~= seq![line] + extra);
    assert(advice[n] == line);
    assert forall|i: int| 0 <= i < advice.len() && (advice[i] == off || advice[i] == on) implies i
        == n by {
        if i < a.len() {
            assert(advice[i] == a[i]);
        } else if i < n {
            assert(advice[i] == b[i - a.len()]);
        } else if i > n {
            assert(advice[i] == extra[i - n - 1]);
        }
    }
}

proof fn lemma_selected_size_prefix(dbs: Seq<DatabaseInfo>, c: bool, j: int)
    requires
        0 <= j <= dbs.len(),
    ensures
        selected_size(dbs.take(j), c) <= selected_size(dbs, c),
    decreases dbs.len() - j,
{
    if j < dbs.len() {
        assert(dbs.drop_last().take(j) =~= dbs.take(j));
        lemma_selected_size_prefix(dbs.drop_last(), c, j);
    } else {
        assert(dbs.take(j) =~= dbs);
    }
}

/// The names and total size of the user databases (of those accepting
/// connections, when `connectable_only`).
fn user_database_names(dbs: &Vec<DatabaseInfo>, connectable_only: bool) -> (r: (Vec<String>, u64))
    requires
        selected_size(dbs@, connectable_only) <= u64::MAX,
    ensures
        texts(r.0@) == database_names(selected_databases(dbs@, connectable_only)),
        r.1 == selected_size(dbs@, connectable_only),
{
    let ghost pred = |d: DatabaseInfo| is_user_database(d) && (connectable_only ==> d.allow_connections);
    let mut names: Vec<String> = Vec::new();
    let mut total: u64 = 0;
    let mut i: usize = 0;
    while i < dbs.len()
        invariant
            i <= dbs@.len(),
            pred == (|d: DatabaseInfo| is_user_database(d) && (connectable_only ==> d.allow_connections)),
            selected_size(dbs@, connectable_only) <= u64::MAX,
            total == selected_size(dbs@.take(i as int), connectable_only),
            texts(names@) == database_names(dbs@.take(i as int).filter(pred)),
        decreases dbs@.len() - i,
    {
        proof {
            assert(dbs@.take(i + 1) =~= dbs@.take(i as int).push(dbs@[i as int]));
            assert(dbs@.take(i + 1).drop_last() =~= dbs@.take(i as int));
            dbs@.take(i as int).lemma_filter_push(dbs@[i as int], pred);
            lemma_selected_size_prefix(dbs@, connectable_only, i + 1);
        }
        let d = &dbs[i];
        if !d.is_template && !str_eq(d.name.as_str(), "postgres") && (!connectable_only || d.allow_connections) {
            let ghost before = names@;
            names.push(d.name.clone());
            total = total + d.size_bytes;
            proof {
                assert(texts(names@) =~= texts(before).push(d.name@));
                assert(database_names(dbs@.take(i as int).filter(pred).push(dbs@[i as int]))
                    =~= database_names(dbs@.take(i as int).filter(pred)).push(d.name@));
            }
        }
        i = i + 1;
    }
    proof {
        assert(dbs@.take(dbs@.len() as int) =~= dbs@);
    }
    (names, total)
}

/// Whether the total exceeds `gib` GiB as an `f64` comparison would find.
fn exceeds_gib(total: u64, gib: u64) -> (r: bool)
    requires
        gib <= 1024,
    ensures
        r == over_gib(total as nat, gib as nat),
{
    let m = crate::units::f64_value_of(total);
    let unit: u128 = 1073741824;
    proof {
        reveal_with_fuel(two_pow, 31);
    }
    m > (gib as u128) * unit
}

/// Advice for configuring backups of a discovered server: about its
/// databases, its replication role and its WAL archive.
pub fn generate_recommendations(
    databases: &Vec<DatabaseInfo>,
    replication: &ReplicationInfo,
    backup_config: &Option<DetectedBackupConfig>,
) -> (r: Vec<String>)
    requires
        selected_size(databases@, false) <= u64::MAX,
    ensures
        texts(r@) == database_advice(databases@) + replication_advice(*replication) + archive_advice(
            *replication,
            *backup_config,
        ),
        texts(r@).contains(
            "WAL archiving is not enabled. Enable it for point-in-time recovery (PITR) capability."@,
        ) <==> !replication.wal_archiving_enabled,
        texts(r@).contains("WAL archiving is enabled. PITR will be available for backups."@)
            <==> replication.wal_archiving_enabled,
{
    let mut out: Vec<String> = Vec::new();
    let (names, total) = user_database_names(databases, false);
    if names.len() == 0 {
        out.push(owned("No user databases found. Create databases before configuring backups."));
    } else {
        if exceeds_gib(total, 100) {
            let mut m = owned("Large database footprint (");
            let g = format_fixed_pow2(total, 30, 1);
            push_str(&mut m, g.as_str());
            push_str(&mut m, " GB). Consider incremental backups and parallel pg_dump.");
            out.push(m);
        }
        let mut m = owned("Configure backup schedules for ");
        let n = decimal_u64(names.len() as u64);
        push_str(&mut m, n.as_str());
        push_str(&mut m, " user database(s): ");
        let j = join_strings(&names, ", ");
        push_str(&mut m, j.as_str());
        out.push(m);
    }
    let ghost first = texts(out@);
    proof {
        assert(first =~= database_advice(databases@));
    }
    let role = replication.role.as_str();
    if str_eq(role, "primary") {
        let mut m = owned("Primary node with ");
        let n = decimal_u64(replication.replicas.len() as u64);
        push_str(&mut m, n.as_str());
        push_str(&mut m, " replica(s). Consider backing up from a replica to reduce primary load.");
        out.push(m);
    } else if str_eq(role, "replica") {
        out.push(owned("This is a replica node. Ideal for running backups without impacting the primary."));
        if let Some(lag) = replication.replication_lag_bytes {
            if lag > 1024 * 1024 {
                let mut m = owned("Warning: Replication lag is ");
                let l = decimal_i64(lag);
                push_str(&mut m, l.as_str());
                push_str(&mut m, " bytes. Ensure replica is caught up before backup.");
                out.push(m);
            }
        }
    } else if str_eq(role, "standalone") {
        out.push(owned("Standalone instance (no replication). Consider setting up a replica for HA."));
    }
    let ghost second = texts(out@);
    proof {
        assert(second =~= first + replication_advice(*replication));
    }
    if !replication.wal_archiving_enabled {
        out.push(owned("WAL archiving is not enabled. Enable it for point-in-time recovery (PITR) capability."));
    } else {
        out.push(owned("WAL archiving is enabled. PITR will be available for backups."));
    }
    if let Some(c) = backup_config {
        if c.archive_directory.is_some() {
            out.push(owned("Existing WAL archive detected. Consider importing existing WAL files."));
        }
    }
    proof {
        assert(texts(out@) =~= second + archive_advice(*replication, *backup_config));
        lemma_recommendations_report_archiving(databases@, *replication, *backup_config, texts(out@));
    }
    out
}

/// `s` with every `from` replaced by `to`.
pub open spec fn replace_char(s: Seq<char>, from: char, to: char) -> Seq<char> {
    s.map_values(|c: char| if c == from { to } else { c })
}

/// `s` with every `from` replaced by `to` (`str::replace` of one character
/// by another).
pub fn replace_char_text(s: &str, from: char, to: char) -> (r: String)
    ensures
        r@ == replace_char(s@, from, to),
{
    let v = chars_of(s);
    let mut out = String::new();
    let mut i: usize = 0;
    while i < v.len()
        invariant
            i <= v@.len(),
            out@ == replace_char(v@.take(i as int), from, to),
        decreases v@.len() - i,
    {
        let c = v[i];
        push_char(&mut out, if c == from { to } else { c });
        proof {
            assert(replace_char(v@.take(i + 1), from, to) =~= replace_char(v@.take(i as int), from, to).push(
                if c == from { to } else { c },
            ));
        }
        i = i + 1;
    }
    proof {
        assert(v@.take(v@.len() as int) =~= v@);
    }
    out
}

/// The cluster name used when none is given: the host with its dots made
/// dashes, and `-cluster`.
pub fn default_cluster_name(host: &str) -> (r: String)
    ensures
        r@ == replace_char(host@, '.', '-') + "-cluster"@,
{
    let mut r = replace_char_text(host, '.', '-');
    push_str(&mut r, "-cluster");
    r
}

/// The cluster identifier of a cluster name: in lower case, spaces made
/// dashes.
pub fn cluster_id_for(cluster_name: &str) -> (r: String)
    ensures
        r@ == replace_char(lowercase(cluster_name@), ' ', '-'),
{
    let l = lower_text(cluster_name);
    replace_char_text(l.as_str(), ' ', '-')
}

/// The node role that a discovered replication role stands for.
pub open spec fn discovered_role(role: Seq<char>) -> NodeRole {
    if role == "primary"@ {
        NodeRole::Primary
    } else if role == "replica"@ || role == "cascading_replica"@ {
        NodeRole::Replica
    } else {
        NodeRole::Unknown
    }
}

/// The node role that a discovered replication role stands for.
pub fn node_role_of(role: &str) -> (r: NodeRole)
    ensures
        r == discovered_role(role@),
{
    if str_eq(role, "primary") {
        NodeRole::Primary
    } else if str_eq(role, "replica") || str_eq(role, "cascading_replica") {
        NodeRole::Replica
    } else {
        NodeRole::Unknown
    }
}

/// The role backups are preferably taken from: a replica when the node is
/// the primary, the primary otherwise.
pub fn preferred_source_role(node_role: NodeRole) -> (r: NodeRole)
    ensures
        r == if node_role == NodeRole::Primary {
            NodeRole::Replica
        } else {
            NodeRole::Primary
        },
{
    match node_role {
        NodeRole::Primary => NodeRole::Replica,
        _ => NodeRole::Primary,
    }
}

/// The length of the run of non-whitespace characters at the start of `s`.
pub open spec fn word_len(s: Seq<char>) -> nat
    decreases s.len(),
{
    if s.len() == 0 || is_ws(s[0]) {
        0
    } else {
        1 + word_len(s.drop_first())
    }
}

/// The words of `s`: its maximal runs of non-whitespace characters
/// (`str::split_whitespace`).
pub open spec fn words(s: Seq<char>) -> Seq<Seq<char>>
    decreases s.len(),
{
    if s.len() == 0 {
        Seq::empty()
    } else if is_ws(s[0]) {
        words(s.drop_first())
    } else {
        proof {
            lemma_word_len_positive(s);
        }
        seq![s.take(word_len(s) as int)] + words(s.skip(word_len(s) as int))
    }
}

pub proof fn lemma_word_len_positive(s: Seq<char>)
    requires
        s.len() > 0,
        !is_ws(s[0]),
    ensures
        1 <= word_len(s) <= s.len(),
{
    lemma_word_len_bound(s);
}

pub proof fn lemma_word_len_bound(s: Seq<char>)
    ensures
        word_len(s) <= s.len(),
    decreases s.len(),
{
    if s.len() > 0 && !is_ws(s[0]) {
        lemma_word_len_bound(s.drop_first());
    }
}

proof fn lemma_word_len_at(s: Seq<char>, k: int)
    requires
        0 <= k <= s.len(),
        forall|j: int| 0 <= j < k ==> !is_ws(s[j]),
        k == s.len() || is_ws(s[k]),
    ensures
        word_len(s) == k,
    decreases k,
{
    if k > 0 {
        lemma_word_len_at(s.drop_first(), k - 1);
    }
}

/// The server version number of a `version()` text such as
/// `PostgreSQL 16.2 on ...`: its second word, or `unknown`.
pub open spec fn version_label(version: Seq<char>) -> Seq<char> {
    if words(version).len() > 1 {
        words(version)[1]
    } else {
        "unknown"@
    }
}

/// The words of `v[from..]`, found from position `from`.
fn words_from(v: &Vec<char>, from: usize, limit: usize) -> (r: Vec<String>)
    requires
        from <= v@.len(),
    ensures
        texts(r@) == words(v@.skip(from as int)).take(
            if words(v@.skip(from as int)).len() < limit {
                words(v@.skip(from as int)).len() as int
            } else {
                limit as int
            },
        ),
    decreases v@.len() - from, limit,
{
    let ghost s = v@.skip(from as int);
    if limit == 0 {
        return Vec::new();
    }
    let mut i = from;
    while i < v.len() && is_whitespace(v[i])
        invariant
            from <= i <= v@.len(),
            words(s) == words(v@.skip(i as int)),
        decreases v@.len() - i,
    {
        proof {
            assert(v@.skip(i as int).drop_first() =~= v@.skip(i + 1));
        }
        i = i + 1;
    }
    if i == v.len() {
        proof {
            assert(v@.skip(i as int).len() == 0);
        }
        return Vec::new();
    }
    let mut k = i;
    while k < v.len() && !is_whitespace(v[k])
        invariant
            i <= k <= v@.len(),
            forall|j: int| i <= j < k ==> !is_ws(v@[j]),
        decreases v@.len() - k,
    {
        k = k + 1;
    }
    let ghost t = v@.skip(i as int);
    proof {
        lemma_word_len_at(t, k - i);
        assert(t.skip(k - i) =~= v@.skip(k as int));
    }
    let mut w = String::new();
    push_range(&mut w, v, i, k);
    let rest = words_from(v, k, limit - 1);
    let mut out: Vec<String> = Vec::new();
    out.push(w);
    let mut j: usize = 0;
    while j < rest.len()
        invariant
            j <= rest@.len(),
            out@.len() == j + 1,
            out@[0] == w,
            forall|q: int| 0 <= q < j ==> out@[q + 1] == rest@[q],
        decreases rest@.len() - j,
    {
        out.push(rest[j].clone());
        j = j + 1;
    }
    proof {
        assert(v@.subrange(i as int, k as int) =~= t.take(k - i));
        assert(t[0] == v@[i as int]);
        assert(words(t) == seq![t.take(word_len(t) as int)] + words(t.skip(word_len(t) as int)));
        let rw = words(v@.skip(k as int));
        let m: int = if rw.len() < limit - 1 {
            rw.len() as int
        } else {
            limit - 1
        };
        assert(texts(rest@) == rw.take(m));
        assert(texts(out@) =~= seq![w@] + texts(rest@));
        assert(words(s) =~= seq![w@] + rw);
        assert((seq![w@] + rw).take(m + 1) =~= seq![w@] + rw.take(m));
    }
    out
}

/// The server version number of a `version()` text: its second word, or
/// `unknown`.
pub fn pg_version_label(version: &str) -> (r: String)
    ensures
        r@ == version_label(version@),
{
    let v = chars_of(version);
    let ws = words_from(&v, 0, 2);
    proof {
        assert(v@.skip(0) =~= v@);
        assert(version@ == v@);
    }
    proof {
        let w = words(v@);
        let m: int = if w.len() < 2 { w.len() as int } else { 2 };
        assert(texts(ws@) == w.take(m));
        assert(texts(ws@).len() == m);
        if ws@.len() > 1 {
            assert(texts(ws@)[1] == ws@[1]@);
            assert(w.take(m)[1] == w[1]);
        }
    }
    if ws.len() > 1 {
        ws[1].clone()
    } else {
        owned("unknown")
    }
}

/// How often to back up and apply retention, by the total size of the
/// databases accepting connections: weekly above 100 GiB, daily above
/// 10 GiB, twice a day otherwise.
pub open spec fn schedule_crons(total: nat) -> (Seq<char>, Seq<char>) {
    if over_gib(total, 100) {
        ("0 2 * * 0"@, "0 4 * * 0"@)
    } else if over_gib(total, 10) {
        ("0 2 * * *"@, "0 4 * * *"@)
    } else {
        ("0 2,14 * * *"@, "0 4 * * *"@)
    }
}

/// How often to back up and apply retention: the backup and retention cron
/// expressions.
pub fn schedule_crons_for(databases: &Vec<DatabaseInfo>) -> (r: (String, String))
    requires
        selected_size(databases@, true) <= u64::MAX,
    ensures
        (r.0@, r.1@) == schedule_crons(selected_size(databases@, true)),
{
    let (_, total) = user_database_names(databases, true);
    if exceeds_gib(total, 100) {
        (owned("0 2 * * 0"), owned("0 4 * * 0"))
    } else if exceeds_gib(total, 10) {
        (owned("0 2 * * *"), owned("0 4 * * *"))
    } else {
        (owned("0 2,14 * * *"), owned("0 4 * * *"))
    }
}

/// How many daily, weekly and monthly backups to keep, by the total size
/// of the user databases: fewer for larger ones.
pub open spec fn retention_counts(total: nat) -> (u32, u32, u32) {
    if over_gib(total, 100) {
        (7, 4, 3)
    } else if over_gib(total, 10) {
        (14, 8, 6)
    } else {
        (30, 12, 12)
    }
}

/// How many daily, weekly and monthly backups to keep, with the total size
/// of the user databases they were chosen by.
pub fn retention_counts_for(databases: &Vec<DatabaseInfo>) -> (r: ((u32, u32, u32), u64))
    requires
        selected_size(databases@, false) <= u64::MAX,
    ensures
        r.0 == retention_counts(selected_size(databases@, false)),
        r.1 == selected_size(databases@, false),
{
    let (_, total) = user_database_names(databases, false);
    let counts = if exceeds_gib(total, 100) {
        (7, 4, 3)
    } else if exceeds_gib(total, 10) {
        (14, 8, 6)
    } else {
        (30, 12, 12)
    };
    (counts, total)
}


// ---------------------------------------------------------------------------
// The discovery report
// ---------------------------------------------------------------------------

/// The closing rule of a report section.
pub open spec fn section_end() -> Seq<char> {
    "└──────────────────────────────────────────────────────────────────────────────┘\n\n"@
}

/// The banner and the server section of the report.
pub open spec fn discovery_server_text(r: DiscoveryResult) -> Seq<char> {
    "\n╔══════════════════════════════════════════════════════════════════════════════╗\n"@
        + "║                     PostgreSQL Discovery Report                              ║\n"@
        + "╚══════════════════════════════════════════════════════════════════════════════╝\n\n"@
        + "┌─ Server Information ─────────────────────────────────────────────────────────┐\n"@
        + "│ Host:     "@ + r.host@ + ":"@ + decimal(r.port as nat) + "\n"@ + "│ Version:  "@ + r.version@
        + "\n"@ + "│ Role:     "@ + r.replication.role@ + "\n"@ + section_end()
}

/// A database's line: name (cut to 20 bytes), size, owner (cut to 15
/// bytes) and whether it is a template.
#[verifier::opaque]
pub open spec fn database_line(d: DatabaseInfo) -> Seq<char> {
    "│ "@ + pad_right(truncated(d.name@, 20), 20) + " "@ + pad_left(size_text(d.size_bytes as nat), 12) + " "@
        + pad_right(truncated(d.owner@, 15), 15) + " "@ + pad_right(
        if d.is_template {
            "Yes"@
        } else {
            "No"@
        },
        10,
    ) + "\n"@
}

/// The lines of the databases, in order.
pub open spec fn database_lines(v: Seq<DatabaseInfo>) -> Seq<char>
    decreases v.len(),
{
    if v.len() == 0 {
        Seq::empty()
    } else {
        database_lines(v.drop_last()) + database_line(v.last())
    }
}

/// The heading of the databases section.
pub open spec fn databases_heading() -> Seq<char> {
    "┌─ Databases ──────────────────────────────────────────────────────────────────┐\n"@ + "│ "@ + pad_right(
        "Name"@,
        20,
    ) + " "@ + pad_left("Size"@, 12) + " "@ + pad_right("Owner"@, 15) + " "@ + pad_right("Template"@, 10)
        + "\n"@ + "│ ────────────────────────────────────────────────────────────────────────────\n"@
}

/// The databases section of the report.
pub open spec fn discovery_databases_text(v: Seq<DatabaseInfo>) -> Seq<char> {
    databases_heading() + database_lines(v) + section_end()
}

/// A connected replica's line.
pub open spec fn replica_line(r: ReplicaInfo) -> Seq<char> {
    "│   - "@ + r.application_name@ + " ("@ + r.state@ + ") @ "@ + match r.client_addr {
        Some(a) => a@,
        None => "unknown"@,
    } + "\n"@
}

/// The lines of the replicas, in order.
pub open spec fn replica_lines(v: Seq<ReplicaInfo>) -> Seq<char>
    decreases v.len(),
{
    if v.len() == 0 {
        Seq::empty()
    } else {
        replica_lines(v.drop_last()) + replica_line(v.last())
    }
}

/// The replicas part of the replication section.
#[verifier::opaque]
pub open spec fn replicas_part(v: Seq<ReplicaInfo>) -> Seq<char> {
    if v.len() > 0 {
        "│ Replicas:       "@ + decimal(v.len()) + " connected\n"@ + replica_lines(v)
    } else {
        Seq::empty()
    }
}

/// The current WAL position's line, when it is known.
pub open spec fn lsn_part(lsn: Option<String>) -> Seq<char> {
    match lsn {
        Some(l) => "│ Current LSN:    "@ + l@ + "\n"@,
        None => Seq::empty(),
    }
}

/// The replication lag's line, when it is known.
pub open spec fn lag_part(lag: Option<i64>) -> Seq<char> {
    match lag {
        Some(l) => "│ Replication Lag: "@ + signed_decimal(l as int) + " bytes\n"@,
        None => Seq::empty(),
    }
}

/// The replication section of the report.
pub open spec fn discovery_replication_text(r: ReplicationInfo) -> Seq<char> {
    "┌─ Replication Status ─────────────────────────────────────────────────────────┐\n"@
        + "│ WAL Archiving:  "@ + (if r.wal_archiving_enabled {
        "Enabled"@
    } else {
        "Disabled"@
    }) + "\n"@ + lsn_part(r.current_wal_lsn) + replicas_part(r.replicas@) + lag_part(
        r.replication_lag_bytes,
    ) + section_end()
}

/// The numbered lines of the recommendations, from `first`.
pub open spec fn recommendation_lines(v: Seq<Seq<char>>) -> Seq<char>
    decreases v.len(),
{
    if v.len() == 0 {
        Seq::empty()
    } else {
        recommendation_lines(v.drop_last()) + "│ "@ + decimal(v.len()) + ". "@ + v.last() + "\n"@
    }
}

/// The recommendations section of the report.
pub open spec fn discovery_recommendations_text(v: Seq<Seq<char>>) -> Seq<char> {
    "┌─ Recommendations ────────────────────────────────────────────────────────────┐\n"@
        + recommendation_lines(v)
        + "└──────────────────────────────────────────────────────────────────────────────┘\n"@
}

/// The discovery report as text.
pub open spec fn discovery_table(r: DiscoveryResult) -> Seq<char> {
    discovery_server_text(r) + discovery_databases_text(r.databases@) + discovery_replication_text(
        r.replication,
    ) + discovery_recommendations_text(texts(r.recommendations@))
}

/// Appends the banner and the server section.
fn push_discovery_server(out: &mut String, r: &DiscoveryResult)
    ensures
        final(out)@ == old(out)@ + discovery_server_text(*r),
{
    let ghost s0 = out@;
    push_str(out, "\n╔══════════════════════════════════════════════════════════════════════════════╗\n");
    push_str(out, "║                     PostgreSQL Discovery Report                              ║\n");
    push_str(out, "╚══════════════════════════════════════════════════════════════════════════════╝\n\n");
    push_str(out, "┌─ Server Information ─────────────────────────────────────────────────────────┐\n");
    push_str(out, "│ Host:     ");
    push_str(out, r.host.as_str());
    push_str(out, ":");
    let p = decimal_u64(r.port as u64);
    push_str(out, p.as_str());
    push_str(out, "\n");
    push_str(out, "│ Version:  ");
    push_str(out, r.version.as_str());
    push_str(out, "\n");
    push_str(out, "│ Role:     ");
    push_str(out, r.replication.role.as_str());
    push_str(out, "\n");
    push_str(out, "└──────────────────────────────────────────────────────────────────────────────┘\n\n");
    proof {
        assert(out@ =~= s0 + discovery_server_text(*r));
    }
}

/// Appends a database's line.
#[verifier::rlimit(50)]
fn push_database_line(out: &mut String, d: &DatabaseInfo)
    ensures
        final(out)@ == old(out)@ + database_line(*d),
{
    reveal(database_line);
    let ghost s0 = out@;
    push_str(out, "│ ");
    let name = truncate_str(d.name.as_str(), 20);
    push_padded_right(out, name.as_str(), 20);
    push_str(out, " ");
    let size = format_size(d.size_bytes);
    push_padded_left(out, size.as_str(), 12);
    push_str(out, " ");
    let owner = truncate_str(d.owner.as_str(), 15);
    push_padded_right(out, owner.as_str(), 15);
    push_str(out, " ");
    push_padded_right(out, if d.is_template {
        "Yes"
    } else {
        "No"
    }, 10);
    push_str(out, "\n");
    proof {
        assert(out@ =~= s0 + database_line(*d));
    }
}

/// Appends the heading of the databases section.
fn push_databases_heading(out: &mut String)
    ensures
        final(out)@ == old(out)@ + databases_heading(),
{
    let ghost s0 = out@;
    push_str(out, "┌─ Databases ──────────────────────────────────────────────────────────────────┐\n");
    push_str(out, "│ ");
    push_padded_right(out, "Name", 20);
    push_str(out, " ");
    push_padded_left(out, "Size", 12);
    push_str(out, " ");
    push_padded_right(out, "Owner", 15);
    push_str(out, " ");
    push_padded_right(out, "Template", 10);
    push_str(out, "\n");
    push_str(out, "│ ────────────────────────────────────────────────────────────────────────────\n");
    proof {
        assert(out@ =~= s0 + databases_heading());
    }
}

/// Appends the databases section.
fn push_discovery_databases(out: &mut String, v: &Vec<DatabaseInfo>)
    ensures
        final(out)@ == old(out)@ + discovery_databases_text(v@),
{
    let ghost s0 = out@;
    push_databases_heading(out);
    let ghost head = out@;
    let mut i: usize = 0;
    while i < v.len()
        invariant
            i <= v@.len(),
            out@ == head + database_lines(v@.take(i as int)),
        decreases v@.len() - i,
    {
        proof {
            assert(v@.take(i + 1).drop_last() =~= v@.take(i as int));
        }
        push_database_line(out, &v[i]);
        proof {
            assert(head + database_lines(v@.take(i as int)) + database_line(v@[i as int]) =~= head
                + database_lines(v@.take(i + 1)));
        }
        i = i + 1;
    }
    proof {
        assert(v@.take(v@.len() as int) =~= v@);
    }
    push_str(out, "└──────────────────────────────────────────────────────────────────────────────┘\n\n");
    proof {
        assert(out@ =~= s0 + discovery_databases_text(v@));
    }
}

/// Appends the replicas part of the replication section.
fn push_replicas(out: &mut String, v: &Vec<ReplicaInfo>)
    ensures
        final(out)@ == old(out)@ + replicas_part(v@),
{
    reveal(replicas_part);
    let ghost s0 = out@;
    if v.len() > 0 {
        push_str(out, "│ Replicas:       ");
        let n = decimal_u64(v.len() as u64);
        push_str(out, n.as_str());
        push_str(out, " connected\n");
        let ghost head = out@;
        let mut i: usize = 0;
        while i < v.len()
            invariant
                i <= v@.len(),
                out@ == head + replica_lines(v@.take(i as int)),
            decreases v@.len() - i,
        {
            proof {
                assert(v@.take(i + 1).drop_last() =~= v@.take(i as int));
            }
            let rep = &v[i];
            let ghost before = out@;
            push_str(out, "│   - ");
            push_str(out, rep.application_name.as_str());
            push_str(out, " (");
            push_str(out, rep.state.as_str());
            push_str(out, ") @ ");
            match &rep.client_addr {
                Some(a) => push_str(out, a.as_str()),
                None => push_str(out, "unknown"),
            }
            push_str(out, "\n");
            proof {
                assert(out@ =~= before + replica_line(*rep));
                assert(head + replica_lines(v@.take(i as int)) + replica_line(*rep) =~= head + replica_lines(
                    v@.take(i + 1),
                ));
            }
            i = i + 1;
        }
        proof {
            assert(v@.take(v@.len() as int) =~= v@);
            assert(out@ =~= s0 + replicas_part(v@));
        }
    } else {
        proof {
            assert(out@ =~= s0 + replicas_part(v@));
        }
    }
}

/// Appends the current WAL position's line.
fn push_lsn(out: &mut String, lsn: &Option<String>)
    ensures
        final(out)@ == old(out)@ + lsn_part(*lsn),
{
    let ghost s0 = out@;
    if let Some(l) = lsn {
        push_str(out, "│ Current LSN:    ");
        push_str(out, l.as_str());
        push_str(out, "\n");
    }
    proof {
        assert(out@ =~= s0 + lsn_part(*lsn));
    }
}

/// Appends the replication lag's line.
fn push_lag(out: &mut String, lag: Option<i64>)
    ensures
        final(out)@ == old(out)@ + lag_part(lag),
{
    let ghost s0 = out@;
    if let Some(l) = lag {
        push_str(out, "│ Replication Lag: ");
        let t = decimal_i64(l);
        push_str(out, t.as_str());
        push_str(out, " bytes\n");
    }
    proof {
        assert(out@ =~= s0 + lag_part(lag));
    }
}

/// Appends the replication section.
fn push_discovery_replication(out: &mut String, r: &ReplicationInfo)
    ensures
        final(out)@ == old(out)@ + discovery_replication_text(*r),
{
    let ghost s0 = out@;
    push_str(out, "┌─ Replication Status ─────────────────────────────────────────────────────────┐\n");
    push_str(out, "│ WAL Archiving:  ");
    push_str(out, if r.wal_archiving_enabled {
        "Enabled"
    } else {
        "Disabled"
    });
    push_str(out, "\n");
    push_lsn(out, &r.current_wal_lsn);
    push_replicas(out, &r.replicas);
    push_lag(out, r.replication_lag_bytes);
    push_str(out, "└──────────────────────────────────────────────────────────────────────────────┘\n\n");
    proof {
        assert(out@ =~= s0 + discovery_replication_text(*r));
    }
}

/// Appends the recommendations section.
fn push_discovery_recommendations(out: &mut String, v: &Vec<String>)
    ensures
        final(out)@ == old(out)@ + discovery_recommendations_text(texts(v@)),
{
    let ghost s0 = out@;
    push_str(out, "┌─ Recommendations ────────────────────────────────────────────────────────────┐\n");
    let ghost head = out@;
    let mut i: usize = 0;
    while i < v.len()
        invariant
            i <= v@.len(),
            out@ == head + recommendation_lines(texts(v@).take(i as int)),
        decreases v@.len() - i,
    {
        proof {
            assert(texts(v@).take(i + 1).drop_last() =~= texts(v@).take(i as int));
            assert(texts(v@).take(i + 1).last() == v@[i as int]@);
        }
        let ghost before = out@;
        push_str(out, "│ ");
        let n = decimal_u64(i as u64 + 1);
        push_str(out, n.as_str());
        push_str(out, ". ");
        push_str(out, v[i].as_str());
        push_str(out, "\n");
        proof {
            assert(out@ =~= head + recommendation_lines(texts(v@).take(i + 1)));
        }
        i = i + 1;
    }
    proof {
        assert(texts(v@).take(v@.len() as int) =~= texts(v@));
    }
    push_str(out, "└──────────────────────────────────────────────────────────────────────────────┘\n");
    proof {
        assert(out@ =~= s0 + discovery_recommendations_text(texts(v@)));
    }
}

/// The discovery report as the `discover` command prints it: server,
/// databases, replication and recommendations.
pub fn format_discovery_table(result: &DiscoveryResult) -> (r: String)
    ensures
        r@ == discovery_table(*result),
{
    let mut out = String::new();
    push_discovery_server(&mut out, result);
    push_discovery_databases(&mut out, &result.databases);
    push_discovery_replication(&mut out, &result.replication);
    push_discovery_recommendations(&mut out, &result.recommendations);
    proof {
        assert(out@ =~= discovery_table(*result));
    }
    out
}


// ---------------------------------------------------------------------------
// The generated configuration
// ---------------------------------------------------------------------------

/// The names of the user databases, in order (only those accepting
/// connections, when `connectable_only`).
fn selected_database_names(dbs: &Vec<DatabaseInfo>, connectable_only: bool) -> (r: Vec<String>)
    ensures
        texts(r@) == database_names(selected_databases(dbs@, connectable_only)),
{
    let ghost pred = |d: DatabaseInfo| is_user_database(d) && (connectable_only ==> d.allow_connections);
    let mut names: Vec<String> = Vec::new();
    let mut i: usize = 0;
    while i < dbs.len()
        invariant
            i <= dbs@.len(),
            pred == (|d: DatabaseInfo| is_user_database(d) && (connectable_only ==> d.allow_connections)),
            texts(names@) == database_names(dbs@.take(i as int).filter(pred)),
        decreases dbs@.len() - i,
    {
        proof {
            assert(dbs@.take(i + 1) =~= dbs@.take(i as int).push(dbs@[i as int]));
            dbs@.take(i as int).lemma_filter_push(dbs@[i as int], pred);
        }
        let d = &dbs[i];
        if !d.is_template && !str_eq(d.name.as_str(), "postgres") && (!connectable_only || d.allow_connections) {
            let ghost before = names@;
            names.push(d.name.clone());
            proof {
                assert(texts(names@) =~= texts(before).push(d.name@));
                assert(database_names(dbs@.take(i as int).filter(pred).push(dbs@[i as int]))
                    =~= database_names(dbs@.take(i as int).filter(pred)).push(d.name@));
            }
        }
        i = i + 1;
    }
    proof {
        assert(dbs@.take(dbs@.len() as int) =~= dbs@);
    }
    names
}

/// A label of two texts.
fn text_label(key: &str, value: &str) -> (r: Label)
    ensures
        r.key@ == key@,
        r.value@ == value@,
{
    Label { key: owned(key), value: owned(value) }
}

/// The identifier derived from a cluster name: in lower case, spaces made
/// dashes.
pub open spec fn cluster_id_text(cluster_name: Seq<char>) -> Seq<char> {
    replace_char(lowercase(cluster_name), ' ', '-')
}

/// The text of an optional string.
pub open spec fn opt_seq(o: Option<String>) -> Option<Seq<char>> {
    match o {
        Some(s) => Some(s@),
        None => None,
    }
}

/// The connection block of the generated node.
#[derive(Debug, Clone)]
pub struct GeneratedConnection {
    pub user: String,
    pub database: String,
    pub ssl_mode: Option<String>,
}

/// The SSH block of the generated node.
#[derive(Debug, Clone)]
pub struct GeneratedSsh {
    pub host: String,
    pub user: Option<String>,
    pub port: u16,
    pub key_path: String,
}

/// The cluster configuration generated for a discovered server: the
/// clusters, nodes and protection groups, with what the file holds beyond
/// them (its version, the default tenant, and the node's connection and
/// SSH blocks).
#[derive(Debug, Clone)]
pub struct GeneratedClusterFile {
    pub version: String,
    pub default_tenant: Option<String>,
    pub config: ClusterConfig,
    pub connection: GeneratedConnection,
    pub ssh: Option<GeneratedSsh>,
}

/// The generated cluster: named as given, in production, labelled as
/// discovered and with the server's version number.
pub open spec fn generated_cluster_holds(c: Cluster, cluster_name: Seq<char>, version: Seq<char>) -> bool {
    &&& c.id@ == cluster_id_text(cluster_name)
    &&& opt_seq(c.name) == Some(cluster_name)
    &&& opt_seq(c.environment) == Some("production"@)
    &&& label_pairs(c.labels@) == seq![pair("discovered"@, "true"@), pair("pg_version"@, version_label(version))]
}

/// The generated node: the discovered server, in the role its replication
/// status shows, with a connection block, and an SSH block exactly when
/// `has_ssh`.
pub open spec fn generated_node_holds(n: Node, cluster_name: Seq<char>, d: DiscoveryResult, has_ssh: bool) -> bool {
    &&& n.id@ == cluster_id_text(cluster_name) + "-node"@
    &&& n.cluster_id@ == cluster_id_text(cluster_name)
    &&& n.host@ == d.host@
    &&& n.port == d.port
    &&& n.role == discovered_role(d.replication.role@)
    &&& label_pairs(n.labels@) == seq![pair("discovered"@, "true"@)]
    &&& n.has_connection
    &&& n.has_ssh == has_ssh
}

/// The generated protection groups: none without user databases that
/// accept connections; otherwise one group of them, backed up preferably
/// from a replica when the node is the primary and from the primary
/// otherwise.
pub open spec fn generated_groups_hold(
    groups: Seq<ProtectionGroup>,
    cluster_name: Seq<char>,
    dbs: Seq<Seq<char>>,
    role: NodeRole,
) -> bool {
    if dbs.len() == 0 {
        groups.len() == 0
    } else {
        &&& groups.len() == 1
        &&& groups[0].id@ == cluster_id_text(cluster_name) + "-databases"@
        &&& opt_seq(groups[0].name) == Some(cluster_name + " Databases"@)
        &&& groups[0].cluster_id@ == cluster_id_text(cluster_name)
        &&& texts(groups[0].databases@) == dbs
        &&& groups[0].preferred_source_role == Some(
            if role == NodeRole::Primary {
                NodeRole::Replica
            } else {
                NodeRole::Primary
            },
        )
        &&& label_pairs(groups[0].labels@) == seq![pair("backup_priority"@, "high"@)]
    }
}

/// The generated SSH block: present exactly when an SSH host was given,
/// with its user, its port (22 by default) and the standard key path.
pub open spec fn generated_ssh_holds(s: Option<GeneratedSsh>, o: SshOptions) -> bool {
    match o.host {
        None => s is None,
        Some(h) => match s {
            None => false,
            Some(g) => {
                &&& g.host@ == h@
                &&& opt_seq(g.user) == opt_seq(o.user)
                &&& g.port == match o.port {
                    Some(p) => p,
                    None => 22u16,
                }
                &&& g.key_path@ == "/etc/warden/ssh/key"@
            },
        },
    }
}

/// The SSH block of the generated node.
fn generated_ssh(o: &SshOptions) -> (r: Option<GeneratedSsh>)
    ensures
        generated_ssh_holds(r, *o),
{
    match &o.host {
        None => None,
        Some(h) => Some(
            GeneratedSsh {
                host: h.clone(),
                user: copy_text(&o.user),
                port: match o.port {
                    Some(p) => p,
                    None => 22,
                },
                key_path: owned("/etc/warden/ssh/key"),
            },
        ),
    }
}

/// The cluster configuration generated for a discovered server: one
/// cluster, one node for the server, and a protection group of its user
/// databases that accept connections.
pub fn generate_cluster_file(discovery: &DiscoveryResult, cluster_name: &str, options: &GenerateConfigOptions) -> (r:
    GeneratedClusterFile)
    ensures
        r.version@ == "1"@,
        r.default_tenant == options.tenant,
        r.config.clusters@.len() == 1,
        generated_cluster_holds(r.config.clusters@[0], cluster_name@, discovery.version@),
        r.config.nodes@.len() == 1,
        generated_node_holds(r.config.nodes@[0], cluster_name@, *discovery, options.ssh.host is Some),
        generated_groups_hold(
            r.config.protection_groups@,
            cluster_name@,
            database_names(selected_databases(discovery.databases@, true)),
            discovered_role(discovery.replication.role@),
        ),
        r.connection.user@ == options.user@,
        r.connection.database@ == "postgres"@,
        r.connection.ssl_mode == options.ssl_mode,
        generated_ssh_holds(r.ssh, options.ssh),
{
    let cluster_id = cluster_id_for(cluster_name);
    let role = node_role_of(discovery.replication.role.as_str());
    let user_dbs = selected_database_names(&discovery.databases, true);
    let version = pg_version_label(discovery.version.as_str());
    let mut cluster_labels: Vec<Label> = Vec::new();
    cluster_labels.push(text_label("discovered", "true"));
    cluster_labels.push(Label { key: owned("pg_version"), value: version });
    let mut node_labels: Vec<Label> = Vec::new();
    node_labels.push(text_label("discovered", "true"));
    let ssh = generated_ssh(&options.ssh);
    let node = Node {
        id: concat2(cluster_id.as_str(), "-node"),
        cluster_id: cluster_id.clone(),
        host: discovery.host.clone(),
        port: discovery.port,
        role: role,
        labels: node_labels,
        has_ssh: ssh.is_some(),
        has_connection: true,
    };
    let cluster = Cluster {
        id: cluster_id.clone(),
        name: Some(owned(cluster_name)),
        environment: Some(owned("production")),
        labels: cluster_labels,
    };
    let ghost db_count = user_dbs@.len();
    let mut groups: Vec<ProtectionGroup> = Vec::new();
    if user_dbs.len() > 0 {
        let mut labels: Vec<Label> = Vec::new();
        labels.push(text_label("backup_priority", "high"));
        groups.push(
            ProtectionGroup {
                id: concat2(cluster_id.as_str(), "-databases"),
                name: Some(concat2(cluster_name, " Databases")),
                cluster_id: cluster_id.clone(),
                databases: user_dbs,
                preferred_source_role: Some(preferred_source_role(role)),
                labels: labels,
            },
        );
    }
    let mut clusters: Vec<Cluster> = Vec::new();
    clusters.push(cluster);
    let mut nodes: Vec<Node> = Vec::new();
    nodes.push(node);
    let r = GeneratedClusterFile {
        version: owned("1"),
        default_tenant: copy_text(&options.tenant),
        config: ClusterConfig { clusters, nodes, protection_groups: groups },
        connection: GeneratedConnection {
            user: options.user.clone(),
            database: owned("postgres"),
            ssl_mode: copy_text(&options.ssl_mode),
        },
        ssh: ssh,
    };
    proof {
        assert(label_pairs(r.config.clusters@[0].labels@) =~= seq![
            pair("discovered"@, "true"@),
            pair("pg_version"@, version_label(discovery.version@)),
        ]);
        assert(label_pairs(r.config.nodes@[0].labels@) =~= seq![pair("discovered"@, "true"@)]);
        if db_count > 0 {
            assert(label_pairs(r.config.protection_groups@[0].labels@) =~= seq![
                pair("backup_priority"@, "high"@),
            ]);
        }
    }
    r
}

/// The generated backup schedule: a daily snapshot of the server's
/// `postgres` database, labelled with the cluster, to the default S3
/// profile.
pub open spec fn generated_backup_holds(b: BackupSchedule, d: DiscoveryResult, cluster_name: Seq<char>, cron: Seq<char>) -> bool {
    &&& b.id@ == cluster_id_text(cluster_name) + "-daily"@
    &&& opt_seq(b.name) == Some(cluster_name + " Daily Backup"@)
    &&& b.cron@ == cron
    &&& match b.target {
        BackupTarget::Database { host, port, database, user } => {
            &&& host@ == d.host@
            &&& port == Some(d.port)
            &&& database@ == "postgres"@
            &&& opt_seq(user) == Some("postgres"@)
        },
        _ => false,
    }
    &&& b.backup_type@ == "snapshot"@
    &&& opt_seq(b.storage_profile) == Some("default-s3"@)
    &&& b.enabled
    &&& label_pairs(b.labels@) == seq![pair("cluster"@, cluster_id_text(cluster_name)), pair("type"@, "scheduled"@)]
    &&& b.backup_dir is None
}

/// The generated retention schedule: the policy file beside the
/// configuration, reported and not applied, on the default S3 profile.
pub open spec fn generated_retention_holds(r: RetentionSchedule, cluster_name: Seq<char>, cron: Seq<char>) -> bool {
    &&& r.id@ == cluster_id_text(cluster_name) + "-retention"@
    &&& opt_seq(r.name) == Some(cluster_name + " Retention Cleanup"@)
    &&& r.cron@ == cron
    &&& !r.apply
    &&& r.enabled
    &&& opt_seq(r.storage_profile) == Some("default-s3"@)
    &&& opt_seq(r.policy_file) == Some("./retention-policy.json"@)
    &&& r.backup_dir is None
}

/// The generated storage profile: the `warden-backups` S3 bucket in
/// `us-east-1`, under the cluster identifier, with keys from the
/// environment.
pub open spec fn generated_profile_holds(p: StorageProfile, cluster_name: Seq<char>) -> bool {
    &&& p.name@ == "default-s3"@
    &&& p.provider@ == "s3"@
    &&& p.bucket@ == "warden-backups"@
    &&& opt_seq(p.prefix) == Some(cluster_id_text(cluster_name) + "/"@)
    &&& opt_seq(p.region) == Some("us-east-1"@)
    &&& p.endpoint is None
    &&& opt_seq(p.access_key) == Some("env:AWS_ACCESS_KEY_ID"@)
    &&& opt_seq(p.secret_key) == Some("env:AWS_SECRET_ACCESS_KEY"@)
}

/// The schedule configuration generated for a discovered server: one
/// backup and one retention schedule, at the cadence that the size of the
/// user databases accepting connections calls for, one storage profile,
/// and `./backups` as the default backup directory.
pub fn generate_schedule_file(discovery: &DiscoveryResult, cluster_name: &str) -> (r: ScheduleConfig)
    requires
        selected_size(discovery.databases@, true) <= u64::MAX,
    ensures
        r.backups@.len() == 1,
        generated_backup_holds(
            r.backups@[0],
            *discovery,
            cluster_name@,
            schedule_crons(selected_size(discovery.databases@, true)).0,
        ),
        r.retention@.len() == 1,
        generated_retention_holds(
            r.retention@[0],
            cluster_name@,
            schedule_crons(selected_size(discovery.databases@, true)).1,
        ),
        r.storage_profiles@.len() == 1,
        generated_profile_holds(r.storage_profiles@[0], cluster_name@),
        opt_seq(r.default_backup_dir) == Some("./backups"@),
{
    let cluster_id = cluster_id_for(cluster_name);
    let (backup_cron, retention_cron) = schedule_crons_for(&discovery.databases);
    let profile = StorageProfile {
        name: owned("default-s3"),
        provider: owned("s3"),
        bucket: owned("warden-backups"),
        prefix: Some(concat2(cluster_id.as_str(), "/")),
        region: Some(owned("us-east-1")),
        endpoint: None,
        access_key: Some(owned("env:AWS_ACCESS_KEY_ID")),
        secret_key: Some(owned("env:AWS_SECRET_ACCESS_KEY")),
    };
    let mut labels: Vec<Label> = Vec::new();
    labels.push(Label { key: owned("cluster"), value: cluster_id.clone() });
    labels.push(text_label("type", "scheduled"));
    let backup = BackupSchedule {
        id: concat2(cluster_id.as_str(), "-daily"),
        name: Some(concat2(cluster_name, " Daily Backup")),
        cron: backup_cron,
        target: BackupTarget::Database {
            host: discovery.host.clone(),
            port: Some(discovery.port),
            database: owned("postgres"),
            user: Some(owned("postgres")),
        },
        backup_type: owned("snapshot"),
        storage_profile: Some(owned("default-s3")),
        enabled: true,
        labels: labels,
        backup_dir: None,
    };
    let retention = RetentionSchedule {
        id: concat2(cluster_id.as_str(), "-retention"),
        name: Some(concat2(cluster_name, " Retention Cleanup")),
        cron: retention_cron,
        apply: false,
        enabled: true,
        storage_profile: Some(owned("default-s3")),
        policy_file: Some(owned("./retention-policy.json")),
        backup_dir: None,
    };
    let mut backups: Vec<BackupSchedule> = Vec::new();
    backups.push(backup);
    let mut retentions: Vec<RetentionSchedule> = Vec::new();
    retentions.push(retention);
    let mut profiles: Vec<StorageProfile> = Vec::new();
    profiles.push(profile);
    let r = ScheduleConfig {
        backups: backups,
        retention: retentions,
        storage_profiles: profiles,
        default_backup_dir: Some(owned("./backups")),
    };
    proof {
        assert(label_pairs(r.backups@[0].labels@) =~= seq![
            pair("cluster"@, cluster_id_text(cluster_name@)),
            pair("type"@, "scheduled"@),
        ]);
    }
    r
}

/// A rule of the generated retention policy.
#[derive(Debug, Clone)]
pub struct GeneratedRule {
    pub name: String,
    pub keep_count: u32,
    pub keep_days: Option<u32>,
    pub backup_types: Vec<String>,
    pub labels: Vec<Label>,
    pub description: String,
}

/// The retention policy generated for a discovered server.
#[derive(Debug, Clone)]
pub struct GeneratedRetentionPolicy {
    pub version: String,
    pub description: String,
    pub rules: Vec<GeneratedRule>,
    pub default_action: String,
    pub pitr_retention_days: u32,
    pub wal_retention_days: u32,
}

/// A generated rule: keep the last `count` snapshot and full backups, by
/// count alone, of those carrying `labels`.
pub open spec fn generated_rule_holds(
    r: GeneratedRule,
    name: Seq<char>,
    count: u32,
    labels: Seq<(Seq<char>, Seq<char>)>,
) -> bool {
    &&& r.name@ == name
    &&& r.keep_count == count
    &&& r.keep_days is None
    &&& texts(r.backup_types@) == seq!["snapshot"@, "full"@]
    &&& label_pairs(r.labels@) == labels
    &&& r.description@ == "Keep last "@ + decimal(count as nat) + " "@ + name + " backups"@
}

/// A generated rule.
fn generated_rule(name: &str, count: u32, label: Option<&str>) -> (r: GeneratedRule)
    ensures
        generated_rule_holds(
            r,
            name@,
            count,
            match label {
                Some(k) => seq![pair(k@, "true"@)],
                None => Seq::empty(),
            },
        ),
{
    let mut types: Vec<String> = Vec::new();
    types.push(owned("snapshot"));
    types.push(owned("full"));
    let mut labels: Vec<Label> = Vec::new();
    match label {
        Some(k) => {
            labels.push(text_label(k, "true"));
        },
        None => {},
    }
    let n = decimal_u64(count as u64);
    let mut description = concat2("Keep last ", n.as_str());
    push_str(&mut description, " ");
    push_str(&mut description, name);
    push_str(&mut description, " backups");
    let r = GeneratedRule {
        name: owned(name),
        keep_count: count,
        keep_days: None,
        backup_types: types,
        labels: labels,
        description: description,
    };
    proof {
        assert(texts(r.backup_types@) =~= seq!["snapshot"@, "full"@]);
        match label {
            Some(k) => {
                assert(label_pairs(r.labels@) =~= seq![pair(k@, "true"@)]);
            },
            None => {
                assert(label_pairs(r.labels@) =~= Seq::<(Seq<char>, Seq<char>)>::empty());
            },
        }
    }
    r
}

/// The retention policy generated for a discovered server: daily, weekly
/// and monthly rules whose counts follow the total size of the user
/// databases (named, in GiB with two decimals, in the description), and
/// anything else deleted, with seven days of PITR and WAL retention.
pub fn generate_retention_file(discovery: &DiscoveryResult) -> (r: GeneratedRetentionPolicy)
    requires
        selected_size(discovery.databases@, false) <= u64::MAX,
    ensures
        r.version@ == "1"@,
        r.description@ == "Retention policy generated from discovery (total size: "@ + fixed_text(
            selected_size(discovery.databases@, false),
            30,
            2,
        ) + " GB)"@,
        r.rules@.len() == 3,
        generated_rule_holds(
            r.rules@[0],
            "daily"@,
            retention_counts(selected_size(discovery.databases@, false)).0,
            Seq::empty(),
        ),
        generated_rule_holds(
            r.rules@[1],
            "weekly"@,
            retention_counts(selected_size(discovery.databases@, false)).1,
            seq![pair("weekly"@, "true"@)],
        ),
        generated_rule_holds(
            r.rules@[2],
            "monthly"@,
            retention_counts(selected_size(discovery.databases@, false)).2,
            seq![pair("monthly"@, "true"@)],
        ),
        r.default_action@ == "delete"@,
        r.pitr_retention_days == 7,
        r.wal_retention_days == 7,
{
    let ((daily, weekly, monthly), total) = retention_counts_for(&discovery.databases);
    let size = format_fixed_pow2(total, 30, 2);
    let mut description = concat2("Retention policy generated from discovery (total size: ", size.as_str());
    push_str(&mut description, " GB)");
    let mut rules: Vec<GeneratedRule> = Vec::new();
    rules.push(generated_rule("daily", daily, None));
    rules.push(generated_rule("weekly", weekly, Some("weekly")));
    rules.push(generated_rule("monthly", monthly, Some("monthly")));
    GeneratedRetentionPolicy {
        version: owned("1"),
        description: description,
        rules: rules,
        default_action: owned("delete"),
        pitr_retention_days: 7,
        wal_retention_days: 7,
    }
}

/// The generated configuration as the `generate-config` command prints it
/// in text form: the cluster file, the schedules and the retention policy
/// under their headings, and where they were written, if they were.
pub open spec fn generated_config_text(c: GeneratedConfig) -> Seq<char> {
    "\n=== Generated Cluster Configuration ===\n\n"@ + c.cluster_yaml@
        + "\n\n=== Generated Schedule Configuration ===\n\n"@ + c.schedule_config@
        + "\n\n=== Generated Retention Policy ===\n\n"@ + c.retention_policy@ + match c.output_path {
        Some(p) => "\n\nConfiguration files written to: "@ + quoted(p@) + "\n"@,
        None => Seq::empty(),
    }
}

/// The generated configuration in text form.
pub fn format_generated_config_text(config: &GeneratedConfig) -> (r: String)
    ensures
        r@ == generated_config_text(*config),
{
    let mut out = owned("\n=== Generated Cluster Configuration ===\n\n");
    push_str(&mut out, config.cluster_yaml.as_str());
    push_str(&mut out, "\n\n=== Generated Schedule Configuration ===\n\n");
    push_str(&mut out, config.schedule_config.as_str());
    push_str(&mut out, "\n\n=== Generated Retention Policy ===\n\n");
    push_str(&mut out, config.retention_policy.as_str());
    match &config.output_path {
        Some(p) => {
            push_str(&mut out, "\n\nConfiguration files written to: ");
            let q = quote_text(p.as_str());
            push_str(&mut out, q.as_str());
            push_str(&mut out, "\n");
        },
        None => {},
    }
    proof {
        assert(out@ =~= generated_config_text(*config));
    }
    out
}

/// The import result as the `import-backup` command prints it in text form.
pub open spec fn import_result_text(r: ImportResult) -> Seq<char> {
    "\n┌─ Backup Import Result ───────────────────────────────────────────────────────┐\n"@
        + "│ Backup ID:       "@ + r.backup_id@ + "\n"@
        + "│ Database:        "@ + r.database@ + "\n"@
        + "│ Type:            "@ + r.backup_type@ + "\n"@
        + "│ Size:            "@ + size_text(r.size_bytes as nat) + "\n"@
        + "│ Local Path:      "@ + quoted(r.local_path@) + "\n"@
        + match r.remote_path {
            Some(p) => "│ Remote Path:     "@ + p@ + "\n"@,
            None => Seq::empty(),
        }
        + "│ Original Source: "@ + r.original_source@ + "\n"@
        + "│ Imported At:     "@ + utc_rfc3339(r.imported_at) + "\n"@
        + "└──────────────────────────────────────────────────────────────────────────────┘\n"@
        + "\nThe imported backup is now available for restore operations.\n"@
        + "Use: warden postgresql restore-full --backup-id "@ + r.backup_id@ + "\n"@
}

/// The import result in text form.
pub fn format_import_result_text(result: &ImportResult) -> (r: String)
    ensures
        r@ == import_result_text(*result),
{
    let mut out = owned("\n┌─ Backup Import Result ───────────────────────────────────────────────────────┐\n");
    push_str(&mut out, "│ Backup ID:       ");
    push_str(&mut out, result.backup_id.as_str());
    push_str(&mut out, "\n");
    push_str(&mut out, "│ Database:        ");
    push_str(&mut out, result.database.as_str());
    push_str(&mut out, "\n");
    push_str(&mut out, "│ Type:            ");
    push_str(&mut out, result.backup_type.as_str());
    push_str(&mut out, "\n");
    push_str(&mut out, "│ Size:            ");
    let size = format_size(result.size_bytes);
    push_str(&mut out, size.as_str());
    push_str(&mut out, "\n");
    push_str(&mut out, "│ Local Path:      ");
    let path = quote_text(result.local_path.as_str());
    push_str(&mut out, path.as_str());
    push_str(&mut out, "\n");
    match &result.remote_path {
        Some(p) => {
            push_str(&mut out, "│ Remote Path:     ");
            push_str(&mut out, p.as_str());
            push_str(&mut out, "\n");
        },
        None => {},
    }
    push_str(&mut out, "│ Original Source: ");
    push_str(&mut out, result.original_source.as_str());
    push_str(&mut out, "\n");
    push_str(&mut out, "│ Imported At:     ");
    let at = rfc3339_utc(result.imported_at);
    push_str(&mut out, at.as_str());
    push_str(&mut out, "\n");
    push_str(&mut out, "└──────────────────────────────────────────────────────────────────────────────┘\n");
    push_str(&mut out, "\nThe imported backup is now available for restore operations.\n");
    push_str(&mut out, "Use: warden postgresql restore-full --backup-id ");
    push_str(&mut out, result.backup_id.as_str());
    push_str(&mut out, "\n");
    proof {
        assert(out@ =~= import_result_text(*result));
    }
    out
}

} // verus!
