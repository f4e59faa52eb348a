//! Server connection settings, backup and restore records, and the catalog
//! of backups. Identifiers are UUIDs held as their 128-bit value; times are
//! milliseconds since the Unix epoch.

use vstd::prelude::*;
use crate::ids::new_uuid;
use crate::text::{decimal, decimal_u64, owned, push_str};
use crate::timestamps::now_millis;

verus! {

/// A PostgreSQL server's connection settings, with the SSH tunnel through
/// which it may be reached.
#[derive(Debug, Clone)]
pub struct PostgresConfig {
    pub host: String,
    pub port: u16,
    pub database: String,
    pub user: String,
    pub password: Option<String>,
    pub ssl_mode: Option<String>,
    /// Database to connect to for maintenance work.
    pub maintenance_db: Option<String>,
    pub ssh_host: Option<String>,
    pub ssh_user: Option<String>,
    pub ssh_port: Option<u16>,
    pub ssh_password: Option<String>,
    pub ssh_key_path: Option<String>,
    pub ssh_local_port: Option<u16>,
    pub ssh_remote_port: Option<u16>,
}

/// ` key=value` for a present setting, nothing otherwise.
pub open spec fn optional_setting(key: Seq<char>, value: Option<String>) -> Seq<char> {
    match value {
        Some(v) => seq![' '] + key + seq!['='] + v@,
        None => Seq::empty(),
    }
}

impl PostgresConfig {
    /// The libpq connection string of these settings.
    pub open spec fn spec_connection_string(&self) -> Seq<char> {
        "host="@ + self.host@ + " port="@ + decimal(self.port as nat) + " dbname="@ + self.database@
            + " user="@ + self.user@ + optional_setting("password"@, self.password)
            + optional_setting("sslmode"@, self.ssl_mode)
    }

    /// The libpq connection string: host, port, database and user, then the
    /// password and the SSL mode when they are set.
    pub fn connection_string(&self) -> (r: String)
        ensures
            r@ == self.spec_connection_string(),
    {
        let mut s = owned("host=");
        push_str(&mut s, self.host.as_str());
        push_str(&mut s, " port=");
        let p = decimal_u64(self.port as u64);
        push_str(&mut s, p.as_str());
        push_str(&mut s, " dbname=");
        push_str(&mut s, self.database.as_str());
        push_str(&mut s, " user=");
        push_str(&mut s, self.user.as_str());
        let ghost base = s@;
        if let Some(password) = &self.password {
            push_str(&mut s, " password=");
            push_str(&mut s, password.as_str());
        }
        let ghost with_password = s@;
        proof {
            reveal_strlit(" password=");
            reveal_strlit("password");
            assert(with_password =~= base + optional_setting("password"@, self.password));
        }
        if let Some(ssl_mode) = &self.ssl_mode {
            push_str(&mut s, " sslmode=");
            push_str(&mut s, ssl_mode.as_str());
        }
        proof {
            reveal_strlit(" sslmode=");
            reveal_strlit("sslmode");
            assert(s@ =~= with_password + optional_setting("sslmode"@, self.ssl_mode));
        }
        s
    }
}

/// Backup status
#[derive(Debug, Clone, Copy, PartialEq, Eq, Structural)]
pub enum BackupStatus {
    InProgress,
    Completed,
    Failed,
}

/// Backup type
#[derive(Debug, Clone, Copy, PartialEq, Eq, Structural)]
pub enum BackupType {
    Full,
    Incremental,
    Snapshot,
}

impl BackupType {
    /// The variant's name, as `{:?}` prints it.
    pub open spec fn spec_name(self) -> Seq<char> {
        match self {
            BackupType::Full => "Full"@,
            BackupType::Incremental => "Incremental"@,
            BackupType::Snapshot => "Snapshot"@,
        }
    }

    /// The variant's name, as `{:?}` prints it.
    pub fn name(self) -> (r: String)
        ensures
            r@ == self.spec_name(),
    {
        match self {
            BackupType::Full => owned("Full"),
            BackupType::Incremental => owned("Incremental"),
            BackupType::Snapshot => owned("Snapshot"),
        }
    }
}

/// Represents a backup
#[derive(Debug, Clone)]
pub struct Backup {
    pub id: u128,
    pub backup_type: BackupType,
    pub status: BackupStatus,
    pub start_time: i64,
    pub end_time: Option<i64>,
    /// For incremental backups, the full backup they build on.
    pub base_backup_id: Option<u128>,
    pub wal_start: Option<String>,
    pub wal_end: Option<String>,
    pub size_bytes: Option<u64>,
    pub backup_path: String,
    pub server_version: String,
    pub error_message: Option<String>,
}

impl Backup {
    /// A backup in progress, identified by `id` and started at `now`.
    pub fn new_at(
        id: u128,
        now: i64,
        backup_type: BackupType,
        backup_path: String,
        server_version: String,
        base_backup_id: Option<u128>,
    ) -> (r: Self)
        ensures
            r.id == id,
            r.backup_type == backup_type,
            r.status == BackupStatus::InProgress,
            r.start_time == now,
            r.end_time is None,
            r.base_backup_id == base_backup_id,
            r.wal_start is None,
            r.wal_end is None,
            r.size_bytes is None,
            r.backup_path == backup_path,
            r.server_version == server_version,
            r.error_message is None,
    {
        Backup {
            id,
            backup_type,
            status: BackupStatus::InProgress,
            start_time: now,
            end_time: None,
            base_backup_id,
            wal_start: None,
            wal_end: None,
            size_bytes: None,
            backup_path,
            server_version,
            error_message: None,
        }
    }

    /// A backup in progress with a fresh random identifier, started now.
    pub fn new(
        backup_type: BackupType,
        backup_path: String,
        server_version: String,
        base_backup_id: Option<u128>,
    ) -> (r: Self)
        ensures
            r.backup_type == backup_type,
            r.status == BackupStatus::InProgress,
            r.end_time is None,
            r.base_backup_id == base_backup_id,
            r.wal_start is None,
            r.wal_end is None,
            r.size_bytes is None,
            r.backup_path == backup_path,
            r.server_version == server_version,
            r.error_message is None,
    {
        let id = new_uuid();
        let now = now_millis();
        Backup::new_at(id, now, backup_type, backup_path, server_version, base_backup_id)
    }

    /// Marks the backup completed at `now`.
    pub fn complete_at(&mut self, now: i64, wal_end: String, size_bytes: u64)
        ensures
            *final(self) == (Backup {
                status: BackupStatus::Completed,
                end_time: Some(now),
                wal_end: Some(wal_end),
                size_bytes: Some(size_bytes),
                ..*old(self)
            }),
    {
        self.status = BackupStatus::Completed;
        self.end_time = Some(now);
        self.wal_end = Some(wal_end);
        self.size_bytes = Some(size_bytes);
    }

    /// Marks the backup completed now.
    pub fn complete(&mut self, wal_end: String, size_bytes: u64)
        ensures
            final(self).end_time is Some,
            *final(self) == (Backup {
                status: BackupStatus::Completed,
                end_time: final(self).end_time,
                wal_end: Some(wal_end),
                size_bytes: Some(size_bytes),
                ..*old(self)
            }),
    {
        let now = now_millis();
        self.complete_at(now, wal_end, size_bytes);
    }

    /// Marks the backup failed at `now`.
    pub fn fail_at(&mut self, now: i64, error_message: String)
        ensures
            *final(self) == (Backup {
                status: BackupStatus::Failed,
                end_time: Some(now),
                error_message: Some(error_message),
                ..*old(self)
            }),
    {
        self.status = BackupStatus::Failed;
        self.end_time = Some(now);
        self.error_message = Some(error_message);
    }

    /// Marks the backup failed now.
    pub fn fail(&mut self, error_message: String)
        ensures
            final(self).end_time is Some,
            *final(self) == (Backup {
                status: BackupStatus::Failed,
                end_time: final(self).end_time,
                error_message: Some(error_message),
                ..*old(self)
            }),
    {
        let now = now_millis();
        self.fail_at(now, error_message);
    }
}

/// Restore status
#[derive(Debug, Clone, Copy, PartialEq, Eq, Structural)]
pub enum RestoreStatus {
    InProgress,
    Completed,
    Failed,
}

/// Represents a restore operation
#[derive(Debug, Clone)]
pub struct Restore {
    pub id: u128,
    pub backup_id: u128,
    pub status: RestoreStatus,
    pub start_time: i64,
    pub end_time: Option<i64>,
    /// For point-in-time recovery, the time to recover to.
    pub target_time: Option<i64>,
    pub restore_path: String,
    pub error_message: Option<String>,
}

impl Restore {
    /// A restore in progress, identified by `id` and started at `now`.
    pub fn new_at(id: u128, now: i64, backup_id: u128, restore_path: String, target_time: Option<i64>) -> (r: Self)
        ensures
            r == (Restore {
                id: id,
                backup_id: backup_id,
                status: RestoreStatus::InProgress,
                start_time: now,
                end_time: None,
                target_time: target_time,
                restore_path: restore_path,
                error_message: None,
            }),
    {
        Restore {
            id,
            backup_id,
            status: RestoreStatus::InProgress,
            start_time: now,
            end_time: None,
            target_time,
            restore_path,
            error_message: None,
        }
    }

    /// A restore in progress with a fresh random identifier, started now.
    pub fn new(backup_id: u128, restore_path: String, target_time: Option<i64>) -> (r: Self)
        ensures
            r == (Restore {
                id: r.id,
                backup_id: backup_id,
                status: RestoreStatus::InProgress,
                start_time: r.start_time,
                end_time: None,
                target_time: target_time,
                restore_path: restore_path,
                error_message: None,
            }),
    {
        let id = new_uuid();
        let now = now_millis();
        Restore::new_at(id, now, backup_id, restore_path, target_time)
    }

    /// Marks the restore completed at `now`.
    pub fn complete_at(&mut self, now: i64)
        ensures
            *final(self) == (Restore { status: RestoreStatus::Completed, end_time: Some(now), ..*old(self) }),
    {
        self.status = RestoreStatus::Completed;
        self.end_time = Some(now);
    }

    /// Marks the restore completed now.
    pub fn complete(&mut self)
        ensures
            final(self).end_time is Some,
            *final(self) == (Restore {
                status: RestoreStatus::Completed,
                end_time: final(self).end_time,
                ..*old(self)
            }),
    {
        let now = now_millis();
        self.complete_at(now);
    }

    /// Marks the restore failed at `now`.
    pub fn fail_at(&mut self, now: i64, error_message: String)
        ensures
            *final(self) == (Restore {
                status: RestoreStatus::Failed,
                end_time: Some(now),
                error_message: Some(error_message),
                ..*old(self)
            }),
    {
        self.status = RestoreStatus::Failed;
        self.end_time = Some(now);
        self.error_message = Some(error_message);
    }

    /// Marks the restore failed now.
    pub fn fail(&mut self, error_message: String)
        ensures
            final(self).end_time is Some,
            *final(self) == (Restore {
                status: RestoreStatus::Failed,
                end_time: final(self).end_time,
                error_message: Some(error_message),
                ..*old(self)
            }),
    {
        let now = now_millis();
        self.fail_at(now, error_message);
    }
}

/// The first backup of `s` with identifier `id`.
pub open spec fn catalog_lookup(s: Seq<Backup>, id: u128) -> Option<Backup>
    decreases s.len(),
{
    if s.len() == 0 {
        None
    } else if s[0].id == id {
        Some(s[0])
    } else {
        catalog_lookup(s.drop_first(), id)
    }
}

/// A completed full backup.
pub open spec fn is_restorable_full(b: Backup) -> bool {
    b.backup_type == BackupType::Full && b.status == BackupStatus::Completed
}

/// The time by which backups are ordered: their end, or their start while
/// they have none.
pub open spec fn recency(b: Backup) -> i64 {
    match b.end_time {
        Some(t) => t,
        None => b.start_time,
    }
}

/// The most recent completed full backup of `s`; of several equally recent
/// ones, the last.
pub open spec fn latest_full(s: Seq<Backup>) -> Option<Backup>
    decreases s.len(),
{
    if s.len() == 0 {
        None
    } else {
        let prev = latest_full(s.drop_last());
        let b = s.last();
        if is_restorable_full(b) && (prev matches Some(p) ==> recency(p) <= recency(b)) {
            Some(b)
        } else {
            prev
        }
    }
}

/// A completed incremental backup built on `base`.
pub open spec fn is_incremental_of(b: Backup, base: u128) -> bool {
    b.backup_type == BackupType::Incremental && b.status == BackupStatus::Completed
        && b.base_backup_id == Some(base)
}

/// Catalog to manage backups
#[derive(Debug, Clone)]
pub struct BackupCatalog {
    pub backups: Vec<Backup>,
}

impl BackupCatalog {
    /// An empty catalog.
    pub fn new() -> (r: Self)
        ensures
            r.backups@.len() == 0,
    {
        BackupCatalog { backups: Vec::new() }
    }

    /// Adds a backup at the end of the catalog.
    pub fn add_backup(&mut self, backup: Backup)
        ensures
            final(self).backups@ == old(self).backups@.push(backup),
    {
        self.backups.push(backup);
    }

    /// The first backup with identifier `id`.
    pub fn get_backup(&self, id: u128) -> (r: Option<&Backup>)
        ensures
            match r {
                Some(b) => catalog_lookup(self.backups@, id) == Some(*b),
                None => catalog_lookup(self.backups@, id) is None,
            },
    {
        let mut i: usize = 0;
        proof {
            assert(self.backups@.skip(0) =~= self.backups@);
        }
        while i < self.backups.len()
            invariant
                i <= self.backups@.len(),
                catalog_lookup(self.backups@, id) == catalog_lookup(self.backups@.skip(i as int), id),
            decreases self.backups@.len() - i,
        {
            proof {
                assert(self.backups@.skip(i as int).drop_first() =~= self.backups@.skip(i + 1));
            }
            if self.backups[i].id == id {
                return Some(&self.backups[i]);
            }
            i = i + 1;
        }
        proof {
            assert(self.backups@.skip(i as int).len() == 0);
        }
        None
    }

    /// The most recent completed full backup (by end time, or start time
    /// while it has none); of several equally recent ones, the last.
    pub fn get_latest_full_backup(&self) -> (r: Option<&Backup>)
        ensures
            match r {
                Some(b) => latest_full(self.backups@) == Some(*b),
                None => latest_full(self.backups@) is None,
            },
    {
        let mut best: Option<usize> = None;
        let mut i: usize = 0;
        while i < self.backups.len()
            invariant
                i <= self.backups@.len(),
                match best {
                    Some(k) => k < i && latest_full(self.backups@.take(i as int)) == Some(
                        self.backups@[k as int],
                    ),
                    None => latest_full(self.backups@.take(i as int)) is None,
                },
            decreases self.backups@.len() - i,
        {
            proof {
                assert(self.backups@.take(i + 1).drop_last() =~= self.backups@.take(i as int));
                assert(self.backups@.take(i + 1).last() == self.backups@[i as int]);
            }
            let b = &self.backups[i];
            if b.backup_type == BackupType::Full && b.status == BackupStatus::Completed {
                let key = match b.end_time {
                    Some(t) => t,
                    None => b.start_time,
                };
                match best {
                    Some(k) => {
                        let p = &self.backups[k];
                        let pk = match p.end_time {
                            Some(t) => t,
                            None => p.start_time,
                        };
                        if pk <= key {
                            best = Some(i);
                        }
                    },
                    None => {
                        best = Some(i);
                    },
                }
            }
            i = i + 1;
        }
        proof {
            assert(self.backups@.take(self.backups@.len() as int) =~= self.backups@);
        }
        match best {
            Some(k) => Some(&self.backups[k]),
            None => None,
        }
    }

    /// The completed incremental backups built on `base_id`, in catalog
    /// order.
    pub fn get_incremental_backups_since(&self, base_id: u128) -> (r: Vec<&Backup>)
        ensures
            r@.len() == self.backups@.filter(|b: Backup| is_incremental_of(b, base_id)).len(),
            forall|i: int|
                0 <= i < r@.len() ==> *r@[i] == self.backups@.filter(
                    |b: Backup| is_incremental_of(b, base_id),
                )[i],
    {
        let ghost pred = |b: Backup| is_incremental_of(b, base_id);
        let mut out: Vec<&Backup> = Vec::new();
        let mut i: usize = 0;
        while i < self.backups.len()
            invariant
                i <= self.backups@.len(),
                pred == (|b: Backup| is_incremental_of(b, base_id)),
                out@.len() == self.backups@.take(i as int).filter(pred).len(),
                forall|j: int| 0 <= j < out@.len() ==> *out@[j] == self.backups@.take(i as int).filter(pred)[j],
            decreases self.backups@.len() - i,
        {
            proof {
                assert(self.backups@.take(i + 1) =~= self.backups@.take(i as int).push(self.backups@[i as int]));
                self.backups@.take(i as int).lemma_filter_push(self.backups@[i as int], pred);
            }
            let b = &self.backups[i];
            if b.backup_type == BackupType::Incremental && b.status == BackupStatus::Completed
                && b.base_backup_id == Some(base_id) {
                out.push(b);
            }
            i = i + 1;
        }
        proof {
            assert(self.backups@.take(self.backups@.len() as int) =~= self.backups@);
        }
        out
    }
}

/// A backup added to a catalog where no backup has its identifier is what a
/// lookup of that identifier finds.
pub proof fn lemma_added_backup_is_found(s: Seq<Backup>, b: Backup)
    requires
        forall|j: int| 0 <= j < s.len() ==> s[j].id != b.id,
    ensures
        catalog_lookup(s.push(b), b.id) == Some(b),
    decreases s.len(),
{
    if s.len() > 0 {
        assert(s.push(b).drop_first() =~= s.drop_first().push(b));
        lemma_added_backup_is_found(s.drop_first(), b);
    }
}

/// Adding a backup leaves the lookup of every other identifier unchanged.
pub proof fn lemma_add_keeps_other_lookups(s: Seq<Backup>, b: Backup, id: u128)
    requires
        id != b.id,
    ensures
        catalog_lookup(s.push(b), id) == catalog_lookup(s, id),
    decreases s.len(),
{
    if s.len() > 0 {
        assert(s.push(b).drop_first() =~= s.drop_first().push(b));
        lemma_add_keeps_other_lookups(s.drop_first(), b, id);
    } else {
        assert(s.push(b).drop_first() =~= s);
    }
}

/// The latest full backup is a completed full backup of the catalog, and no
/// completed full backup of the catalog is more recent.
pub proof fn lemma_latest_full_is_most_recent(s: Seq<Backup>)
    ensures
        latest_full(s) is None <==> (forall|j: int| 0 <= j < s.len() ==> !is_restorable_full(s[j])),
        latest_full(s) matches Some(b) ==> {
            &&& is_restorable_full(b)
            &&& s.contains(b)
            &&& forall|j: int| 0 <= j < s.len() && is_restorable_full(s[j]) ==> recency(s[j]) <= recency(b)
        },
    decreases s.len(),
{
    if s.len() > 0 {
        let t = s.drop_last();
        lemma_latest_full_is_most_recent(t);
        assert forall|j: int| 0 <= j < t.len() implies t[j] == s[j] by {}
        if let Some(p) = latest_full(t) {
            let k = choose|k: int| 0 <= k < t.len() && t[k] == p;
            assert(s[k] == p);
        }
        if latest_full(s) is Some {
            let b = latest_full(s)->0;
            if b == s.last() {
                assert(s[s.len() - 1] == b);
            }
        }
    }
}

} // verus!
