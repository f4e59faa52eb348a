//! Backup managers: full (pg_basebackup), incremental (WAL archiving) and
//! snapshot (pg_dump) backups. The managers decide what to run and what a
//! run's outcome makes of the backup record; running the tools and touching
//! the disk is left to the caller.

pub mod full;
pub mod incremental;
pub mod snapshot;

use vstd::prelude::*;
use crate::common::{BackupCatalog, PostgresConfig};
use crate::text::{concat2, path_join, join_path};
use crate::timestamps::{format_utc, utc_formatted};
use self::full::FullBackupManager;
use self::incremental::IncrementalBackupManager;
use self::snapshot::SnapshotBackupManager;

verus! {

/// Why a backup or a restore failed.
#[derive(Debug, Clone)]
pub enum PostgresError {
    /// A file-system operation failed; the error's text.
    Io(String),
    /// The server could not be reached; the error's text.
    ConnectionError(String),
    /// A query failed; the error's text.
    Postgres(String),
    /// The backup failed.
    BackupError(String),
    /// The restore failed.
    RestoreError(String),
}

/// The `%Y%m%d_%H%M%S` stamp that names the directory of a backup started
/// at `now` (milliseconds since the Unix epoch, UTC).
pub fn backup_timestamp(now: i64) -> (r: String)
    ensures
        r@ == utc_formatted(now, "%Y%m%d_%H%M%S"@),
{
    format_utc(now, "%Y%m%d_%H%M%S")
}

/// The name of a backup's directory: the kind's prefix and the stamp.
pub open spec fn backup_dir_name(prefix: Seq<char>, timestamp: Seq<char>) -> Seq<char> {
    prefix + timestamp
}

/// The directory of a backup under `backup_dir`, named by the kind's prefix
/// (`full_backup_`, `incremental_backup_`, `snapshot_backup_`) and the stamp.
pub fn backup_path_for(backup_dir: &str, prefix: &str, timestamp: &str) -> (r: String)
    ensures
        r@ == path_join(backup_dir@, backup_dir_name(prefix@, timestamp@)),
{
    let name = concat2(prefix, timestamp);
    join_path(backup_dir, name.as_str())
}

/// The total size of the regular files met while walking a backup's
/// directory; `entries` holds, for each entry, whether it is a file and its
/// length.
pub open spec fn files_size(entries: Seq<(bool, u64)>) -> nat
    decreases entries.len(),
{
    if entries.len() == 0 {
        0
    } else {
        files_size(entries.drop_last()) + if entries.last().0 {
            entries.last().1 as nat
        } else {
            0
        }
    }
}

/// Calculate backup size in bytes: the lengths of the files summed.
pub fn calculate_backup_size(entries: &Vec<(bool, u64)>) -> (r: u64)
    requires
        files_size(entries@) <= u64::MAX,
    ensures
        r == files_size(entries@),
{
    let mut total: u64 = 0;
    let mut i: usize = 0;
    while i < entries.len()
        invariant
            i <= entries@.len(),
            files_size(entries@) <= u64::MAX,
            total == files_size(entries@.take(i as int)),
        decreases entries@.len() - i,
    {
        proof {
            assert(entries@.take(i + 1).drop_last() =~= entries@.take(i as int));
            lemma_files_size_prefix(entries@, i + 1);
        }
        let (is_file, len) = entries[i];
        if is_file {
            total = total + len;
        }
        i = i + 1;
    }
    proof {
        assert(entries@.take(entries@.len() as int) =~= entries@);
    }
    total
}

/// A prefix's files are no larger than the whole.
proof fn lemma_files_size_prefix(entries: Seq<(bool, u64)>, k: int)
    requires
        0 <= k <= entries.len(),
    ensures
        files_size(entries.take(k)) <= files_size(entries),
    decreases entries.len(),
{
    if k < entries.len() {
        assert(entries.drop_last().take(k) =~= entries.take(k));
        lemma_files_size_prefix(entries.drop_last(), k);
    } else {
        assert(entries.take(k) =~= entries);
    }
}

/// Factory for creating backup managers
pub struct BackupManagerFactory;

impl BackupManagerFactory {
    /// Create a full backup manager
    pub fn create_full_backup_manager(config: PostgresConfig, backup_dir: String) -> (r: FullBackupManager)
        ensures
            r.spec_config() == config,
            r.spec_backup_dir() == backup_dir,
    {
        FullBackupManager::new(config, backup_dir)
    }

    /// Create an incremental backup manager
    pub fn create_incremental_backup_manager(
        config: PostgresConfig,
        backup_dir: String,
        catalog: BackupCatalog,
    ) -> (r: IncrementalBackupManager)
        ensures
            r.spec_config() == config,
            r.spec_backup_dir() == backup_dir,
            r.spec_catalog() == catalog,
    {
        IncrementalBackupManager::new(config, backup_dir, catalog)
    }

    /// Create a snapshot backup manager
    pub fn create_snapshot_backup_manager(config: PostgresConfig, backup_dir: String) -> (r: SnapshotBackupManager)
        ensures
            r.spec_config() == config,
            r.spec_backup_dir() == backup_dir,
    {
        SnapshotBackupManager::new(config, backup_dir)
    }
}

} // verus!
