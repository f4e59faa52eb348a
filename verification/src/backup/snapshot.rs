//! Snapshot backups: a logical dump of one database taken with pg_dump.

use vstd::prelude::*;
use crate::backup::{backup_dir_name, backup_path_for, PostgresError};
use crate::common::{Backup, BackupStatus, PostgresConfig};
use crate::ids::{uuid_hyphenated, uuid_text};
use crate::text::{concat2, join_path, owned, path_join, push_str, quote_text as quote, quoted};

verus! {

/// The output format of pg_dump.
#[derive(Debug, Clone, Copy, PartialEq, Eq, Structural)]
pub enum PgDumpFormat {
    Plain,
    Custom,
    Directory,
    Tar,
}

/// The settings of a pg_dump run.
#[derive(Debug, Clone)]
pub struct PgDumpOptions {
    pub host: String,
    pub port: u16,
    pub username: String,
    pub password: String,
    pub database: String,
    /// The file the dump is written to.
    pub file: String,
    pub format: PgDumpFormat,
    /// Compression level.
    pub compress: Option<u32>,
    pub schema_only: bool,
    pub data_only: bool,
    pub clean: bool,
    pub if_exists: bool,
    pub verbose: bool,
    pub schemas: Vec<String>,
    pub tables: Vec<String>,
    pub exclude_tables: Vec<String>,
}

/// The WAL position recorded for snapshot backups, which take none.
pub open spec fn wal_placeholder() -> Seq<char> {
    "0/0000000"@
}

/// The permissions a backup directory must have: a directory whose
/// permission bits are exactly `rwxr-xr-x` (0o755).
pub open spec fn has_backup_permissions(is_dir: bool, mode: u32) -> bool {
    is_dir && mode % 512 == 493
}

/// Checks a directory's type and permission bits (`mode`, as the file
/// system reports it) against what a backup directory must have.
pub fn backup_permissions_ok(is_dir: bool, mode: u32) -> (r: bool)
    ensures
        r == has_backup_permissions(is_dir, mode),
{
    let bits = mode & 0o777;
    assert(mode & 0o777 == mode % 512) by (bit_vector);
    is_dir && bits == 0o755
}

/// What a restore's source is found to be before anything is copied.
pub open spec fn restore_source_error(backup_path: Seq<char>, exists: bool, is_dir: bool, file_count: nat) -> Option<Seq<char>> {
    if !exists {
        Some("Backup directory does not exist: "@ + quoted(backup_path))
    } else if !is_dir {
        Some("Backup path is not a directory: "@ + quoted(backup_path))
    } else if file_count == 0 {
        Some("No backup files found"@)
    } else {
        None
    }
}

/// What the next copy of a backup file does.
#[derive(Debug, Clone)]
pub enum CopyStep {
    /// The file was copied.
    Done,
    /// Try again, with this many attempts left.
    Retry(u32),
    /// Give up with this error.
    Fail(PostgresError),
}

/// Snapshot backup manager for logical backups
pub struct SnapshotBackupManager {
    config: PostgresConfig,
    backup_dir: String,
}

impl SnapshotBackupManager {
    /// The server's connection settings.
    pub closed spec fn spec_config(&self) -> PostgresConfig {
        self.config
    }

    /// The directory under which backups are written.
    pub closed spec fn spec_backup_dir(&self) -> String {
        self.backup_dir
    }

    /// Create a new snapshot backup manager
    pub fn new(config: PostgresConfig, backup_dir: String) -> (r: Self)
        ensures
            r.spec_config() == config,
            r.spec_backup_dir() == backup_dir,
    {
        SnapshotBackupManager { config, backup_dir }
    }

    /// Checks the base backup directory (already created when missing): a
    /// directory with permissions 0o755.
    pub fn check_base_dir(&self, is_dir: bool, mode: u32) -> (r: Result<(), PostgresError>)
        ensures
            has_backup_permissions(is_dir, mode) ==> r is Ok,
            !has_backup_permissions(is_dir, mode) ==> (r matches Err(PostgresError::BackupError(m))
                && m@ == "Base backup directory has incorrect permissions: "@ + quoted(self.spec_backup_dir()@)),
    {
        if backup_permissions_ok(is_dir, mode) {
            Ok(())
        } else {
            let q = quote(self.backup_dir.as_str());
            Err(PostgresError::BackupError(concat2("Base backup directory has incorrect permissions: ", q.as_str())))
        }
    }

    /// Checks the backup's own directory after it was created and given
    /// permissions 0o755.
    pub fn check_created_dir(backup_path: &str, is_dir: bool, mode: u32) -> (r: Result<(), PostgresError>)
        ensures
            has_backup_permissions(is_dir, mode) ==> r is Ok,
            !has_backup_permissions(is_dir, mode) ==> (r matches Err(PostgresError::BackupError(m))
                && m@ == "Failed to create backup directory with correct permissions: "@ + quoted(backup_path@)),
    {
        if backup_permissions_ok(is_dir, mode) {
            Ok(())
        } else {
            let q = quote(backup_path);
            Err(
                PostgresError::BackupError(
                    concat2("Failed to create backup directory with correct permissions: ", q.as_str()),
                ),
            )
        }
    }

    /// The directory of the backup started with the given stamp:
    /// `snapshot_backup_{timestamp}` under the backup directory.
    pub fn backup_path(&self, timestamp: &str) -> (r: String)
        ensures
            r@ == path_join(self.spec_backup_dir()@, backup_dir_name("snapshot_backup_"@, timestamp@)),
    {
        backup_path_for(self.backup_dir.as_str(), "snapshot_backup_", timestamp)
    }

    /// The dump file of backup `id`: `snapshot_{id}.dump` in its directory.
    pub fn dump_file(backup_path: &str, id: u128) -> (r: String)
        ensures
            r@ == path_join(backup_path@, "snapshot_"@ + uuid_hyphenated(id as nat) + ".dump"@),
    {
        let text = uuid_text(id);
        let mut name = owned("snapshot_");
        push_str(&mut name, text.as_str());
        push_str(&mut name, ".dump");
        join_path(backup_path, name.as_str())
    }

    /// The pg_dump run of the backup: the database in the custom format,
    /// compressed at level 9, cleaning existing objects first. The server's
    /// password is required.
    pub fn dump_options(&self, file: &str) -> (r: PgDumpOptions)
        requires
            self.spec_config().password is Some,
        ensures
            r.host == self.spec_config().host,
            r.port == self.spec_config().port,
            r.username == self.spec_config().user,
            r.password == self.spec_config().password->0,
            r.database == self.spec_config().database,
            r.file@ == file@,
            r.format == PgDumpFormat::Custom,
            r.compress == Some(9u32),
            !r.schema_only,
            !r.data_only,
            r.clean,
            r.if_exists,
            r.verbose,
            r.schemas@.len() == 0,
            r.tables@.len() == 0,
            r.exclude_tables@.len() == 0,
    {
        let password = match &self.config.password {
            Some(p) => p.clone(),
            None => String::new(),
        };
        PgDumpOptions {
            host: self.config.host.clone(),
            port: self.config.port,
            username: self.config.user.clone(),
            password,
            database: self.config.database.clone(),
            file: owned(file),
            format: PgDumpFormat::Custom,
            compress: Some(9),
            schema_only: false,
            data_only: false,
            clean: true,
            if_exists: true,
            verbose: true,
            schemas: Vec::new(),
            tables: Vec::new(),
            exclude_tables: Vec::new(),
        }
    }

    /// What the pg_dump run makes of the backup record: on success (the
    /// size measured after it), the backup completed at `now` with the
    /// placeholder WAL positions; on failure, the backup error.
    pub fn finish_backup(backup: Backup, outcome: Result<u64, String>, now: i64) -> (r: Result<Backup, PostgresError>)
        ensures
            match outcome {
                Ok(size) => r matches Ok(b) && b.status == BackupStatus::Completed && b.end_time == Some(now)
                    && b.size_bytes == Some(size) && (b.wal_start matches Some(w) && w@ == wal_placeholder())
                    && (b.wal_end matches Some(w) && w@ == wal_placeholder()) && b.id == backup.id
                    && b.backup_type == backup.backup_type && b.start_time == backup.start_time
                    && b.base_backup_id == backup.base_backup_id && b.backup_path == backup.backup_path
                    && b.server_version == backup.server_version && b.error_message == backup.error_message,
                Err(_) => r matches Err(PostgresError::BackupError(m)) && m@ == "Snapshot backup failed"@,
            },
    {
        match outcome {
            Ok(size) => {
                let mut b = backup;
                b.wal_start = Some(owned("0/0000000"));
                b.complete_at(now, owned("0/0000000"), size);
                Ok(b)
            },
            Err(_) => Err(PostgresError::BackupError(owned("Snapshot backup failed"))),
        }
    }

    /// Checks a restore's source before copying: it exists, is a directory
    /// and holds files.
    pub fn check_restore_source(backup_path: &str, exists: bool, is_dir: bool, file_count: usize) -> (r: Result<
        (),
        PostgresError,
    >)
        ensures
            match restore_source_error(backup_path@, exists, is_dir, file_count as nat) {
                Some(m) => r matches Err(PostgresError::RestoreError(e)) && e@ == m,
                None => r is Ok,
            },
    {
        if !exists {
            let q = quote(backup_path);
            return Err(PostgresError::RestoreError(concat2("Backup directory does not exist: ", q.as_str())));
        }
        if !is_dir {
            let q = quote(backup_path);
            return Err(PostgresError::RestoreError(concat2("Backup path is not a directory: ", q.as_str())));
        }
        if file_count == 0 {
            return Err(PostgresError::RestoreError(owned("No backup files found")));
        }
        Ok(())
    }

    /// The error of a listed backup file that has disappeared.
    pub fn missing_file(file: &str) -> (r: PostgresError)
        ensures
            r matches PostgresError::RestoreError(m) && m@ == "Backup file does not exist: "@ + quoted(file@),
    {
        let q = quote(file);
        PostgresError::RestoreError(concat2("Backup file does not exist: ", q.as_str()))
    }

    /// What follows an attempt to copy `source` to `dest` with `retries`
    /// attempts left (three at first): done on success; on failure, another
    /// attempt while more than one is left, else the restore error.
    pub fn after_copy_attempt(retries: u32, outcome: &Result<(), String>, source: &str, dest: &str) -> (r: CopyStep)
        requires
            retries > 0,
        ensures
            outcome is Ok ==> r is Done,
            (outcome is Err && retries > 1) ==> r == CopyStep::Retry((retries - 1) as u32),
            match outcome {
                Err(e) => retries <= 1 ==> (r matches CopyStep::Fail(PostgresError::RestoreError(m))
                    && m@ == "Failed to copy "@ + source@ + " to "@ + dest@ + " after 3 attempts: "@ + e@),
                Ok(_) => true,
            },
    {
        match outcome {
            Ok(()) => CopyStep::Done,
            Err(e) => if retries > 1 {
                CopyStep::Retry(retries - 1)
            } else {
                let mut m = owned("Failed to copy ");
                push_str(&mut m, source);
                push_str(&mut m, " to ");
                push_str(&mut m, dest);
                push_str(&mut m, " after 3 attempts: ");
                push_str(&mut m, e.as_str());
                CopyStep::Fail(PostgresError::RestoreError(m))
            },
        }
    }
}

} // verus!
