//! Full backups: a physical copy taken with pg_basebackup, with logical
//! dumps beside it.

use vstd::prelude::*;
use crate::backup::{backup_dir_name, backup_path_for, PostgresError};
use crate::common::{Backup, BackupStatus, PostgresConfig};
use crate::text::{concat2, decimal, decimal_u64, join_path, owned, path_join, texts};

verus! {

/// The settings of a pg_basebackup run.
#[derive(Debug, Clone)]
pub struct PgBaseBackupOptions {
    pub host: String,
    pub port: u16,
    pub username: String,
    pub password: String,
    /// The directory the backup is written to.
    pub pgdata: String,
    /// Output format (`t`: tar).
    pub format: String,
    /// Checkpoint mode.
    pub checkpoint: String,
    /// How the WAL is included.
    pub wal_method: String,
    /// Compression level.
    pub compress: Option<String>,
    /// Backup label.
    pub label: Option<String>,
    pub progress: bool,
    pub verbose: bool,
}

/// The arguments of the pg_dump run that writes the database, to `file`, in
/// the custom format (`c`, compressed at level 9) or as plain SQL (`p`).
pub open spec fn dump_arguments(config: PostgresConfig, file: Seq<char>, custom: bool) -> Seq<Seq<char>> {
    let head = seq![
        "-h"@,
        config.host@,
        "-p"@,
        decimal(config.port as nat),
        "-U"@,
        config.user@,
        "-F"@,
    ];
    if custom {
        head + seq!["c"@, "-f"@, file, "-v"@, "-Z"@, "9"@, config.database@]
    } else {
        head + seq!["p"@, "-f"@, file, config.database@]
    }
}

/// Full backup manager
pub struct FullBackupManager {
    config: PostgresConfig,
    backup_dir: String,
}

impl FullBackupManager {
    /// The server's connection settings.
    pub closed spec fn spec_config(&self) -> PostgresConfig {
        self.config
    }

    /// The directory under which backups are written.
    pub closed spec fn spec_backup_dir(&self) -> String {
        self.backup_dir
    }

    /// Create a new full backup manager
    pub fn new(config: PostgresConfig, backup_dir: String) -> (r: Self)
        ensures
            r.spec_config() == config,
            r.spec_backup_dir() == backup_dir,
    {
        FullBackupManager { config, backup_dir }
    }

    /// The directory of the backup started with the given stamp:
    /// `full_backup_{timestamp}` under the backup directory.
    pub fn backup_path(&self, timestamp: &str) -> (r: String)
        ensures
            r@ == path_join(self.spec_backup_dir()@, backup_dir_name("full_backup_"@, timestamp@)),
    {
        backup_path_for(self.backup_dir.as_str(), "full_backup_", timestamp)
    }

    /// The pg_basebackup run of a backup into `backup_path`: tar format, fast
    /// checkpoint, streamed WAL, compression 9, labelled with the stamp. The
    /// server's password is required.
    pub fn base_backup_options(&self, backup_path: &str, timestamp: &str) -> (r: PgBaseBackupOptions)
        requires
            self.spec_config().password is Some,
        ensures
            r.host == self.spec_config().host,
            r.port == self.spec_config().port,
            r.username == self.spec_config().user,
            r.password == self.spec_config().password->0,
            r.pgdata@ == backup_path@,
            r.format@ == "t"@,
            r.checkpoint@ == "fast"@,
            r.wal_method@ == "stream"@,
            r.compress matches Some(c) && c@ == "9"@,
            r.label matches Some(l) && l@ == "full_backup_"@ + timestamp@,
            r.progress,
            r.verbose,
    {
        let password = match &self.config.password {
            Some(p) => p.clone(),
            None => String::new(),
        };
        PgBaseBackupOptions {
            host: self.config.host.clone(),
            port: self.config.port,
            username: self.config.user.clone(),
            password,
            pgdata: owned(backup_path),
            format: owned("t"),
            checkpoint: owned("fast"),
            wal_method: owned("stream"),
            compress: Some(owned("9")),
            label: Some(concat2("full_backup_", timestamp)),
            progress: true,
            verbose: true,
        }
    }

    /// The pg_dump arguments of the logical backups written beside the
    /// physical one: `{database}.dump` in the custom format when `custom`,
    /// else `{database}.sql` as plain SQL, in `backup_path`.
    pub fn dump_args(&self, backup_path: &str, custom: bool) -> (r: Vec<String>)
        ensures
            texts(r@) == dump_arguments(
                self.spec_config(),
                path_join(backup_path@, self.spec_config().database@ + if custom {
                    ".dump"@
                } else {
                    ".sql"@
                }),
                custom,
            ),
    {
        let c = &self.config;
        let name = concat2(c.database.as_str(), if custom {
            ".dump"
        } else {
            ".sql"
        });
        let file = join_path(backup_path, name.as_str());
        let ghost file_view = file@;
        let mut r: Vec<String> = Vec::new();
        r.push(owned("-h"));
        r.push(c.host.clone());
        r.push(owned("-p"));
        r.push(decimal_u64(c.port as u64));
        r.push(owned("-U"));
        r.push(c.user.clone());
        r.push(owned("-F"));
        if custom {
            r.push(owned("c"));
            r.push(owned("-f"));
            r.push(file);
            r.push(owned("-v"));
            r.push(owned("-Z"));
            r.push(owned("9"));
        } else {
            r.push(owned("p"));
            r.push(owned("-f"));
            r.push(file);
        }
        r.push(c.database.clone());
        proof {
            assert(texts(r@) =~= dump_arguments(*c, file_view, custom));
        }
        r
    }

    /// What the pg_basebackup run makes of the backup record: on success
    /// (the WAL position and the size measured after it), the backup
    /// completed at `now`; on failure, the backup error.
    pub fn finish_backup(backup: Backup, outcome: Result<(String, u64), String>, now: i64) -> (r: Result<
        Backup,
        PostgresError,
    >)
        ensures
            match outcome {
                Ok((wal_end, size)) => r == Ok::<Backup, PostgresError>(
                    Backup {
                        status: BackupStatus::Completed,
                        end_time: Some(now),
                        wal_end: Some(wal_end),
                        size_bytes: Some(size),
                        ..backup
                    },
                ),
                Err(_) => r matches Err(PostgresError::BackupError(m)) && m@ == "Full backup failed"@,
            },
    {
        match outcome {
            Ok((wal_end, size)) => {
                let mut b = backup;
                b.complete_at(now, wal_end, size);
                Ok(b)
            },
            Err(_) => Err(PostgresError::BackupError(owned("Full backup failed"))),
        }
    }
}

} // verus!
