//! Incremental backups: the WAL written since the latest full backup.

use vstd::prelude::*;
use crate::backup::{backup_dir_name, backup_path_for, PostgresError};
use crate::common::{latest_full, Backup, BackupCatalog, BackupStatus, PostgresConfig};
use crate::text::{
    byte_len, byte_len_of, chars_of, join_path, owned, path_join, push_str, starts_with_seq,
    starts_with_str, texts,
};

verus! {

/// A file of `pg_wal` is a WAL segment: its name is 24 bytes long and
/// starts with `0000000`.
pub open spec fn is_wal_segment_name(name: Seq<char>) -> bool {
    byte_len(name) == 24 && starts_with_seq(name, "0000000"@)
}

/// The names of WAL segments among the names, in order.
pub open spec fn wal_segment_names(names: Seq<Seq<char>>) -> Seq<Seq<char>> {
    names.filter(|n: Seq<char>| is_wal_segment_name(n))
}

/// The query listing the WAL files that hold two positions.
pub open spec fn walfile_query_text(start_lsn: Seq<char>, current_lsn: Seq<char>) -> Seq<char> {
    "SELECT file_name FROM pg_walfile_name_offset('"@ + start_lsn
        + "') \n                            UNION \n                            SELECT file_name FROM pg_walfile_name_offset('"@
        + current_lsn + "')"@
}

/// The names whose copy succeeded, in order.
pub open spec fn copied_names(names: Seq<Seq<char>>, copied: Seq<bool>) -> Seq<Seq<char>>
    decreases names.len(),
{
    if names.len() == 0 {
        Seq::empty()
    } else {
        let prev = copied_names(names.drop_last(), copied);
        if copied[names.len() - 1] {
            prev.push(names.last())
        } else {
            prev
        }
    }
}

/// Incremental backup manager
pub struct IncrementalBackupManager {
    config: PostgresConfig,
    backup_dir: String,
    catalog: BackupCatalog,
}

impl IncrementalBackupManager {
    /// The server's connection settings.
    pub closed spec fn spec_config(&self) -> PostgresConfig {
        self.config
    }

    /// The directory under which backups are written.
    pub closed spec fn spec_backup_dir(&self) -> String {
        self.backup_dir
    }

    /// The catalog in which the base backup is looked up.
    pub closed spec fn spec_catalog(&self) -> BackupCatalog {
        self.catalog
    }

    /// Create a new incremental backup manager
    pub fn new(config: PostgresConfig, backup_dir: String, catalog: BackupCatalog) -> (r: Self)
        ensures
            r.spec_config() == config,
            r.spec_backup_dir() == backup_dir,
            r.spec_catalog() == catalog,
    {
        IncrementalBackupManager { config, backup_dir, catalog }
    }

    /// The full backup an incremental backup builds on: the catalog's latest
    /// completed full backup.
    pub fn base_backup(&self) -> (r: Result<&Backup, PostgresError>)
        ensures
            match latest_full(self.spec_catalog().backups@) {
                Some(b) => r == Ok::<&Backup, PostgresError>(&b),
                None => r matches Err(PostgresError::BackupError(m))
                    && m@ == "No full backup found to base incremental backup on"@,
            },
    {
        match self.catalog.get_latest_full_backup() {
            Some(b) => Ok(b),
            None => Err(PostgresError::BackupError(owned("No full backup found to base incremental backup on"))),
        }
    }

    /// The directory of the backup started with the given stamp:
    /// `incremental_backup_{timestamp}` under the backup directory.
    pub fn backup_path(&self, timestamp: &str) -> (r: String)
        ensures
            r@ == path_join(self.spec_backup_dir()@, backup_dir_name("incremental_backup_"@, timestamp@)),
    {
        backup_path_for(self.backup_dir.as_str(), "incremental_backup_", timestamp)
    }

    /// Where the WAL of the backup starts, when the base backup recorded its
    /// end; otherwise the server's current position is used.
    pub fn known_wal_start(base: &Backup) -> (r: Option<String>)
        ensures
            r == base.wal_end,
    {
        base.wal_end.clone()
    }

    /// The directory the archived WAL is copied to.
    pub fn wal_dir(backup_path: &str) -> (r: String)
        ensures
            r@ == path_join(backup_path@, "pg_wal"@),
    {
        join_path(backup_path, "pg_wal")
    }

    /// The query listing the WAL files that hold the start and the current
    /// positions.
    pub fn walfile_query(start_lsn: &str, current_lsn: &str) -> (r: String)
        ensures
            r@ == walfile_query_text(start_lsn@, current_lsn@),
    {
        let mut q = owned("SELECT file_name FROM pg_walfile_name_offset('");
        push_str(&mut q, start_lsn);
        push_str(
            &mut q,
            "') \n                            UNION \n                            SELECT file_name FROM pg_walfile_name_offset('",
        );
        push_str(&mut q, current_lsn);
        push_str(&mut q, "')");
        q
    }

    /// Is this file of `pg_wal` a WAL segment?
    pub fn is_wal_segment(name: &str) -> (r: bool)
        ensures
            r == is_wal_segment_name(name@),
    {
        let v = chars_of(name);
        let n = byte_len_of(&v);
        n == 24 && starts_with_str(name, "0000000")
    }

    /// The WAL segments among the regular files of `pg_wal`, in order.
    pub fn wal_segments(names: &Vec<String>) -> (r: Vec<String>)
        ensures
            texts(r@) == wal_segment_names(texts(names@)),
    {
        let ghost pred = |n: Seq<char>| is_wal_segment_name(n);
        let mut out: Vec<String> = Vec::new();
        let mut i: usize = 0;
        while i < names.len()
            invariant
                i <= names@.len(),
                pred == (|n: Seq<char>| is_wal_segment_name(n)),
                texts(out@) == texts(names@).take(i as int).filter(pred),
            decreases names@.len() - i,
        {
            proof {
                assert(texts(names@).take(i + 1) =~= texts(names@).take(i as int).push(names@[i as int]@));
                texts(names@).take(i as int).lemma_filter_push(names@[i as int]@, pred);
            }
            if Self::is_wal_segment(names[i].as_str()) {
                let ghost before = out@;
                out.push(names[i].clone());
                proof {
                    assert(texts(out@) =~= texts(before).push(names@[i as int]@));
                }
            }
            i = i + 1;
        }
        proof {
            assert(texts(names@).take(names@.len() as int) =~= texts(names@));
        }
        out
    }

    /// The segments whose copy succeeded (`copied`, one flag per name), in
    /// order: the files the backup archived.
    pub fn archived_files(names: &Vec<String>, copied: &Vec<bool>) -> (r: Vec<String>)
        requires
            copied@.len() == names@.len(),
        ensures
            texts(r@) == copied_names(texts(names@), copied@),
    {
        let mut out: Vec<String> = Vec::new();
        let mut i: usize = 0;
        while i < names.len()
            invariant
                i <= names@.len(),
                copied@.len() == names@.len(),
                texts(out@) == copied_names(texts(names@).take(i as int), copied@),
            decreases names@.len() - i,
        {
            proof {
                assert(texts(names@).take(i + 1).drop_last() =~= texts(names@).take(i as int));
                assert(texts(names@).take(i + 1).last() == names@[i as int]@);
            }
            if copied[i] {
                let ghost before = out@;
                out.push(names[i].clone());
                proof {
                    assert(texts(out@) =~= texts(before).push(names@[i as int]@));
                }
            }
            i = i + 1;
        }
        proof {
            assert(texts(names@).take(names@.len() as int) =~= texts(names@));
        }
        out
    }

    /// The completed incremental backup: its WAL from `wal_start` to
    /// `wal_end`, its size, completed at `now`.
    pub fn finish_backup(backup: Backup, wal_start: String, wal_end: String, size: u64, now: i64) -> (r: Backup)
        ensures
            r == (Backup {
                status: BackupStatus::Completed,
                end_time: Some(now),
                wal_start: Some(wal_start),
                wal_end: Some(wal_end),
                size_bytes: Some(size),
                ..backup
            }),
    {
        let mut b = backup;
        b.wal_start = Some(wal_start);
        b.complete_at(now, wal_end, size);
        b
    }
}

} // verus!
