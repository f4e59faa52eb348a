//! Rebuilding the metadata of backups whose objects are in remote storage
//! but whose metadata file is not.

use vstd::prelude::*;
use crate::text::{decimal, decimal_u64, push_char, push_str};
use crate::common::{BackupStatus, BackupType};
use crate::text::{
    before_char, before_char_str, concat2, concat4, contains_seq, contains_str, chars_of,
    ends_with_seq, ends_with_str, owned, str_eq, strip_prefix_or_self, strip_prefix_or_self_str,
    texts,
};

verus! {

/// An object listed from remote storage.
#[derive(Debug, Clone)]
pub struct StoredObject {
    /// The object's key.
    pub key: String,
    /// Its size in bytes, when known.
    pub size: Option<u64>,
    /// When it was last modified (milliseconds since the Unix epoch), when known.
    pub last_modified: Option<i64>,
    /// Its entity tag, when known.
    pub etag: Option<String>,
}

/// A file of a rebuilt backup record.
#[derive(Debug, Clone)]
pub struct ReconstructedFile {
    /// Path of the file within the backup.
    pub name: String,
    /// Size in bytes.
    pub size: u64,
    /// Checksum (the object's entity tag), unless checksums were skipped.
    pub checksum: Option<String>,
}

/// A backup record rebuilt from the objects of a backup. Such a record is
/// completed, has no base backup and no WAL range, and is tagged
/// `reconstructed`.
#[derive(Debug, Clone)]
pub struct ReconstructedBackup {
    pub id: String,
    pub backup_type: BackupType,
    /// The earliest modification time of the backup's objects.
    pub start_time: i64,
    /// The latest modification time of the backup's objects.
    pub end_time: Option<i64>,
    pub size_bytes: u64,
    pub server_version: String,
    pub files: Vec<ReconstructedFile>,
    pub tags: Vec<String>,
    /// The status the record is saved with.
    pub status: BackupStatus,
    pub pinned: bool,
}

/// Metadata objects are not part of any backup's content.
pub open spec fn is_metadata_key(key: Seq<char>) -> bool {
    ends_with_seq(key, "/backup_metadata.json"@) || ends_with_seq(key, ".retention_policy"@)
}

/// The key below the storage prefix.
pub open spec fn relative_key(key: Seq<char>, prefix: Seq<char>) -> Seq<char> {
    if prefix.len() == 0 {
        key
    } else {
        strip_prefix_or_self(key, prefix + "/"@)
    }
}

/// The backup an object belongs to: the first directory of its key below
/// the prefix.
pub open spec fn object_backup_id(key: Seq<char>, prefix: Seq<char>) -> Seq<char> {
    before_char(relative_key(key, prefix), '/')
}

/// The object is backup content with a backup identifier.
pub open spec fn is_grouped(o: StoredObject, prefix: Seq<char>) -> bool {
    !is_metadata_key(o.key@) && object_backup_id(o.key@, prefix).len() > 0
}

/// The object is content of the backup `id`.
pub open spec fn in_backup(o: StoredObject, prefix: Seq<char>, id: Seq<char>) -> bool {
    is_grouped(o, prefix) && object_backup_id(o.key@, prefix) == id
}

/// The identifiers of the backups that the objects hold, in the order of
/// their first object.
pub open spec fn backup_ids(objs: Seq<StoredObject>, prefix: Seq<char>) -> Seq<Seq<char>>
    decreases objs.len(),
{
    if objs.len() == 0 {
        Seq::empty()
    } else {
        let prev = backup_ids(objs.drop_last(), prefix);
        let o = objs.last();
        if is_grouped(o, prefix) && !prev.contains(object_backup_id(o.key@, prefix)) {
            prev.push(object_backup_id(o.key@, prefix))
        } else {
            prev
        }
    }
}

/// The key of the metadata file of backup `id`.
pub open spec fn metadata_key(prefix: Seq<char>, id: Seq<char>) -> Seq<char> {
    if prefix.len() == 0 {
        id + "/backup_metadata.json"@
    } else {
        prefix + "/"@ + id + "/backup_metadata.json"@
    }
}

/// Some object is the metadata file of backup `id`.
pub open spec fn has_metadata(objs: Seq<StoredObject>, prefix: Seq<char>, id: Seq<char>) -> bool {
    exists|i: int| 0 <= i < objs.len() && objs[i].key@ == metadata_key(prefix, id)
}

/// The backups that have content but no metadata file, in the order of
/// their first object.
pub open spec fn missing_metadata_ids(objs: Seq<StoredObject>, prefix: Seq<char>) -> Seq<Seq<char>> {
    backup_ids(objs, prefix).filter(|id: Seq<char>| !has_metadata(objs, prefix, id))
}

/// Total size of the objects of backup `id` whose size is known.
pub open spec fn backup_size(objs: Seq<StoredObject>, prefix: Seq<char>, id: Seq<char>) -> nat
    decreases objs.len(),
{
    if objs.len() == 0 {
        0
    } else {
        let o = objs.last();
        backup_size(objs.drop_last(), prefix, id) + if in_backup(o, prefix, id) && o.size is Some {
            o.size->0 as nat
        } else {
            0
        }
    }
}

/// The earliest known modification time of the objects of backup `id`.
pub open spec fn earliest_change(objs: Seq<StoredObject>, prefix: Seq<char>, id: Seq<char>) -> Option<i64>
    decreases objs.len(),
{
    if objs.len() == 0 {
        None
    } else {
        let prev = earliest_change(objs.drop_last(), prefix, id);
        let o = objs.last();
        if in_backup(o, prefix, id) && o.last_modified is Some {
            let t = o.last_modified->0;
            match prev {
                Some(p) => Some(if t < p { t } else { p }),
                None => Some(t),
            }
        } else {
            prev
        }
    }
}

/// The latest known modification time of the objects of backup `id`.
pub open spec fn latest_change(objs: Seq<StoredObject>, prefix: Seq<char>, id: Seq<char>) -> Option<i64>
    decreases objs.len(),
{
    if objs.len() == 0 {
        None
    } else {
        let prev = latest_change(objs.drop_last(), prefix, id);
        let o = objs.last();
        if in_backup(o, prefix, id) && o.last_modified is Some {
            let t = o.last_modified->0;
            match prev {
                Some(p) => Some(if t > p { t } else { p }),
                None => Some(t),
            }
        } else {
            prev
        }
    }
}

/// Some object of backup `id` has `part` in its key.
pub open spec fn backup_has(objs: Seq<StoredObject>, prefix: Seq<char>, id: Seq<char>, part: Seq<char>) -> bool {
    exists|i: int| 0 <= i < objs.len() && in_backup(objs[i], prefix, id) && contains_seq(objs[i].key@, part)
}

/// The type a backup's layout shows: a base directory and WAL make a full
/// backup, WAL alone an incremental one, anything else a snapshot.
pub open spec fn inferred_type(objs: Seq<StoredObject>, prefix: Seq<char>, id: Seq<char>) -> BackupType {
    let base = backup_has(objs, prefix, id, "/base"@);
    let wal = backup_has(objs, prefix, id, "/pg_wal"@);
    if base && wal {
        BackupType::Full
    } else if wal {
        BackupType::Incremental
    } else {
        BackupType::Snapshot
    }
}

/// The path of an object within backup `id`.
pub open spec fn file_name(key: Seq<char>, prefix: Seq<char>, id: Seq<char>) -> Seq<char> {
    if prefix.len() == 0 {
        strip_prefix_or_self(key, id + "/"@)
    } else {
        strip_prefix_or_self(key, prefix + "/"@ + id + "/"@)
    }
}

/// What a file entry records: its path, size and checksum.
pub open spec fn file_spec(o: StoredObject, prefix: Seq<char>, id: Seq<char>, skip_checksums: bool) -> (Seq<char>, u64, Option<Seq<char>>) {
    (
        file_name(o.key@, prefix, id),
        match o.size {
            Some(s) => s,
            None => 0,
        },
        if skip_checksums {
            None
        } else {
            match o.etag {
                Some(e) => Some(e@),
                None => None,
            }
        },
    )
}

/// The file entries of backup `id`, in object order.
pub open spec fn backup_files(objs: Seq<StoredObject>, prefix: Seq<char>, id: Seq<char>, skip_checksums: bool) -> Seq<(Seq<char>, u64, Option<Seq<char>>)>
    decreases objs.len(),
{
    if objs.len() == 0 {
        Seq::empty()
    } else {
        let prev = backup_files(objs.drop_last(), prefix, id, skip_checksums);
        let o = objs.last();
        if in_backup(o, prefix, id) {
            prev.push(file_spec(o, prefix, id, skip_checksums))
        } else {
            prev
        }
    }
}

/// What a rebuilt file entry records.
pub open spec fn file_record(f: ReconstructedFile) -> (Seq<char>, u64, Option<Seq<char>>) {
    (
        f.name@,
        f.size,
        match f.checksum {
            Some(c) => Some(c@),
            None => None,
        },
    )
}

/// Whether an object's key is that of a metadata file.
fn is_metadata_key_exec(key: &str) -> (r: bool)
    ensures
        r == is_metadata_key(key@),
{
    ends_with_str(key, "/backup_metadata.json") || ends_with_str(key, ".retention_policy")
}

/// The backup an object belongs to.
fn object_backup_id_exec(key: &str, prefix: &str) -> (r: String)
    ensures
        r@ == object_backup_id(key@, prefix@),
{
    let p = chars_of(prefix);
    if p.len() == 0 {
        before_char_str(key, '/')
    } else {
        let with_slash = concat2(prefix, "/");
        let rel = strip_prefix_or_self_str(key, with_slash.as_str());
        before_char_str(rel.as_str(), '/')
    }
}

/// Whether `v` holds the text `s`.
fn holds_text(v: &Vec<String>, s: &str) -> (r: bool)
    ensures
        r == texts(v@).contains(s@),
{
    let mut i: usize = 0;
    while i < v.len()
        invariant
            i <= v.len(),
            forall|j: int| 0 <= j < i ==> v@[j]@ != s@,
        decreases v.len() - i,
    {
        if str_eq(v[i].as_str(), s) {
            proof {
                assert(texts(v@)[i as int] == s@);
            }
            return true;
        }
        i = i + 1;
    }
    proof {
        if texts(v@).contains(s@) {
            let k = choose|k: int| 0 <= k < texts(v@).len() && texts(v@)[k] == s@;
            assert(v@[k]@ == s@);
        }
    }
    false
}

/// The identifiers of the backups the objects hold, in the order of their
/// first object.
pub fn backup_ids_of(objects: &Vec<StoredObject>, prefix: &str) -> (r: Vec<String>)
    ensures
        texts(r@) == backup_ids(objects@, prefix@),
{
    let mut ids: Vec<String> = Vec::new();
    let mut i: usize = 0;
    while i < objects.len()
        invariant
            i <= objects@.len(),
            texts(ids@) == backup_ids(objects@.take(i as int), prefix@),
        decreases objects@.len() - i,
    {
        proof {
            assert(objects@.take(i + 1).drop_last() =~= objects@.take(i as int));
            assert(objects@.take(i + 1).last() == objects@[i as int]);
        }
        let o = &objects[i];
        if !is_metadata_key_exec(o.key.as_str()) {
            let id = object_backup_id_exec(o.key.as_str(), prefix);
            if id.as_str().unicode_len() > 0 && !holds_text(&ids, id.as_str()) {
                ids.push(id);
                proof {
                    assert(texts(ids@) =~= backup_ids(objects@.take(i + 1), prefix@));
                }
            }
        }
        i = i + 1;
    }
    proof {
        assert(objects@.take(objects@.len() as int) =~= objects@);
    }
    ids
}

/// The key of the metadata file of backup `id`.
pub fn metadata_key_of(prefix: &str, id: &str) -> (r: String)
    ensures
        r@ == metadata_key(prefix@, id@),
{
    let p = chars_of(prefix);
    if p.len() == 0 {
        concat2(id, "/backup_metadata.json")
    } else {
        concat4(prefix, "/", id, "/backup_metadata.json")
    }
}

/// Whether some object is the metadata file of backup `id`.
fn has_metadata_exec(objects: &Vec<StoredObject>, prefix: &str, id: &str) -> (r: bool)
    ensures
        r == has_metadata(objects@, prefix@, id@),
{
    let key = metadata_key_of(prefix, id);
    let mut i: usize = 0;
    while i < objects.len()
        invariant
            i <= objects@.len(),
            key@ == metadata_key(prefix@, id@),
            forall|j: int| 0 <= j < i ==> objects@[j].key@ != key@,
        decreases objects@.len() - i,
    {
        if str_eq(objects[i].key.as_str(), key.as_str()) {
            return true;
        }
        i = i + 1;
    }
    false
}

/// The backups that have content but no metadata file, in the order of
/// their first object.
pub fn backups_missing_metadata(objects: &Vec<StoredObject>, prefix: &str) -> (r: Vec<String>)
    ensures
        texts(r@) == missing_metadata_ids(objects@, prefix@),
{
    let ids = backup_ids_of(objects, prefix);
    let ghost all = texts(ids@);
    let ghost pred = |id: Seq<char>| !has_metadata(objects@, prefix@, id);
    let mut out: Vec<String> = Vec::new();
    let mut k: usize = 0;
    while k < ids.len()
        invariant
            k <= ids@.len(),
            all == texts(ids@),
            all == backup_ids(objects@, prefix@),
            pred == (|id: Seq<char>| !has_metadata(objects@, prefix@, id)),
            texts(out@) == all.take(k as int).filter(pred),
        decreases ids@.len() - k,
    {
        proof {
            assert(all.take(k + 1) =~= all.take(k as int).push(all[k as int]));
            all.take(k as int).lemma_filter_push(all[k as int], pred);
        }
        if !has_metadata_exec(objects, prefix, ids[k].as_str()) {
            out.push(ids[k].clone());
            proof {
                assert(texts(out@) =~= all.take(k + 1).filter(pred));
            }
        }
        k = k + 1;
    }
    proof {
        assert(all.take(all.len() as int) =~= all);
    }
    out
}

proof fn lemma_backup_size_prefix(objs: Seq<StoredObject>, prefix: Seq<char>, id: Seq<char>, j: int)
    requires
        0 <= j <= objs.len(),
    ensures
        backup_size(objs.take(j), prefix, id) <= backup_size(objs, prefix, id),
    decreases objs.len() - j,
{
    if j < objs.len() {
        let t = objs.drop_last();
        assert(t.take(j) =~= objs.take(j));
        lemma_backup_size_prefix(t, prefix, id, j);
    } else {
        assert(objs.take(j) =~= objs);
    }
}

/// The path of an object within backup `id`.
fn file_name_exec(key: &str, prefix: &str, id: &str) -> (r: String)
    ensures
        r@ == file_name(key@, prefix@, id@),
{
    let p = chars_of(prefix);
    if p.len() == 0 {
        let lead = concat2(id, "/");
        strip_prefix_or_self_str(key, lead.as_str())
    } else {
        let lead = concat4(prefix, "/", id, "/");
        strip_prefix_or_self_str(key, lead.as_str())
    }
}

/// Rebuilds the record of backup `id` from its objects: the known sizes
/// summed, the earliest and latest modification times (`now` when none is
/// known), the type its layout shows, and one file entry per object, with
/// the entity tag as checksum unless `skip_checksums`.
pub fn reconstruct_backup(
    objects: &Vec<StoredObject>,
    prefix: &str,
    id: &str,
    server_version: &str,
    skip_checksums: bool,
    now: i64,
) -> (r: ReconstructedBackup)
    requires
        backup_size(objects@, prefix@, id@) <= u64::MAX,
    ensures
        r.id@ == id@,
        r.backup_type == inferred_type(objects@, prefix@, id@),
        r.start_time == match earliest_change(objects@, prefix@, id@) {
            Some(t) => t,
            None => now,
        },
        r.end_time == latest_change(objects@, prefix@, id@),
        r.size_bytes == backup_size(objects@, prefix@, id@),
        r.server_version@ == server_version@,
        r.files@.map_values(|f: ReconstructedFile| file_record(f)) == backup_files(
            objects@,
            prefix@,
            id@,
            skip_checksums,
        ),
        texts(r.tags@) == seq!["reconstructed"@],
        r.status == BackupStatus::Completed,
        !r.pinned,
{
    let ghost objs = objects@;
    let mut size: u64 = 0;
    let mut earliest: Option<i64> = None;
    let mut latest: Option<i64> = None;
    let mut base = false;
    let mut wal = false;
    let mut files: Vec<ReconstructedFile> = Vec::new();
    let mut i: usize = 0;
    while i < objects.len()
        invariant
            i <= objs.len(),
            objs == objects@,
            backup_size(objs, prefix@, id@) <= u64::MAX,
            size == backup_size(objs.take(i as int), prefix@, id@),
            earliest == earliest_change(objs.take(i as int), prefix@, id@),
            latest == latest_change(objs.take(i as int), prefix@, id@),
            base == backup_has(objs.take(i as int), prefix@, id@, "/base"@),
            wal == backup_has(objs.take(i as int), prefix@, id@, "/pg_wal"@),
            files@.map_values(|f: ReconstructedFile| file_record(f)) == backup_files(
                objs.take(i as int),
                prefix@,
                id@,
                skip_checksums,
            ),
        decreases objs.len() - i,
    {
        let ghost prev = objs.take(i as int);
        let ghost next = objs.take(i + 1);
        proof {
            assert(next.drop_last() =~= prev);
            assert(next.last() == objs[i as int]);
            lemma_backup_size_prefix(objs, prefix@, id@, i + 1);
        }
        let o = &objects[i];
        let mut member = false;
        if !is_metadata_key_exec(o.key.as_str()) {
            let oid = object_backup_id_exec(o.key.as_str(), prefix);
            member = oid.as_str().unicode_len() > 0 && str_eq(oid.as_str(), id);
        }
        proof {
            assert(member == in_backup(objs[i as int], prefix@, id@));
        }
        if member {
            if let Some(sz) = o.size {
                size = size + sz;
            }
            if let Some(t) = o.last_modified {
                earliest = match earliest {
                    Some(p) => Some(if t < p { t } else { p }),
                    None => Some(t),
                };
                latest = match latest {
                    Some(p) => Some(if t > p { t } else { p }),
                    None => Some(t),
                };
            }
            let kv = chars_of(o.key.as_str());
            if !base && contains_str(&kv, "/base") {
                base = true;
            }
            if !wal && contains_str(&kv, "/pg_wal") {
                wal = true;
            }
            let name = file_name_exec(o.key.as_str(), prefix, id);
            let fsize: u64 = match o.size {
                Some(s) => s,
                None => 0,
            };
            let checksum: Option<String> = if skip_checksums {
                None
            } else {
                match &o.etag {
                    Some(e) => Some(e.clone()),
                    None => None,
                }
            };
            files.push(ReconstructedFile { name, size: fsize, checksum });
            proof {
                assert(files@.map_values(|f: ReconstructedFile| file_record(f)) =~= backup_files(
                    next,
                    prefix@,
                    id@,
                    skip_checksums,
                ));
            }
        }
        proof {
            if base {
                if !backup_has(prev, prefix@, id@, "/base"@) {
                    assert(next[i as int] == objs[i as int]);
                }
                if backup_has(prev, prefix@, id@, "/base"@) {
                    let k = choose|k: int| 0 <= k < prev.len() && in_backup(prev[k], prefix@, id@) && contains_seq(prev[k].key@, "/base"@);
                    assert(next[k] == prev[k]);
                }
            } else {
                assert forall|k: int| 0 <= k < next.len() implies !(in_backup(next[k], prefix@, id@) && contains_seq(next[k].key@, "/base"@)) by {
                    if k < prev.len() {
                        assert(next[k] == prev[k]);
                    }
                }
            }
            if wal {
                if !backup_has(prev, prefix@, id@, "/pg_wal"@) {
                    assert(next[i as int] == objs[i as int]);
                }
                if backup_has(prev, prefix@, id@, "/pg_wal"@) {
                    let k = choose|k: int| 0 <= k < prev.len() && in_backup(prev[k], prefix@, id@) && contains_seq(prev[k].key@, "/pg_wal"@);
                    assert(next[k] == prev[k]);
                }
            } else {
                assert forall|k: int| 0 <= k < next.len() implies !(in_backup(next[k], prefix@, id@) && contains_seq(next[k].key@, "/pg_wal"@)) by {
                    if k < prev.len() {
                        assert(next[k] == prev[k]);
                    }
                }
            }
        }
        i = i + 1;
    }
    proof {
        assert(objs.take(objs.len() as int) =~= objs);
    }
    let backup_type = if base && wal {
        BackupType::Full
    } else if wal {
        BackupType::Incremental
    } else {
        BackupType::Snapshot
    };
    let start_time = match earliest {
        Some(t) => t,
        None => now,
    };
    let mut tags: Vec<String> = Vec::new();
    tags.push(owned("reconstructed"));
    proof {
        assert(texts(tags@) =~= seq!["reconstructed"@]);
    }
    ReconstructedBackup {
        id: owned(id),
        backup_type,
        start_time,
        end_time: latest,
        size_bytes: size,
        server_version: owned(server_version),
        files,
        tags,
        status: BackupStatus::Completed,
        pinned: false,
    }
}

// ---------------------------------------------------------------------------
// Driving a reconstruction
// ---------------------------------------------------------------------------

/// The backups whose metadata a reconstruction saves: none on a dry run;
/// otherwise those with content but no metadata file, each once, in the
/// order of their first object, so existing metadata is never overwritten.
pub fn metadata_to_save(objects: &Vec<StoredObject>, prefix: &str, dry_run: bool) -> (r: Vec<String>)
    ensures
        dry_run ==> r@.len() == 0,
        !dry_run ==> texts(r@) == missing_metadata_ids(objects@, prefix@),
{
    if dry_run {
        Vec::new()
    } else {
        backups_missing_metadata(objects, prefix)
    }
}

/// A backup whose metadata a reconstruction saves has none yet.
pub proof fn lemma_saved_backups_lack_metadata(objs: Seq<StoredObject>, prefix: Seq<char>, i: int)
    requires
        0 <= i < missing_metadata_ids(objs, prefix).len(),
    ensures
        !has_metadata(objs, prefix, missing_metadata_ids(objs, prefix)[i]),
{
    let pred = |id: Seq<char>| !has_metadata(objs, prefix, id);
    let ids = missing_metadata_ids(objs, prefix);
    assert(ids.contains(ids[i]));
    backup_ids(objs, prefix).filter_lemma(pred);
}

/// The line shown when every backup already has its metadata.
pub fn nothing_to_reconstruct() -> (r: &'static str)
    ensures
        r@ == "✅ All backups already have metadata!"@,
{
    "✅ All backups already have metadata!"
}

/// After trying to save one backup's rebuilt metadata (`None` on a dry run,
/// where nothing is saved): the count of saved records, one more after a
/// save; a failed save stops the whole run with an error naming the backup.
pub fn after_metadata_save(id: &str, saved: u64, outcome: Option<Result<(), String>>) -> (r: Result<u64, String>)
    requires
        saved < u64::MAX,
    ensures
        match outcome {
            None => r == Ok::<u64, String>(saved),
            Some(Ok(())) => r == Ok::<u64, String>((saved + 1) as u64),
            Some(Err(e)) => r matches Err(m) && m@ == "Failed to save metadata for "@ + id@ + ": "@ + e@,
        },
{
    match outcome {
        None => Ok(saved),
        Some(Ok(())) => Ok(saved + 1),
        Some(Err(e)) => {
            let mut m = concat2("Failed to save metadata for ", id);
            push_str(&mut m, ": ");
            push_str(&mut m, e.as_str());
            Err(m)
        },
    }
}

/// The closing summary of a reconstruction: after a rule of sixty `=`, on a
/// dry run how many backups need metadata, otherwise how many were rebuilt.
pub open spec fn reconstruct_summary_text(dry_run: bool, found: nat, saved: nat) -> Seq<char> {
    "\n"@ + Seq::new(60, |_i: int| '=') + "\n"@ + if dry_run {
        "🔍 Dry run complete: Found "@ + decimal(found) + " backups that need metadata\n"@
            + "   Run without --dry-run to create metadata files\n"@
    } else {
        "✅ Successfully reconstructed metadata for "@ + decimal(saved) + " backups\n"@
    }
}

/// The closing summary of a reconstruction.
pub fn reconstruct_summary(dry_run: bool, found: u64, saved: u64) -> (r: String)
    ensures
        r@ == reconstruct_summary_text(dry_run, found as nat, saved as nat),
{
    let mut out = owned("\n");
    let mut i: usize = 0;
    while i < 60
        invariant
            i <= 60,
            out@ == "\n"@ + Seq::new(i as nat, |_j: int| '='),
        decreases 60 - i,
    {
        push_char(&mut out, '=');
        proof {
            assert(Seq::new((i + 1) as nat, |_j: int| '=') =~= Seq::new(i as nat, |_j: int| '=').push('='));
        }
        i = i + 1;
    }
    push_str(&mut out, "\n");
    if dry_run {
        push_str(&mut out, "🔍 Dry run complete: Found ");
        let n = decimal_u64(found);
        push_str(&mut out, n.as_str());
        push_str(&mut out, " backups that need metadata\n");
        push_str(&mut out, "   Run without --dry-run to create metadata files\n");
    } else {
        push_str(&mut out, "✅ Successfully reconstructed metadata for ");
        let n = decimal_u64(saved);
        push_str(&mut out, n.as_str());
        push_str(&mut out, " backups\n");
    }
    proof {
        assert(out@ =~= reconstruct_summary_text(dry_run, found as nat, saved as nat));
    }
    out
}

} // verus!
