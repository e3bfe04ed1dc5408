//! Backups: archives of the database and the object files, each with a
//! manifest. This module holds the rules about names, manifests, ordering,
//! retention and the database location; reading and writing the archives is
//! the caller's part.

use vstd::prelude::*;

use crate::error::StorageError;
use crate::text::{
    chars_eq, chars_eq_str, chars_of, copy_chars, ends_with, ends_with_chars, push_all, push_str, slice_chars,
    starts_with, starts_with_chars, string_of,
};
use crate::time::{compact_stamp_text, Timestamp};

verus! {

/// The name of the database file inside an archive.
pub const DB_FILE: &'static str = "storage.db";

/// The name of the objects directory inside an archive and the data directory.
pub const OBJECTS_DIR: &'static str = "objects";

/// The archive format version written and accepted.
pub const BACKUP_VERSION: &'static str = "1";

/// The manifest stored in and beside an archive.
#[derive(Clone, Debug)]
pub struct BackupManifest {
    pub id: String,
    pub label: Option<String>,
    pub version: String,
    pub created_at: Timestamp,
    pub database_file: String,
    pub objects_dir: String,
    pub size_bytes: u64,
    pub checksum_sha256: String,
    pub bucket_count: u64,
    pub object_count: u64,
}

/// What is known of a backup.
#[derive(Clone, Debug)]
pub struct BackupInfo {
    pub id: String,
    pub label: Option<String>,
    pub filename: String,
    pub created_at: Timestamp,
    pub size_bytes: u64,
    pub checksum_sha256: String,
    pub bucket_count: u64,
    pub object_count: u64,
}

/// The archive file name for a time stamp and an identifier:
/// `backup-{stamp}-{id}.tar.gz`.
pub open spec fn archive_name_spec(stamp: Seq<char>, id: Seq<char>) -> Seq<char> {
    "backup-"@ + stamp + "-"@ + id + ".tar.gz"@
}

/// The archive file name of a backup: `backup-{YYYYMMDD-HHMMSS}-{id}.tar.gz`.
pub open spec fn backup_filename_spec(created_at: Timestamp, id: Seq<char>) -> Seq<char> {
    archive_name_spec(compact_stamp_text(created_at@.0, created_at@.1), id)
}

/// The archive file name of a backup.
pub fn backup_filename(created_at: &Timestamp, id: &str) -> (s: String)
    ensures
        s@ == backup_filename_spec(*created_at, id@),
{
    let stamp = created_at.format_compact();
    archive_name(stamp.as_str(), id)
}

/// The archive file name for a time stamp already formatted.
pub fn archive_name(stamp: &str, id: &str) -> (s: String)
    ensures
        s@ == archive_name_spec(stamp@, id@),
{
    let mut out: Vec<char> = Vec::new();
    push_str(&mut out, "backup-");
    push_str(&mut out, stamp);
    push_str(&mut out, "-");
    push_str(&mut out, id);
    push_str(&mut out, ".tar.gz");
    string_of(out.as_slice())
}

/// The label of the backup taken before restoring `id`.
pub fn safety_label(id: &str) -> (s: String)
    ensures
        s@ == "pre-restore-"@ + id@,
{
    let mut out: Vec<char> = Vec::new();
    push_str(&mut out, "pre-restore-");
    push_str(&mut out, id);
    string_of(out.as_slice())
}

/// The manifest of a backup being written: format version 1, database
/// `storage.db`, objects under `objects`, size and checksum not yet known.
pub fn new_manifest(
    id: String,
    label: Option<String>,
    created_at: Timestamp,
    bucket_count: u64,
    object_count: u64,
) -> (m: BackupManifest)
    ensures
        m.id == id,
        m.label == label,
        m.version@ == BACKUP_VERSION@,
        m.created_at == created_at,
        m.database_file@ == DB_FILE@,
        m.objects_dir@ == OBJECTS_DIR@,
        m.size_bytes == 0,
        m.checksum_sha256@.len() == 0,
        m.bucket_count == bucket_count,
        m.object_count == object_count,
{
    BackupManifest {
        id,
        label,
        version: BACKUP_VERSION.to_owned(),
        created_at,
        database_file: DB_FILE.to_owned(),
        objects_dir: OBJECTS_DIR.to_owned(),
        size_bytes: 0,
        checksum_sha256: String::new(),
        bucket_count,
        object_count,
    }
}

/// What a manifest says of the backup in the archive `filename`.
pub fn info_from_manifest(m: BackupManifest, filename: String) -> (b: BackupInfo)
    ensures
        b.id == m.id,
        b.label == m.label,
        b.filename == filename,
        b.created_at == m.created_at,
        b.size_bytes == m.size_bytes,
        b.checksum_sha256 == m.checksum_sha256,
        b.bucket_count == m.bucket_count,
        b.object_count == m.object_count,
{
    BackupInfo {
        id: m.id,
        label: m.label,
        filename,
        created_at: m.created_at,
        size_bytes: m.size_bytes,
        checksum_sha256: m.checksum_sha256,
        bucket_count: m.bucket_count,
        object_count: m.object_count,
    }
}

/// The text of `s` after its last `c` (all of it when there is none).
pub open spec fn after_last(s: Seq<char>, c: char) -> Seq<char>
    decreases s.len(),
{
    if s.len() == 0 || s.last() == c {
        Seq::empty()
    } else {
        after_last(s.drop_last(), c).push(s.last())
    }
}

/// The identifier read from an archive name without a manifest: the part
/// after the last `-` of the text between `backup-` and `.tar.gz`, or the
/// whole name when it is not of that form.
pub open spec fn id_from_filename_spec(f: Seq<char>) -> Seq<char> {
    if starts_with(f, "backup-"@) && ends_with(f.skip("backup-"@.len() as int), ".tar.gz"@) {
        let mid = f.skip("backup-"@.len() as int);
        after_last(mid.subrange(0, mid.len() - ".tar.gz"@.len()), '-')
    } else {
        f
    }
}

/// Reads the identifier of a backup from its archive name.
pub fn id_from_archive_filename(filename: &str) -> (id: String)
    ensures
        id@ == id_from_filename_spec(filename@),
{
    let f = chars_of(filename);
    let prefix = chars_of("backup-");
    let suffix = chars_of(".tar.gz");
    if !starts_with_chars(&f, &prefix) {
        return filename.to_owned();
    }
    let mid = slice_chars(&f, prefix.len(), f.len());
    assert(mid@ =~= f@.skip(prefix@.len() as int));
    if !ends_with_chars(&mid, &suffix) {
        return filename.to_owned();
    }
    let inner = slice_chars(&mid, 0, mid.len() - suffix.len());
    let mut k: usize = inner.len();
    assert(inner@.take(k as int) =~= inner@);
    assert(inner@.skip(k as int) =~= Seq::<char>::empty());
    while k > 0 && inner[k - 1] != '-'
        invariant
            k <= inner.len(),
            after_last(inner@, '-') == after_last(inner@.take(k as int), '-') + inner@.skip(
                k as int,
            ),
        decreases k,
    {
        assert(inner@.take(k as int).drop_last() =~= inner@.take(k - 1));
        assert(inner@.skip(k - 1) =~= seq![inner@[k - 1]] + inner@.skip(k as int));
        k = k - 1;
    }
    assert(after_last(inner@.take(k as int), '-') =~= Seq::<char>::empty());
    assert(inner@.skip(k as int) =~= inner@.subrange(k as int, inner@.len() as int));
    let tail = slice_chars(&inner, k, inner.len());
    string_of(tail.as_slice())
}

/// What is known of an archive without a manifest beside it: the
/// identifier read from its name, no label, and no counts.
pub fn fallback_info(filename: &str, created_at: Timestamp, size_bytes: u64, checksum_sha256: String) -> (b:
    BackupInfo)
    ensures
        b.id@ == id_from_filename_spec(filename@),
        b.label is None,
        b.filename@ == filename@,
        b.created_at == created_at,
        b.size_bytes == size_bytes,
        b.checksum_sha256 == checksum_sha256,
        b.bucket_count == 0,
        b.object_count == 0,
{
    BackupInfo {
        id: id_from_archive_filename(filename),
        label: None,
        filename: filename.to_owned(),
        created_at,
        size_bytes,
        checksum_sha256,
        bucket_count: 0,
        object_count: 0,
    }
}

/// The position of the last `.` in `s`.
pub open spec fn last_dot(s: Seq<char>) -> Option<int>
    decreases s.len(),
{
    if s.len() == 0 {
        None
    } else if s.last() == '.' {
        Some(s.len() - 1)
    } else {
        last_dot(s.drop_last())
    }
}

/// The extension of a file name as `Path::extension` reads it: the text after
/// the last `.`, unless that dot starts the name or the name is `..`.
pub open spec fn extension_of(name: Seq<char>) -> Option<Seq<char>> {
    if name == ".."@ {
        None
    } else {
        match last_dot(name) {
            Some(i) => if i == 0 {
                None
            } else {
                Some(name.skip(i + 1))
            },
            None => None,
        }
    }
}

/// The position of the last `.` in `v`.
fn find_last_dot(v: &Vec<char>) -> (r: Option<usize>)
    ensures
        match r {
            Some(i) => last_dot(v@) == Some(i as int) && i < v@.len(),
            None => last_dot(v@) is None,
        },
{
    let mut k: usize = v.len();
    assert(v@.take(k as int) =~= v@);
    while k > 0 && v[k - 1] != '.'
        invariant
            k <= v.len(),
            last_dot(v@) == last_dot(v@.take(k as int)),
        decreases k,
    {
        assert(v@.take(k as int).drop_last() =~= v@.take(k - 1));
        k = k - 1;
    }
    if k == 0 {
        assert(v@.take(0) =~= Seq::<char>::empty());
        None
    } else {
        Some(k - 1)
    }
}

/// Whether a directory entry is a backup archive: its extension is `gz`.
pub fn is_archive_name(name: &str) -> (b: bool)
    ensures
        b == (extension_of(name@) == Some("gz"@)),
{
    let v = chars_of(name);
    if chars_eq_str(&v, "..") {
        return false;
    }
    match find_last_dot(&v) {
        Some(i) => {
            if i == 0 {
                return false;
            }
            assert(i < v.len());
            let ext = slice_chars(&v, i + 1, v.len());
            assert(ext@ =~= v@.skip(i + 1));
            chars_eq_str(&ext, "gz")
        },
        None => false,
    }
}

/// What `Path::with_extension("json")` makes of a file name (no `/`): the
/// name up to its last `.` then `.json` when it has an extension, the name
/// then `.json` when it has none, and the name itself when it names no file
/// (empty, `.` or `..`).
pub open spec fn sidecar_spec(name: Seq<char>) -> Seq<char> {
    if name.len() == 0 || name == "."@ || name == ".."@ {
        name
    } else {
        match extension_of(name) {
            Some(_) => name.take(last_dot(name)->0) + ".json"@,
            None => name + ".json"@,
        }
    }
}

/// The name of the manifest kept beside an archive.
pub fn sidecar_name(name: &str) -> (s: String)
    ensures
        s@ == sidecar_spec(name@),
{
    let v = chars_of(name);
    if v.len() == 0 || chars_eq_str(&v, ".") || chars_eq_str(&v, "..") {
        return name.to_owned();
    }
    let mut out = match find_last_dot(&v) {
        Some(i) => {
            if i > 0 {
                slice_chars(&v, 0, i)
            } else {
                copy_chars(&v)
            }
        },
        None => copy_chars(&v),
    };
    push_str(&mut out, ".json");
    string_of(out.as_slice())
}

/// Whether `a` is as late as `b` or later.
pub open spec fn not_earlier(a: Timestamp, b: Timestamp) -> bool {
    a@.0 > b@.0 || (a@.0 == b@.0 && a@.1 >= b@.1)
}

/// Newest first.
pub open spec fn newest_first(s: Seq<BackupInfo>) -> bool {
    forall|i: int, j: int|
        0 <= i < j < s.len() ==> not_earlier(#[trigger] s[i].created_at, #[trigger] s[j].created_at)
}

/// The backups of a list made at instant `t`, in list order.
pub open spec fn made_at(s: Seq<BackupInfo>, t: Timestamp) -> Seq<BackupInfo> {
    s.filter(|b: BackupInfo| b.created_at == t)
}

/// Putting `x` into a list before every entry of another instant keeps, for
/// each instant, the order of the backups made then.
proof fn lemma_insert_keeps_made_at(
    out0: Seq<BackupInfo>,
    p: int,
    x: BackupInfo,
    rest: Seq<BackupInfo>,
    t: Timestamp,
)
    requires
        0 <= p <= out0.len(),
        forall|j: int| p <= j < out0.len() ==> (#[trigger] out0[j]).created_at != x.created_at,
    ensures
        made_at(out0.insert(p, x), t) + made_at(rest, t) == made_at(out0, t) + made_at(
            seq![x] + rest,
            t,
        ),
{
    let pred = |b: BackupInfo| b.created_at == t;
    let front = out0.take(p);
    let back = out0.skip(p);
    assert(out0.insert(p, x) =~= front + seq![x] + back);
    assert(out0 =~= front + back);
    Seq::filter_distributes_over_add(front + seq![x], back, pred);
    Seq::filter_distributes_over_add(front, seq![x], pred);
    Seq::filter_distributes_over_add(front, back, pred);
    rest.lemma_filter_prepend(x, pred);
    Seq::<BackupInfo>::empty().lemma_filter_prepend(x, pred);
    assert(seq![x] + Seq::<BackupInfo>::empty() =~= seq![x]);
    reveal(Seq::filter);
    assert(Seq::<BackupInfo>::empty().filter(pred) =~= Seq::<BackupInfo>::empty());
    if x.created_at == t {
        assert(back.all(|b: BackupInfo| !pred(b))) by {
            assert forall|i: int| 0 <= i < back.len() implies !pred(#[trigger] back[i]) by {
                assert(back[i] == out0[p + i]);
            }
        }
        back.lemma_all_neg_filter_empty(pred);
        assert(back.filter(pred) =~= Seq::<BackupInfo>::empty());
        assert(made_at(out0.insert(p, x), t) + made_at(rest, t) =~= made_at(out0, t) + made_at(
            seq![x] + rest,
            t,
        ));
    } else {
        assert(made_at(out0.insert(p, x), t) + made_at(rest, t) =~= made_at(out0, t) + made_at(
            seq![x] + rest,
            t,
        ));
    }
}

/// Whether `a` is strictly later than `b`.
fn later(a: &Timestamp, b: &Timestamp) -> (r: bool)
    ensures
        r == !not_earlier(*b, *a),
{
    a.is_after(b)
}

/// Orders backups newest first; backups made at the same instant keep their
/// order.
pub fn sort_newest_first(v: Vec<BackupInfo>) -> (r: Vec<BackupInfo>)
    ensures
        newest_first(r@),
        r@.to_multiset() == v@.to_multiset(),
        forall|t: Timestamp| #[trigger] made_at(r@, t) == made_at(v@, t),
{
    broadcast use vstd::seq_lib::to_multiset_insert, vstd::seq_lib::to_multiset_remove;

    let ghost all = v@;
    let mut rest = v;
    let mut out: Vec<BackupInfo> = Vec::new();
    assert(out@.to_multiset().add(rest@.to_multiset()) =~= all.to_multiset()) by {
        broadcast use vstd::multiset::group_multiset_axioms, vstd::seq_lib::to_multiset_len;
        broadcast use vstd::multiset::lemma_multiset_empty_len;

        assert(out@.to_multiset().len() == 0);
        assert(out@.to_multiset() =~= vstd::multiset::Multiset::<BackupInfo>::empty());
    }
    assert forall|t: Timestamp| #[trigger] made_at(out@, t) + made_at(rest@, t) == made_at(all, t) by {
        reveal(Seq::filter);
        assert(made_at(out@, t) =~= Seq::<BackupInfo>::empty());
        assert(made_at(out@, t) + made_at(rest@, t) =~= made_at(all, t));
    }
    while rest.len() > 0
        invariant
            newest_first(out@),
            out@.to_multiset().add(rest@.to_multiset()) == all.to_multiset(),
            forall|t: Timestamp| #[trigger] made_at(out@, t) + made_at(rest@, t) == made_at(all, t),
        decreases rest.len(),
    {
        let ghost rest0 = rest@;
        let ghost out0 = out@;
        let x = rest.remove(0);
        assert(rest@ == rest0.remove(0));
        let mut p: usize = 0;
        while p < out.len() && !later(&x.created_at, &out[p].created_at)
            invariant
                p <= out.len(),
                out@ == out0,
                forall|j: int| 0 <= j < p ==> not_earlier(#[trigger] out0[j].created_at, x.created_at),
            decreases out.len() - p,
        {
            p = p + 1;
        }
        out.insert(p, x);
        assert(out@ == out0.insert(p as int, x));
        assert forall|t: Timestamp| #[trigger] made_at(out@, t) + made_at(rest@, t) == made_at(
            all,
            t,
        ) by {
            assert forall|j: int| p <= j < out0.len() implies (#[trigger] out0[j]).created_at
                != x.created_at by {
                assert(!not_earlier(out0[p as int].created_at, x.created_at));
                if j > p {
                    assert(not_earlier(out0[p as int].created_at, out0[j].created_at));
                }
            }
            assert(rest0 =~= seq![x] + rest@);
            lemma_insert_keeps_made_at(out0, p as int, x, rest@, t);
        }
        assert forall|a: int, b: int| 0 <= a < b < out@.len() implies not_earlier(
            #[trigger] out@[a].created_at,
            #[trigger] out@[b].created_at,
        ) by {
            if b < p {
                assert(out@[a] == out0[a] && out@[b] == out0[b]);
            } else if b == p {
                assert(out@[a] == out0[a]);
            } else if a == p {
                assert(out@[b] == out0[b - 1]);
                if p < out0.len() {
                    assert(!not_earlier(out0[p as int].created_at, x.created_at));
                    if b - 1 > p {
                        assert(not_earlier(out0[p as int].created_at, out0[b - 1].created_at));
                    }
                }
            } else if a < p {
                assert(out@[a] == out0[a] && out@[b] == out0[b - 1]);
            } else {
                assert(out@[a] == out0[a - 1] && out@[b] == out0[b - 1]);
            }
        }
        assert(out@.to_multiset().add(rest@.to_multiset()) =~= all.to_multiset()) by {
            broadcast use vstd::multiset::group_multiset_axioms;
            broadcast use vstd::seq_lib::to_multiset_contains;

            assert(p <= out0.len());
            assert(rest0.len() > 0);
            vstd::seq_lib::to_multiset_insert(out0, p as int, x);
            vstd::seq_lib::to_multiset_remove(rest0, 0);
            assert(rest0.contains(x));
            assert(rest0.to_multiset().count(x) > 0);
        }
    }
    assert(rest@ =~= Seq::<BackupInfo>::empty());
    assert forall|t: Timestamp| #[trigger] made_at(out@, t) == made_at(all, t) by {
        reveal(Seq::filter);
        assert(made_at(rest@, t) =~= Seq::<BackupInfo>::empty());
        assert(made_at(out@, t) + made_at(rest@, t) =~= made_at(out@, t));
    }
    assert(out@.to_multiset() =~= all.to_multiset()) by {
        broadcast use vstd::multiset::group_multiset_axioms, vstd::seq_lib::to_multiset_len;
        broadcast use vstd::multiset::lemma_multiset_empty_len;

        assert(rest@.to_multiset().len() == 0);
        assert(rest@.to_multiset() =~= vstd::multiset::Multiset::<BackupInfo>::empty());
    }
    out
}

/// The identifiers of a list of backups.
pub open spec fn id_views(s: Seq<BackupInfo>) -> Seq<Seq<char>> {
    s.map_values(|b: BackupInfo| b.id@)
}

/// The views of a list of strings.
pub open spec fn text_views(v: Seq<String>) -> Seq<Seq<char>> {
    v.map_values(|s: String| s@)
}

/// The identifiers of the backups that retention removes from a newest-first
/// list: all but the first `retention_count`; none when the count is 0.
pub open spec fn pruned_ids(backups: Seq<BackupInfo>, retention_count: int) -> Seq<Seq<char>> {
    if retention_count == 0 || backups.len() <= retention_count {
        Seq::empty()
    } else {
        id_views(backups.skip(retention_count))
    }
}

/// The identifiers of the backups that retention removes.
pub fn backups_to_prune(backups: &Vec<BackupInfo>, retention_count: usize) -> (ids: Vec<String>)
    ensures
        text_views(ids@) == pruned_ids(backups@, retention_count as int),
{
    let mut ids: Vec<String> = Vec::new();
    if retention_count == 0 || backups.len() <= retention_count {
        assert(text_views(ids@) =~= pruned_ids(backups@, retention_count as int));
        return ids;
    }
    let mut i: usize = retention_count;
    while i < backups.len()
        invariant
            retention_count <= i <= backups.len(),
            text_views(ids@) == id_views(backups@.subrange(retention_count as int, i as int)),
        decreases backups.len() - i,
    {
        let ghost before = ids@;
        ids.push(backups[i].id.clone());
        assert(text_views(ids@) =~= text_views(before).push(backups@[i as int].id@));
        i = i + 1;
        assert(text_views(ids@) =~= id_views(backups@.subrange(retention_count as int, i as int)));
    }
    assert(backups@.subrange(retention_count as int, i as int) =~= backups@.skip(
        retention_count as int,
    ));
    ids
}

/// The archive name of the first backup with identifier `id`.
pub fn find_backup(backups: &Vec<BackupInfo>, id: &str) -> (r: Result<String, StorageError>)
    ensures
        match r {
            Ok(f) => exists|i: int|
                0 <= i < backups@.len() && backups@[i].id@ == id@ && f == backups@[i].filename
                    && forall|j: int| 0 <= j < i ==> (#[trigger] backups@[j]).id@ != id@,
            Err(StorageError::NotFound(m)) => m@ == "backup '"@ + id@ + "'"@ && forall|j: int|
                0 <= j < backups@.len() ==> (#[trigger] backups@[j]).id@ != id@,
            Err(_) => false,
        },
{
    let target = chars_of(id);
    let mut i: usize = 0;
    while i < backups.len()
        invariant
            i <= backups.len(),
            target@ == id@,
            forall|j: int| 0 <= j < i ==> (#[trigger] backups@[j]).id@ != id@,
        decreases backups.len() - i,
    {
        let c = chars_of(backups[i].id.as_str());
        if chars_eq(&c, &target) {
            return Ok(backups[i].filename.clone());
        }
        i = i + 1;
    }
    let mut out: Vec<char> = Vec::new();
    push_str(&mut out, "backup '");
    push_str(&mut out, id);
    push_str(&mut out, "'");
    Err(StorageError::NotFound(string_of(out.as_slice())))
}

/// An archive can be restored only if its manifest has format version 1.
pub fn check_manifest_version(m: &BackupManifest) -> (r: Result<(), StorageError>)
    ensures
        match r {
            Ok(()) => m.version@ == BACKUP_VERSION@,
            Err(StorageError::BadRequest(msg)) => m.version@ != BACKUP_VERSION@ && msg@
                == "versão de backup incompatível: "@ + m.version@,
            Err(_) => false,
        },
{
    let v = chars_of(m.version.as_str());
    if chars_eq_str(&v, BACKUP_VERSION) {
        return Ok(());
    }
    let mut out: Vec<char> = Vec::new();
    push_str(&mut out, "versão de backup incompatível: ");
    push_all(&mut out, &v);
    Err(StorageError::BadRequest(string_of(out.as_slice())))
}

/// `base` joined with a relative path as `PathBuf::join` does: a separator
/// is added unless `base` is empty or already ends with one.
pub open spec fn join_path(base: Seq<char>, rel: Seq<char>) -> Seq<char> {
    if base.len() == 0 || base.last() == '/' {
        base + rel
    } else {
        base + "/"@ + rel
    }
}

/// The database file named by a `sqlite://` URL, made absolute against the
/// working directory `cwd` when relative.
pub open spec fn database_path_spec(database_url: Seq<char>, cwd: Seq<char>) -> Option<Seq<char>> {
    if starts_with(database_url, "sqlite://"@) {
        let p = database_url.skip("sqlite://"@.len() as int);
        if p.len() > 0 && p[0] == '/' {
            Some(p)
        } else {
            Some(join_path(cwd, p))
        }
    } else {
        None
    }
}

/// The database file of a `sqlite://` URL; other URLs are refused. The data
/// directory plays no part.
pub fn resolve_database_path(database_url: &str, data_dir: &str, cwd: &str) -> (r: Result<
    String,
    StorageError,
>)
    ensures
        match r {
            Ok(p) => database_path_spec(database_url@, cwd@) == Some(p@),
            Err(StorageError::BadRequest(m)) => database_path_spec(database_url@, cwd@) is None
                && m@ == "database_url deve ser sqlite://"@,
            Err(_) => false,
        },
{
    let u = chars_of(database_url);
    let scheme = chars_of("sqlite://");
    if !starts_with_chars(&u, &scheme) {
        return Err(StorageError::BadRequest("database_url deve ser sqlite://".to_owned()));
    }
    let p = slice_chars(&u, scheme.len(), u.len());
    assert(p@ =~= database_url@.skip("sqlite://"@.len() as int));
    if p.len() > 0 && p[0] == '/' {
        return Ok(string_of(p.as_slice()));
    }
    let mut out = chars_of(cwd);
    if out.len() > 0 && out[out.len() - 1] != '/' {
        push_str(&mut out, "/");
    }
    push_all(&mut out, &p);
    Ok(string_of(out.as_slice()))
}

/// The text after the last `-` of `a - b` is `b` when `b` holds no `-`.
proof fn lemma_after_last_dash(a: Seq<char>, b: Seq<char>)
    requires
        forall|i: int| 0 <= i < b.len() ==> b[i] != '-',
    ensures
        after_last(a + seq!['-'] + b, '-') == b,
    decreases b.len(),
{
    let s = a + seq!['-'] + b;
    if b.len() == 0 {
        assert(s.last() == '-');
    } else {
        lemma_after_last_dash(a, b.drop_last());
        assert(s.drop_last() =~= a + seq!['-'] + b.drop_last());
        assert(b.drop_last().push(b.last()) =~= b);
    }
}

/// The identifier read back from an archive name is the one the name was
/// made with, for identifiers without `-`.
pub proof fn law_archive_name_round_trip(created_at: Timestamp, id: Seq<char>)
    requires
        forall|i: int| 0 <= i < id.len() ==> id[i] != '-',
    ensures
        id_from_filename_spec(backup_filename_spec(created_at, id)) == id,
{
    reveal_strlit("backup-");
    reveal_strlit(".tar.gz");
    reveal_strlit("-");
    let stamp = compact_stamp_text(created_at@.0, created_at@.1);
    let f = backup_filename_spec(created_at, id);
    let mid = f.skip(7);
    assert(f.subrange(0, 7) =~= "backup-"@);
    assert(mid =~= stamp + seq!['-'] + id + ".tar.gz"@);
    assert(mid.subrange(mid.len() - 7, mid.len() as int) =~= ".tar.gz"@);
    assert(mid.subrange(0, mid.len() - 7) =~= stamp + seq!['-'] + id);
    lemma_after_last_dash(stamp, id);
}

/// Retention keeps the newest backups: on a newest-first list, every backup
/// kept is at least as recent as every backup removed.
pub proof fn law_retention_keeps_newest(backups: Seq<BackupInfo>, retention_count: int, i: int, j: int)
    requires
        newest_first(backups),
        0 < retention_count,
        0 <= i < retention_count <= j < backups.len(),
    ensures
        not_earlier(backups[i].created_at, backups[j].created_at),
        pruned_ids(backups, retention_count).len() == backups.len() - retention_count,
{
}

/// With a positive retention count, at most that many backups remain once
/// the pruned ones are removed, and none is removed from a list that fits.
pub proof fn law_retention_bounds_what_remains(backups: Seq<BackupInfo>, retention_count: int)
    requires
        0 < retention_count,
    ensures
        backups.len() - pruned_ids(backups, retention_count).len() <= retention_count,
        backups.len() <= retention_count ==> pruned_ids(backups, retention_count).len() == 0,
{
}

} // verus!
