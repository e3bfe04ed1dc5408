//! The object model of the store and the decisions the store makes around
//! its database and file backend: object versions, storage keys, content
//! types, listing pages, and the default Firebase buckets.

use vstd::prelude::*;

use crate::api::{parse_uuid, parsed_uuid};
use crate::digest::{hex_lower, md5_hex, md5_spec};
use crate::error::StorageError;
use crate::strmap::{Entries, StringMap};
use crate::text::{
    chars_lt, chars_eq, chars_of, contains_seq, contains_chars, decimal_i64, int_decimal,
    parse_i64, parse_i64_spec, push_all, push_str, seq_lt, slice_chars, starts_with,
    starts_with_chars, string_of, lemma_seq_lt_irreflexive, lemma_seq_lt_total,
    lemma_seq_lt_transitive,
};
use crate::time::{rfc3339_instant, Timestamp};

verus! {

/// How the store treats buckets it is asked about.
#[derive(Clone, Debug)]
pub struct StoreConfig {
    pub auto_create_buckets: bool,
    pub default_bucket_location: String,
}

impl Default for StoreConfig {
    fn default() -> (c: StoreConfig)
        ensures
            c.auto_create_buckets,
            c.default_bucket_location@ == "us-central1"@,
    {
        StoreConfig { auto_create_buckets: true, default_bucket_location: "us-central1".to_owned() }
    }
}

/// A bucket.
#[derive(Clone, Debug)]
pub struct Bucket {
    pub id: String,
    pub name: String,
    pub location: String,
    pub created_at: Timestamp,
    pub updated_at: Timestamp,
}

/// The metadata of a stored object.
#[derive(Clone, Debug)]
pub struct ObjectMetadata {
    pub name: String,
    pub bucket: String,
    pub content_type: String,
    pub size: u64,
    pub md5_hash: Option<String>,
    pub crc32c: Option<String>,
    pub generation: i64,
    pub metageneration: i64,
    pub custom_metadata: StringMap,
    pub created_at: Timestamp,
    pub updated_at: Timestamp,
}

/// An object's row in the database.
#[derive(Clone, Debug)]
pub struct ObjectRecord {
    pub id: String,
    pub bucket_id: String,
    pub bucket_name: String,
    pub object_path: String,
    pub content_type: String,
    pub size: i64,
    pub md5_hash: Option<String>,
    pub generation: i64,
    pub metageneration: i64,
    pub custom_metadata: StringMap,
    pub storage_path: String,
    pub created_at: Timestamp,
    pub updated_at: Timestamp,
}

/// A new random identifier: `uuid::Uuid::new_v4()` in hyphenated text.
/// Nothing is claimed of its value, which is random.
#[verifier::external_body]
pub(crate) fn new_uuid() -> (s: String) {
    uuid::Uuid::new_v4().to_string()
}

/// The MIME type that `mime_guess` guesses from a path's extension, or
/// `application/octet-stream`.
pub uninterp spec fn guessed_content_type(path: Seq<char>) -> Seq<char>;

/// `mime_guess::from_path(path).first_or_octet_stream()` as text.
#[verifier::external_body]
fn guess_content_type(path: &str) -> (s: String)
    ensures
        s@ == guessed_content_type(path@),
{
    mime_guess::from_path(path).first_or_octet_stream().to_string()
}

impl Bucket {
    /// A bucket with the given identifier, created at `now`.
    pub fn new_at(name: &str, location: &str, id: String, now: Timestamp) -> (b: Bucket)
        ensures
            b.name@ == name@,
            b.location@ == location@,
            b.id == id,
            b.created_at == now,
            b.updated_at == now,
    {
        Bucket { id, name: name.to_owned(), location: location.to_owned(), created_at: now, updated_at: now }
    }

    /// A new bucket with a fresh identifier, created now.
    pub fn new(name: &str, location: &str) -> (b: Bucket)
        ensures
            b.name@ == name@,
            b.location@ == location@,
            b.created_at == b.updated_at,
            b.created_at@.0 >= 0,
    {
        Self::new_at(name, location, new_uuid(), Timestamp::now())
    }
}

/// An identifier read back from the database: the canonical text of the
/// UUID it holds; a text that is not a UUID is an internal error.
pub fn stored_uuid(text: &str) -> (r: Result<String, StorageError>)
    ensures
        match parsed_uuid(text@) {
            Some(u) => r matches Ok(s) && s@ == u,
            None => r matches Err(e) && e is Internal,
        },
{
    match parse_uuid(text) {
        Some(u) => Ok(u),
        None => Err(StorageError::Internal("identificador armazenado não é um UUID".to_owned())),
    }
}

/// An instant read back from the database as RFC 3339 text; a text that
/// names no instant a `Timestamp` holds is an internal error.
pub fn stored_instant(text: &str) -> (r: Result<Timestamp, StorageError>)
    ensures
        match rfc3339_instant(text@) {
            Some(v) => r matches Ok(t) && t@ == v,
            None => r matches Err(e) && e is Internal,
        },
{
    match Timestamp::from_rfc3339(text) {
        Some(t) => Ok(t),
        None => Err(StorageError::Internal("instante armazenado inválido".to_owned())),
    }
}

/// A bucket read back from its row: the identifier must be a UUID and both
/// instants RFC 3339 texts; anything else is an internal error.
pub fn bucket_from_row(
    id: &str,
    name: String,
    location: String,
    created_at: &str,
    updated_at: &str,
) -> (r: Result<Bucket, StorageError>)
    ensures
        r is Ok <==> (parsed_uuid(id@) is Some && rfc3339_instant(created_at@) is Some
            && rfc3339_instant(updated_at@) is Some),
        r matches Ok(b) ==> {
            &&& b.id@ == parsed_uuid(id@)->0
            &&& b.name == name
            &&& b.location == location
            &&& b.created_at@ == rfc3339_instant(created_at@)->0
            &&& b.updated_at@ == rfc3339_instant(updated_at@)->0
        },
        r matches Err(e) ==> e is Internal,
{
    let id = stored_uuid(id)?;
    let created_at = stored_instant(created_at)?;
    let updated_at = stored_instant(updated_at)?;
    Ok(Bucket { id, name, location, created_at, updated_at })
}

/// An object's record read back from its row: both identifiers must be
/// UUIDs and both instants RFC 3339 texts; anything else is an internal
/// error. The other columns are taken as they are.
pub fn record_from_row(
    id: &str,
    bucket_id: &str,
    bucket_name: String,
    object_path: String,
    content_type: String,
    size: i64,
    md5_hash: Option<String>,
    generation: i64,
    metageneration: i64,
    custom_metadata: StringMap,
    storage_path: String,
    created_at: &str,
    updated_at: &str,
) -> (r: Result<ObjectRecord, StorageError>)
    ensures
        r is Ok <==> (parsed_uuid(id@) is Some && parsed_uuid(bucket_id@) is Some
            && rfc3339_instant(created_at@) is Some && rfc3339_instant(updated_at@) is Some),
        r matches Ok(o) ==> {
            &&& o.id@ == parsed_uuid(id@)->0
            &&& o.bucket_id@ == parsed_uuid(bucket_id@)->0
            &&& o.bucket_name == bucket_name
            &&& o.object_path == object_path
            &&& o.content_type == content_type
            &&& o.size == size
            &&& o.md5_hash == md5_hash
            &&& o.generation == generation
            &&& o.metageneration == metageneration
            &&& o.custom_metadata@ == custom_metadata@
            &&& o.storage_path == storage_path
            &&& o.created_at@ == rfc3339_instant(created_at@)->0
            &&& o.updated_at@ == rfc3339_instant(updated_at@)->0
        },
        r matches Err(e) ==> e is Internal,
{
    let id = stored_uuid(id)?;
    let bucket_id = stored_uuid(bucket_id)?;
    let created_at = stored_instant(created_at)?;
    let updated_at = stored_instant(updated_at)?;
    Ok(
        ObjectRecord {
            id,
            bucket_id,
            bucket_name,
            object_path,
            content_type,
            size,
            md5_hash,
            generation,
            metageneration,
            custom_metadata,
            storage_path,
            created_at,
            updated_at,
        },
    )
}

/// A bucket may be deleted only when it holds no object.
pub fn check_bucket_empty(object_count: i64) -> (r: Result<(), StorageError>)
    ensures
        object_count <= 0 ==> r is Ok,
        object_count > 0 ==> (r matches Err(StorageError::BadRequest(m))
            && m@ == "bucket não está vazio; delete os objetos primeiro"@),
{
    if object_count > 0 {
        Err(StorageError::BadRequest("bucket não está vazio; delete os objetos primeiro".to_owned()))
    } else {
        Ok(())
    }
}

/// The outcome of deleting the bucket `name`: when no row was deleted, the
/// bucket did not exist.
pub fn bucket_deleted(name: &str, rows_affected: u64) -> (r: Result<(), StorageError>)
    ensures
        rows_affected > 0 ==> r is Ok,
        rows_affected == 0 ==> (r matches Err(StorageError::BucketNotFound(m)) && m@ == name@),
{
    if rows_affected == 0 {
        Err(StorageError::BucketNotFound(name.to_owned()))
    } else {
        Ok(())
    }
}

/// The metadata of a record.
pub open spec fn record_metadata(r: ObjectRecord, m: ObjectMetadata) -> bool {
    &&& m.name == r.object_path
    &&& m.bucket == r.bucket_name
    &&& m.content_type == r.content_type
    &&& m.size == r.size as u64
    &&& m.md5_hash == r.md5_hash
    &&& m.crc32c is None
    &&& m.generation == r.generation
    &&& m.metageneration == r.metageneration
    &&& m.custom_metadata@ == r.custom_metadata@
    &&& m.created_at == r.created_at
    &&& m.updated_at == r.updated_at
}

impl ObjectRecord {
    /// The metadata described by this record.
    pub fn to_metadata(&self) -> (m: ObjectMetadata)
        ensures
            record_metadata(*self, m),
    {
        ObjectMetadata {
            name: self.object_path.clone(),
            bucket: self.bucket_name.clone(),
            content_type: self.content_type.clone(),
            size: self.size as u64,
            md5_hash: self.md5_hash.clone(),
            crc32c: None,
            generation: self.generation,
            metageneration: self.metageneration,
            custom_metadata: self.custom_metadata.clone(),
            created_at: self.created_at,
            updated_at: self.updated_at,
        }
    }
}

/// What the store does next while resolving a bucket by name.
#[derive(Clone, Debug)]
pub enum BucketStep {
    /// The bucket to work with.
    Use(Bucket),
    /// The error to answer with.
    Refuse(StorageError),
    /// Create the bucket.
    Create,
    /// Look the bucket up once more (another request created it).
    LookUpAgain,
}

/// After looking a bucket up: a bucket found is used; a missing bucket is
/// created when buckets are created on demand; otherwise the lookup's error
/// is the answer.
pub fn after_lookup(auto_create: bool, found: Result<Bucket, StorageError>) -> (s: BucketStep)
    ensures
        match found {
            Ok(b) => s == BucketStep::Use(b),
            Err(e) => if auto_create && e is BucketNotFound {
                s is Create
            } else {
                s == BucketStep::Refuse(e)
            },
        },
{
    match found {
        Ok(b) => BucketStep::Use(b),
        Err(e) => {
            if auto_create {
                if let StorageError::BucketNotFound(_) = e {
                    return BucketStep::Create;
                }
            }
            BucketStep::Refuse(e)
        },
    }
}

/// After trying to create a missing bucket: the new bucket is used; if it
/// exists already (made meanwhile by another request) it is looked up once
/// more; any other error is the answer.
pub fn after_create(created: Result<Bucket, StorageError>) -> (s: BucketStep)
    ensures
        match created {
            Ok(b) => s == BucketStep::Use(b),
            Err(e) => if e is AlreadyExists {
                s is LookUpAgain
            } else {
                s == BucketStep::Refuse(e)
            },
        },
{
    match created {
        Ok(b) => BucketStep::Use(b),
        Err(StorageError::AlreadyExists(_)) => BucketStep::LookUpAgain,
        Err(e) => BucketStep::Refuse(e),
    }
}

/// Where the bytes of one generation of an object are kept:
/// `{bucket}/{generation}/{object_path}`.
pub open spec fn storage_key_spec(bucket: Seq<char>, object_path: Seq<char>, generation: int) -> Seq<
    char,
> {
    bucket + "/"@ + int_decimal(generation) + "/"@ + object_path
}

/// The backend key of one generation of an object.
pub fn storage_key(bucket: &str, object_path: &str, generation: i64) -> (s: String)
    ensures
        s@ == storage_key_spec(bucket@, object_path@, generation as int),
{
    let mut out: Vec<char> = Vec::new();
    push_str(&mut out, bucket);
    push_str(&mut out, "/");
    let g = decimal_i64(generation);
    push_all(&mut out, &g);
    push_str(&mut out, "/");
    push_str(&mut out, object_path);
    string_of(out.as_slice())
}

/// The content type of an upload: the one given, or the one guessed from
/// the object path.
pub fn content_type_for(given: Option<&str>, object_path: &str) -> (s: String)
    ensures
        s@ == match given {
            Some(ct) => ct@,
            None => guessed_content_type(object_path@),
        },
{
    match given {
        Some(ct) => ct.to_owned(),
        None => guess_content_type(object_path),
    }
}

/// The generation and metageneration of a write: one more than those of the
/// object it replaces, or 1 and 1 for a new object.
pub open spec fn versions_after_spec(existing: Option<(i64, i64)>) -> (int, int) {
    match existing {
        Some((g, m)) => (g + 1, m + 1),
        None => (1, 1),
    }
}

/// The generation and metageneration of a write.
pub fn versions_after(existing: Option<(i64, i64)>) -> (r: (i64, i64))
    requires
        existing matches Some((g, m)) ==> g < i64::MAX && m < i64::MAX,
    ensures
        (r.0 as int, r.1 as int) == versions_after_spec(existing),
{
    match existing {
        Some((g, m)) => (g + 1, m + 1),
        None => (1, 1),
    }
}

/// What a write of an object does: the metadata it results in, where its
/// bytes go, and whether it replaces an existing object.
#[derive(Clone, Debug)]
pub struct PutPlan {
    pub metadata: ObjectMetadata,
    pub storage_path: String,
    pub replaces_existing: bool,
}

/// What a write results in, given the content type and MD5 digest (in
/// hexadecimal) of the data and the versions of the object it replaces.
pub open spec fn put_plan_spec(
    p: PutPlan,
    bucket_name: Seq<char>,
    object_path: Seq<char>,
    size: u64,
    content_type: Seq<char>,
    md5_hash: Seq<char>,
    custom_metadata: Entries,
    existing: Option<(i64, i64)>,
    now: Timestamp,
) -> bool {
    let v = versions_after_spec(existing);
    &&& p.metadata.name@ == object_path
    &&& p.metadata.bucket@ == bucket_name
    &&& p.metadata.content_type@ == content_type
    &&& p.metadata.size == size
    &&& p.metadata.md5_hash matches Some(h) && h@ == md5_hash
    &&& p.metadata.crc32c is None
    &&& p.metadata.generation == v.0
    &&& p.metadata.metageneration == v.1
    &&& p.metadata.custom_metadata@ == custom_metadata
    &&& p.metadata.created_at == now
    &&& p.metadata.updated_at == now
    &&& p.storage_path@ == storage_key_spec(bucket_name, object_path, v.0)
    &&& p.replaces_existing == (v.0 > 1)
}

/// Plans the write of `data` to `bucket_name/object_path`, given the versions
/// of the object it replaces, if any.
pub fn plan_put_object(
    bucket_name: &str,
    object_path: &str,
    data: &[u8],
    content_type: Option<&str>,
    custom_metadata: StringMap,
    existing: Option<(i64, i64)>,
    now: Timestamp,
) -> (p: PutPlan)
    requires
        existing matches Some((g, m)) ==> g < i64::MAX && m < i64::MAX,
    ensures
        put_plan_spec(
            p,
            bucket_name@,
            object_path@,
            data@.len() as u64,
            match content_type {
                Some(ct) => ct@,
                None => guessed_content_type(object_path@),
            },
            hex_lower(md5_spec(data@)),
            custom_metadata@,
            existing,
            now,
        ),
{
    let content_type = content_type_for(content_type, object_path);
    let md5_hash = md5_hex(data);
    plan_put_with(
        bucket_name,
        object_path,
        data.len() as u64,
        content_type,
        md5_hash,
        custom_metadata,
        existing,
        now,
    )
}

/// Plans a write of `size` bytes whose content type and MD5 digest are known.
pub fn plan_put_with(
    bucket_name: &str,
    object_path: &str,
    size: u64,
    content_type: String,
    md5_hash: String,
    custom_metadata: StringMap,
    existing: Option<(i64, i64)>,
    now: Timestamp,
) -> (p: PutPlan)
    requires
        existing matches Some((g, m)) ==> g < i64::MAX && m < i64::MAX,
    ensures
        put_plan_spec(
            p,
            bucket_name@,
            object_path@,
            size,
            content_type@,
            md5_hash@,
            custom_metadata@,
            existing,
            now,
        ),
{
    let (generation, metageneration) = versions_after(existing);
    let storage_path = storage_key(bucket_name, object_path, generation);
    let metadata = ObjectMetadata {
        name: object_path.to_owned(),
        bucket: bucket_name.to_owned(),
        content_type,
        size,
        md5_hash: Some(md5_hash),
        crc32c: None,
        generation,
        metageneration,
        custom_metadata,
        created_at: now,
        updated_at: now,
    };
    PutPlan { metadata, storage_path, replaces_existing: generation > 1 }
}

/// The metadata of an object after its custom metadata is replaced at `now`:
/// the metageneration goes up by one, the generation stays.
pub fn metadata_after_update(record: &ObjectRecord, custom_metadata: StringMap, now: Timestamp) -> (m:
    ObjectMetadata)
    requires
        record.metageneration < i64::MAX,
    ensures
        m.name == record.object_path,
        m.bucket == record.bucket_name,
        m.content_type == record.content_type,
        m.size == record.size as u64,
        m.md5_hash == record.md5_hash,
        m.generation == record.generation,
        m.metageneration == record.metageneration + 1,
        m.custom_metadata@ == custom_metadata@,
        m.created_at == record.created_at,
        m.updated_at == now,
{
    let mut m = record.to_metadata();
    m.custom_metadata = custom_metadata;
    m.metageneration = record.metageneration + 1;
    m.updated_at = now;
    m
}

// ---------------------------------------------------------------------------
// Listing
// ---------------------------------------------------------------------------

/// The page size: the requested one, at most 1000, and 1000 by default.
pub fn page_limit(max_results: Option<u32>) -> (n: i64)
    ensures
        n == match max_results {
            Some(m) => if m < 1000 {
                m as int
            } else {
                1000
            },
            None => 1000,
        },
{
    match max_results {
        Some(m) => if m < 1000 {
            m as i64
        } else {
            1000
        },
        None => 1000,
    }
}

/// The position a page starts at: the page token read as a number, or 0.
pub fn page_offset(page_token: Option<&str>) -> (n: i64)
    ensures
        n == match page_token {
            Some(t) => match parse_i64_spec(t@) {
                Some(x) => x,
                None => 0,
            },
            None => 0,
        },
{
    match page_token {
        Some(t) => {
            let v = chars_of(t);
            match parse_i64(&v) {
                Some(x) => x,
                None => 0,
            }
        },
        None => 0,
    }
}

/// A path with `prefix` removed from its front, if it starts with it.
pub open spec fn remainder_after(path: Seq<char>, prefix: Seq<char>) -> Seq<char> {
    if starts_with(path, prefix) {
        path.skip(prefix.len() as int)
    } else {
        path
    }
}

/// The first `n` records whose object path starts with `prefix`, in order.
pub open spec fn kept_with_prefix(rows: Seq<ObjectRecord>, prefix: Seq<char>, n: int) -> Seq<
    ObjectRecord,
>
    decreases n,
{
    if n <= 0 {
        Seq::empty()
    } else if starts_with(rows[n - 1].object_path@, prefix) {
        kept_with_prefix(rows, prefix, n - 1).push(rows[n - 1])
    } else {
        kept_with_prefix(rows, prefix, n - 1)
    }
}

/// Keeps the records whose object path starts with `prefix`, in order.
pub fn keep_with_prefix(rows: Vec<ObjectRecord>, prefix: &str) -> (r: Vec<ObjectRecord>)
    ensures
        r@ == kept_with_prefix(rows@, prefix@, rows@.len() as int),
{
    let p = chars_of(prefix);
    let ghost all = rows@;
    assert(all.len() == rows.len());
    let mut rows = rows;
    let mut out: Vec<ObjectRecord> = Vec::new();
    let mut i: usize = 0;
    while rows.len() > 0
        invariant
            i <= all.len(),
            all.len() <= usize::MAX,
            rows@ == all.skip(i as int),
            p@ == prefix@,
            out@ == kept_with_prefix(all, prefix@, i as int),
        decreases rows.len(),
    {
        let row = rows.remove(0);
        assert(row == all[i as int]);
        let path = chars_of(row.object_path.as_str());
        if starts_with_chars(&path, &p) {
            out.push(row);
        }
        i = i + 1;
        assert(rows@ =~= all.skip(i as int));
    }
    out
}

/// Whether a listed object is directly under the prefix: its path after the
/// prefix does not contain the delimiter.
pub open spec fn directly_under(r: ObjectRecord, prefix: Seq<char>, delimiter: Seq<char>) -> bool {
    !contains_seq(remainder_after(r.object_path@, prefix), delimiter)
}

/// The first `n` records that are directly under the prefix, in order.
pub open spec fn kept_directly_under(
    rows: Seq<ObjectRecord>,
    prefix: Seq<char>,
    delimiter: Seq<char>,
    n: int,
) -> Seq<ObjectRecord>
    decreases n,
{
    if n <= 0 {
        Seq::empty()
    } else if directly_under(rows[n - 1], prefix, delimiter) {
        kept_directly_under(rows, prefix, delimiter, n - 1).push(rows[n - 1])
    } else {
        kept_directly_under(rows, prefix, delimiter, n - 1)
    }
}

/// A record is among the first `n` kept exactly when it is directly under
/// the prefix and is one of the first `n` rows.
proof fn lemma_kept_directly_under_contains(
    rows: Seq<ObjectRecord>,
    prefix: Seq<char>,
    delimiter: Seq<char>,
    n: int,
    x: ObjectRecord,
)
    requires
        0 <= n <= rows.len(),
    ensures
        kept_directly_under(rows, prefix, delimiter, n).contains(x) <==> (directly_under(
            x,
            prefix,
            delimiter,
        ) && exists|j: int| 0 <= j < n && rows[j] == x),
    decreases n,
{
    if n > 0 {
        lemma_kept_directly_under_contains(rows, prefix, delimiter, n - 1, x);
        let before = kept_directly_under(rows, prefix, delimiter, n - 1);
        let now = kept_directly_under(rows, prefix, delimiter, n);
        let r = rows[n - 1];
        if now.contains(x) {
            let k = choose|k: int| 0 <= k < now.len() && #[trigger] now[k] == x;
            if k < before.len() {
                assert(before[k] == x);
                assert(before.contains(x));
                let j = choose|j: int| 0 <= j < n - 1 && rows[j] == x;
                assert(0 <= j < n && rows[j] == x);
            } else {
                assert(directly_under(r, prefix, delimiter));
                assert(now == before.push(r));
                assert(x == r);
                assert(0 <= n - 1 < n && rows[n - 1] == x);
            }
        }
        if directly_under(x, prefix, delimiter) && exists|j: int| 0 <= j < n && rows[j] == x {
            let j = choose|j: int| 0 <= j < n && rows[j] == x;
            if j == n - 1 {
                assert(now == before.push(r));
                assert(now[before.len() as int] == x);
            } else {
                assert(0 <= j < n - 1 && rows[j] == x);
                assert(before.contains(x));
                let k = choose|k: int| 0 <= k < before.len() && #[trigger] before[k] == x;
                if directly_under(r, prefix, delimiter) {
                    assert(now == before.push(r));
                    assert(now[k] == x);
                } else {
                    assert(now == before);
                }
                assert(now[k] == x);
            }
        }
    }
}

/// Listing with a delimiter keeps exactly the objects directly under the
/// prefix: a row whose path is the prefix followed by a name is listed when
/// the name holds no delimiter, and left out when it does.
pub proof fn law_listed_iff_no_delimiter_past_prefix(
    rows: Seq<ObjectRecord>,
    prefix: Seq<char>,
    delimiter: Seq<char>,
    k: int,
    name: Seq<char>,
)
    requires
        0 <= k < rows.len(),
        rows[k].object_path@ == prefix + name,
    ensures
        kept_directly_under(rows, prefix, delimiter, rows.len() as int).contains(rows[k])
            <==> !contains_seq(name, delimiter),
{
    lemma_kept_directly_under_contains(rows, prefix, delimiter, rows.len() as int, rows[k]);
    assert((prefix + name).subrange(0, prefix.len() as int) =~= prefix);
    assert((prefix + name).skip(prefix.len() as int) =~= name);
}

/// Keeps the records directly under `prefix` with respect to `delimiter`.
pub fn keep_directly_under(rows: Vec<ObjectRecord>, prefix: &str, delimiter: &str) -> (r: Vec<
    ObjectRecord,
>)
    ensures
        r@ == kept_directly_under(rows@, prefix@, delimiter@, rows@.len() as int),
{
    let p = chars_of(prefix);
    let d = chars_of(delimiter);
    let ghost all = rows@;
    assert(all.len() == rows.len());
    let mut rows = rows;
    let mut out: Vec<ObjectRecord> = Vec::new();
    let mut i: usize = 0;
    while rows.len() > 0
        invariant
            i <= all.len(),
            all.len() <= usize::MAX,
            rows@ == all.skip(i as int),
            p@ == prefix@,
            d@ == delimiter@,
            out@ == kept_directly_under(all, prefix@, delimiter@, i as int),
        decreases rows.len(),
    {
        let row = rows.remove(0);
        assert(row == all[i as int]);
        let path = chars_of(row.object_path.as_str());
        let rest = if starts_with_chars(&path, &p) {
            slice_chars(&path, p.len(), path.len())
        } else {
            path
        };
        assert(rest@ =~= remainder_after(all[i as int].object_path@, prefix@));
        if !contains_chars(&rest, &d) {
            out.push(row);
        }
        i = i + 1;
        assert(rows@ =~= all.skip(i as int));
    }
    assert(i == all.len());
    out
}

/// One page of rows: at most `limit` of them, and the token of the next page
/// when the query returned more.
pub fn paginate<T>(rows: Vec<T>, limit: i64, offset: i64) -> (r: (Vec<T>, Option<String>))
    requires
        0 <= limit,
        rows@.len() > limit ==> offset + limit <= i64::MAX,
    ensures
        r.0@ == rows@.take(if rows@.len() < limit {
            rows@.len() as int
        } else {
            limit as int
        }),
        match r.1 {
            Some(t) => rows@.len() > limit && t@ == int_decimal(offset + limit),
            None => rows@.len() <= limit,
        },
{
    let has_more = rows.len() as i128 > limit as i128;
    let keep: usize = if has_more {
        limit as usize
    } else {
        rows.len()
    };
    let mut rows = rows;
    let ghost all = rows@;
    rows.truncate(keep);
    assert(rows@ =~= all.take(keep as int));
    let next = if has_more {
        let d = decimal_i64(offset + limit);
        Some(string_of(d.as_slice()))
    } else {
        None
    };
    (rows, next)
}

// ---------------------------------------------------------------------------
// Default Firebase buckets
// ---------------------------------------------------------------------------

/// Each element is smaller than every later one (sorted, no repeats).
pub open spec fn strictly_sorted(s: Seq<Seq<char>>) -> bool {
    forall|i: int, j: int| 0 <= i < j < s.len() ==> seq_lt(#[trigger] s[i], #[trigger] s[j])
}

/// The views of a vector of strings.
pub open spec fn string_views(v: Seq<String>) -> Seq<Seq<char>> {
    v.map_values(|s: String| s@)
}

/// The bucket names a Firebase project uses: the configured storage bucket
/// (when given and not empty), `{project}.firebasestorage.app`,
/// `{project}.appspot.com` and `{project}`.
pub open spec fn firebase_candidates(project_id: Seq<char>, storage_bucket: Option<Seq<char>>) -> Seq<
    Seq<char>,
> {
    let base = seq![
        project_id + ".firebasestorage.app"@,
        project_id + ".appspot.com"@,
        project_id,
    ];
    match storage_bucket {
        Some(b) => if b.len() > 0 {
            seq![b] + base
        } else {
            base
        },
        None => base,
    }
}

/// Whether `s` comes before `x` in lexicographic order.
fn string_lt_chars(s: &String, x: &Vec<char>) -> (b: bool)
    ensures
        b == seq_lt(s@, x@),
{
    let c = chars_of(s.as_str());
    chars_lt(&c, x)
}

/// Inserts `x` into a strictly sorted vector, unless it is there already.
fn insert_sorted(v: &mut Vec<String>, x: String)
    requires
        strictly_sorted(string_views(old(v)@)),
    ensures
        strictly_sorted(string_views(final(v)@)),
        string_views(final(v)@).to_set() == string_views(old(v)@).to_set().insert(x@),
{
    let xc = chars_of(x.as_str());
    let ghost s = string_views(v@);
    let mut i: usize = 0;
    while i < v.len() && string_lt_chars(&v[i], &xc)
        invariant
            i <= v.len(),
            s == string_views(v@),
            v@ == old(v)@,
            xc@ == x@,
            forall|j: int| 0 <= j < i ==> seq_lt(#[trigger] s[j], x@),
        decreases v.len() - i,
    {
        i = i + 1;
    }
    if i < v.len() {
        let yc = chars_of(v[i].as_str());
        if chars_eq(&yc, &xc) {
            assert(s.to_set() =~= s.to_set().insert(x@)) by {
                assert(s[i as int] == x@);
                assert(s.contains(x@));
            }
            return;
        }
    }
    proof {
        if i < s.len() {
            lemma_seq_lt_total(s[i as int], x@);
        }
    }
    let ghost old_s = s;
    v.insert(i, x);
    let ghost new_s = string_views(v@);
    assert(new_s =~= old_s.insert(i as int, x@));
    assert forall|a: int, b: int| 0 <= a < b < new_s.len() implies seq_lt(
        #[trigger] new_s[a],
        #[trigger] new_s[b],
    ) by {
        if b < i {
        } else if a < i && b == i {
        } else if a < i && b > i {
            assert(new_s[b] == old_s[b - 1]);
            if b - 1 > a {
            }
        } else if a == i && b > i {
            assert(new_s[b] == old_s[b - 1]);
            if b - 1 > i {
                lemma_seq_lt_transitive(x@, old_s[i as int], old_s[b - 1]);
            }
        } else {
            assert(new_s[a] == old_s[a - 1]);
            assert(new_s[b] == old_s[b - 1]);
        }
    }
    assert(new_s.to_set() =~= old_s.to_set().insert(x@)) by {
        assert forall|y: Seq<char>| new_s.to_set().contains(y) implies old_s.to_set().insert(
            x@,
        ).contains(y) by {
            let k = choose|k: int| 0 <= k < new_s.len() && new_s[k] == y;
            if k < i {
                assert(old_s[k] == y);
            } else if k > i {
                assert(old_s[k - 1] == y);
            }
        }
        assert forall|y: Seq<char>| old_s.to_set().insert(x@).contains(y) implies new_s.to_set().contains(
            y,
        ) by {
            if y == x@ {
                assert(new_s[i as int] == y);
            } else {
                let k = choose|k: int| 0 <= k < old_s.len() && old_s[k] == y;
                if k < i {
                    assert(new_s[k] == y);
                } else {
                    assert(new_s[k + 1] == y);
                }
            }
        }
    }
}

/// The default Firebase bucket names of a project, sorted and without
/// repeats.
pub fn firebase_bucket_names(project_id: &str, storage_bucket: Option<&str>) -> (names: Vec<String>)
    ensures
        strictly_sorted(string_views(names@)),
        string_views(names@).to_set() == firebase_candidates(
            project_id@,
            match storage_bucket {
                Some(b) => Some(b@),
                None => None,
            },
        ).to_set(),
{
    let ghost sb = match storage_bucket {
        Some(b) => Some(b@),
        None => None::<Seq<char>>,
    };
    let mut names: Vec<String> = Vec::new();
    assert(string_views(names@).to_set() =~= Set::<Seq<char>>::empty());
    let mut candidates: Vec<String> = Vec::new();
    match storage_bucket {
        Some(b) => {
            if chars_of(b).len() > 0 {
                candidates.push(b.to_owned());
            }
        },
        None => {},
    }
    let mut a: Vec<char> = chars_of(project_id);
    push_str(&mut a, ".firebasestorage.app");
    candidates.push(string_of(a.as_slice()));
    let mut b: Vec<char> = chars_of(project_id);
    push_str(&mut b, ".appspot.com");
    candidates.push(string_of(b.as_slice()));
    candidates.push(project_id.to_owned());
    assert(string_views(candidates@) =~= firebase_candidates(project_id@, sb));
    let mut i: usize = 0;
    while i < candidates.len()
        invariant
            i <= candidates.len(),
            strictly_sorted(string_views(names@)),
            string_views(names@).to_set() == string_views(candidates@).take(i as int).to_set(),
        decreases candidates.len() - i,
    {
        let c = candidates[i].clone();
        insert_sorted(&mut names, c);
        assert(string_views(candidates@).take(i + 1) =~= string_views(candidates@).take(
            i as int,
        ).push(candidates@[i as int]@));
        proof {
            string_views(candidates@).take(i as int).lemma_push_to_set_commute(
                candidates@[i as int]@,
            );
        }
        i = i + 1;
    }
    assert(string_views(candidates@).take(i as int) =~= string_views(candidates@));
    names
}

} // verus!
