//! Resumable uploads: sessions that receive an object in chunks, appended
//! in order, until the declared size is reached or the client finalises.

use vstd::prelude::*;

use crate::error::StorageError;
use crate::api::parsed_uuid;
use crate::store::{new_uuid, stored_instant, stored_uuid};
use crate::text::{
    chars_eq_str, chars_of, decimal, decimal_i64, decimal_u64, has_char, int_decimal, parse_u64,
    parse_u64_spec, push_all, push_str, slice_chars, starts_with, starts_with_chars, string_of,
};
use crate::time::{in_range, rfc3339_instant, Timestamp};
use crate::urlenc::{url_encode, url_encode_spec};

verus! {

/// An upload in progress.
#[derive(Clone, Debug)]
pub struct UploadSession {
    pub id: String,
    pub bucket_name: String,
    pub object_path: String,
    pub content_type: String,
    pub total_size: Option<i64>,
    pub bytes_received: i64,
    pub storage_key: String,
    pub status: String,
    /// The custom metadata, as JSON text.
    pub custom_metadata: String,
    pub created_at: Timestamp,
    pub expires_at: Timestamp,
}

/// What a client gets when it starts a resumable upload.
#[derive(Clone, Debug)]
pub struct ResumableUpload {
    pub session_id: String,
    pub upload_url: String,
    pub expires_at: Timestamp,
}

/// The declared total size as stored (`u64` reinterpreted as `i64`).
pub open spec fn stored_total(total_size: Option<u64>) -> Option<i64> {
    match total_size {
        Some(s) => Some(s as i64),
        None => None,
    }
}

/// Whether an expiry time has passed at `now`.
pub open spec fn expired_at(expires_at: Timestamp, now: Timestamp) -> bool {
    now@.0 > expires_at@.0 || (now@.0 == expires_at@.0 && now@.1 > expires_at@.1)
}

/// A session opened at `now` for `ttl_hours`: one is made exactly when its
/// expiry time is representable, and it is created at `now`.
pub open spec fn opened_at(r: Option<UploadSession>, now: Timestamp, ttl_hours: i64) -> bool {
    &&& (r is Some <==> in_range(now@.0 + ttl_hours * 3600, now@.1 as int))
    &&& (r matches Some(s) ==> s.created_at == now)
}

/// An upload session read back from its row: the identifier must be a UUID
/// and both instants RFC 3339 texts; anything else is an internal error.
/// The other columns are taken as they are.
pub fn session_from_row(
    id: &str,
    bucket_name: String,
    object_path: String,
    content_type: String,
    total_size: Option<i64>,
    bytes_received: i64,
    storage_key: String,
    status: String,
    custom_metadata: String,
    created_at: &str,
    expires_at: &str,
) -> (r: Result<UploadSession, StorageError>)
    ensures
        r is Ok <==> (parsed_uuid(id@) is Some && rfc3339_instant(created_at@) is Some
            && rfc3339_instant(expires_at@) is Some),
        r matches Ok(s) ==> {
            &&& s.id@ == parsed_uuid(id@)->0
            &&& s.bucket_name == bucket_name
            &&& s.object_path == object_path
            &&& s.content_type == content_type
            &&& s.total_size == total_size
            &&& s.bytes_received == bytes_received
            &&& s.storage_key == storage_key
            &&& s.status == status
            &&& s.custom_metadata == custom_metadata
            &&& s.created_at@ == rfc3339_instant(created_at@)->0
            &&& s.expires_at@ == rfc3339_instant(expires_at@)->0
        },
        r matches Err(e) ==> e is Internal,
{
    let id = stored_uuid(id)?;
    let created_at = stored_instant(created_at)?;
    let expires_at = stored_instant(expires_at)?;
    Ok(
        UploadSession {
            id,
            bucket_name,
            object_path,
            content_type,
            total_size,
            bytes_received,
            storage_key,
            status,
            custom_metadata,
            created_at,
            expires_at,
        },
    )
}

impl UploadSession {
    /// A new active session with identifier `id`, created at `now` and
    /// expiring `ttl_hours` later; `None` when the expiry time is not
    /// representable.
    pub fn new_at(
        bucket_name: &str,
        object_path: &str,
        content_type: &str,
        total_size: Option<u64>,
        custom_metadata: String,
        storage_key: &str,
        ttl_hours: i64,
        id: String,
        now: Timestamp,
    ) -> (r: Option<UploadSession>)
        ensures
            r is Some <==> in_range(now@.0 + ttl_hours * 3600, now@.1 as int),
            r matches Some(s) ==> {
                &&& s.id == id
                &&& s.bucket_name@ == bucket_name@
                &&& s.object_path@ == object_path@
                &&& s.content_type@ == content_type@
                &&& s.total_size == stored_total(total_size)
                &&& s.bytes_received == 0
                &&& s.storage_key@ == storage_key@
                &&& s.status@ == "active"@
                &&& s.custom_metadata == custom_metadata
                &&& s.created_at == now
                &&& s.expires_at@.0 == now@.0 + ttl_hours * 3600
                &&& s.expires_at@.1 == now@.1
            },
    {
        let expires_at = match now.checked_add_hours(ttl_hours) {
            Some(t) => t,
            None => return None,
        };
        Some(
            UploadSession {
                id,
                bucket_name: bucket_name.to_owned(),
                object_path: object_path.to_owned(),
                content_type: content_type.to_owned(),
                total_size: match total_size {
                    Some(s) => Some(s as i64),
                    None => None,
                },
                bytes_received: 0,
                storage_key: storage_key.to_owned(),
                status: "active".to_owned(),
                custom_metadata,
                created_at: now,
                expires_at,
            },
        )
    }

    /// A new active session with a fresh identifier, created now; `None`
    /// when the expiry time is not representable.
    pub fn new(
        bucket_name: &str,
        object_path: &str,
        content_type: &str,
        total_size: Option<u64>,
        custom_metadata: String,
        storage_key: &str,
        ttl_hours: i64,
    ) -> (r: Option<UploadSession>)
        ensures
            r matches Some(s) ==> {
                &&& s.bucket_name@ == bucket_name@
                &&& s.object_path@ == object_path@
                &&& s.content_type@ == content_type@
                &&& s.total_size == stored_total(total_size)
                &&& s.bytes_received == 0
                &&& s.storage_key@ == storage_key@
                &&& s.status@ == "active"@
                &&& s.custom_metadata == custom_metadata
                &&& s.expires_at@.0 == s.created_at@.0 + ttl_hours * 3600
                &&& s.expires_at@.1 == s.created_at@.1
            },
            exists|now: Timestamp| now@.0 >= 0 && #[trigger] opened_at(r, now, ttl_hours),
    {
        let now = Timestamp::now();
        let r = Self::new_at(
            bucket_name,
            object_path,
            content_type,
            total_size,
            custom_metadata,
            storage_key,
            ttl_hours,
            new_uuid(),
            now,
        );
        assert(opened_at(r, now, ttl_hours));
        r
    }

    /// Whether the session has expired at time `now`.
    pub fn is_expired_at(&self, now: &Timestamp) -> (b: bool)
        ensures
            b == (now@.0 > self.expires_at@.0 || (now@.0 == self.expires_at@.0 && now@.1
                > self.expires_at@.1)),
    {
        now.is_after(&self.expires_at)
    }

    /// Whether the session has expired, by the clock at the time of the call.
    pub fn is_expired(&self) -> (b: bool)
        ensures
            exists|now: Timestamp| now@.0 >= 0 && b == #[trigger] expired_at(self.expires_at, now),
    {
        let now = Timestamp::now();
        let b = self.is_expired_at(&now);
        assert(b == expired_at(self.expires_at, now));
        b
    }

    /// Whether all declared bytes have arrived; never, when no size was declared.
    pub fn is_complete(&self) -> (b: bool)
        ensures
            b == (self.total_size matches Some(t) && self.bytes_received >= t),
    {
        match self.total_size {
            Some(total) => self.bytes_received >= total,
            None => false,
        }
    }
}

/// The backend key where the chunks of a session are gathered:
/// `uploads/{bucket}/{object_path}/{unique}`.
pub fn upload_storage_key(bucket_name: &str, object_path: &str, unique: &str) -> (s: String)
    ensures
        s@ == "uploads/"@ + bucket_name@ + "/"@ + object_path@ + "/"@ + unique@,
{
    let mut out: Vec<char> = Vec::new();
    push_str(&mut out, "uploads/");
    push_str(&mut out, bucket_name);
    push_str(&mut out, "/");
    push_str(&mut out, object_path);
    push_str(&mut out, "/");
    push_str(&mut out, unique);
    string_of(out.as_slice())
}

/// The URL to which the chunks of a session are sent.
pub fn resumable_upload_url(base_url: &str, bucket_name: &str, session_id: &str) -> (s: String)
    ensures
        s@ == base_url@ + "/v0/b/"@ + url_encode_spec(bucket_name@) + "/o/upload?upload_id="@
            + session_id@,
{
    let mut out: Vec<char> = Vec::new();
    push_str(&mut out, base_url);
    push_str(&mut out, "/v0/b/");
    let b = url_encode(bucket_name);
    push_str(&mut out, b.as_str());
    push_str(&mut out, "/o/upload?upload_id=");
    push_str(&mut out, session_id);
    string_of(out.as_slice())
}

/// Refuses a session that has expired at time `now`.
pub fn check_session_live(session: UploadSession, now: &Timestamp) -> (r: Result<
    UploadSession,
    StorageError,
>)
    ensures
        match r {
            Ok(s) => s == session && !(now@.0 > session.expires_at@.0 || (now@.0
                == session.expires_at@.0 && now@.1 > session.expires_at@.1)),
            Err(StorageError::UploadSessionExpired(id)) => id == session.id && (now@.0
                > session.expires_at@.0 || (now@.0 == session.expires_at@.0 && now@.1
                > session.expires_at@.1)),
            Err(_) => false,
        },
{
    if session.is_expired_at(now) {
        Err(StorageError::UploadSessionExpired(session.id))
    } else {
        Ok(session)
    }
}

/// The text of the error for a chunk sent at the wrong offset.
pub open spec fn offset_error_text(expected: i64, received: u64) -> Seq<char> {
    "offset esperado: "@ + int_decimal(expected as int) + ", recebido: "@ + decimal(received as nat)
}

/// A chunk may be appended when it names no offset or names exactly the
/// number of bytes received so far.
pub fn check_chunk_offset(session: &UploadSession, offset: Option<u64>) -> (r: Result<
    (),
    StorageError,
>)
    ensures
        match offset {
            Some(o) => if o != session.bytes_received as u64 {
                r matches Err(StorageError::BadRequest(m)) && m@ == offset_error_text(
                    session.bytes_received,
                    o,
                )
            } else {
                r is Ok
            },
            None => r is Ok,
        },
{
    match offset {
        Some(o) => {
            if o != session.bytes_received as u64 {
                let mut out: Vec<char> = Vec::new();
                push_str(&mut out, "offset esperado: ");
                let e = decimal_i64(session.bytes_received);
                push_all(&mut out, &e);
                push_str(&mut out, ", recebido: ");
                let g = decimal_u64(o);
                push_all(&mut out, &g);
                return Err(StorageError::BadRequest(string_of(out.as_slice())));
            }
            Ok(())
        },
        None => Ok(()),
    }
}

/// Whether the upload is complete once the stored data has `new_size` bytes.
pub fn complete_after_append(total_size: Option<i64>, new_size: u64) -> (b: bool)
    ensures
        b == (total_size matches Some(t) && new_size >= t as u64),
{
    match total_size {
        Some(t) => new_size >= t as u64,
        None => false,
    }
}

/// The text of `s` before its first `c` (all of it when there is none).
pub open spec fn before_first(s: Seq<char>, c: char) -> Seq<char>
    decreases s.len(),
{
    if s.len() == 0 || s[0] == c {
        Seq::empty()
    } else {
        seq![s[0]] + before_first(s.drop_first(), c)
    }
}

/// The start offset named by a `Content-Range: bytes <start>-...` header.
pub open spec fn content_range_start_spec(header: Seq<char>) -> Option<u64> {
    if starts_with(header, "bytes "@) {
        parse_u64_spec(before_first(header.skip("bytes "@.len() as int), '-'))
    } else {
        None
    }
}

/// Reads the start offset of a `Content-Range` header.
pub fn content_range_start(header: &str) -> (r: Option<u64>)
    ensures
        r == content_range_start_spec(header@),
{
    let h = chars_of(header);
    let p = chars_of("bytes ");
    if !starts_with_chars(&h, &p) {
        return None;
    }
    let mut end: usize = p.len();
    let ghost rest = h@.skip(p@.len() as int);
    while end < h.len() && h[end] != '-'
        invariant
            p@.len() <= end <= h.len(),
            rest == h@.skip(p@.len() as int),
            before_first(rest, '-') == h@.subrange(p@.len() as int, end as int) + before_first(
                h@.skip(end as int),
                '-',
            ),
        decreases h.len() - end,
    {
        assert(h@.skip(end as int).drop_first() =~= h@.skip(end + 1));
        assert(h@.subrange(p@.len() as int, end + 1) =~= h@.subrange(p@.len() as int, end as int)
            + seq![h@[end as int]]);
        end = end + 1;
    }
    assert(before_first(h@.skip(end as int), '-') =~= Seq::<char>::empty());
    let start = slice_chars(&h, p.len(), end);
    assert(start@ =~= before_first(rest, '-'));
    parse_u64(&start)
}

/// The `Range` header sent back while an upload with a declared size is in
/// progress: `bytes 0-{received - 1}/{total}`.
pub fn range_header(bytes_received: i64, total: i64) -> (s: String)
    requires
        bytes_received > i64::MIN,
    ensures
        s@ == "bytes 0-"@ + int_decimal(bytes_received - 1) + "/"@ + int_decimal(total as int),
{
    let mut out: Vec<char> = Vec::new();
    push_str(&mut out, "bytes 0-");
    let a = decimal_i64(bytes_received - 1);
    push_all(&mut out, &a);
    push_str(&mut out, "/");
    let b = decimal_i64(total);
    push_all(&mut out, &b);
    string_of(out.as_slice())
}

/// An upload is finished when the declared size is reached or the client
/// sends `x-goog-upload-command: finalize`.
pub fn should_finalize(is_complete: bool, upload_command: Option<&str>) -> (b: bool)
    ensures
        b == (is_complete || (upload_command matches Some(c) && c@ == "finalize"@)),
{
    if is_complete {
        return true;
    }
    match upload_command {
        Some(c) => {
            let v = chars_of(c);
            chars_eq_str(&v, "finalize")
        },
        None => false,
    }
}

/// A session is live when it opens: one opened at `now` for a positive
/// number of hours has not expired at `now`, and has expired at every
/// instant more than `ttl_hours` hours later.
pub proof fn law_new_session_is_live_when_opened(
    s: UploadSession,
    now: Timestamp,
    ttl_hours: i64,
    later: Timestamp,
)
    requires
        opened_at(Some(s), now, ttl_hours),
        s.expires_at@.0 == s.created_at@.0 + ttl_hours * 3600,
        s.expires_at@.1 == s.created_at@.1,
        ttl_hours > 0,
        later@.0 > now@.0 + ttl_hours * 3600,
    ensures
        !expired_at(s.expires_at, now),
        expired_at(s.expires_at, later),
{
}

} // verus!
