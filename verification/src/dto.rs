//! The bodies of API requests and responses, and how responses are made
//! from the store's values.

#![allow(non_snake_case)]

use vstd::prelude::*;

use crate::backup::BackupInfo;
use crate::store::{Bucket, ObjectMetadata};
use crate::strmap::StringMap;
use crate::text::{decimal, decimal_i64, decimal_u64, int_decimal, push_all, push_str, string_of};
use crate::time::{in_range, rfc3339_text, Timestamp};
use crate::upload::ResumableUpload;
use crate::urlenc::{url_encode, url_encode_spec};

verus! {

/// A bucket as the API shows it.
#[derive(Clone, Debug)]
pub struct BucketResponse {
    pub name: String,
    pub location: String,
    pub timeCreated: String,
    pub updated: String,
}

/// A list of buckets.
#[derive(Clone, Debug)]
pub struct BucketListResponse {
    pub items: Vec<BucketResponse>,
}

/// An object as the API shows it.
#[derive(Clone, Debug)]
pub struct ObjectResponse {
    pub name: String,
    pub bucket: String,
    pub contentType: String,
    pub size: String,
    pub md5Hash: Option<String>,
    pub generation: String,
    pub metageneration: String,
    pub timeCreated: String,
    pub updated: String,
    pub custom_metadata: StringMap,
    pub mediaLink: Option<String>,
    pub selfLink: Option<String>,
}

/// A page of objects.
#[derive(Clone, Debug)]
pub struct ObjectListResponse {
    pub items: Vec<ObjectResponse>,
    pub next_page_token: Option<String>,
    pub prefixes: Vec<String>,
}

/// A request to create a bucket.
#[derive(Clone, Debug)]
pub struct CreateBucketRequest {
    pub name: String,
    pub location: String,
}

/// A request to replace an object's custom metadata.
#[derive(Clone, Debug)]
pub struct UpdateMetadataRequest {
    pub metadata: StringMap,
}

/// The answer to starting a resumable upload.
#[derive(Clone, Debug)]
pub struct UploadSessionResponse {
    pub upload_id: String,
    pub upload_url: String,
    pub expires_at: String,
}

/// A signed URL and when it stops working.
#[derive(Clone, Debug)]
pub struct SignedUrlResponse {
    pub signed_url: String,
    pub expires_at: String,
}

/// A request for a signed URL.
#[derive(Clone, Debug)]
pub struct SignedUrlRequest {
    pub bucket: String,
    pub object_path: String,
    pub method: String,
    pub expires_in_secs: u64,
    pub content_type: Option<String>,
}

/// A request to create a backup.
#[derive(Clone, Debug)]
pub struct CreateBackupRequest {
    pub label: Option<String>,
}

/// A backup as the API shows it.
#[derive(Clone, Debug)]
pub struct BackupInfoResponse {
    pub id: String,
    pub label: Option<String>,
    pub filename: String,
    pub created_at: String,
    pub size_bytes: u64,
    pub checksum_sha256: String,
    pub bucket_count: u64,
    pub object_count: u64,
}

/// A list of backups.
#[derive(Clone, Debug)]
pub struct BackupListResponse {
    pub items: Vec<BackupInfoResponse>,
}

/// The answer to a restore.
#[derive(Clone, Debug)]
pub struct RestoreBackupResponse {
    pub message: String,
    pub restored_from: String,
    pub safety_backup: BackupInfoResponse,
}

/// The answer of `/health`.
#[derive(Clone, Debug)]
pub struct HealthResponse {
    pub status: String,
    pub service: String,
    pub version: String,
}

/// The query of an object listing.
#[derive(Clone, Debug)]
pub struct ListObjectsQuery {
    pub prefix: Option<String>,
    pub delimiter: Option<String>,
    pub max_results: Option<u32>,
    pub page_token: Option<String>,
}

/// The query of an upload.
#[derive(Clone, Debug)]
pub struct ObjectQuery {
    pub name: String,
    pub upload_type: Option<String>,
    pub upload_id: Option<String>,
}

/// The query of a download.
#[derive(Clone, Debug)]
pub struct DownloadQuery {
    pub alt: Option<String>,
}

/// The query of a chunk upload.
#[derive(Clone, Debug)]
pub struct UploadChunkQuery {
    pub upload_id: Option<String>,
}

/// The location of a bucket created without one.
pub fn default_location() -> (s: String)
    ensures
        s@ == "us-central1"@,
{
    "us-central1".to_owned()
}

/// The method of a signed URL requested without one.
pub fn default_method() -> (s: String)
    ensures
        s@ == "GET"@,
{
    "GET".to_owned()
}

/// The lifetime in seconds of a signed URL requested without one.
pub fn default_expires() -> (n: u64)
    ensures
        n == 3600,
{
    3600
}

/// The RFC 3339 text of an instant.
pub fn format_datetime(dt: &Timestamp) -> (s: String)
    ensures
        s@ == rfc3339_text(dt@.0, dt@.1),
{
    dt.to_rfc3339()
}

impl BucketResponse {
    /// The API view of a bucket.
    pub fn from_bucket(bucket: Bucket) -> (r: BucketResponse)
        ensures
            r.name == bucket.name,
            r.location == bucket.location,
            r.timeCreated@ == rfc3339_text(bucket.created_at@.0, bucket.created_at@.1),
            r.updated@ == rfc3339_text(bucket.updated_at@.0, bucket.updated_at@.1),
    {
        let timeCreated = bucket.created_at.to_rfc3339();
        let updated = bucket.updated_at.to_rfc3339();
        BucketResponse { name: bucket.name, location: bucket.location, timeCreated, updated }
    }
}

/// The link of an object: `{base}/v0/b/{bucket}/o/{name}`, both parts
/// percent-encoded.
pub open spec fn object_link(base_url: Seq<char>, bucket: Seq<char>, name: Seq<char>) -> Seq<char> {
    base_url + "/v0/b/"@ + url_encode_spec(bucket) + "/o/"@ + url_encode_spec(name)
}

impl ObjectResponse {
    /// The API view of an object's metadata, with its links under `base_url`.
    pub fn from_metadata(metadata: ObjectMetadata, base_url: &str) -> (r: ObjectResponse)
        ensures
            r.name == metadata.name,
            r.bucket == metadata.bucket,
            r.contentType == metadata.content_type,
            r.size@ == decimal(metadata.size as nat),
            r.md5Hash == metadata.md5_hash,
            r.generation@ == int_decimal(metadata.generation as int),
            r.metageneration@ == int_decimal(metadata.metageneration as int),
            r.timeCreated@ == rfc3339_text(metadata.created_at@.0, metadata.created_at@.1),
            r.updated@ == rfc3339_text(metadata.updated_at@.0, metadata.updated_at@.1),
            r.custom_metadata@ == metadata.custom_metadata@,
            r.mediaLink matches Some(l) && l@ == object_link(
                base_url@,
                metadata.bucket@,
                metadata.name@,
            ) + "?alt=media"@,
            r.selfLink matches Some(l) && l@ == object_link(
                base_url@,
                metadata.bucket@,
                metadata.name@,
            ),
    {
        let encoded_name = url_encode(metadata.name.as_str());
        let encoded_bucket = url_encode(metadata.bucket.as_str());
        let mut link: Vec<char> = Vec::new();
        push_str(&mut link, base_url);
        push_str(&mut link, "/v0/b/");
        push_str(&mut link, encoded_bucket.as_str());
        push_str(&mut link, "/o/");
        push_str(&mut link, encoded_name.as_str());
        let self_link = string_of(link.as_slice());
        push_str(&mut link, "?alt=media");
        let media_link = string_of(link.as_slice());
        let size = decimal_u64(metadata.size);
        let generation = decimal_i64(metadata.generation);
        let metageneration = decimal_i64(metadata.metageneration);
        let timeCreated = metadata.created_at.to_rfc3339();
        let updated = metadata.updated_at.to_rfc3339();
        ObjectResponse {
            name: metadata.name,
            bucket: metadata.bucket,
            contentType: metadata.content_type,
            size: string_of(size.as_slice()),
            md5Hash: metadata.md5_hash,
            generation: string_of(generation.as_slice()),
            metageneration: string_of(metageneration.as_slice()),
            timeCreated,
            updated,
            custom_metadata: metadata.custom_metadata,
            mediaLink: Some(media_link),
            selfLink: Some(self_link),
        }
    }
}

impl BackupInfoResponse {
    /// The API view of a backup.
    pub fn from_backup_info(b: BackupInfo) -> (r: BackupInfoResponse)
        ensures
            r.id == b.id,
            r.label == b.label,
            r.filename == b.filename,
            r.created_at@ == rfc3339_text(b.created_at@.0, b.created_at@.1),
            r.size_bytes == b.size_bytes,
            r.checksum_sha256 == b.checksum_sha256,
            r.bucket_count == b.bucket_count,
            r.object_count == b.object_count,
    {
        let created_at = b.created_at.to_rfc3339();
        BackupInfoResponse {
            id: b.id,
            label: b.label,
            filename: b.filename,
            created_at,
            size_bytes: b.size_bytes,
            checksum_sha256: b.checksum_sha256,
            bucket_count: b.bucket_count,
            object_count: b.object_count,
        }
    }
}

impl UploadSessionResponse {
    /// The API view of a started resumable upload.
    pub fn from_upload(u: &ResumableUpload) -> (r: UploadSessionResponse)
        ensures
            r.upload_id == u.session_id,
            r.upload_url == u.upload_url,
            r.expires_at@ == rfc3339_text(u.expires_at@.0, u.expires_at@.1),
    {
        UploadSessionResponse {
            upload_id: u.session_id.clone(),
            upload_url: u.upload_url.clone(),
            expires_at: u.expires_at.to_rfc3339(),
        }
    }
}

impl HealthResponse {
    /// The health answer of a running service of the given version.
    pub fn ok(version: &str) -> (r: HealthResponse)
        ensures
            r.status@ == "ok"@,
            r.service@ == "moveme-storage"@,
            r.version@ == version@,
    {
        HealthResponse {
            status: "ok".to_owned(),
            service: "moveme-storage".to_owned(),
            version: version.to_owned(),
        }
    }
}

/// When a signed URL made at `now` for `expires_in_secs` seconds stops
/// working, in RFC 3339; `None` where the time cannot be represented (the
/// lifetime, read as `i64`, beyond `i64::MAX / 1000` seconds either way, or
/// the instant out of range).
pub fn signed_url_expires_at(now: &Timestamp, expires_in_secs: u64) -> (r: Option<String>)
    ensures
        ({
            let s = expires_in_secs as i64;
            match r {
                Some(t) => -(i64::MAX / 1000) <= s <= i64::MAX / 1000 && in_range(
                    now@.0 + s,
                    now@.1 as int,
                ) && t@ == rfc3339_text((now@.0 + s) as i64, now@.1),
                None => !(-(i64::MAX / 1000) <= s <= i64::MAX / 1000) || !in_range(
                    now@.0 + s,
                    now@.1 as int,
                ),
            }
        }),
{
    let s = expires_in_secs as i64;
    if s > i64::MAX / 1000 || s < -(i64::MAX / 1000) {
        return None;
    }
    match now.checked_add_secs(s) {
        Some(t) => Some(t.to_rfc3339()),
        None => None,
    }
}

} // verus!
