use moveme_storage::api::{
    bearer_token, check_upload_size, copy_destination, declared_total_size,
    extract_custom_metadata, header, require_admin, require_signed_in, upload_session_id,
};
use moveme_storage::auth::{
    claims_from_fields, claims_from_token, firebase_issuer, is_admin_token, unknown_key,
    verify_firebase_token, AuthError, TokenFields,
};
use moveme_storage::backup::{
    backup_filename, backups_to_prune, check_manifest_version, fallback_info, find_backup,
    id_from_archive_filename, is_archive_name, new_manifest, resolve_database_path,
    safety_label, sidecar_name, sort_newest_first, BackupInfo,
};
use moveme_storage::claims::Claims;
use moveme_storage::config::{
    default_backup_retention, default_host, default_port, FirebaseEnv, ServerConfig,
};
use moveme_storage::dto::{ObjectResponse, UploadSessionResponse};
use moveme_storage::error::{ApiError, StorageError};
use moveme_storage::store::{
    after_create, after_lookup, bucket_deleted, bucket_from_row, check_bucket_empty, Bucket,
    BucketStep, content_type_for, firebase_bucket_names, keep_with_prefix, page_limit,
    page_offset, paginate, plan_put_object, record_from_row, stored_instant, stored_uuid,
    storage_key, versions_after, ObjectRecord,
};
use moveme_storage::strmap::StringMap;
use moveme_storage::time::Timestamp;
use moveme_storage::upload::{
    check_chunk_offset, check_session_live, complete_after_append, content_range_start,
    range_header, resumable_upload_url, session_from_row, should_finalize, upload_storage_key,
    UploadSession,
};

fn ts(secs: i64) -> Timestamp {
    Timestamp::from_parts(secs, 0).unwrap()
}

fn info(id: &str, secs: i64) -> BackupInfo {
    fallback_info(&format!("backup-x-{}.tar.gz", id), ts(secs), 1, String::new())
}

fn session(total: Option<u64>) -> UploadSession {
    UploadSession::new_at(
        "b",
        "o.bin",
        "application/octet-stream",
        total,
        "{}".to_string(),
        "uploads/b/o.bin/1",
        24,
        "sid".to_string(),
        ts(1000),
    )
    .unwrap()
}

#[test]
fn resolve_relative_db_path() {
    let path = resolve_database_path("sqlite://./data/storage.db", "./data", "/srv/app").unwrap();
    assert!(path.ends_with("storage.db"));
}

#[test]
fn database_path_forms() {
    assert_eq!(
        resolve_database_path("sqlite://./data/storage.db", "./data", "/srv/app").unwrap(),
        "/srv/app/./data/storage.db"
    );
    assert_eq!(
        resolve_database_path("sqlite:///var/db/s.db", "./data", "/srv").unwrap(),
        "/var/db/s.db"
    );
    match resolve_database_path("postgres://x", "./data", "/srv") {
        Err(StorageError::BadRequest(m)) => assert_eq!(m, "database_url deve ser sqlite://"),
        other => panic!("unexpected {:?}", other),
    }
}

#[test]
fn storage_key_layout() {
    assert_eq!(storage_key("b", "x/y.txt", 3), "b/3/x/y.txt");
    assert_eq!(upload_storage_key("b", "x/y.txt", "u1"), "uploads/b/x/y.txt/u1");
}

#[test]
fn bucket_resolution_steps() {
    let b = Bucket::new_at("b", "us", "id".to_string(), ts(0));
    assert!(matches!(after_lookup(false, Ok(b.clone())), BucketStep::Use(x) if x.name == "b"));
    assert!(matches!(
        after_lookup(true, Err(StorageError::BucketNotFound("b".to_string()))),
        BucketStep::Create
    ));
    assert!(matches!(
        after_lookup(false, Err(StorageError::BucketNotFound("b".to_string()))),
        BucketStep::Refuse(StorageError::BucketNotFound(_))
    ));
    assert!(matches!(
        after_lookup(true, Err(StorageError::Database("x".to_string()))),
        BucketStep::Refuse(StorageError::Database(_))
    ));
    assert!(matches!(after_create(Ok(b)), BucketStep::Use(_)));
    assert!(matches!(
        after_create(Err(StorageError::AlreadyExists("b".to_string()))),
        BucketStep::LookUpAgain
    ));
    assert!(matches!(
        after_create(Err(StorageError::Io("x".to_string()))),
        BucketStep::Refuse(StorageError::Io(_))
    ));
}

#[test]
fn versions_go_up_by_one() {
    assert_eq!(versions_after(None), (1, 1));
    assert_eq!(versions_after(Some((4, 7))), (5, 8));
}

#[test]
fn put_plan_for_new_and_replaced_objects() {
    let p = plan_put_object("b", "docs/a.txt", b"", Some("text/plain"), StringMap::new(), None, ts(5));
    assert_eq!(p.metadata.generation, 1);
    assert_eq!(p.metadata.metageneration, 1);
    assert_eq!(p.metadata.size, 0);
    assert_eq!(p.metadata.md5_hash.as_deref(), Some("d41d8cd98f00b204e9800998ecf8427e"));
    assert_eq!(p.storage_path, "b/1/docs/a.txt");
    assert!(!p.replaces_existing);
    let q = plan_put_object("b", "docs/a.txt", b"hi", None, StringMap::new(), Some((1, 3)), ts(5));
    assert_eq!(q.metadata.generation, 2);
    assert_eq!(q.metadata.metageneration, 4);
    assert_eq!(q.metadata.content_type, "text/plain");
    assert_eq!(q.storage_path, "b/2/docs/a.txt");
    assert!(q.replaces_existing);
}

#[test]
fn put_plan_from_known_digest() {
    let p = moveme_storage::store::plan_put_with(
        "b",
        "o",
        5,
        "text/plain".to_string(),
        "abc".to_string(),
        StringMap::new(),
        Some((2, 9)),
        ts(1),
    );
    assert_eq!(p.metadata.size, 5);
    assert_eq!(p.metadata.md5_hash.as_deref(), Some("abc"));
    assert_eq!(p.metadata.generation, 3);
    assert_eq!(p.metadata.metageneration, 10);
    assert_eq!(p.storage_path, "b/3/o");
    assert!(p.replaces_existing);
}

#[test]
fn content_type_is_given_or_guessed() {
    assert_eq!(content_type_for(Some("x/y"), "a.png"), "x/y");
    assert_eq!(content_type_for(None, "a.png"), "image/png");
    assert_eq!(content_type_for(None, "noext"), "application/octet-stream");
}

#[test]
fn page_limit_and_offset() {
    assert_eq!(page_limit(None), 1000);
    assert_eq!(page_limit(Some(5)), 5);
    assert_eq!(page_limit(Some(5000)), 1000);
    assert_eq!(page_offset(None), 0);
    assert_eq!(page_offset(Some("40")), 40);
    assert_eq!(page_offset(Some("abc")), 0);
}

#[test]
fn paginate_keeps_limit_and_gives_next_token() {
    let (page, next) = paginate(vec![1, 2, 3], 2, 10);
    assert_eq!(page, vec![1, 2]);
    assert_eq!(next.as_deref(), Some("12"));
    let (page, next) = paginate(vec![1, 2], 2, 0);
    assert_eq!(page, vec![1, 2]);
    assert!(next.is_none());
}

#[test]
fn firebase_bucket_names_are_sorted_and_distinct() {
    assert_eq!(
        firebase_bucket_names("proj", None),
        vec![
            "proj".to_string(),
            "proj.appspot.com".to_string(),
            "proj.firebasestorage.app".to_string()
        ]
    );
    assert_eq!(
        firebase_bucket_names("proj", Some("proj.appspot.com")),
        vec![
            "proj".to_string(),
            "proj.appspot.com".to_string(),
            "proj.firebasestorage.app".to_string()
        ]
    );
    assert_eq!(
        firebase_bucket_names("proj", Some("custom")),
        vec![
            "custom".to_string(),
            "proj".to_string(),
            "proj.appspot.com".to_string(),
            "proj.firebasestorage.app".to_string()
        ]
    );
    assert_eq!(firebase_bucket_names("proj", Some("")).len(), 3);
}

#[test]
fn upload_session_lifecycle() {
    let s = session(Some(10));
    assert_eq!(s.status, "active");
    assert_eq!(s.bytes_received, 0);
    assert_eq!(s.expires_at.secs(), 1000 + 24 * 3600);
    assert!(!s.is_complete());
    assert!(!s.is_expired_at(&ts(1000)));
    assert!(s.is_expired_at(&ts(1000 + 24 * 3600 + 1)));
    assert!(check_session_live(s.clone(), &ts(2000)).is_ok());
    match check_session_live(s, &ts(1_000_000)) {
        Err(StorageError::UploadSessionExpired(id)) => assert_eq!(id, "sid"),
        other => panic!("unexpected {:?}", other),
    }
}

#[test]
fn chunk_offset_must_match_bytes_received() {
    let s = session(None);
    assert!(check_chunk_offset(&s, None).is_ok());
    assert!(check_chunk_offset(&s, Some(0)).is_ok());
    match check_chunk_offset(&s, Some(5)) {
        Err(StorageError::BadRequest(m)) => assert_eq!(m, "offset esperado: 0, recebido: 5"),
        other => panic!("unexpected {:?}", other),
    }
}

#[test]
fn old_sessions_are_expired_and_times_formatted() {
    let s = session(None);
    assert!(s.is_expired());
    assert_eq!(moveme_storage::dto::format_datetime(&ts(0)), "1970-01-01T00:00:00+00:00");
}

#[test]
fn upload_completion_rules() {
    assert!(complete_after_append(Some(10), 10));
    assert!(!complete_after_append(Some(10), 9));
    assert!(!complete_after_append(None, 1_000));
    assert!(should_finalize(true, None));
    assert!(should_finalize(false, Some("finalize")));
    assert!(!should_finalize(false, Some("upload")));
    assert!(!should_finalize(false, None));
}

#[test]
fn content_range_and_range_header() {
    assert_eq!(content_range_start("bytes 100-199/500"), Some(100));
    assert_eq!(content_range_start("bytes 7"), Some(7));
    assert_eq!(content_range_start("items 1-2"), None);
    assert_eq!(content_range_start("bytes x-2"), None);
    assert_eq!(range_header(10, 20), "bytes 0-9/20");
}

#[test]
fn resumable_url_and_response() {
    assert_eq!(
        resumable_upload_url("http://h", "my b", "sid"),
        "http://h/v0/b/my%20b/o/upload?upload_id=sid"
    );
    let r = moveme_storage::upload::ResumableUpload {
        session_id: "sid".to_string(),
        upload_url: "u".to_string(),
        expires_at: ts(0),
    };
    let resp = UploadSessionResponse::from_upload(&r);
    assert_eq!(resp.upload_id, "sid");
    assert_eq!(resp.upload_url, "u");
    assert_eq!(resp.expires_at, "1970-01-01T00:00:00+00:00");
}

#[test]
fn object_response_links_are_encoded() {
    let p = plan_put_object("my b", "a/b c.txt", b"xyz", Some("text/plain"), StringMap::new(), None, ts(0));
    let r = ObjectResponse::from_metadata(p.metadata, "http://h");
    assert_eq!(r.size, "3");
    assert_eq!(r.generation, "1");
    assert_eq!(r.selfLink.as_deref(), Some("http://h/v0/b/my%20b/o/a%2Fb%20c.txt"));
    assert_eq!(r.mediaLink.as_deref(), Some("http://h/v0/b/my%20b/o/a%2Fb%20c.txt?alt=media"));
}

#[test]
fn encoded_object_names_decode_back() {
    let name = "fotos/ação 1%.jpg";
    let p = plan_put_object("b", name, b"", None, StringMap::new(), None, ts(0));
    let r = ObjectResponse::from_metadata(p.metadata, "http://h");
    let link = r.selfLink.unwrap();
    let encoded = link.rsplit("/o/").next().unwrap();
    assert_eq!(encoded, "fotos%2Fa%C3%A7%C3%A3o%201%25.jpg");
    assert_eq!(moveme_storage::urlenc::decode_path_or_keep(encoded), name);
    assert_eq!(moveme_storage::urlenc::decode_path_or_keep("%FF"), "%FF");
}

#[test]
fn backup_names() {
    let name = backup_filename(&ts(0), "abc");
    assert_eq!(name, "backup-19700101-000000-abc.tar.gz");
    assert_eq!(id_from_archive_filename(&name), "abc");
    assert_eq!(id_from_archive_filename("other.tar.gz"), "other.tar.gz");
    assert_eq!(
        id_from_archive_filename("backup-20240101-000000-550e8400-e29b-41d4-a716-446655440000.tar.gz"),
        "446655440000"
    );
    assert_eq!(safety_label("abc"), "pre-restore-abc");
    assert_eq!(
        moveme_storage::backup::archive_name("20240101-000000", "x"),
        "backup-20240101-000000-x.tar.gz"
    );
    assert!(is_archive_name("backup-1.tar.gz"));
    assert!(!is_archive_name("backup-1.json"));
    assert!(!is_archive_name(".gz"));
    assert_eq!(sidecar_name("backup-1.tar.gz"), "backup-1.tar.json");
    assert_eq!(sidecar_name("backup"), "backup.json");
    assert_eq!(sidecar_name(".gz"), ".gz.json");
    assert_eq!(sidecar_name("a."), "a.json");
    assert_eq!(sidecar_name(".."), "..");
    assert_eq!(sidecar_name(""), "");
}

#[test]
fn backups_sorted_newest_first_and_pruned() {
    let v = vec![info("a", 10), info("b", 30), info("c", 20)];
    let sorted = sort_newest_first(v);
    let ids: Vec<&str> = sorted.iter().map(|b| b.id.as_str()).collect();
    assert_eq!(ids, vec!["b", "c", "a"]);
    assert_eq!(backups_to_prune(&sorted, 1), vec!["c".to_string(), "a".to_string()]);
    assert!(backups_to_prune(&sorted, 0).is_empty());
    assert!(backups_to_prune(&sorted, 5).is_empty());
}

#[test]
fn sort_keeps_order_of_simultaneous_backups() {
    let v = vec![info("a", 10), info("b", 20), info("c", 10), info("d", 20), info("e", 5)];
    let sorted = sort_newest_first(v);
    let ids: Vec<&str> = sorted.iter().map(|b| b.id.as_str()).collect();
    assert_eq!(ids, vec!["b", "d", "a", "c", "e"]);
}

#[test]
fn find_backup_by_id() {
    let v = vec![info("a", 10), info("b", 30)];
    assert_eq!(find_backup(&v, "b").unwrap(), "backup-x-b.tar.gz");
    match find_backup(&v, "z") {
        Err(StorageError::NotFound(m)) => assert_eq!(m, "backup 'z'"),
        other => panic!("unexpected {:?}", other),
    }
}

#[test]
fn manifest_version_is_checked() {
    let mut m = new_manifest("id".to_string(), None, ts(0), 2, 3);
    assert_eq!(m.version, "1");
    assert_eq!(m.database_file, "storage.db");
    assert!(check_manifest_version(&m).is_ok());
    m.version = "2".to_string();
    match check_manifest_version(&m) {
        Err(StorageError::BadRequest(msg)) => assert_eq!(msg, "versão de backup incompatível: 2"),
        other => panic!("unexpected {:?}", other),
    }
}

#[test]
fn storage_errors_map_to_http() {
    let cases = vec![
        (StorageError::NotFound("x".to_string()), 404, "x"),
        (StorageError::BucketNotFound("x".to_string()), 404, "x"),
        (StorageError::UploadSessionNotFound("x".to_string()), 404, "x"),
        (StorageError::UploadSessionExpired("x".to_string()), 400, "x"),
        (StorageError::AlreadyExists("x".to_string()), 409, "x"),
        (StorageError::Forbidden("x".to_string()), 403, "x"),
        (StorageError::BadRequest("x".to_string()), 400, "x"),
        (StorageError::Io("x".to_string()), 500, "erro de I/O: x"),
        (StorageError::Database("x".to_string()), 500, "erro de banco de dados: x"),
        (StorageError::Internal("x".to_string()), 500, "erro interno: x"),
    ];
    for (e, status, message) in cases {
        let api = ApiError::from_storage_error(e);
        assert_eq!(api.status, status);
        assert_eq!(api.message, message);
    }
    assert_eq!(StorageError::NotFound("k".to_string()).message(), "objeto não encontrado: k");
}

#[test]
fn error_body_names_status() {
    let r = ApiError::not_found("gone".to_string()).to_response();
    assert_eq!(r.error.code, 404);
    assert_eq!(r.error.message, "gone");
    assert_eq!(r.error.status, "NOT_FOUND");
    assert_eq!(ApiError::bad_request(String::new()).status_name(), "INVALID_ARGUMENT");
    assert_eq!(ApiError::unauthorized(String::new()).status_name(), "UNAUTHENTICATED");
    assert_eq!(ApiError::forbidden(String::new()).status_name(), "PERMISSION_DENIED");
    assert_eq!(ApiError::internal(String::new()).status_name(), "INTERNAL");
}

#[test]
fn admin_and_sign_in_checks() {
    let admin = Some(Claims::from_firebase("a", None, true));
    let user = Some(Claims::from_firebase("u", None, false));
    assert!(require_admin(&admin).is_ok());
    assert_eq!(require_admin(&user).unwrap_err().status, 403);
    let e = require_admin(&None).unwrap_err();
    assert_eq!(e.status, 401);
    assert_eq!(e.message, "token Firebase necessário");
    assert!(moveme_storage::api::signed_in_admin(&admin, "m").is_ok());
    let e = moveme_storage::api::signed_in_admin(&None, "m").unwrap_err();
    assert_eq!((e.status, e.message.as_str()), (401, "token Firebase necessário"));
    let e = moveme_storage::api::signed_in_admin(&user, "m").unwrap_err();
    assert_eq!((e.status, e.message.as_str()), (403, "m"));
    assert!(require_signed_in(&user, "m").is_ok());
    assert_eq!(require_signed_in(&None, "m").unwrap_err().status, 401);
}

#[test]
fn upload_size_limit() {
    assert!(check_upload_size(10, Some(10)).is_ok());
    assert!(check_upload_size(10, None).is_ok());
    assert!(check_upload_size(10, Some(0)).is_ok());
    let e = check_upload_size(11, Some(10)).unwrap_err();
    assert_eq!(e.status, 400);
    assert_eq!(e.message, "arquivo excede o tamanho máximo de 10 bytes");
}

#[test]
fn headers_and_tokens() {
    let headers = vec![
        ("x-goog-meta-owner".to_string(), Some("ana".to_string())),
        ("content-type".to_string(), Some("text/plain".to_string())),
        ("x-dest-bucket".to_string(), Some("b2".to_string())),
        ("x-dest-object".to_string(), Some("o2".to_string())),
    ];
    let meta = extract_custom_metadata(&headers);
    assert_eq!(meta.len(), 1);
    assert_eq!(meta.get("owner").map(String::as_str), Some("ana"));
    assert_eq!(header(&headers, "content-type"), Some(Some("text/plain".to_string())));
    assert_eq!(header(&headers, "missing"), None);
    assert_eq!(copy_destination(&headers).unwrap(), ("b2".to_string(), "o2".to_string()));
    let e = copy_destination(&vec![]).unwrap_err();
    assert_eq!(e.status, 400);
    assert_eq!(bearer_token(Some("Bearer abc")), Some("abc".to_string()));
    assert_eq!(bearer_token(Some("Basic abc")), None);
    assert_eq!(bearer_token(None), None);
}

#[test]
fn upload_ids_and_sizes() {
    assert_eq!(
        upload_session_id(Some("550E8400-E29B-41D4-A716-446655440000")).unwrap(),
        "550e8400-e29b-41d4-a716-446655440000"
    );
    assert_eq!(upload_session_id(Some("nope")).unwrap_err().message, "upload_id inválido");
    assert_eq!(upload_session_id(None).unwrap_err().message, "upload_id é obrigatório");
    assert_eq!(
        moveme_storage::api::session_id_from_parsed(Some("s".to_string())).unwrap(),
        "s"
    );
    assert_eq!(
        moveme_storage::api::session_id_from_parsed(None).unwrap_err().status,
        400
    );
    assert_eq!(declared_total_size(Some("1024")), Some(1024));
    assert_eq!(declared_total_size(Some("x")), None);
    assert_eq!(declared_total_size(None), None);
}

#[test]
fn token_claims() {
    assert_eq!(
        firebase_issuer("proj"),
        "https://securetoken.google.com/proj"
    );
    assert!(is_admin_token(Some(true), None));
    assert!(is_admin_token(None, Some("admin")));
    assert!(!is_admin_token(Some(false), Some("user")));
    let c = claims_from_token("s1", None, None, Some("admin"));
    assert_eq!(c.uid, "s1");
    assert!(c.admin);
    match unknown_key("k1") {
        AuthError::InvalidToken(m) => assert_eq!(m, "chave JWKS não encontrada: k1"),
        other => panic!("unexpected {:?}", other),
    }
}

const TOKEN_K1: &str = "eyJhbGciOiJSUzI1NiIsImtpZCI6ImsxIn0.eyJzdWIiOiJ1MSIsImV4cCI6NDAwMDAwMDAwMH0.c2ln";
const TOKEN_NO_KID: &str = "eyJhbGciOiJSUzI1NiJ9.eyJzdWIiOiJ1MSIsImV4cCI6NDAwMDAwMDAwMH0.c2ln";

#[test]
fn token_key_id_reads_header() {
    assert_eq!(moveme_storage::auth::token_key_id(TOKEN_K1).unwrap(), "k1");
    match moveme_storage::auth::token_key_id(TOKEN_NO_KID) {
        Err(AuthError::InvalidToken(m)) => assert_eq!(m, "token sem kid"),
        other => panic!("unexpected {:?}", other),
    }
    assert!(matches!(
        moveme_storage::auth::token_key_id("not a token"),
        Err(AuthError::InvalidToken(_))
    ));
}

#[test]
fn token_with_unknown_or_bad_key_is_refused() {
    match verify_firebase_token(TOKEN_K1, &vec![], "proj") {
        Err(AuthError::InvalidToken(m)) => assert_eq!(m, "chave JWKS não encontrada: k1"),
        other => panic!("unexpected {:?}", other),
    }
    let other = vec![("k2".to_string(), "AQAB".to_string(), "AQAB".to_string())];
    match verify_firebase_token(TOKEN_K1, &other, "proj") {
        Err(AuthError::InvalidToken(m)) => assert_eq!(m, "chave JWKS não encontrada: k1"),
        r => panic!("unexpected {:?}", r),
    }
    let wrong = vec![("k1".to_string(), "AQAB".to_string(), "AQAB".to_string())];
    assert!(matches!(
        verify_firebase_token(TOKEN_K1, &wrong, "proj"),
        Err(AuthError::InvalidToken(_))
    ));
}

#[test]
fn claims_from_token_fields() {
    let c = claims_from_fields(TokenFields {
        sub: Some("u1".to_string()),
        email: Some("a@b.c".to_string()),
        admin: None,
        role: Some("admin".to_string()),
    })
    .unwrap();
    assert_eq!(c.uid, "u1");
    assert_eq!(c.email.as_deref(), Some("a@b.c"));
    assert!(c.admin);
    let none = TokenFields { sub: None, email: None, admin: Some(true), role: None };
    match claims_from_fields(none) {
        Err(AuthError::InvalidToken(m)) => assert_eq!(m, "token sem sub"),
        other => panic!("unexpected {:?}", other),
    }
}

#[test]
fn config_defaults_and_overrides() {
    assert_eq!(default_host(), "0.0.0.0");
    assert_eq!(default_port(), 8091);
    assert_eq!(default_backup_retention(), 10);
    let mut cfg = ServerConfig {
        host: "h".to_string(),
        port: 80,
        data_dir: "./data".to_string(),
        database_url: "sqlite://./data/storage.db".to_string(),
        firebase_project_id: "p".to_string(),
        signed_url_secret: "s".to_string(),
        max_upload_size: None,
        base_url: "http://h".to_string(),
        security_rules_path: None,
        firebase_client_email: None,
        firebase_private_key: None,
        firebase_api_key: None,
        firebase_auth_domain: None,
        firebase_storage_bucket: None,
        backup_dir: "./backups".to_string(),
        backup_retention_count: 7,
        backup_auto_interval_hours: 0,
        auto_create_buckets: true,
        default_bucket_location: "us-central1".to_string(),
    };
    assert_eq!(cfg.listen_addr(), "h:80");
    let env = FirebaseEnv {
        project_id: Some("q".to_string()),
        client_email: Some(String::new()),
        private_key: Some("a\\nb".to_string()),
        api_key: None,
        auth_domain: Some("d".to_string()),
        storage_bucket: None,
    };
    cfg.apply_firebase_env_overrides(&env);
    assert_eq!(cfg.firebase_project_id, "q");
    assert_eq!(cfg.firebase_client_email, None);
    assert_eq!(cfg.firebase_private_key.as_deref(), Some("a\nb"));
    assert_eq!(cfg.firebase_auth_domain.as_deref(), Some("d"));
    assert_eq!(cfg.host, "h");
    assert!(cfg.project_id_configured());
    cfg.firebase_project_id = "your-firebase-project-id".to_string();
    assert!(!cfg.project_id_configured());
    cfg.firebase_project_id = String::new();
    assert!(!cfg.project_id_configured());
}

const ROW_ID: &str = "67E55044-10B1-426F-9247-BB680E5FE0C8";
const ROW_ID_CANONICAL: &str = "67e55044-10b1-426f-9247-bb680e5fe0c8";
const BUCKET_ID: &str = "a1a2a3a4b1b2c1c2d1d2d3d4d5d6d7d8";

fn record(path: &str) -> ObjectRecord {
    record_from_row(
        ROW_ID,
        BUCKET_ID,
        "b".to_string(),
        path.to_string(),
        "text/plain".to_string(),
        3,
        None,
        1,
        1,
        StringMap::new(),
        format!("b/1/{}", path),
        "2024-01-31T23:59:59Z",
        "2024-01-31T23:59:59Z",
    )
    .expect("valid row")
}

#[test]
fn stored_uuid_is_canonical_or_internal() {
    assert_eq!(stored_uuid(ROW_ID).unwrap(), ROW_ID_CANONICAL);
    assert_eq!(stored_uuid(BUCKET_ID).unwrap(), "a1a2a3a4-b1b2-c1c2-d1d2-d3d4d5d6d7d8");
    assert!(matches!(stored_uuid("not-a-uuid"), Err(StorageError::Internal(_))));
}

#[test]
fn stored_instant_reads_rfc3339() {
    let t = stored_instant("1970-01-01T00:00:00+00:00").unwrap();
    assert_eq!((t.secs(), t.nanos()), (0, 0));
    let t = stored_instant("2024-01-31T23:59:59.5-01:00").unwrap();
    assert_eq!((t.secs(), t.nanos()), (1_706_749_199, 500_000_000));
    assert!(matches!(stored_instant("xx"), Err(StorageError::Internal(_))));
    assert!(matches!(stored_instant("2024-01-31"), Err(StorageError::Internal(_))));
}

#[test]
fn rows_read_back_into_values() {
    let b = bucket_from_row(
        ROW_ID,
        "fotos".to_string(),
        "us-central1".to_string(),
        "2024-01-31T23:59:59Z",
        "2024-02-01T00:00:00Z",
    )
    .unwrap();
    assert_eq!(b.id, ROW_ID_CANONICAL);
    assert_eq!(b.name, "fotos");
    assert_eq!(b.created_at.secs(), 1_706_745_599);
    assert_eq!(b.updated_at.secs(), 1_706_745_600);
    assert!(matches!(
        bucket_from_row(ROW_ID, "f".to_string(), "l".to_string(), "ontem", "2024-02-01T00:00:00Z"),
        Err(StorageError::Internal(_))
    ));

    let r = record("a/b.txt");
    assert_eq!(r.id, ROW_ID_CANONICAL);
    assert_eq!(r.bucket_id, "a1a2a3a4-b1b2-c1c2-d1d2-d3d4d5d6d7d8");
    assert_eq!(r.object_path, "a/b.txt");
    assert_eq!(r.size, 3);
    assert!(matches!(
        record_from_row(
            ROW_ID, "x", "b".to_string(), "p".to_string(), "t".to_string(), 0, None, 1, 1,
            StringMap::new(), "s".to_string(), "2024-01-31T23:59:59Z", "2024-01-31T23:59:59Z",
        ),
        Err(StorageError::Internal(_))
    ));

    let s = session_from_row(
        ROW_ID,
        "b".to_string(),
        "o".to_string(),
        "text/plain".to_string(),
        Some(10),
        4,
        "b/uploads/k".to_string(),
        "active".to_string(),
        "{}".to_string(),
        "2024-01-31T23:59:59Z",
        "2024-02-01T23:59:59Z",
    )
    .unwrap();
    assert_eq!(s.id, ROW_ID_CANONICAL);
    assert_eq!(s.total_size, Some(10));
    assert_eq!(s.bytes_received, 4);
    assert_eq!(s.status, "active");
    assert_eq!(s.expires_at.secs() - s.created_at.secs(), 86_400);
    assert!(matches!(
        session_from_row(
            ROW_ID, "b".to_string(), "o".to_string(), "t".to_string(), None, 0,
            "k".to_string(), "active".to_string(), "{}".to_string(),
            "2024-01-31T23:59:59Z", "amanhã",
        ),
        Err(StorageError::Internal(_))
    ));
}

#[test]
fn prefix_listing_keeps_exact_prefixes_in_order() {
    let rows = vec![record("fotos/a.jpg"), record("Fotos/b.jpg"), record("fotos_x"), record("fotos/c/d.jpg")];
    let kept = keep_with_prefix(rows, "fotos/");
    let paths: Vec<&str> = kept.iter().map(|r| r.object_path.as_str()).collect();
    assert_eq!(paths, vec!["fotos/a.jpg", "fotos/c/d.jpg"]);
    let all = keep_with_prefix(vec![record("a"), record("b")], "");
    assert_eq!(all.len(), 2);
}

#[test]
fn bucket_deletion_outcomes() {
    assert!(check_bucket_empty(0).is_ok());
    match check_bucket_empty(2) {
        Err(StorageError::BadRequest(m)) => {
            assert_eq!(m, "bucket não está vazio; delete os objetos primeiro")
        }
        other => panic!("unexpected {:?}", other),
    }
    assert!(bucket_deleted("fotos", 1).is_ok());
    match bucket_deleted("fotos", 0) {
        Err(StorageError::BucketNotFound(m)) => assert_eq!(m, "fotos"),
        other => panic!("unexpected {:?}", other),
    }
}
