use moveme_storage::digest::{hmac_sha256_hex, md5_hex, sha256_hex};
use moveme_storage::signed_url::{constant_time_eq, SignedUrlError, SignedUrlGenerator};
use moveme_storage::time::Timestamp;

#[test]
fn digests_match_known_values() {
    assert_eq!(md5_hex(b""), "d41d8cd98f00b204e9800998ecf8427e");
    assert_eq!(
        sha256_hex(b"abc"),
        "ba7816bf8f01cfea414140de5dae2223b00361a396177a9cb410ff61f20015ad"
    );
    assert_eq!(
        hmac_sha256_hex(b"key", b"The quick brown fox jumps over the lazy dog"),
        "f7bc83f430538424b13298e6aa6fb143ef4d59a14946175997479dbc2d1a3cd8"
    );
}

#[test]
fn canonical_string_lists_fields_by_line() {
    assert_eq!(
        SignedUrlGenerator::canonical_string("get", "bkt", "a/b.png", 123, Some("image/png")),
        "GET\nbkt\na/b.png\n123\nimage/png"
    );
    assert_eq!(
        SignedUrlGenerator::canonical_string("Put", "bkt", "x", 0, None),
        "PUT\nbkt\nx\n0"
    );
}

#[test]
fn sign_is_hmac_of_canonical_text() {
    let g = SignedUrlGenerator::new(b"secret");
    let canonical = SignedUrlGenerator::canonical_string("GET", "b", "o", 10, None);
    assert_eq!(g.sign(&canonical), hmac_sha256_hex(b"secret", canonical.as_bytes()));
    assert_eq!(g.sign(&canonical).len(), 64);
}

#[test]
fn generated_url_layout() {
    let g = SignedUrlGenerator::new(b"secret");
    let url = g.generate_at(1000, "http://h", "my bucket", "dir/f.txt", "get", 60, Some("text/plain"));
    let canonical =
        SignedUrlGenerator::canonical_string("get", "my bucket", "dir/f.txt", 1060, Some("text/plain"));
    let sig = g.sign(&canonical);
    let expected = format!(
        "http://h/v0/b/my%20bucket/o/dir%2Ff.txt?X-Goog-Algorithm=GOOG4-RSA-SHA256&X-Goog-Credential=storage&X-Goog-Date=1060&X-Goog-Expires=60&X-Goog-SignedHeaders=host&X-Goog-Signature={}&response-content-type=text%2Fplain",
        sig
    );
    assert_eq!(url, expected);
}

#[test]
fn signature_verifies_until_expiry() {
    let g = SignedUrlGenerator::new(b"k");
    let canonical = SignedUrlGenerator::canonical_string("GET", "b", "o", 500, None);
    let sig = g.sign(&canonical);
    assert!(g.verify_at(100, "GET", "b", "o", 500, &sig, None).is_ok());
    assert!(g.verify_at(500, "GET", "b", "o", 500, &sig, None).is_ok());
}

#[test]
fn expired_request_is_refused() {
    let g = SignedUrlGenerator::new(b"k");
    let canonical = SignedUrlGenerator::canonical_string("GET", "b", "o", 500, None);
    let sig = g.sign(&canonical);
    assert!(matches!(
        g.verify_at(501, "GET", "b", "o", 500, &sig, None),
        Err(SignedUrlError::Expired)
    ));
    assert!(matches!(
        g.verify_at(501, "GET", "b", "o", 500, "garbage", None),
        Err(SignedUrlError::Expired)
    ));
}

#[test]
fn tampered_request_is_refused() {
    let g = SignedUrlGenerator::new(b"k");
    let canonical = SignedUrlGenerator::canonical_string("GET", "b", "o", 500, None);
    let sig = g.sign(&canonical);
    assert!(matches!(
        g.verify_at(1, "GET", "b", "other", 500, &sig, None),
        Err(SignedUrlError::InvalidSignature)
    ));
    assert!(matches!(
        g.verify_at(1, "GET", "b", "o", 500, &sig, Some("text/plain")),
        Err(SignedUrlError::InvalidSignature)
    ));
    let other = SignedUrlGenerator::new(b"other key");
    assert!(matches!(
        other.verify_at(1, "GET", "b", "o", 500, &sig, None),
        Err(SignedUrlError::InvalidSignature)
    ));
}

#[test]
fn generate_then_verify_now() {
    let g = SignedUrlGenerator::new(b"k");
    let url = g.generate("http://h", "b", "o", "GET", 3600, None).expect("fits");
    assert!(url.starts_with("http://h/v0/b/b/o/o?"));
    let expires: u64 = url
        .split("X-Goog-Date=")
        .nth(1)
        .unwrap()
        .split('&')
        .next()
        .unwrap()
        .parse()
        .unwrap();
    let sig = url.split("X-Goog-Signature=").nth(1).unwrap();
    assert!(g.verify("GET", "b", "o", expires, sig, None).is_ok());
    assert!(g.generate("http://h", "b", "o", "GET", u64::MAX, None).is_none());
    let longest = u64::MAX - 8_210_266_876_799;
    assert!(g.generate("http://h", "b", "o", "GET", longest, None).is_some());
}

#[test]
fn constant_time_eq_compares_bytes() {
    assert!(constant_time_eq(b"abc", b"abc"));
    assert!(!constant_time_eq(b"abc", b"abd"));
    assert!(!constant_time_eq(b"abc", b"ab"));
    assert!(constant_time_eq(b"", b""));
}

#[test]
fn timestamp_formats() {
    let t = Timestamp::from_parts(0, 0).unwrap();
    assert_eq!(t.to_rfc3339(), "1970-01-01T00:00:00+00:00");
    assert_eq!(t.format_compact(), "19700101-000000");
    let u = Timestamp::from_parts(1_706_745_599, 0).unwrap();
    assert_eq!(u.format_compact(), "20240131-235959");
    assert!(Timestamp::from_parts(0, 1_000_000_000).is_none());
    assert!(Timestamp::from_parts(i64::MAX, 0).is_none());
}

#[test]
fn timestamp_arithmetic() {
    let t = Timestamp::from_parts(100, 5).unwrap();
    let later = t.checked_add_hours(2).unwrap();
    assert_eq!(later.secs(), 7300);
    assert_eq!(later.nanos(), 5);
    assert!(later.is_after(&t));
    assert!(!t.is_after(&t));
    assert_eq!(t.checked_add_secs(-100).unwrap().secs(), 0);
    assert!(t.checked_add_secs(i64::MAX).is_none());
    assert!(t.checked_add_hours(i64::MAX).is_none());
}

#[test]
fn signature_verdict_compares_exactly() {
    assert!(SignedUrlGenerator::signature_verdict("abc", "abc").is_ok());
    assert!(matches!(
        SignedUrlGenerator::signature_verdict("abc", "abd"),
        Err(SignedUrlError::InvalidSignature)
    ));
    assert!(matches!(
        SignedUrlGenerator::signature_verdict("", "abd"),
        Err(SignedUrlError::InvalidSignature)
    ));
}

#[test]
fn canonical_lines_and_url_with_given_signature() {
    assert_eq!(
        SignedUrlGenerator::join_canonical_lines("PUT", "b", "x/y", 7, Some("a/b")),
        "PUT\nb\nx/y\n7\na/b"
    );
    assert_eq!(
        SignedUrlGenerator::signed_url_with("http://h", "b", "x y", 70, 10, "sig", None),
        "http://h/v0/b/b/o/x%20y?X-Goog-Algorithm=GOOG4-RSA-SHA256&X-Goog-Credential=storage&X-Goog-Date=70&X-Goog-Expires=10&X-Goog-SignedHeaders=host&X-Goog-Signature=sig"
    );
}

#[test]
fn method_letter_case_does_not_matter() {
    let g = SignedUrlGenerator::new(b"k");
    let url = g.generate_at(100, "http://h", "b", "o", "get", 50, None);
    let sig = url.split("X-Goog-Signature=").nth(1).unwrap();
    assert!(g.verify_at(120, "GET", "b", "o", 150, sig, None).is_ok());
    assert!(g.verify_at(120, "Get", "b", "o", 150, sig, None).is_ok());
    assert!(matches!(
        g.verify_at(120, "PUT", "b", "o", 150, sig, None),
        Err(SignedUrlError::InvalidSignature)
    ));
}
