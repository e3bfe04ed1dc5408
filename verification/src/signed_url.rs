//! Signed URLs: temporary access to an object without a token, authenticated
//! by an HMAC-SHA256 signature over the method, bucket, object path, expiry
//! and content type.

use vstd::prelude::*;
use vstd::utf8::{decode_utf8, encode_utf8};

use crate::digest::{hex_lower, hmac_sha256_hex, hmac_sha256_spec};
use crate::text::{decimal, decimal_u64, push_all, push_str, string_of, chars_of};
use crate::time::{max_secs, Timestamp};
use crate::urlenc::{url_encode, url_encode_spec};

verus! {

broadcast use vstd::utf8::encode_utf8_decode_utf8;

/// Why a signed URL is refused.
#[derive(Clone, Debug)]
pub enum SignedUrlError {
    Expired,
    InvalidSignature,
    InvalidParams(String),
}

/// Creates and checks signed URLs with a secret key.
pub struct SignedUrlGenerator {
    secret: Vec<u8>,
}

/// The text that `str::to_uppercase` gives for `s` (Unicode uppercase mapping).
pub uninterp spec fn uppercase_text(s: Seq<char>) -> Seq<char>;

/// Whether every character is ASCII.
pub open spec fn all_ascii(s: Seq<char>) -> bool {
    forall|i: int| 0 <= i < s.len() ==> (#[trigger] s[i] as u32) < 128
}

/// The uppercase of an ASCII character: `a`..`z` become `A`..`Z`, the
/// others stay.
pub open spec fn ascii_upper_char(c: char) -> char {
    if 'a' <= c && c <= 'z' {
        ((c as u32) - 32) as char
    } else {
        c
    }
}

/// ASCII uppercasing, character by character.
pub open spec fn ascii_upper(s: Seq<char>) -> Seq<char> {
    s.map_values(|c: char| ascii_upper_char(c))
}

/// `str::to_uppercase`: the text named by `uppercase_text`; on ASCII text
/// Unicode's uppercase mapping turns `a`..`z` into `A`..`Z` and keeps every
/// other character.
#[verifier::external_body]
fn to_uppercase(s: &str) -> (r: String)
    ensures
        r@ == uppercase_text(s@),
        all_ascii(s@) ==> r@ == ascii_upper(s@),
{
    s.to_uppercase()
}

/// Whether an expiry `expires_in_secs` after `now` is past the last `u64`.
pub open spec fn expiry_overflows(now: u64, expires_in_secs: u64) -> bool {
    now + expires_in_secs > u64::MAX
}

/// The views of an optional string.
pub open spec fn opt_str(s: Option<&str>) -> Option<Seq<char>> {
    match s {
        Some(x) => Some(x@),
        None => None,
    }
}

/// The fields of the signed text, one per line: the (already uppercased)
/// method, bucket, object path, expiry and, when given, content type.
pub open spec fn canonical_lines(
    upper_method: Seq<char>,
    bucket: Seq<char>,
    object_path: Seq<char>,
    expires: u64,
    content_type: Option<Seq<char>>,
) -> Seq<char> {
    let base = upper_method + seq!['\n'] + bucket + seq!['\n'] + object_path + seq!['\n'] + decimal(
        expires as nat,
    );
    match content_type {
        Some(ct) => base + seq!['\n'] + ct,
        None => base,
    }
}

/// The signed text: the uppercased method, bucket, object path, expiry and
/// (when given) content type, one per line.
pub open spec fn canonical_spec(
    method: Seq<char>,
    bucket: Seq<char>,
    object_path: Seq<char>,
    expires: u64,
    content_type: Option<Seq<char>>,
) -> Seq<char> {
    canonical_lines(uppercase_text(method), bucket, object_path, expires, content_type)
}

/// The signature of `data`: its HMAC-SHA256 tag under the secret, in
/// lowercase hexadecimal.
pub open spec fn signature_spec(secret: Seq<u8>, data: Seq<char>) -> Seq<char> {
    hex_lower(hmac_sha256_spec(secret, encode_utf8(data)))
}

/// The signature expected for a request.
pub open spec fn expected_signature(
    secret: Seq<u8>,
    method: Seq<char>,
    bucket: Seq<char>,
    object_path: Seq<char>,
    expires: u64,
    content_type: Option<Seq<char>>,
) -> Seq<char> {
    signature_spec(secret, canonical_spec(method, bucket, object_path, expires, content_type))
}

/// The signed URL for an object.
pub open spec fn signed_url_spec(
    secret: Seq<u8>,
    base_url: Seq<char>,
    bucket: Seq<char>,
    object_path: Seq<char>,
    method: Seq<char>,
    expires: u64,
    expires_in_secs: u64,
    content_type: Option<Seq<char>>,
) -> Seq<char> {
    signed_url_text(
        base_url,
        bucket,
        object_path,
        expires,
        expires_in_secs,
        expected_signature(secret, method, bucket, object_path, expires, content_type),
        content_type,
    )
}

/// The text of a signed URL carrying `signature`.
pub open spec fn signed_url_text(
    base_url: Seq<char>,
    bucket: Seq<char>,
    object_path: Seq<char>,
    expires: u64,
    expires_in_secs: u64,
    signature: Seq<char>,
    content_type: Option<Seq<char>>,
) -> Seq<char> {
    let url = base_url + "/v0/b/"@ + url_encode_spec(bucket) + "/o/"@ + url_encode_spec(object_path)
        + "?X-Goog-Algorithm=GOOG4-RSA-SHA256&X-Goog-Credential=storage&X-Goog-Date="@ + decimal(
        expires as nat,
    ) + "&X-Goog-Expires="@ + decimal(expires_in_secs as nat)
        + "&X-Goog-SignedHeaders=host&X-Goog-Signature="@ + signature;
    match content_type {
        Some(ct) => url + "&response-content-type="@ + url_encode_spec(ct),
        None => url,
    }
}

/// The verdict on a signed request at time `now`: expired first, then the
/// signature compared with the expected one.
pub open spec fn verify_spec(
    secret: Seq<u8>,
    now: u64,
    method: Seq<char>,
    bucket: Seq<char>,
    object_path: Seq<char>,
    expires: u64,
    signature: Seq<char>,
    content_type: Option<Seq<char>>,
) -> Result<(), SignedUrlError> {
    verify_lines(
        secret,
        now,
        uppercase_text(method),
        bucket,
        object_path,
        expires,
        signature,
        content_type,
    )
}

/// The verdict on a signed request at time `now` whose method is already
/// in uppercase.
pub open spec fn verify_lines(
    secret: Seq<u8>,
    now: u64,
    upper_method: Seq<char>,
    bucket: Seq<char>,
    object_path: Seq<char>,
    expires: u64,
    signature: Seq<char>,
    content_type: Option<Seq<char>>,
) -> Result<(), SignedUrlError> {
    if now > expires {
        Err(SignedUrlError::Expired)
    } else if signature != signature_spec(
        secret,
        canonical_lines(upper_method, bucket, object_path, expires, content_type),
    ) {
        Err(SignedUrlError::InvalidSignature)
    } else {
        Ok(())
    }
}

/// Whether two byte strings are equal, looking at every byte of equal-length
/// inputs whatever their contents.
pub fn constant_time_eq(a: &[u8], b: &[u8]) -> (r: bool)
    ensures
        r == (a@ == b@),
{
    if a.len() != b.len() {
        return false;
    }
    let mut acc: u8 = 0;
    let mut i: usize = 0;
    while i < a.len()
        invariant
            a.len() == b.len(),
            i <= a.len(),
            (acc == 0) <==> (forall|j: int| 0 <= j < i ==> a@[j] == b@[j]),
        decreases a.len() - i,
    {
        let x = a[i];
        let y = b[i];
        let next = acc | (x ^ y);
        assert((next == 0) <==> (acc == 0 && x == y)) by (bit_vector)
            requires
                next == acc | (x ^ y),
        ;
        acc = next;
        i = i + 1;
    }
    if acc == 0 {
        assert(a@ =~= b@);
        true
    } else {
        false
    }
}

impl SignedUrlGenerator {
    /// The secret key.
    pub closed spec fn secret(&self) -> Seq<u8> {
        self.secret@
    }

    /// A generator with the key `secret`.
    pub fn new(secret: &[u8]) -> (g: SignedUrlGenerator)
        ensures
            g.secret() == secret@,
    {
        let mut v: Vec<u8> = Vec::new();
        let mut i: usize = 0;
        while i < secret.len()
            invariant
                i <= secret.len(),
                v@ == secret@.subrange(0, i as int),
            decreases secret.len() - i,
        {
            v.push(secret[i]);
            i = i + 1;
            assert(v@ =~= secret@.subrange(0, i as int));
        }
        assert(v@ =~= secret@);
        SignedUrlGenerator { secret: v }
    }

    /// The text that is signed.
    pub fn canonical_string(
        method: &str,
        bucket: &str,
        object_path: &str,
        expires: u64,
        content_type: Option<&str>,
    ) -> (s: String)
        ensures
            s@ == canonical_spec(method@, bucket@, object_path@, expires, opt_str(content_type)),
            all_ascii(method@) ==> uppercase_text(method@) == ascii_upper(method@),
    {
        let upper = to_uppercase(method);
        Self::join_canonical_lines(upper.as_str(), bucket, object_path, expires, content_type)
    }

    /// The signed text from a method already in uppercase.
    pub fn join_canonical_lines(
        upper_method: &str,
        bucket: &str,
        object_path: &str,
        expires: u64,
        content_type: Option<&str>,
    ) -> (s: String)
        ensures
            s@ == canonical_lines(upper_method@, bucket@, object_path@, expires, opt_str(content_type)),
    {
        let mut out: Vec<char> = Vec::new();
        push_str(&mut out, upper_method);
        out.push('\n');
        push_str(&mut out, bucket);
        out.push('\n');
        push_str(&mut out, object_path);
        out.push('\n');
        let digits = decimal_u64(expires);
        push_all(&mut out, &digits);
        match content_type {
            Some(ct) => {
                out.push('\n');
                push_str(&mut out, ct);
            },
            None => {},
        }
        assert(out@ =~= canonical_lines(
            upper_method@,
            bucket@,
            object_path@,
            expires,
            opt_str(content_type),
        ));
        string_of(out.as_slice())
    }

    /// The signature of `data`.
    pub fn sign(&self, data: &str) -> (s: String)
        ensures
            s@ == signature_spec(self.secret(), data@),
    {
        hmac_sha256_hex(self.secret.as_slice(), data.as_bytes())
    }

    /// The signed URL for an object, valid until `now + expires_in_secs`.
    pub fn generate_at(
        &self,
        now: u64,
        base_url: &str,
        bucket: &str,
        object_path: &str,
        method: &str,
        expires_in_secs: u64,
        content_type: Option<&str>,
    ) -> (url: String)
        requires
            now + expires_in_secs <= u64::MAX,
        ensures
            url@ == signed_url_spec(
                self.secret(),
                base_url@,
                bucket@,
                object_path@,
                method@,
                (now + expires_in_secs) as u64,
                expires_in_secs,
                opt_str(content_type),
            ),
            all_ascii(method@) ==> url@ == signed_url_text(
                base_url@,
                bucket@,
                object_path@,
                (now + expires_in_secs) as u64,
                expires_in_secs,
                signature_spec(
                    self.secret(),
                    canonical_lines(
                        ascii_upper(method@),
                        bucket@,
                        object_path@,
                        (now + expires_in_secs) as u64,
                        opt_str(content_type),
                    ),
                ),
                opt_str(content_type),
            ),
    {
        let expires = now + expires_in_secs;
        let canonical = Self::canonical_string(method, bucket, object_path, expires, content_type);
        let signature = self.sign(canonical.as_str());
        Self::signed_url_with(
            base_url,
            bucket,
            object_path,
            expires,
            expires_in_secs,
            signature.as_str(),
            content_type,
        )
    }

    /// The signed URL carrying a given signature.
    pub fn signed_url_with(
        base_url: &str,
        bucket: &str,
        object_path: &str,
        expires: u64,
        expires_in_secs: u64,
        signature: &str,
        content_type: Option<&str>,
    ) -> (url: String)
        ensures
            url@ == signed_url_text(
                base_url@,
                bucket@,
                object_path@,
                expires,
                expires_in_secs,
                signature@,
                opt_str(content_type),
            ),
    {
        let encoded_bucket = url_encode(bucket);
        let encoded_path = url_encode(object_path);
        let mut out: Vec<char> = Vec::new();
        push_str(&mut out, base_url);
        push_str(&mut out, "/v0/b/");
        push_str(&mut out, encoded_bucket.as_str());
        push_str(&mut out, "/o/");
        push_str(&mut out, encoded_path.as_str());
        push_str(
            &mut out,
            "?X-Goog-Algorithm=GOOG4-RSA-SHA256&X-Goog-Credential=storage&X-Goog-Date=",
        );
        let e = decimal_u64(expires);
        push_all(&mut out, &e);
        push_str(&mut out, "&X-Goog-Expires=");
        let ei = decimal_u64(expires_in_secs);
        push_all(&mut out, &ei);
        push_str(&mut out, "&X-Goog-SignedHeaders=host&X-Goog-Signature=");
        push_str(&mut out, signature);
        match content_type {
            Some(ct) => {
                push_str(&mut out, "&response-content-type=");
                let enc = url_encode(ct);
                push_str(&mut out, enc.as_str());
            },
            None => {},
        }
        assert(out@ =~= signed_url_text(
            base_url@,
            bucket@,
            object_path@,
            expires,
            expires_in_secs,
            signature@,
            opt_str(content_type),
        ));
        string_of(out.as_slice())
    }

    /// The signed URL for an object, valid for `expires_in_secs` from now;
    /// `None` when the expiry time would not fit in a `u64`.
    pub fn generate(
        &self,
        base_url: &str,
        bucket: &str,
        object_path: &str,
        method: &str,
        expires_in_secs: u64,
        content_type: Option<&str>,
    ) -> (url: Option<String>)
        ensures
            match url {
                Some(u) => exists|now: u64|
                    0 <= now <= max_secs() && now + expires_in_secs <= u64::MAX && u@
                        == #[trigger] signed_url_spec(
                        self.secret(),
                        base_url@,
                        bucket@,
                        object_path@,
                        method@,
                        (now + expires_in_secs) as u64,
                        expires_in_secs,
                        opt_str(content_type),
                    ),
                None => exists|now: u64|
                    0 <= now <= max_secs() && #[trigger] expiry_overflows(now, expires_in_secs),
            },
            expires_in_secs <= u64::MAX - max_secs() ==> url is Some,
    {
        let t = Timestamp::now();
        let secs = t.secs();
        let now = secs as u64;
        assert(now == secs);
        if expires_in_secs > u64::MAX - now {
            assert(expiry_overflows(now, expires_in_secs));
            return None;
        }
        Some(
            self.generate_at(
                now,
                base_url,
                bucket,
                object_path,
                method,
                expires_in_secs,
                content_type,
            ),
        )
    }

    /// Checks a signed request at time `now`.
    pub fn verify_at(
        &self,
        now: u64,
        method: &str,
        bucket: &str,
        object_path: &str,
        expires: u64,
        signature: &str,
        content_type: Option<&str>,
    ) -> (r: Result<(), SignedUrlError>)
        ensures
            r == verify_spec(
                self.secret(),
                now,
                method@,
                bucket@,
                object_path@,
                expires,
                signature@,
                opt_str(content_type),
            ),
            all_ascii(method@) ==> r == verify_lines(
                self.secret(),
                now,
                ascii_upper(method@),
                bucket@,
                object_path@,
                expires,
                signature@,
                opt_str(content_type),
            ),
    {
        if now > expires {
            proof {
                if all_ascii(method@) {
                    assert(verify_lines(
                        self.secret(),
                        now,
                        ascii_upper(method@),
                        bucket@,
                        object_path@,
                        expires,
                        signature@,
                        opt_str(content_type),
                    ) == Err::<(), SignedUrlError>(SignedUrlError::Expired));
                }
            }
            return Err(SignedUrlError::Expired);
        }
        let canonical = Self::canonical_string(method, bucket, object_path, expires, content_type);
        let expected = self.sign(canonical.as_str());
        Self::signature_verdict(signature, expected.as_str())
    }

    /// The verdict on a signature given the expected one: accepted exactly
    /// when the two are equal, compared in constant time.
    pub fn signature_verdict(signature: &str, expected: &str) -> (r: Result<(), SignedUrlError>)
        ensures
            r == if signature@ == expected@ {
                Ok::<(), SignedUrlError>(())
            } else {
                Err(SignedUrlError::InvalidSignature)
            },
    {
        if !constant_time_eq(signature.as_bytes(), expected.as_bytes()) {
            proof {
                if signature@ == expected@ {
                    assert(encode_utf8(signature@) == encode_utf8(expected@));
                }
            }
            return Err(SignedUrlError::InvalidSignature);
        }
        assert(decode_utf8(encode_utf8(signature@)) == decode_utf8(encode_utf8(expected@)));
        Ok(())
    }

    /// Checks a signed request now: it is refused as expired after its
    /// expiry time, and refused as badly signed unless the signature is the
    /// expected one.
    pub fn verify(
        &self,
        method: &str,
        bucket: &str,
        object_path: &str,
        expires: u64,
        signature: &str,
        content_type: Option<&str>,
    ) -> (r: Result<(), SignedUrlError>)
        ensures
            exists|now: u64|
                0 <= now <= max_secs() && r == #[trigger] verify_spec(
                    self.secret(),
                    now,
                    method@,
                    bucket@,
                    object_path@,
                    expires,
                    signature@,
                    opt_str(content_type),
                ),
    {
        let t = Timestamp::now();
        let secs = t.secs();
        let now = secs as u64;
        assert(now == secs);
        self.verify_at(now, method, bucket, object_path, expires, signature, content_type)
    }
}

/// A URL's signature, checked with the parameters it was made with at any
/// time up to its expiry, is accepted.
pub proof fn law_signature_verifies_until_expiry(
    secret: Seq<u8>,
    issued_at: u64,
    checked_at: u64,
    method: Seq<char>,
    bucket: Seq<char>,
    object_path: Seq<char>,
    expires_in_secs: u64,
    content_type: Option<Seq<char>>,
)
    requires
        issued_at + expires_in_secs <= u64::MAX,
        checked_at <= issued_at + expires_in_secs,
    ensures
        ({
            let expires = (issued_at + expires_in_secs) as u64;
            verify_spec(
                secret,
                checked_at,
                method,
                bucket,
                object_path,
                expires,
                expected_signature(secret, method, bucket, object_path, expires, content_type),
                content_type,
            ) == Ok::<(), SignedUrlError>(())
        }),
{
}

/// After its expiry time a signed request is refused as expired, whatever
/// its signature.
pub proof fn law_expired_is_refused(
    secret: Seq<u8>,
    now: u64,
    method: Seq<char>,
    bucket: Seq<char>,
    object_path: Seq<char>,
    expires: u64,
    signature: Seq<char>,
    content_type: Option<Seq<char>>,
)
    requires
        now > expires,
    ensures
        verify_spec(secret, now, method, bucket, object_path, expires, signature, content_type)
            == Err::<(), SignedUrlError>(SignedUrlError::Expired),
{
}

/// Letter case in an ASCII method does not matter: a URL signed for one
/// spelling of the method is accepted, up to its expiry, when the request
/// names the method in any spelling with the same uppercase.
pub proof fn law_method_case_does_not_matter(
    secret: Seq<u8>,
    issued_at: u64,
    checked_at: u64,
    signed_method: Seq<char>,
    checked_method: Seq<char>,
    bucket: Seq<char>,
    object_path: Seq<char>,
    expires_in_secs: u64,
    content_type: Option<Seq<char>>,
)
    requires
        all_ascii(signed_method),
        all_ascii(checked_method),
        ascii_upper(signed_method) == ascii_upper(checked_method),
        issued_at + expires_in_secs <= u64::MAX,
        checked_at <= issued_at + expires_in_secs,
    ensures
        ({
            let expires = (issued_at + expires_in_secs) as u64;
            verify_lines(
                secret,
                checked_at,
                ascii_upper(checked_method),
                bucket,
                object_path,
                expires,
                signature_spec(
                    secret,
                    canonical_lines(
                        ascii_upper(signed_method),
                        bucket,
                        object_path,
                        expires,
                        content_type,
                    ),
                ),
                content_type,
            ) == Ok::<(), SignedUrlError>(())
        }),
{
}

} // verus!
