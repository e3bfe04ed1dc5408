//! The decisions the HTTP handlers make about a request before and after
//! they call the store: who may do what, which headers say what, and how
//! the upload limit applies.

use vstd::prelude::*;

use crate::claims::Claims;
use crate::error::ApiError;
use crate::rules::{
    decide_from, evaluate_spec, lemma_evaluate_same_request, AccessRequest, Operation,
    SecurityRulesEngine,
};
use crate::strmap::{entries_insert, Entries, StringMap};
use crate::text::{
    chars_eq_str, chars_of, decimal, decimal_u64, parse_u64, parse_u64_spec, push_all, push_str,
    slice_chars, starts_with, starts_with_chars, string_of,
};

verus! {

/// The user a request was made by, if its token was valid.
#[derive(Clone, Debug)]
pub struct AuthUser(pub Option<Claims>);

/// Only admins may manage backups; without a token the request is
/// unauthenticated.
pub fn require_admin(claims: &Option<Claims>) -> (r: Result<(), ApiError>)
    ensures
        match claims {
            Some(c) => if c.admin {
                r is Ok
            } else {
                r matches Err(e) && e.status == 403 && e.message@
                    == "apenas admins podem gerenciar backups"@
            },
            None => r matches Err(e) && e.status == 401 && e.message@ == "token Firebase necessário"@,
        },
{
    match claims {
        Some(c) => {
            if c.is_admin() {
                Ok(())
            } else {
                Err(ApiError::forbidden("apenas admins podem gerenciar backups".to_owned()))
            }
        },
        None => Err(ApiError::unauthorized("token Firebase necessário".to_owned())),
    }
}

/// Refuses with 403 and `message` unless the request is an admin's.
pub fn admin_only(claims: &Option<Claims>, message: &str) -> (r: Result<(), ApiError>)
    ensures
        match claims {
            Some(c) if c.admin => r is Ok,
            _ => r matches Err(e) && e.status == 403 && e.message@ == message@,
        },
{
    match claims {
        Some(c) => {
            if c.is_admin() {
                return Ok(());
            }
        },
        None => {},
    }
    Err(ApiError::forbidden(message.to_owned()))
}

/// Admins only, for a request that must carry a token: without one the
/// answer is 401, for a signed-in user without admin rights 403 with
/// `message`.
pub fn signed_in_admin(claims: &Option<Claims>, message: &str) -> (r: Result<(), ApiError>)
    ensures
        match claims {
            Some(c) => if c.admin {
                r is Ok
            } else {
                r matches Err(e) && e.status == 403 && e.message@ == message@
            },
            None => r matches Err(e) && e.status == 401 && e.message@ == "token Firebase necessário"@,
        },
{
    match claims {
        Some(c) => {
            if c.is_admin() {
                Ok(())
            } else {
                Err(ApiError::forbidden(message.to_owned()))
            }
        },
        None => Err(ApiError::unauthorized("token Firebase necessário".to_owned())),
    }
}

/// Refuses with 401 and `message` unless the request is signed in.
pub fn require_signed_in(claims: &Option<Claims>, message: &str) -> (r: Result<(), ApiError>)
    ensures
        match claims {
            Some(_) => r is Ok,
            None => r matches Err(e) && e.status == 401 && e.message@ == message@,
        },
{
    match claims {
        Some(_) => Ok(()),
        None => Err(ApiError::unauthorized(message.to_owned())),
    }
}

/// Asks the security rules whether the operation is allowed; refuses with
/// 403 when it is not.
pub fn check_access(
    rules: &SecurityRulesEngine,
    operation: Operation,
    bucket: &str,
    object_path: &str,
    claims: &Option<Claims>,
    metadata: StringMap,
) -> (r: Result<(), ApiError>)
    ensures
        forall|req: AccessRequest|
            req.operation == operation && req.object_path@ == object_path@ && req.claims == *claims
                && req.custom_metadata@ == metadata@ ==> (r is Ok) == #[trigger] evaluate_spec(
                rules.rule_list(),
                req,
            ),
        r matches Err(e) ==> e.status == 403 && e.message@
            == "acesso negado pelas regras de segurança"@,
{
    let request = AccessRequest {
        operation,
        bucket: bucket.to_owned(),
        object_path: object_path.to_owned(),
        claims: claims.clone(),
        custom_metadata: metadata,
    };
    let allowed = rules.evaluate(&request);
    proof {
        assert forall|req: AccessRequest|
            req.operation == operation && req.object_path@ == object_path@ && req.claims
                == *claims && req.custom_metadata@ == metadata@ implies allowed
            == #[trigger] evaluate_spec(rules.rule_list(), req) by {
            lemma_evaluate_same_request(rules.rule_list(), request, req);
        }
    }
    if !allowed {
        return Err(ApiError::forbidden("acesso negado pelas regras de segurança".to_owned()));
    }
    Ok(())
}


/// The text of the error for an upload over the size limit.
pub open spec fn too_large_text(max: usize) -> Seq<char> {
    "arquivo excede o tamanho máximo de "@ + decimal(max as nat) + " bytes"@
}

/// An upload may not exceed the configured size limit; no limit, or a limit
/// of 0, allows any size.
pub fn check_upload_size(len: usize, max_upload_size: Option<usize>) -> (r: Result<(), ApiError>)
    ensures
        match max_upload_size {
            Some(max) if max > 0 && len > max => r matches Err(e) && e.status == 400
                && e.message@ == too_large_text(max),
            _ => r is Ok,
        },
{
    match max_upload_size {
        Some(max) => {
            if max > 0 && len > max {
                let mut out: Vec<char> = Vec::new();
                push_str(&mut out, "arquivo excede o tamanho máximo de ");
                let d = decimal_u64(max as u64);
                push_all(&mut out, &d);
                push_str(&mut out, " bytes");
                return Err(ApiError::bad_request(string_of(out.as_slice())));
            }
            Ok(())
        },
        None => Ok(()),
    }
}

/// Request headers as (lowercase name, value) pairs, in order; a value is
/// `None` when it is not visible ASCII text.
pub type Headers = Vec<(String, Option<String>)>;

/// The prefix of custom metadata headers.
pub open spec fn meta_prefix() -> Seq<char> {
    "x-goog-meta-"@
}

/// The custom metadata carried by the first `n` headers: each textual
/// `x-goog-meta-<key>` header sets `<key>`, later ones replacing earlier.
pub open spec fn custom_metadata_spec(headers: Seq<(String, Option<String>)>, n: int) -> Entries
    decreases n,
{
    if n <= 0 {
        Seq::empty()
    } else {
        let prev = custom_metadata_spec(headers, n - 1);
        let h = headers[n - 1];
        match h.1 {
            Some(v) => if starts_with(h.0@, meta_prefix()) {
                entries_insert(prev, h.0@.skip(meta_prefix().len() as int), v@)
            } else {
                prev
            },
            None => prev,
        }
    }
}

/// The custom metadata in the `x-goog-meta-*` headers.
pub fn extract_custom_metadata(headers: &Headers) -> (m: StringMap)
    ensures
        m@ == custom_metadata_spec(headers@, headers@.len() as int),
{
    let prefix = chars_of("x-goog-meta-");
    let mut m = StringMap::new();
    let mut i: usize = 0;
    while i < headers.len()
        invariant
            i <= headers.len(),
            prefix@ == meta_prefix(),
            m@ == custom_metadata_spec(headers@, i as int),
        decreases headers.len() - i,
    {
        match &headers[i].1 {
            Some(v) => {
                let name = chars_of(headers[i].0.as_str());
                if starts_with_chars(&name, &prefix) {
                    let key = slice_chars(&name, prefix.len(), name.len());
                    assert(key@ =~= name@.skip(meta_prefix().len() as int));
                    m.insert(string_of(key.as_slice()), v.clone());
                }
            },
            None => {},
        }
        i = i + 1;
    }
    m
}

/// The value of the first header named `name` among the first `n`: `None`
/// when there is none, `Some(None)` when its value is not text.
pub open spec fn header_spec(headers: Seq<(String, Option<String>)>, name: Seq<char>, n: int) -> Option<
    Option<String>,
>
    decreases n,
{
    if n <= 0 {
        None
    } else {
        match header_spec(headers, name, n - 1) {
            Some(v) => Some(v),
            None => if headers[n - 1].0@ == name {
                Some(headers[n - 1].1)
            } else {
                None
            },
        }
    }
}

/// The value of the first header named `name` (`HeaderMap::get`).
pub fn header(headers: &Headers, name: &str) -> (r: Option<Option<String>>)
    ensures
        r == header_spec(headers@, name@, headers@.len() as int),
{
    let mut i: usize = 0;
    while i < headers.len()
        invariant
            i <= headers.len(),
            header_spec(headers@, name@, i as int) is None,
        decreases headers.len() - i,
    {
        let n = chars_of(headers[i].0.as_str());
        if chars_eq_str(&n, name) {
            let ghost k = i as int + 1;
            proof {
                lemma_header_found(headers@, name@, k, headers@.len() as int);
            }
            return Some(headers[i].1.clone());
        }
        i = i + 1;
    }
    None
}

/// Once the first match is found, later headers do not change it.
proof fn lemma_header_found(headers: Seq<(String, Option<String>)>, name: Seq<char>, k: int, n: int)
    requires
        0 < k <= n,
        header_spec(headers, name, k) is Some,
    ensures
        header_spec(headers, name, n) == header_spec(headers, name, k),
    decreases n - k,
{
    if n > k {
        lemma_header_found(headers, name, k, n - 1);
    }
}

/// The value of `primary`, or of `fallback` when `primary` is absent; `None`
/// when the chosen header is missing or not text.
pub open spec fn header_or_spec(headers: Seq<(String, Option<String>)>, primary: Seq<char>, fallback: Seq<
    char,
>) -> Option<String> {
    match header_spec(headers, primary, headers.len() as int) {
        Some(v) => v,
        None => match header_spec(headers, fallback, headers.len() as int) {
            Some(v) => v,
            None => None,
        },
    }
}

/// The destination of a copy: bucket and object from
/// `x-goog-copy-source-bucket` / `x-dest-bucket` and
/// `x-goog-copy-source-object` / `x-dest-object`.
pub fn copy_destination(headers: &Headers) -> (r: Result<(String, String), ApiError>)
    ensures
        match header_or_spec(headers@, "x-goog-copy-source-bucket"@, "x-dest-bucket"@) {
            None => r matches Err(e) && e.status == 400 && e.message@
                == "header x-dest-bucket é obrigatório"@,
            Some(b) => match header_or_spec(
                headers@,
                "x-goog-copy-source-object"@,
                "x-dest-object"@,
            ) {
                None => r matches Err(e) && e.status == 400 && e.message@
                    == "header x-dest-object é obrigatório"@,
                Some(o) => r == Ok::<(String, String), ApiError>((b, o)),
            },
        },
{
    let bucket = match header(headers, "x-goog-copy-source-bucket") {
        Some(v) => v,
        None => match header(headers, "x-dest-bucket") {
            Some(v) => v,
            None => None,
        },
    };
    let bucket = match bucket {
        Some(b) => b,
        None => return Err(ApiError::bad_request("header x-dest-bucket é obrigatório".to_owned())),
    };
    let object = match header(headers, "x-goog-copy-source-object") {
        Some(v) => v,
        None => match header(headers, "x-dest-object") {
            Some(v) => v,
            None => None,
        },
    };
    match object {
        Some(o) => Ok((bucket, o)),
        None => Err(ApiError::bad_request("header x-dest-object é obrigatório".to_owned())),
    }
}

/// The token of an `Authorization: Bearer <token>` header.
pub fn bearer_token(authorization: Option<&str>) -> (t: Option<String>)
    ensures
        match authorization {
            Some(h) => if starts_with(h@, "Bearer "@) {
                t matches Some(x) && x@ == h@.skip("Bearer "@.len() as int)
            } else {
                t is None
            },
            None => t is None,
        },
{
    match authorization {
        Some(h) => {
            let v = chars_of(h);
            let p = chars_of("Bearer ");
            if starts_with_chars(&v, &p) {
                let t = slice_chars(&v, p.len(), v.len());
                Some(string_of(t.as_slice()))
            } else {
                None
            }
        },
        None => None,
    }
}

/// The canonical text of a UUID parsed by `uuid::Uuid::parse_str`, or `None`
/// when the text is not a UUID.
pub uninterp spec fn parsed_uuid(s: Seq<char>) -> Option<Seq<char>>;

/// `uuid::Uuid::parse_str(s)` in hyphenated lowercase text; `None` for its error.
#[verifier::external_body]
pub(crate) fn parse_uuid(s: &str) -> (r: Option<String>)
    ensures
        match r {
            Some(u) => parsed_uuid(s@) == Some(u@),
            None => parsed_uuid(s@) is None,
        },
{
    match uuid::Uuid::parse_str(s) {
        Ok(u) => Some(u.to_string()),
        Err(_) => None,
    }
}

/// The session named by the `upload_id` of a chunk upload: it must be given
/// and be a UUID.
pub fn upload_session_id(upload_id: Option<&str>) -> (r: Result<String, ApiError>)
    ensures
        match upload_id {
            None => r matches Err(e) && e.status == 400 && e.message@ == "upload_id é obrigatório"@,
            Some(u) => match parsed_uuid(u@) {
                Some(id) => r matches Ok(s) && s@ == id,
                None => r matches Err(e) && e.status == 400 && e.message@ == "upload_id inválido"@,
            },
        },
{
    match upload_id {
        None => Err(ApiError::bad_request("upload_id é obrigatório".to_owned())),
        Some(u) => session_id_from_parsed(parse_uuid(u)),
    }
}

/// The session named by an `upload_id` already parsed as a UUID (`None`
/// when it was not one).
pub fn session_id_from_parsed(parsed: Option<String>) -> (r: Result<String, ApiError>)
    ensures
        match parsed {
            Some(id) => r == Ok::<String, ApiError>(id),
            None => r matches Err(e) && e.status == 400 && e.message@ == "upload_id inválido"@,
        },
{
    match parsed {
        Some(id) => Ok(id),
        None => Err(ApiError::bad_request("upload_id inválido".to_owned())),
    }
}

/// The declared total size of a resumable upload
/// (`x-upload-content-length`), when it is a number.
pub fn declared_total_size(header_value: Option<&str>) -> (r: Option<u64>)
    ensures
        r == match header_value {
            Some(v) => parse_u64_spec(v@),
            None => None,
        },
{
    match header_value {
        Some(v) => {
            let c = chars_of(v);
            parse_u64(&c)
        },
        None => None,
    }
}

} // verus!
