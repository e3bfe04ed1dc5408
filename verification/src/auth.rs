//! What a verified Firebase ID token says about its user.

use vstd::prelude::*;

use jsonwebtoken::errors::ErrorKind;
use jsonwebtoken::{decode, decode_header, Algorithm, DecodingKey, Validation};
use serde_json::{from_value, Value};
use std::collections::HashMap;

use crate::claims::Claims;
use crate::text::{chars_eq_str, chars_of, push_str, str_eq, string_of};

verus! {

/// Why a token is refused.
#[derive(Clone, Debug)]
pub enum AuthError {
    InvalidToken(String),
    Expired,
    Forbidden,
}

/// The issuer that Firebase ID tokens of a project carry.
pub fn firebase_issuer(project_id: &str) -> (s: String)
    ensures
        s@ == "https://securetoken.google.com/"@ + project_id@,
{
    let mut out: Vec<char> = Vec::new();
    push_str(&mut out, "https://securetoken.google.com/");
    push_str(&mut out, project_id);
    string_of(out.as_slice())
}

/// A token grants admin rights when its claim `admin` is `true` or its claim
/// `role` is `"admin"`.
pub open spec fn is_admin_token_spec(admin_claim: Option<bool>, role_claim: Option<Seq<char>>) -> bool {
    admin_claim == Some(true) || role_claim == Some("admin"@)
}

/// Whether a token's claims grant admin rights.
pub fn is_admin_token(admin_claim: Option<bool>, role_claim: Option<&str>) -> (b: bool)
    ensures
        b == is_admin_token_spec(
            admin_claim,
            match role_claim {
                Some(r) => Some(r@),
                None => None,
            },
        ),
{
    let by_flag = match admin_claim {
        Some(a) => a,
        None => false,
    };
    let by_role = match role_claim {
        Some(r) => {
            let v = chars_of(r);
            chars_eq_str(&v, "admin")
        },
        None => false,
    };
    by_flag || by_role
}

// ---------------------------------------------------------------------------
// Verification of a token against the published keys
// ---------------------------------------------------------------------------

/// The claims of a verified token that the service reads: `sub` and `email`
/// when they are given as text (absent or `null`: none), `role` when it is
/// text and `admin` when it is a boolean.
#[derive(Clone, Debug)]
pub struct TokenFields {
    pub sub: Option<String>,
    pub email: Option<String>,
    pub admin: Option<bool>,
    pub role: Option<String>,
}

/// The view of an optional string.
pub open spec fn opt_text(o: Option<String>) -> Option<Seq<char>> {
    match o {
        Some(s) => Some(s@),
        None => None,
    }
}

/// The `kid` of a token's header as `jsonwebtoken::decode_header` reads it:
/// `None` when the header cannot be read, `Some(None)` when it names no key.
pub uninterp spec fn token_header_kid(token: Seq<char>) -> Option<Option<Seq<char>>>;

/// `jsonwebtoken::decode_header(token)`, keeping the header's `kid`; its
/// error becomes `InvalidToken` with the error's text, which is not stated.
#[verifier::external_body]
fn token_kid(token: &str) -> (r: Result<Option<String>, AuthError>)
    ensures
        match r {
            Ok(k) => token_header_kid(token@) == Some(opt_text(k)),
            Err(e) => token_header_kid(token@) is None && e is InvalidToken,
        },
{
    match decode_header(token) {
        Ok(h) => Ok(h.kid),
        Err(e) => Err(AuthError::InvalidToken(e.to_string())),
    }
}

/// The claims (`sub`, `email`, `admin`, `role`, as `TokenFields` holds them)
/// that `jsonwebtoken::decode` accepts from `token` with the RSA key of
/// base64url modulus `n` and exponent `e`, algorithm RS256, issuer `issuer`
/// and audience `audience`, setting aside only the comparison of the expiry
/// time with the clock: `None` when the key cannot be read, the token is not
/// well formed, its header names an algorithm other than RS256, its RS256
/// signature does not verify under the key, it has no numeric `exp`, it
/// names an issuer other than `issuer`, it names audiences
/// none of which is `audience` (a token that names no issuer, or no
/// audience, passes that check, as `jsonwebtoken` 9 lets it), or its `sub`
/// or `email` is given as something other than text or `null`.
pub uninterp spec fn rs256_claims(
    token: Seq<char>,
    n: Seq<char>,
    e: Seq<char>,
    issuer: Seq<char>,
    audience: Seq<char>,
) -> Option<(Option<Seq<char>>, Option<Seq<char>>, Option<bool>, Option<Seq<char>>)>;

/// `jsonwebtoken::DecodingKey::from_rsa_components(n, e)` and
/// `jsonwebtoken::decode` with `Validation::new(RS256)`, issuer `issuer`
/// and audience `audience`; `sub` and `email` are read with
/// `serde_json::from_value` as optional text, whose error (turned into the
/// `jsonwebtoken` error by its `From`) refuses the token.
/// Accepted claims are those named by `rs256_claims`; where `rs256_claims`
/// gives `None` the call fails; where it names claims the call returns
/// them, or fails with `Expired` (`Validation::new` checks `exp`, with a
/// leeway of 60 seconds, and nothing else against the clock). Whether such
/// a token has expired depends on the clock and is not stated; the texts of
/// other errors are not stated.
#[verifier::external_body]
fn decode_rs256(token: &str, n: &str, e: &str, issuer: &str, audience: &str) -> (r: Result<
    TokenFields,
    AuthError,
>)
    ensures
        r matches Ok(f) ==> rs256_claims(token@, n@, e@, issuer@, audience@) == Some(
            (opt_text(f.sub), opt_text(f.email), f.admin, opt_text(f.role)),
        ),
        rs256_claims(token@, n@, e@, issuer@, audience@) is None ==> r is Err,
        rs256_claims(token@, n@, e@, issuer@, audience@) is Some ==> (r is Ok || r matches Err(
            AuthError::Expired,
        )),
{
    let mut v = Validation::new(Algorithm::RS256);
    v.set_issuer(&[issuer]);
    v.set_audience(&[audience]);
    let r = DecodingKey::from_rsa_components(n, e).and_then(|key| {
        let c = decode::<HashMap<String, Value>>(token, &key, &v)?.claims;
        let text = |k: &str| from_value(c.get(k).cloned().into());
        Ok(TokenFields { sub: text("sub")?, email: text("email")?, admin: c.get("admin").and_then(Value::as_bool), role: c.get("role").and_then(Value::as_str).map(String::from) })
    });
    r.map_err(|x| match x.kind() {
        ErrorKind::ExpiredSignature => AuthError::Expired,
        _ => AuthError::InvalidToken(x.to_string()),
    })
}

/// The identifier of the key that signed `token`, read from its header.
pub fn token_key_id(token: &str) -> (r: Result<String, AuthError>)
    ensures
        match token_header_kid(token@) {
            None => r matches Err(AuthError::InvalidToken(_)),
            Some(None) => r matches Err(AuthError::InvalidToken(m)) && m@ == "token sem kid"@,
            Some(Some(k)) => r matches Ok(x) && x@ == k,
        },
{
    match token_kid(token) {
        Ok(Some(k)) => Ok(k),
        Ok(None) => Err(AuthError::InvalidToken("token sem kid".to_owned())),
        Err(e) => Err(e),
    }
}

/// The user described by the claims of a verified token; a token without a
/// subject is refused.
pub fn claims_from_fields(f: TokenFields) -> (r: Result<Claims, AuthError>)
    ensures
        match f.sub {
            None => r matches Err(AuthError::InvalidToken(m)) && m@ == "token sem sub"@,
            Some(sub) => r matches Ok(c) && c.uid@ == sub@ && c.sub@ == sub@ && c.email == f.email
                && c.admin == is_admin_token_spec(f.admin, opt_text(f.role)),
        },
{
    match f.sub {
        None => Err(AuthError::InvalidToken("token sem sub".to_owned())),
        Some(sub) => {
            let role = match &f.role {
                Some(r) => Some(r.as_str()),
                None => None,
            };
            Ok(claims_from_token(sub.as_str(), f.email.clone(), f.admin, role))
        },
    }
}

/// The position of the key named `kid` in a key set of `(kid, n, e)`
/// entries; of several with that name the last, as a map filled in order
/// keeps it.
pub open spec fn jwk_position(keys: Seq<(String, String, String)>, kid: Seq<char>) -> Option<int>
    decreases keys.len(),
{
    if keys.len() == 0 {
        None
    } else if keys.last().0@ == kid {
        Some(keys.len() - 1)
    } else {
        jwk_position(keys.drop_last(), kid)
    }
}

/// What verifying `token` against the key set `keys` for project
/// `project_id` may answer: the header must name a key of the set, the
/// token must be accepted under that key with the project's issuer and
/// audience, and it must have a subject; such a token is answered with its
/// user unless it has expired.
pub open spec fn firebase_verdict(
    token: Seq<char>,
    keys: Seq<(String, String, String)>,
    project_id: Seq<char>,
    r: Result<Claims, AuthError>,
) -> bool {
    match token_header_kid(token) {
        None => r matches Err(AuthError::InvalidToken(_)),
        Some(None) => r matches Err(AuthError::InvalidToken(m)) && m@ == "token sem kid"@,
        Some(Some(kid)) => match jwk_position(keys, kid) {
            None => r matches Err(AuthError::InvalidToken(m)) && m@ == "chave JWKS não encontrada: "@
                + kid,
            Some(i) => {
                let claims = rs256_claims(
                    token,
                    keys[i].1@,
                    keys[i].2@,
                    "https://securetoken.google.com/"@ + project_id,
                    project_id,
                );
                &&& claims is None ==> r is Err
                &&& (claims matches Some(f) && f.0 is None) ==> r is Err
                &&& (claims matches Some(f) && f.0 is Some) ==> (r is Ok || r matches Err(
                    AuthError::Expired,
                ))
                &&& r matches Ok(c) ==> claims matches Some(f) && f.0 == Some(c.uid@) && c.sub@
                    == c.uid@ && opt_text(c.email) == f.1 && c.admin == is_admin_token_spec(
                    f.2,
                    f.3,
                )
            },
        },
    }
}

/// Verifies a Firebase ID token of project `project_id` against the key
/// set `keys` of `(kid, n, e)` entries: the header must name a key of the
/// set, the token must be accepted under that key with the project's issuer
/// and audience, and it must have a subject.
pub fn verify_firebase_token(token: &str, keys: &Vec<(String, String, String)>, project_id: &str) -> (r:
    Result<Claims, AuthError>)
    ensures
        firebase_verdict(token@, keys@, project_id@, r),
{
    let kid = match token_key_id(token) {
        Ok(k) => k,
        Err(e) => return Err(e),
    };
    let ghost kv = kid@;
    let mut i: usize = keys.len();
    assert(keys@.take(i as int) =~= keys@);
    while i > 0 && !str_eq(keys[i - 1].0.as_str(), kid.as_str())
        invariant
            i <= keys.len(),
            jwk_position(keys@, kv) == jwk_position(keys@.take(i as int), kv),
            kid@ == kv,
        decreases i,
    {
        assert(keys@.take(i as int).drop_last() =~= keys@.take(i - 1));
        i = i - 1;
    }
    if i == 0 {
        assert(keys@.take(0) =~= Seq::<(String, String, String)>::empty());
        return Err(unknown_key(kid.as_str()));
    }
    assert(keys@.take(i as int).last() == keys@[i - 1]);
    assert(jwk_position(keys@.take(i as int), kv) == Some(i - 1));
    let issuer = firebase_issuer(project_id);
    let fields = match decode_rs256(
        token,
        keys[i - 1].1.as_str(),
        keys[i - 1].2.as_str(),
        issuer.as_str(),
        project_id,
    ) {
        Ok(f) => f,
        Err(e) => return Err(e),
    };
    claims_from_fields(fields)
}

/// A signed-in user is recognised: a token whose header names a key of the
/// set, which that key accepts for the project, and which has a subject, is
/// answered with that subject as the user's id, the token's e-mail, and
/// admin rights exactly when its `admin` claim is `true` or its `role` is
/// `"admin"`; the only other answer left to it is that it has expired.
pub proof fn law_valid_token_is_accepted_with_its_claims(
    token: Seq<char>,
    keys: Seq<(String, String, String)>,
    project_id: Seq<char>,
    r: Result<Claims, AuthError>,
    kid: Seq<char>,
    i: int,
    f: (Option<Seq<char>>, Option<Seq<char>>, Option<bool>, Option<Seq<char>>),
)
    requires
        firebase_verdict(token, keys, project_id, r),
        token_header_kid(token) == Some(Some(kid)),
        jwk_position(keys, kid) == Some(i),
        rs256_claims(
            token,
            keys[i].1@,
            keys[i].2@,
            "https://securetoken.google.com/"@ + project_id,
            project_id,
        ) == Some(f),
        f.0 is Some,
    ensures
        r is Ok || r matches Err(AuthError::Expired),
        r matches Ok(c) ==> {
            &&& c.uid@ == f.0->0
            &&& c.sub@ == f.0->0
            &&& opt_text(c.email) == f.1
            &&& (c.admin <==> (f.2 == Some(true) || f.3 == Some("admin"@)))
        },
{
}

/// The user described by a verified token: its subject, its e-mail, and its
/// admin rights.
pub fn claims_from_token(
    sub: &str,
    email: Option<String>,
    admin_claim: Option<bool>,
    role_claim: Option<&str>,
) -> (c: Claims)
    ensures
        c.uid@ == sub@,
        c.sub@ == sub@,
        c.email == email,
        c.admin == is_admin_token_spec(
            admin_claim,
            match role_claim {
                Some(r) => Some(r@),
                None => None,
            },
        ),
{
    let admin = is_admin_token(admin_claim, role_claim);
    Claims::from_firebase(sub, email, admin)
}

/// The error for a token signed with a key that the key set does not hold.
pub fn unknown_key(kid: &str) -> (e: AuthError)
    ensures
        e matches AuthError::InvalidToken(m) && m@ == "chave JWKS não encontrada: "@ + kid@,
{
    let mut out: Vec<char> = Vec::new();
    push_str(&mut out, "chave JWKS não encontrada: ");
    push_str(&mut out, kid);
    AuthError::InvalidToken(string_of(out.as_slice()))
}

} // verus!
