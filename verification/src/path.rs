//! Normalisation of object paths named by uploads.

use vstd::prelude::*;

use crate::claims::Claims;
use crate::text::{
    chars_of, contains_char, has_char, is_ws, push_all, push_str, strip_start_char,
    strip_start_char_chars, string_of, trim, trim_chars,
};

verus! {

/// The normalised form of an upload name: trimmed, without leading `/`;
/// a bare file name (no `/`) of a signed-in user goes under `users/{uid}/`.
pub open spec fn normalize_spec(path: Seq<char>, claims: Option<Claims>) -> Seq<char> {
    let p = strip_start_char(trim(path), '/');
    if p.len() == 0 || has_char(p, '/') || claims is None {
        p
    } else {
        "users/"@ + claims->0.uid@ + "/"@ + p
    }
}

/// Trims `path` and removes its leading `/`; when what is left is a bare
/// file name and the request is signed in, prefixes `users/{uid}/`.
pub fn normalize_object_path(path: &str, claims: &Option<Claims>) -> (r: String)
    ensures
        r@ == normalize_spec(path@, *claims),
{
    let raw = chars_of(path);
    let trimmed = trim_chars(&raw);
    let p = strip_start_char_chars(&trimmed, '/');
    if p.len() == 0 || contains_char(&p, '/') {
        return string_of(p.as_slice());
    }
    match claims {
        Some(c) => {
            let mut out: Vec<char> = Vec::new();
            push_str(&mut out, "users/");
            push_str(&mut out, c.uid.as_str());
            push_str(&mut out, "/");
            push_all(&mut out, &p);
            string_of(out.as_slice())
        },
        None => string_of(p.as_slice()),
    }
}

/// Removing leading copies of `c` leaves a sequence that does not start with `c`.
pub proof fn lemma_strip_start_char(s: Seq<char>, c: char)
    ensures
        strip_start_char(s, c).len() > 0 ==> strip_start_char(s, c)[0] != c,
    decreases s.len(),
{
    if s.len() > 0 && s[0] == c {
        lemma_strip_start_char(s.drop_first(), c);
    }
}

/// A normalised path never begins with `/`.
pub proof fn law_normalized_path_has_no_leading_slash(path: Seq<char>, claims: Option<Claims>)
    ensures
        normalize_spec(path, claims).len() > 0 ==> normalize_spec(path, claims)[0] != '/',
{
    lemma_strip_start_char(trim(path), '/');
    reveal_strlit("users/");
    let p = strip_start_char(trim(path), '/');
    if !(p.len() == 0 || has_char(p, '/') || claims is None) {
        assert(normalize_spec(path, claims)[0] == "users/"@[0]);
    }
}

/// A bare file name uploaded by a signed-in user lands in that user's folder
/// `users/{uid}/`, and a path that already has folders is kept.
pub proof fn law_bare_names_go_to_user_folder(path: Seq<char>, c: Claims)
    ensures
        ({
            let p = strip_start_char(trim(path), '/');
            &&& (p.len() > 0 && !has_char(p, '/')) ==> normalize_spec(path, Some(c)) == "users/"@
                + c.uid@ + "/"@ + p
            &&& has_char(p, '/') ==> normalize_spec(path, Some(c)) == p
        }),
{
}

/// Removing leading copies of `c` leaves a suffix of the sequence.
proof fn lemma_strip_start_is_suffix(s: Seq<char>, c: char)
    ensures
        strip_start_char(s, c).len() <= s.len(),
        strip_start_char(s, c) == s.skip(s.len() - strip_start_char(s, c).len()),
    decreases s.len(),
{
    if s.len() > 0 && s[0] == c {
        lemma_strip_start_is_suffix(s.drop_first(), c);
        let r = strip_start_char(s.drop_first(), c);
        assert(s.drop_first().skip(s.drop_first().len() - r.len()) =~= s.skip(s.len() - r.len()));
    } else {
        assert(s.skip(0) =~= s);
    }
}

/// A sequence that neither starts nor ends with white space is its own trim.
proof fn lemma_trim_unchanged_ends(s: Seq<char>)
    requires
        s.len() > 0 ==> !is_ws(s[0]) && !is_ws(s.last()),
    ensures
        trim(s) == s,
{
}

/// Normalising a normalised path changes nothing, for paths without white
/// space.
pub proof fn law_normalize_idempotent(path: Seq<char>, claims: Option<Claims>)
    requires
        forall|i: int| 0 <= i < path.len() ==> !is_ws(#[trigger] path[i]),
    ensures
        normalize_spec(normalize_spec(path, claims), claims) == normalize_spec(path, claims),
{
    reveal_strlit("users/");
    reveal_strlit("/");
    lemma_trim_unchanged_ends(path);
    let p = strip_start_char(trim(path), '/');
    lemma_strip_start_is_suffix(path, '/');
    lemma_strip_start_char(path, '/');
    assert forall|i: int| 0 <= i < p.len() implies !is_ws(#[trigger] p[i]) by {
        assert(p[i] == path[path.len() - p.len() + i]);
    }
    lemma_trim_unchanged_ends(p);
    let r = normalize_spec(path, claims);
    if p.len() == 0 || has_char(p, '/') || claims is None {
        assert(r == p);
        assert(strip_start_char(p, '/') == p);
    } else {
        let u = claims->0.uid@;
        assert(r == "users/"@ + u + "/"@ + p);
        assert(r[0] == 'u');
        assert(r.last() == p.last());
        lemma_trim_unchanged_ends(r);
        assert(strip_start_char(r, '/') == r);
        assert(r[5] == '/');
        assert(has_char(r, '/'));
    }
}

} // verus!
