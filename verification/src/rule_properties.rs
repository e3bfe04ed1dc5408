//! Properties of the security rules: how patterns match, which rule
//! decides, and what the built-in and owner rules allow.

use vstd::prelude::*;

use crate::rules::{
    allow_all_rule, authenticated_only_rule, captured, condition_for, condition_spec,
    decide_from, evaluate_spec, expression_spec, is_admin_request, is_capture,
    match_segments_spec, path_matches_spec, segments_agree, substitute_spec, AccessRequest,
    Operation, Rule, RuleCondition,
};
use crate::rules::{braced, uid_prefix};
use crate::strmap::{entries_insert, Entries};
use crate::claims::Claims;
use crate::path::normalize_spec;
use crate::text::{
    ends_with, flush, has_char, is_ws, replace_all, segments, segs_from, starts_with,
    strip_start_char, trim, trim_end, trim_start,
};

verus! {

/// Admins may do anything, whatever the rules say.
pub proof fn law_admin_always_allowed(rules: Seq<Rule>, req: AccessRequest)
    requires
        is_admin_request(req),
    ensures
        evaluate_spec(rules, req),
{
}

/// `decide_from` falls through rules whose pattern does not match.
proof fn lemma_decide_skips_unmatched(rules: Seq<Rule>, req: AccessRequest, i: int, k: int)
    requires
        0 <= i <= k <= rules.len(),
        forall|j: int|
            i <= j < k ==> path_matches_spec(#[trigger] rules[j].path@, req.object_path@) is None,
    ensures
        decide_from(rules, req, i) == decide_from(rules, req, k),
    decreases k - i,
{
    if i < k {
        lemma_decide_skips_unmatched(rules, req, i + 1, k);
    }
}

/// A request that is not an admin's and whose path no rule matches is denied.
pub proof fn law_unmatched_path_denied(rules: Seq<Rule>, req: AccessRequest)
    requires
        !is_admin_request(req),
        forall|j: int|
            0 <= j < rules.len() ==> path_matches_spec(#[trigger] rules[j].path@, req.object_path@)
                is None,
    ensures
        !evaluate_spec(rules, req),
{
    lemma_decide_skips_unmatched(rules, req, 0, rules.len() as int);
}

/// For a request that is not an admin's, the first rule whose pattern
/// matches decides, by its condition for the requested operation and the
/// parameters its pattern captured; later rules play no part.
pub proof fn law_first_matching_rule_decides(rules: Seq<Rule>, req: AccessRequest, k: int)
    requires
        !is_admin_request(req),
        0 <= k < rules.len(),
        forall|j: int|
            0 <= j < k ==> path_matches_spec(#[trigger] rules[j].path@, req.object_path@) is None,
        path_matches_spec(rules[k].path@, req.object_path@) is Some,
    ensures
        evaluate_spec(rules, req) == condition_spec(
            condition_for(rules[k], req.operation),
            req,
            path_matches_spec(rules[k].path@, req.object_path@)->0,
        ),
{
    lemma_decide_skips_unmatched(rules, req, 0, k);
}

/// `**` and `*` match every path and capture nothing.
pub proof fn law_wildcard_patterns_match_everything(path: Seq<char>)
    ensures
        path_matches_spec("**"@, path) == Some(Seq::<(Seq<char>, Seq<char>)>::empty()),
        path_matches_spec("*"@, path) == Some(Seq::<(Seq<char>, Seq<char>)>::empty()),
{
}

/// `base/**` matches exactly the paths that have at least the segments of
/// `base`, agreeing with them (captures agree with any segment).
pub proof fn law_recursive_pattern(base: Seq<char>, path: Seq<char>)
    ensures
        ({
            let pp = segments(base, '/');
            let sp = segments(path, '/');
            (path_matches_spec(base + "/**"@, path) is Some) == (pp.len() <= sp.len()
                && segments_agree(pp, sp))
        }),
{
    reveal_strlit("/**");
    reveal_strlit("**");
    reveal_strlit("*");
    let pattern = base + "/**"@;
    assert(pattern.subrange(pattern.len() - 3, pattern.len() as int) =~= "/**"@);
    assert(pattern.subrange(0, pattern.len() - 3) =~= base);
    if pattern == "**"@ {
        assert(pattern.len() == 2);
    }
    if pattern == "*"@ {
        assert(pattern.len() == 1);
    }
}

/// Any other pattern matches exactly the paths with as many segments,
/// agreeing with them.
pub proof fn law_exact_pattern(pattern: Seq<char>, path: Seq<char>)
    requires
        pattern != "**"@,
        pattern != "*"@,
        !ends_with(pattern, "/**"@),
    ensures
        ({
            let pp = segments(pattern, '/');
            let sp = segments(path, '/');
            (path_matches_spec(pattern, path) is Some) == (pp.len() == sp.len()
                && segments_agree(pp, sp))
        }),
{
}

/// Splitting text without separators gives the pending segment and the text.
proof fn lemma_segs_without_sep(cur: Seq<char>, rest: Seq<char>, sep: char)
    requires
        forall|i: int| 0 <= i < rest.len() ==> rest[i] != sep,
    ensures
        segs_from(cur, rest, sep) == flush(cur + rest),
    decreases rest.len(),
{
    if rest.len() > 0 {
        lemma_segs_without_sep(cur.push(rest[0]), rest.drop_first(), sep);
        assert(cur.push(rest[0]) + rest.drop_first() =~= cur + rest);
    } else {
        assert(cur + rest =~= cur);
    }
}

/// A non-empty word without `/` is a single segment.
proof fn lemma_single_segment(w: Seq<char>)
    requires
        w.len() > 0,
        forall|i: int| 0 <= i < w.len() ==> w[i] != '/',
    ensures
        segments(w, '/') == seq![w],
{
    lemma_segs_without_sep(Seq::empty(), w, '/');
    assert(Seq::<char>::empty() + w =~= w);
}

/// Text that neither starts nor ends with white space is its own trim.
proof fn lemma_trim_unchanged(s: Seq<char>)
    requires
        s.len() > 0,
        !is_ws(s[0]),
        !is_ws(s.last()),
    ensures
        trim(s) == s,
{
}

/// Matching `word/**` for a word without `/` or captures: the path must
/// start with the segment `word`, and nothing is captured.
proof fn lemma_prefix_rule_match(pattern: Seq<char>, word: Seq<char>, path: Seq<char>)
    requires
        pattern == word + "/**"@,
        word.len() > 0,
        word[0] != '{',
        forall|i: int| 0 <= i < word.len() ==> word[i] != '/',
    ensures
        ({
            let sp = segments(path, '/');
            &&& (path_matches_spec(pattern, path) is Some) == (sp.len() >= 1 && sp[0] == word)
            &&& path_matches_spec(pattern, path) is Some ==> path_matches_spec(pattern, path)->0
                == Seq::<(Seq<char>, Seq<char>)>::empty()
        }),
{
    reveal_strlit("/**");
    reveal_strlit("**");
    reveal_strlit("*");
    law_recursive_pattern(word, path);
    lemma_single_segment(word);
    let pp = segments(word, '/');
    let sp = segments(path, '/');
    assert(!is_capture(pp[0]));
    assert(pattern.subrange(pattern.len() - 3, pattern.len() as int) =~= "/**"@);
    assert(pattern.subrange(0, pattern.len() - 3) =~= word);
    if pattern == "**"@ {
        assert(pattern.len() == 2);
    }
    if pattern == "*"@ {
        assert(pattern.len() == 1);
    }
    if sp.len() >= 1 && sp[0] == word {
        assert(segments_agree(pp, sp));
    }
    assert(captured(pp, sp, 0) =~= Seq::<(Seq<char>, Seq<char>)>::empty());
}

/// The built-in rules, for anyone but an admin: everything under `public/`
/// is allowed; under `private/`, reading and writing need a signed-in user
/// and deleting is refused; any other path is refused.
pub proof fn law_default_rules(rules: Seq<Rule>, req: AccessRequest)
    requires
        rules.len() == 2,
        allow_all_rule("public/**"@, rules[0]),
        authenticated_only_rule("private/**"@, rules[1]),
        !is_admin_request(req),
    ensures
        ({
            let sp = segments(req.object_path@, '/');
            &&& (sp.len() >= 1 && sp[0] == "public"@) ==> evaluate_spec(rules, req)
            &&& (sp.len() >= 1 && sp[0] == "private"@) ==> evaluate_spec(rules, req) == (
            req.operation != Operation::Delete && req.claims is Some)
            &&& (sp.len() == 0 || (sp[0] != "public"@ && sp[0] != "private"@)) ==> !evaluate_spec(
                rules,
                req,
            )
        }),
{
    reveal_strlit("public/**");
    reveal_strlit("private/**");
    reveal_strlit("public");
    reveal_strlit("private");
    reveal_strlit("/**");
    reveal_strlit("request.auth != null");
    reveal_strlit("request.auth.admin == true");
    let path = req.object_path@;
    let sp = segments(path, '/');
    assert("public/**"@ =~= "public"@ + "/**"@);
    assert("private/**"@ =~= "private"@ + "/**"@);
    lemma_prefix_rule_match("public/**"@, "public"@, path);
    lemma_prefix_rule_match("private/**"@, "private"@, path);
    let auth = "request.auth != null"@;
    let admin = "request.auth.admin == true"@;
    lemma_trim_unchanged(auth);
    lemma_trim_unchanged(admin);
    assert(auth != admin) by {
        assert(auth.len() != admin.len());
    }
    let empty = Seq::<(Seq<char>, Seq<char>)>::empty();
    assert(substitute_spec(auth, empty, 0) == auth);
    assert(substitute_spec(admin, empty, 0) == admin);
    if sp.len() >= 1 && sp[0] == "public"@ {
        assert(decide_from(rules, req, 0) == condition_spec(
            condition_for(rules[0], req.operation),
            req,
            empty,
        ));
    } else {
        assert(decide_from(rules, req, 0) == decide_from(rules, req, 1));
        if sp.len() >= 1 && sp[0] == "private"@ {
            assert(expression_spec(auth, req, empty) == req.claims is Some);
            assert(expression_spec(admin, req, empty) == false);
        } else {
            assert(decide_from(rules, req, 1) == decide_from(rules, req, 2));
        }
    }
}

/// A word without separators moves whole into the pending segment.
proof fn lemma_segs_word(cur: Seq<char>, w: Seq<char>, rest: Seq<char>, sep: char)
    requires
        forall|i: int| 0 <= i < w.len() ==> w[i] != sep,
    ensures
        segs_from(cur, w + rest, sep) == segs_from(cur + w, rest, sep),
    decreases w.len(),
{
    if w.len() > 0 {
        assert((w + rest)[0] == w[0]);
        assert((w + rest).drop_first() =~= w.drop_first() + rest);
        lemma_segs_word(cur.push(w[0]), w.drop_first(), rest, sep);
        assert(cur.push(w[0]) + w.drop_first() =~= cur + w);
    } else {
        assert(w + rest =~= rest);
        assert(cur + w =~= cur);
    }
}

/// Every segment is non-empty.
proof fn lemma_segments_nonempty(cur: Seq<char>, rest: Seq<char>, sep: char)
    ensures
        forall|i: int|
            0 <= i < segs_from(cur, rest, sep).len() ==> (#[trigger] segs_from(cur, rest, sep)[i]).len()
                > 0,
    decreases rest.len(),
{
    let r = segs_from(cur, rest, sep);
    if rest.len() == 0 {
        assert(r == flush(cur));
        assert forall|i: int| 0 <= i < r.len() implies (#[trigger] r[i]).len() > 0 by {
            assert(r[i] == cur);
        }
    } else if rest[0] == sep {
        lemma_segments_nonempty(Seq::empty(), rest.drop_first(), sep);
        let tail = segs_from(Seq::empty(), rest.drop_first(), sep);
        assert(r == flush(cur) + tail);
        assert forall|i: int| 0 <= i < r.len() implies (#[trigger] r[i]).len() > 0 by {
            if i < flush(cur).len() {
                assert(r[i] == cur);
            } else {
                assert(r[i] == tail[i - flush(cur).len()]);
            }
        }
    } else {
        lemma_segments_nonempty(cur.push(rest[0]), rest.drop_first(), sep);
        assert(r == segs_from(cur.push(rest[0]), rest.drop_first(), sep));
    }
}

/// Replacing `p` in `a + p + b`, when the first character of `p` does not
/// occur in `a`, replaces that occurrence and goes on after it.
proof fn lemma_replace_after_prefix(a: Seq<char>, p: Seq<char>, b: Seq<char>, r: Seq<char>)
    requires
        p.len() > 0,
        forall|i: int| 0 <= i < a.len() ==> a[i] != p[0],
    ensures
        replace_all(a + p + b, p, r) == a + r + replace_all(b, p, r),
    decreases a.len(),
{
    let s = a + p + b;
    if a.len() == 0 {
        assert(s =~= p + b);
        assert(s.subrange(0, p.len() as int) =~= p);
        assert(s.skip(p.len() as int) =~= b);
        assert(a + r + replace_all(b, p, r) =~= r + replace_all(b, p, r));
    } else {
        assert(s.subrange(0, p.len() as int)[0] == a[0]);
        assert(s.drop_first() =~= a.drop_first() + p + b);
        lemma_replace_after_prefix(a.drop_first(), p, b, r);
        assert(a + r + replace_all(b, p, r) =~= seq![a[0]] + (a.drop_first() + r + replace_all(
            b,
            p,
            r,
        )));
    }
}

/// The owner rule `users/{userId}/**` with the write condition
/// `request.auth.uid == '{userId}'`: its pattern matches the paths below
/// `users/<id>/`, capturing `userId` as `<id>`, and its condition holds
/// exactly for the signed-in user whose UID is `<id>`.
pub proof fn law_owner_rule(req: AccessRequest)
    ensures
        ({
            let sp = segments(req.object_path@, '/');
            let m = path_matches_spec("users/{userId}/**"@, req.object_path@);
            &&& (m is Some) == (sp.len() >= 2 && sp[0] == "users"@)
            &&& m is Some ==> {
                &&& m->0 == seq![("userId"@, sp[1])]
                &&& expression_spec("request.auth.uid == '{userId}'"@, req, m->0) == (req.claims
                    is Some && req.claims->0.uid@ == sp[1])
            }
        }),
{
    reveal_strlit("users/{userId}/**");
    reveal_strlit("users");
    reveal_strlit("{userId}");
    reveal_strlit("userId");
    reveal_strlit("/**");
    reveal_strlit("**");
    reveal_strlit("*");
    reveal_strlit("request.auth.uid == '{userId}'");
    reveal_strlit("request.auth.uid == '");
    reveal_strlit("'");
    reveal_strlit("request.auth != null");
    reveal_strlit("request.auth.admin == true");
    reveal_strlit("resource.metadata");
    let path = req.object_path@;
    let sp = segments(path, '/');
    let base = "users"@ + seq!['/'] + "{userId}"@;
    assert("users/{userId}/**"@ =~= base + "/**"@);
    law_recursive_pattern(base, path);
    // the segments of the base
    lemma_segs_word(Seq::empty(), "users"@, seq!['/'] + "{userId}"@, '/');
    assert(base =~= "users"@ + (seq!['/'] + "{userId}"@));
    assert(Seq::<char>::empty() + "users"@ =~= "users"@);
    assert((seq!['/'] + "{userId}"@).drop_first() =~= "{userId}"@);
    lemma_segs_without_sep(Seq::empty(), "{userId}"@, '/');
    assert(Seq::<char>::empty() + "{userId}"@ =~= "{userId}"@);
    let pp = segments(base, '/');
    assert(pp =~= seq!["users"@, "{userId}"@]);
    assert(!is_capture(pp[0]));
    assert(is_capture(pp[1]));
    assert(pp[1].subrange(1, pp[1].len() - 1) =~= "userId"@);
    let pattern = "users/{userId}/**"@;
    assert(pattern.subrange(pattern.len() - 3, pattern.len() as int) =~= "/**"@);
    assert(pattern.subrange(0, pattern.len() - 3) =~= base);
    if pattern == "**"@ {
        assert(pattern.len() == 2);
    }
    if pattern == "*"@ {
        assert(pattern.len() == 1);
    }
    if sp.len() >= 2 && sp[0] == "users"@ {
        assert(segments_agree(pp, sp));
        assert(captured(pp, sp, 0) =~= Seq::<(Seq<char>, Seq<char>)>::empty());
        assert(captured(pp, sp, 1) =~= Seq::<(Seq<char>, Seq<char>)>::empty());
        let params = captured(pp, sp, 2);
        assert(params =~= seq![("userId"@, sp[1])]);
        // the expression after substitution
        let e0 = "request.auth.uid == '{userId}'"@;
        let a = uid_prefix();
        lemma_trim_unchanged(e0);
        assert(e0 =~= a + "{userId}"@ + "'"@);
        assert(braced("userId"@) =~= "{userId}"@);
        let x = sp[1];
        lemma_segments_nonempty(Seq::empty(), path, '/');
        assert(x.len() > 0);
        lemma_replace_after_prefix(a, "{userId}"@, "'"@, x);
        assert(substitute_spec(e0, params, 0) == e0);
        let e = substitute_spec(e0, params, 1);
        assert(e =~= a + x + "'"@);
        assert(e != "request.auth != null"@) by {
            assert(e.len() > "request.auth != null"@.len());
        }
        assert(e != "request.auth.admin == true"@) by {
            assert(e[13] != "request.auth.admin == true"@[13]);
        }
        assert(starts_with(e, a)) by {
            assert(e.subrange(0, a.len() as int) =~= a);
        }
        let rest = e.skip(a.len() as int);
        assert(rest =~= x + "'"@);
        assert(ends_with(rest, "'"@)) by {
            assert(rest.subrange(rest.len() - 1, rest.len() as int) =~= "'"@);
        }
        assert(rest.subrange(0, rest.len() - 1) =~= x);
    }
}


/// The segments of `users/{uid}/{name}` for a UID and a name that are single
/// segments.
proof fn lemma_user_folder_segments(uid: Seq<char>, name: Seq<char>)
    requires
        uid.len() > 0,
        name.len() > 0,
        !has_char(uid, '/'),
        !has_char(name, '/'),
    ensures
        segments("users/"@ + uid + "/"@ + name, '/') == seq!["users"@, uid, name],
{
    reveal_strlit("users/");
    reveal_strlit("users");
    reveal_strlit("/");
    let e = Seq::<char>::empty();
    let s = "users/"@ + uid + "/"@ + name;
    let tail1 = seq!['/'] + (uid + (seq!['/'] + name));
    assert(s =~= "users"@ + tail1);
    lemma_segs_word(e, "users"@, tail1, '/');
    assert(e + "users"@ =~= "users"@);
    assert(tail1.drop_first() =~= uid + (seq!['/'] + name));
    assert(segs_from("users"@, tail1, '/') == flush("users"@) + segs_from(
        e,
        uid + (seq!['/'] + name),
        '/',
    ));
    lemma_segs_word(e, uid, seq!['/'] + name, '/');
    assert(e + uid =~= uid);
    assert((seq!['/'] + name).drop_first() =~= name);
    assert(segs_from(uid, seq!['/'] + name, '/') == flush(uid) + segs_from(e, name, '/'));
    lemma_segs_without_sep(e, name, '/');
    assert(e + name =~= name);
    assert(segments(s, '/') =~= seq!["users"@, uid, name]);
}

/// A bare file name uploaded by a signed-in user, whose UID is a single path
/// segment, is stored under `users/{uid}/`: the owner rule's pattern matches
/// it with `userId` bound to that UID, and its write condition holds for the
/// uploader.
pub proof fn law_bare_upload_is_owned_by_uploader(name: Seq<char>, c: Claims, req: AccessRequest)
    requires
        strip_start_char(trim(name), '/').len() > 0,
        !has_char(strip_start_char(trim(name), '/'), '/'),
        c.uid@.len() > 0,
        !has_char(c.uid@, '/'),
        req.object_path@ == normalize_spec(name, Some(c)),
        req.claims == Some(c),
    ensures
        path_matches_spec("users/{userId}/**"@, req.object_path@) == Some(
            seq![("userId"@, c.uid@)],
        ),
        expression_spec("request.auth.uid == '{userId}'"@, req, seq![("userId"@, c.uid@)]),
{
    reveal_strlit("users");
    let p = strip_start_char(trim(name), '/');
    assert(req.object_path@ == "users/"@ + c.uid@ + "/"@ + p);
    lemma_user_folder_segments(c.uid@, p);
    law_owner_rule(req);
}


/// Under the built-in rules, a bare file name sent without a token is kept
/// as it is and refused (unless the name is `public` itself, which the
/// public rule covers).
pub proof fn law_anonymous_bare_upload_refused(
    name: Seq<char>,
    rules: Seq<Rule>,
    req: AccessRequest,
)
    requires
        rules.len() == 2,
        allow_all_rule("public/**"@, rules[0]),
        authenticated_only_rule("private/**"@, rules[1]),
        strip_start_char(trim(name), '/').len() > 0,
        !has_char(strip_start_char(trim(name), '/'), '/'),
        strip_start_char(trim(name), '/') != "public"@,
        req.object_path@ == normalize_spec(name, None),
        req.claims is None,
    ensures
        req.object_path@ == strip_start_char(trim(name), '/'),
        !evaluate_spec(rules, req),
{
    let p = strip_start_char(trim(name), '/');
    lemma_single_segment(p);
    law_default_rules(rules, req);
}

} // verus!
