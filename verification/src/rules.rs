//! Security rules in the style of Firebase Storage: an ordered list of path
//! patterns, each with a condition per operation. The first rule whose
//! pattern matches the object path decides; admins may do anything; a path
//! that no rule matches is denied.

use vstd::prelude::*;

use crate::claims::Claims;
use crate::strmap::{entries_insert, lookup, Entries, StringMap};
use crate::text::{
    chars_eq, chars_eq_str, chars_of, contains_chars, contains_seq, copy_chars, ends_with,
    ends_with_chars, find, find_chars, push_all, replace_all, replace_chars, segments,
    slice_chars, split_nonempty, starts_with, starts_with_chars, str_eq, string_of, trim,
    trim_char, trim_char_chars, trim_chars, views,
};

verus! {

/// A list of rules, tried in order.
#[derive(Clone, Debug)]
pub struct SecurityRules {
    pub rules: Vec<Rule>,
}

impl Default for SecurityRules {
    fn default() -> (r: SecurityRules)
        ensures
            r.rules@.len() == 0,
    {
        SecurityRules { rules: Vec::new() }
    }
}

/// A path pattern and the condition of each operation on the paths it matches.
#[derive(Clone, Debug)]
pub struct Rule {
    pub path: String,
    pub read: RuleCondition,
    pub write: RuleCondition,
    pub delete: RuleCondition,
}

/// A literal verdict or an expression over the request.
#[derive(Clone, Debug)]
pub enum RuleCondition {
    Bool(bool),
    Expression(String),
}

impl Default for RuleCondition {
    fn default() -> (c: RuleCondition)
        ensures
            c == RuleCondition::Bool(false),
    {
        RuleCondition::Bool(false)
    }
}

/// A request to read, write or delete an object.
#[derive(Clone, Debug)]
pub struct AccessRequest {
    pub operation: Operation,
    pub bucket: String,
    pub object_path: String,
    pub claims: Option<Claims>,
    pub custom_metadata: StringMap,
}

/// The operation a request performs.
#[derive(Clone, Copy, Debug, PartialEq, Eq, Structural)]
pub enum Operation {
    Read,
    Write,
    Delete,
}

/// Evaluates requests against a list of rules.
pub struct SecurityRulesEngine {
    rules: SecurityRules,
}

// ---------------------------------------------------------------------------
// Specification
// ---------------------------------------------------------------------------

/// Whether a pattern segment is a capture `{name}`.
pub open spec fn is_capture(seg: Seq<char>) -> bool {
    seg.len() >= 2 && seg[0] == '{' && seg.last() == '}'
}

/// The name inside a capture segment.
pub open spec fn capture_name(seg: Seq<char>) -> Seq<char> {
    seg.subrange(1, seg.len() - 1)
}

/// Every one of the pattern segments is a capture or equals the path
/// segment at the same position.
pub open spec fn segments_agree(pp: Seq<Seq<char>>, sp: Seq<Seq<char>>) -> bool {
    forall|i: int| 0 <= i < pp.len() ==> is_capture(#[trigger] pp[i]) || pp[i] == sp[i]
}

/// The parameters captured by the first `n` pattern segments, later
/// captures of the same name replacing earlier ones.
pub open spec fn captured(pp: Seq<Seq<char>>, sp: Seq<Seq<char>>, n: int) -> Entries
    decreases n,
{
    if n <= 0 {
        Seq::empty()
    } else if is_capture(pp[n - 1]) {
        entries_insert(captured(pp, sp, n - 1), capture_name(pp[n - 1]), sp[n - 1])
    } else {
        captured(pp, sp, n - 1)
    }
}

/// Matching of a pattern (without a trailing `/**`) against a path, segment
/// by segment; with `allow_rest` the path may have more segments.
pub open spec fn match_segments_spec(pattern: Seq<char>, path: Seq<char>, allow_rest: bool) -> Option<
    Entries,
> {
    let pp = segments(pattern, '/');
    let sp = segments(path, '/');
    if (allow_rest && sp.len() < pp.len()) || (!allow_rest && pp.len() != sp.len()) {
        None
    } else if segments_agree(pp, sp) {
        Some(captured(pp, sp, pp.len() as int))
    } else {
        None
    }
}

/// Matching of a rule pattern against an object path: `**` and `*` match
/// everything; `base/**` matches the paths below `base`; any other pattern
/// matches paths of the same number of segments.
pub open spec fn path_matches_spec(pattern: Seq<char>, path: Seq<char>) -> Option<Entries> {
    if pattern == "**"@ || pattern == "*"@ {
        Some(Seq::empty())
    } else if ends_with(pattern, "/**"@) {
        match_segments_spec(pattern.subrange(0, pattern.len() - "/**"@.len()), path, true)
    } else {
        match_segments_spec(pattern, path, false)
    }
}

/// `{name}` for a parameter name.
pub open spec fn braced(k: Seq<char>) -> Seq<char> {
    seq!['{'] + k + seq!['}']
}

/// `s` with `{name}` replaced by the value of each of the first `n`
/// parameters, in order.
pub open spec fn substitute_spec(s: Seq<char>, params: Entries, n: int) -> Seq<char>
    decreases n,
{
    if n <= 0 {
        s
    } else {
        replace_all(substitute_spec(s, params, n - 1), braced(params[n - 1].0), params[n - 1].1)
    }
}

/// The prefix of an ownership expression.
pub open spec fn uid_prefix() -> Seq<char> {
    "request.auth.uid == '"@
}

/// The prefix of a metadata key in an expression.
pub open spec fn metadata_prefix() -> Seq<char> {
    "resource.metadata."@
}

/// The value of an expression, after trimming and parameter substitution:
/// `request.auth != null`, `request.auth.admin == true`,
/// `request.auth.uid == '<uid>'`, and `resource.metadata.<key> == '<value>'`
/// are understood; anything else is false.
pub open spec fn expression_spec(expr: Seq<char>, req: AccessRequest, params: Entries) -> bool {
    let e = substitute_spec(trim(expr), params, params.len() as int);
    if e == "request.auth != null"@ {
        req.claims is Some
    } else if e == "request.auth.admin == true"@ {
        req.claims is Some && req.claims->0.admin
    } else if starts_with(e, uid_prefix()) && ends_with(e.skip(uid_prefix().len() as int), "'"@) {
        let rest = e.skip(uid_prefix().len() as int);
        req.claims is Some && req.claims->0.uid@ == rest.subrange(0, rest.len() - "'"@.len())
    } else if contains_seq(e, "resource.metadata"@) && find(e, "=="@) is Some {
        let k = find(e, "=="@)->0;
        let key = trim(e.subrange(0, k));
        let expected = trim_char(trim(e.skip(k + "=="@.len())), '\'');
        let key2 = trim(key);
        let meta_key = if starts_with(key2, metadata_prefix()) {
            key2.skip(metadata_prefix().len() as int)
        } else {
            key
        };
        lookup(req.custom_metadata@, meta_key) == Some(expected)
    } else {
        false
    }
}

/// The value of a condition.
pub open spec fn condition_spec(c: RuleCondition, req: AccessRequest, params: Entries) -> bool {
    match c {
        RuleCondition::Bool(b) => b,
        RuleCondition::Expression(e) => expression_spec(e@, req, params),
    }
}

/// The condition that a rule sets for an operation.
pub open spec fn condition_for(rule: Rule, op: Operation) -> RuleCondition {
    match op {
        Operation::Read => rule.read,
        Operation::Write => rule.write,
        Operation::Delete => rule.delete,
    }
}

/// The verdict of the rules from position `i` on: the first rule whose
/// pattern matches decides, and no match denies.
pub open spec fn decide_from(rules: Seq<Rule>, req: AccessRequest, i: int) -> bool
    decreases rules.len() - i,
{
    if i < 0 || i >= rules.len() {
        false
    } else {
        match path_matches_spec(rules[i].path@, req.object_path@) {
            Some(params) => condition_spec(condition_for(rules[i], req.operation), req, params),
            None => decide_from(rules, req, i + 1),
        }
    }
}

/// Whether the request carries an admin's claims.
pub open spec fn is_admin_request(req: AccessRequest) -> bool {
    req.claims is Some && req.claims->0.admin
}

/// The verdict of the rules on a request: admins are always allowed.
pub open spec fn evaluate_spec(rules: Seq<Rule>, req: AccessRequest) -> bool {
    is_admin_request(req) || decide_from(rules, req, 0)
}

/// A rule allowing every operation.
pub open spec fn allow_all_rule(path: Seq<char>, r: Rule) -> bool {
    &&& r.path@ == path
    &&& r.read == RuleCondition::Bool(true)
    &&& r.write == RuleCondition::Bool(true)
    &&& r.delete == RuleCondition::Bool(true)
}

/// A rule letting any signed-in user read and write, and admins delete.
pub open spec fn authenticated_only_rule(path: Seq<char>, r: Rule) -> bool {
    &&& r.path@ == path
    &&& r.read matches RuleCondition::Expression(e) && e@ == "request.auth != null"@
    &&& r.write matches RuleCondition::Expression(e) && e@ == "request.auth != null"@
    &&& r.delete matches RuleCondition::Expression(e) && e@ == "request.auth.admin == true"@
}

/// The views of an optional map.
pub open spec fn opt_entries(m: Option<StringMap>) -> Option<Entries> {
    match m {
        Some(m) => Some(m@),
        None => None,
    }
}

/// Whether two requests agree on everything the rules look at.
pub open spec fn same_request(a: AccessRequest, b: AccessRequest) -> bool {
    &&& a.operation == b.operation
    &&& a.object_path@ == b.object_path@
    &&& a.claims == b.claims
    &&& a.custom_metadata@ == b.custom_metadata@
}

/// The verdict depends only on the operation, the object path, the claims
/// and the custom metadata of a request.
pub proof fn lemma_evaluate_same_request(rules: Seq<Rule>, a: AccessRequest, b: AccessRequest)
    requires
        same_request(a, b),
    ensures
        evaluate_spec(rules, a) == evaluate_spec(rules, b),
{
    lemma_decide_same_request(rules, a, b, 0);
}

/// `decide_from` depends only on what `same_request` compares.
proof fn lemma_decide_same_request(rules: Seq<Rule>, a: AccessRequest, b: AccessRequest, i: int)
    requires
        same_request(a, b),
    ensures
        decide_from(rules, a, i) == decide_from(rules, b, i),
    decreases rules.len() - i,
{
    if 0 <= i < rules.len() {
        lemma_decide_same_request(rules, a, b, i + 1);
    }
}

// ---------------------------------------------------------------------------
// Implementation
// ---------------------------------------------------------------------------

impl Rule {
    /// A rule that allows every operation on `path`.
    pub fn allow_all(path: &str) -> (r: Rule)
        ensures
            allow_all_rule(path@, r),
    {
        Rule {
            path: path.to_owned(),
            read: RuleCondition::Bool(true),
            write: RuleCondition::Bool(true),
            delete: RuleCondition::Bool(true),
        }
    }

    /// A rule that lets signed-in users read and write `path`, and only
    /// admins delete.
    pub fn authenticated_only(path: &str) -> (r: Rule)
        ensures
            authenticated_only_rule(path@, r),
    {
        Rule {
            path: path.to_owned(),
            read: RuleCondition::Expression("request.auth != null".to_owned()),
            write: RuleCondition::Expression("request.auth != null".to_owned()),
            delete: RuleCondition::Expression("request.auth.admin == true".to_owned()),
        }
    }
}

impl SecurityRulesEngine {
    /// The rules, in order.
    pub closed spec fn rule_list(&self) -> Seq<Rule> {
        self.rules.rules@
    }

    /// An engine over `rules`.
    pub fn new(rules: SecurityRules) -> (e: SecurityRulesEngine)
        ensures
            e.rule_list() == rules.rules@,
    {
        SecurityRulesEngine { rules }
    }

    /// The built-in rules: anything under `public/` is open to all, and
    /// anything under `private/` needs a signed-in user (deletion an admin).
    pub fn default_rules() -> (e: SecurityRulesEngine)
        ensures
            e.rule_list().len() == 2,
            allow_all_rule("public/**"@, e.rule_list()[0]),
            authenticated_only_rule("private/**"@, e.rule_list()[1]),
    {
        let mut rules: Vec<Rule> = Vec::new();
        rules.push(Rule::allow_all("public/**"));
        rules.push(Rule::authenticated_only("private/**"));
        Self::new(SecurityRules { rules })
    }

    /// Whether `request` is allowed: admins always are; otherwise the first
    /// rule whose pattern matches the object path decides by the condition
    /// of the requested operation; with no matching rule it is denied.
    pub fn evaluate(&self, request: &AccessRequest) -> (allowed: bool)
        ensures
            allowed == evaluate_spec(self.rule_list(), *request),
    {
        if let Some(claims) = &request.claims {
            if claims.is_admin() {
                return true;
            }
        }
        let rules = &self.rules.rules;
        let mut i: usize = 0;
        while i < rules.len()
            invariant
                rules@ == self.rule_list(),
                i <= rules.len(),
                !is_admin_request(*request),
                decide_from(rules@, *request, 0) == decide_from(rules@, *request, i as int),
            decreases rules.len() - i,
        {
            let rule = &rules[i];
            match Self::path_matches(rule.path.as_str(), request.object_path.as_str()) {
                Some(params) => {
                    let condition = match request.operation {
                        Operation::Read => &rule.read,
                        Operation::Write => &rule.write,
                        Operation::Delete => &rule.delete,
                    };
                    return Self::evaluate_condition(condition, request, &params);
                },
                None => {},
            }
            i = i + 1;
        }
        false
    }

    /// Matches a rule pattern against an object path, capturing `{name}`
    /// segments.
    pub fn path_matches(pattern: &str, path: &str) -> (r: Option<StringMap>)
        ensures
            opt_entries(r) == path_matches_spec(pattern@, path@),
    {
        if str_eq(pattern, "**") || str_eq(pattern, "*") {
            return Some(StringMap::new());
        }
        let p = chars_of(pattern);
        let suffix = chars_of("/**");
        if ends_with_chars(&p, &suffix) {
            let base = slice_chars(&p, 0, p.len() - suffix.len());
            Self::match_segments(&base, path, true)
        } else {
            Self::match_segments(&p, path, false)
        }
    }

    /// Whether a pattern segment is a capture `{name}`.
    fn capture_segment(seg: &Vec<char>) -> (b: bool)
        ensures
            b == is_capture(seg@),
    {
        seg.len() >= 2 && seg[0] == '{' && seg[seg.len() - 1] == '}'
    }

    /// Matches pattern segments against path segments.
    fn match_segments(pattern: &Vec<char>, path: &str, allow_rest: bool) -> (r: Option<StringMap>)
        ensures
            opt_entries(r) == match_segments_spec(pattern@, path@, allow_rest),
    {
        let pattern_parts = split_nonempty(pattern, '/');
        let path_chars = chars_of(path);
        let path_parts = split_nonempty(&path_chars, '/');
        let ghost pp = segments(pattern@, '/');
        let ghost sp = segments(path@, '/');
        assert(pattern_parts@.len() == pp.len());
        assert(path_parts@.len() == sp.len());
        if allow_rest {
            if path_parts.len() < pattern_parts.len() {
                return None;
            }
        } else if pattern_parts.len() != path_parts.len() {
            return None;
        }
        let mut params = StringMap::new();
        let mut i: usize = 0;
        while i < pattern_parts.len()
            invariant
                i <= pattern_parts.len() <= path_parts.len(),
                views(pattern_parts@) == pp,
                views(path_parts@) == sp,
                pp == segments(pattern@, '/'),
                sp == segments(path@, '/'),
                pp.len() <= sp.len(),
                forall|j: int| 0 <= j < i ==> is_capture(#[trigger] pp[j]) || pp[j] == sp[j],
                params@ == captured(pp, sp, i as int),
            decreases pattern_parts.len() - i,
        {
            let pat = &pattern_parts[i];
            let seg = &path_parts[i];
            assert(pat@ == pp[i as int]);
            assert(seg@ == sp[i as int]);
            if Self::capture_segment(pat) {
                let key = slice_chars(pat, 1, pat.len() - 1);
                params.insert(string_of(key.as_slice()), string_of(seg.as_slice()));
            } else if !chars_eq(pat, seg) {
                assert(!(is_capture(pp[i as int]) || pp[i as int] == sp[i as int]));
                assert(!segments_agree(pp, sp));
                return None;
            }
            i = i + 1;
        }
        assert(segments_agree(pp, sp));
        Some(params)
    }

    /// The value of a condition.
    fn evaluate_condition(
        condition: &RuleCondition,
        request: &AccessRequest,
        path_params: &StringMap,
    ) -> (b: bool)
        ensures
            b == condition_spec(*condition, *request, path_params@),
    {
        match condition {
            RuleCondition::Bool(b) => *b,
            RuleCondition::Expression(expr) => Self::evaluate_expression(
                expr.as_str(),
                request,
                path_params,
            ),
        }
    }

    /// Replaces each `{name}` in `expr` by the value of parameter `name`.
    pub fn substitute_params(expr: &Vec<char>, path_params: &StringMap) -> (r: Vec<char>)
        ensures
            r@ == substitute_spec(expr@, path_params@, path_params@.len() as int),
    {
        let mut result = copy_chars(expr);
        let mut i: usize = 0;
        while i < path_params.len()
            invariant
                i <= path_params@.len(),
                result@ == substitute_spec(expr@, path_params@, i as int),
            decreases path_params@.len() - i,
        {
            let mut pat: Vec<char> = Vec::new();
            pat.push('{');
            let key = chars_of(path_params.key_at(i).as_str());
            push_all(&mut pat, &key);
            pat.push('}');
            assert(pat@ =~= braced(path_params@[i as int].0));
            let value = chars_of(path_params.value_at(i).as_str());
            result = replace_chars(&result, &pat, &value);
            i = i + 1;
        }
        result
    }

    /// The value of an expression over the request.
    fn evaluate_expression(expr: &str, request: &AccessRequest, path_params: &StringMap) -> (b:
        bool)
        ensures
            b == expression_spec(expr@, *request, path_params@),
    {
        let raw = chars_of(expr);
        let trimmed = trim_chars(&raw);
        let e = Self::substitute_params(&trimmed, path_params);
        if chars_eq_str(&e, "request.auth != null") {
            return request.claims.is_some();
        }
        if chars_eq_str(&e, "request.auth.admin == true") {
            return match &request.claims {
                Some(c) => c.admin,
                None => false,
            };
        }
        let prefix = chars_of("request.auth.uid == '");
        if starts_with_chars(&e, &prefix) {
            let rest = slice_chars(&e, prefix.len(), e.len());
            assert(rest@ =~= e@.skip(uid_prefix().len() as int));
            let quote = chars_of("'");
            if ends_with_chars(&rest, &quote) {
                let uid = slice_chars(&rest, 0, rest.len() - quote.len());
                return match &request.claims {
                    Some(c) => {
                        let cu = chars_of(c.uid.as_str());
                        chars_eq(&cu, &uid)
                    },
                    None => false,
                };
            }
        }
        let marker = chars_of("resource.metadata");
        if contains_chars(&e, &marker) {
            let eq = chars_of("==");
            match find_chars(&e, &eq) {
                Some(k) => {
                    let left = slice_chars(&e, 0, k);
                    let key = trim_chars(&left);
                    let right = slice_chars(&e, k + eq.len(), e.len());
                    assert(right@ =~= e@.skip(k + "=="@.len()));
                    let right_trimmed = trim_chars(&right);
                    let expected = trim_char_chars(&right_trimmed, '\'');
                    let key2 = trim_chars(&key);
                    let mprefix = chars_of("resource.metadata.");
                    let meta_key = if starts_with_chars(&key2, &mprefix) {
                        let mk = slice_chars(&key2, mprefix.len(), key2.len());
                        assert(mk@ =~= key2@.skip(metadata_prefix().len() as int));
                        mk
                    } else {
                        key
                    };
                    let meta_key_s = string_of(meta_key.as_slice());
                    return match request.custom_metadata.get(meta_key_s.as_str()) {
                        Some(v) => {
                            let vc = chars_of(v.as_str());
                            chars_eq(&vc, &expected)
                        },
                        None => false,
                    };
                },
                None => {},
            }
        }
        false
    }
}

} // verus!
