use moveme_storage::api::check_access;
use moveme_storage::claims::Claims;
use moveme_storage::path::normalize_object_path;
use moveme_storage::rules::{
    AccessRequest, Operation, Rule, RuleCondition, SecurityRules, SecurityRulesEngine,
};
use moveme_storage::strmap::StringMap;

fn request(operation: Operation, path: &str, claims: Option<Claims>) -> AccessRequest {
    AccessRequest {
        operation,
        bucket: "b".to_string(),
        object_path: path.to_string(),
        claims,
        custom_metadata: StringMap::new(),
    }
}

fn owner_engine() -> SecurityRulesEngine {
    SecurityRulesEngine::new(SecurityRules {
        rules: vec![
            Rule::allow_all("public/**"),
            Rule {
                path: "users/{userId}/**".to_string(),
                read: RuleCondition::Expression("request.auth != null".to_string()),
                write: RuleCondition::Expression("request.auth.uid == '{userId}'".to_string()),
                delete: RuleCondition::Expression("request.auth.uid == '{userId}'".to_string()),
            },
        ],
    })
}

#[test]
fn prefixes_bare_filename_with_user_folder() {
    let claims = Some(Claims::from_firebase("uid-123", None, false));
    assert_eq!(
        normalize_object_path("foto.jpg", &claims),
        "users/uid-123/foto.jpg"
    );
}

#[test]
fn keeps_prefixed_paths() {
    let claims = Some(Claims::from_firebase("uid-123", None, false));
    assert_eq!(
        normalize_object_path("public/foto.jpg", &claims),
        "public/foto.jpg"
    );
}

#[test]
fn test_path_matching_public() {
    assert!(SecurityRulesEngine::path_matches("public/**", "public/images/photo.jpg").is_some());
    assert!(SecurityRulesEngine::path_matches("public/**", "public/file.txt").is_some());
    assert!(SecurityRulesEngine::path_matches("public/**", "private/file.txt").is_none());
}

#[test]
fn test_path_matching_users_wildcard() {
    let params = SecurityRulesEngine::path_matches("users/{userId}/**", "users/abc123/avatar.jpg")
        .expect("deve casar");
    assert_eq!(params.get("userId").map(String::as_str), Some("abc123"));
}

#[test]
fn test_public_read() {
    let engine = SecurityRulesEngine::default_rules();
    let req = AccessRequest {
        operation: Operation::Read,
        bucket: "my-bucket".to_string(),
        object_path: "public/photo.jpg".to_string(),
        claims: None,
        custom_metadata: StringMap::new(),
    };
    assert!(engine.evaluate(&req));
}

#[test]
fn test_private_requires_auth() {
    let engine = SecurityRulesEngine::default_rules();
    let req = AccessRequest {
        operation: Operation::Write,
        bucket: "my-bucket".to_string(),
        object_path: "private/doc.pdf".to_string(),
        claims: None,
        custom_metadata: StringMap::new(),
    };
    assert!(!engine.evaluate(&req));

    let req_auth = AccessRequest {
        claims: Some(Claims::new("user1", Some("user@example.com".to_string()), false)),
        ..req
    };
    assert!(engine.evaluate(&req_auth));
}

#[test]
fn bare_name_without_token_is_kept() {
    assert_eq!(normalize_object_path("foto.jpg", &None), "foto.jpg");
}

#[test]
fn leading_slash_is_removed_before_prefixing() {
    let claims = Some(Claims::from_firebase("abc", None, false));
    assert_eq!(normalize_object_path("/foto.jpg", &claims), "users/abc/foto.jpg");
    assert_eq!(normalize_object_path("/public/a.txt", &claims), "public/a.txt");
}

#[test]
fn exact_pattern_matches_only_same_segments() {
    assert!(SecurityRulesEngine::path_matches("docs/readme.md", "docs/readme.md").is_some());
    assert!(SecurityRulesEngine::path_matches("docs/readme.md", "docs/other.md").is_none());
    assert!(SecurityRulesEngine::path_matches("docs/readme.md", "docs/readme.md/x").is_none());
}

#[test]
fn double_star_matches_every_path() {
    let m = SecurityRulesEngine::path_matches("**", "any/where/at/all.txt").expect("matches");
    assert!(m.is_empty());
    assert!(SecurityRulesEngine::path_matches("*", "x").is_some());
}

#[test]
fn recursive_pattern_needs_prefix_segments() {
    assert!(SecurityRulesEngine::path_matches("users/{userId}/**", "users").is_none());
    assert!(SecurityRulesEngine::path_matches("users/{userId}/**", "users/u1").is_some());
    assert!(SecurityRulesEngine::path_matches("users/{userId}/**", "people/u1/x").is_none());
}

#[test]
fn test_users_upload_owner_allowed() {
    let engine = owner_engine();
    let req = request(
        Operation::Write,
        "users/user-1/photo.jpg",
        Some(Claims::from_firebase("user-1", None, false)),
    );
    assert!(engine.evaluate(&req));
}

#[test]
fn test_users_upload_other_denied() {
    let engine = owner_engine();
    let req = request(
        Operation::Write,
        "users/other-user/photo.jpg",
        Some(Claims::from_firebase("user-1", None, false)),
    );
    assert!(!engine.evaluate(&req));
}

#[test]
fn admin_is_always_allowed() {
    let engine = SecurityRulesEngine::default_rules();
    let admin = Some(Claims::from_firebase("root", None, true));
    assert!(engine.evaluate(&request(Operation::Delete, "nowhere/x", admin.clone())));
    assert!(engine.evaluate(&request(Operation::Delete, "private/x", admin)));
}

#[test]
fn unmatched_path_is_denied() {
    let engine = SecurityRulesEngine::default_rules();
    let user = Some(Claims::from_firebase("u", None, false));
    assert!(!engine.evaluate(&request(Operation::Read, "other/x", user)));
    assert!(!engine.evaluate(&request(Operation::Read, "", None)));
}

#[test]
fn private_delete_needs_admin() {
    let engine = SecurityRulesEngine::default_rules();
    let user = Some(Claims::from_firebase("u", None, false));
    assert!(!engine.evaluate(&request(Operation::Delete, "private/x", user)));
}

#[test]
fn first_matching_rule_decides() {
    let engine = SecurityRulesEngine::new(SecurityRules {
        rules: vec![
            Rule {
                path: "a/**".to_string(),
                read: RuleCondition::Bool(false),
                write: RuleCondition::Bool(false),
                delete: RuleCondition::Bool(false),
            },
            Rule::allow_all("**"),
        ],
    });
    assert!(!engine.evaluate(&request(Operation::Read, "a/b", None)));
    assert!(engine.evaluate(&request(Operation::Read, "c/d", None)));
}

#[test]
fn metadata_condition_compares_custom_metadata() {
    let engine = SecurityRulesEngine::new(SecurityRules {
        rules: vec![Rule {
            path: "shared/**".to_string(),
            read: RuleCondition::Expression("resource.metadata.owner == 'ana'".to_string()),
            write: RuleCondition::Bool(false),
            delete: RuleCondition::Bool(false),
        }],
    });
    let mut meta = StringMap::new();
    meta.insert("owner".to_string(), "ana".to_string());
    let mut req = request(Operation::Read, "shared/file", None);
    req.custom_metadata = meta;
    assert!(engine.evaluate(&req));
    let mut other = StringMap::new();
    other.insert("owner".to_string(), "bob".to_string());
    req.custom_metadata = other;
    assert!(!engine.evaluate(&req));
    req.custom_metadata = StringMap::new();
    assert!(!engine.evaluate(&req));
}

#[test]
fn substitute_params_replaces_captures() {
    let mut params = StringMap::new();
    params.insert("userId".to_string(), "u7".to_string());
    let expr: Vec<char> = "request.auth.uid == '{userId}'".chars().collect();
    let out: String = SecurityRulesEngine::substitute_params(&expr, &params).into_iter().collect();
    assert_eq!(out, "request.auth.uid == 'u7'");
}

#[test]
fn check_access_refuses_with_forbidden() {
    let engine = SecurityRulesEngine::default_rules();
    let ok = check_access(&engine, Operation::Read, "b", "public/a", &None, StringMap::new());
    assert!(ok.is_ok());
    let err = check_access(&engine, Operation::Write, "b", "private/a", &None, StringMap::new())
        .unwrap_err();
    assert_eq!(err.status, 403);
    assert_eq!(err.message, "acesso negado pelas regras de segurança");
}

#[test]
fn claims_admin_flag() {
    assert!(Claims::new("a", None, true).is_admin());
    assert!(!Claims::from_firebase("a", None, false).is_admin());
    let c = Claims::from_firebase("a", Some("a@x.io".to_string()), false);
    assert_eq!(c.uid, "a");
    assert_eq!(c.sub, "a");
    assert_eq!(c.email.as_deref(), Some("a@x.io"));
}

#[test]
fn string_map_insert_replaces() {
    let mut m = StringMap::new();
    m.insert("k".to_string(), "1".to_string());
    m.insert("j".to_string(), "2".to_string());
    m.insert("k".to_string(), "3".to_string());
    assert_eq!(m.len(), 2);
    assert_eq!(m.get("k").map(String::as_str), Some("3"));
    assert_eq!(m.get("j").map(String::as_str), Some("2"));
    assert!(m.get("z").is_none());
}

#[test]
fn bare_upload_by_owner_is_allowed_under_owner_rule() {
    let engine = owner_engine();
    let claims = Some(Claims::from_firebase("abc123", None, false));
    let path = normalize_object_path("foto.jpg", &claims);
    assert_eq!(path, "users/abc123/foto.jpg");
    assert!(engine.evaluate(&request(Operation::Write, &path, claims)));
}

#[test]
fn anonymous_bare_upload_is_refused_by_default_rules() {
    let engine = SecurityRulesEngine::default_rules();
    let path = normalize_object_path("foto.jpg", &None);
    assert_eq!(path, "foto.jpg");
    assert!(!engine.evaluate(&request(Operation::Write, &path, None)));
    assert!(engine.evaluate(&request(Operation::Write, "public", None)));
}

#[test]
fn normalizing_twice_changes_nothing() {
    let claims = Some(Claims::from_firebase("u1", None, false));
    for path in ["foto.jpg", "/foto.jpg", "//a/b.txt", "public/x", ""] {
        let once = normalize_object_path(path, &claims);
        assert_eq!(normalize_object_path(&once, &claims), once);
        let anon = normalize_object_path(path, &None);
        assert_eq!(normalize_object_path(&anon, &None), anon);
    }
}
