use rust_admin::permissions::Permission;

const CATALOG: [&str; 14] = [
    "dashboard:read",
    "dashboard:write",
    "user:read",
    "user:write",
    "product:read",
    "product:write",
    "order:read",
    "order:write",
    "category:read",
    "category:write",
    "settings:read",
    "settings:write",
    "logs:read",
    "logs:write",
];

#[test]
fn wildcard_grants_whole_catalog() {
    for c in CATALOG {
        assert!(Permission::has_permission(r#"["*"]"#, c));
    }
    assert!(!Permission::has_permission(r#"["*"]"#, "reports:export"));
}

#[test]
fn exact_match_only_without_wildcard() {
    let perms = r#"["dashboard:read", "order:read"]"#;
    assert!(Permission::has_permission(perms, "order:read"));
    assert!(!Permission::has_permission(perms, "order:write"));
    assert!(!Permission::has_permission(perms, "order"));
    assert!(!Permission::has_permission(r#"["user:*"]"#, "user:read"));
}

#[test]
fn malformed_json_grants_nothing() {
    assert!(!Permission::has_permission("not json", "user:read"));
    assert!(!Permission::has_permission("*", "user:read"));
    assert!(Permission::get_permissions("{oops").is_empty());
}

#[test]
fn any_permission() {
    let perms = r#"["dashboard:read", "order:read"]"#;
    assert!(Permission::has_any_permission(perms, &["user:write", "order:read"]));
    assert!(!Permission::has_any_permission(perms, &["user:write", "user:read"]));
    assert!(!Permission::has_any_permission(perms, &[]));
}

#[test]
fn expand_wildcard_and_extras() {
    let mut got = Permission::get_permissions(r#"["*", "reports:export", "user:read"]"#);
    got.sort();
    let mut want: Vec<String> = CATALOG.iter().map(|s| s.to_string()).collect();
    want.push("reports:export".to_string());
    want.sort();
    assert_eq!(got, want);
}

#[test]
fn expand_removes_duplicates() {
    let got = Permission::get_permissions(r#"["order:read", "order:read", "user:read"]"#);
    assert_eq!(got, vec!["order:read".to_string(), "user:read".to_string()]);
}
