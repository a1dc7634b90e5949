use rust_admin::orders::{completed_revenue, OrderAmount, OrderStatus};
use rust_admin::categories::{check_category_name, check_parent, validate_new_category, CategoryLink};
use rust_admin::errors::ServiceError;
use rust_admin::models::{CreateCategoryRequest, CreateUserRequest, UpdateUserRequest};
use rust_admin::response::{page_bounds, total_pages, ApiResponse, PageRequest, PaginatedResponse};
use rust_admin::users::{
    apply_user_update, check_user_deletable, is_admin_name, prepare_new_user,
    username_or_email_taken, AccountKey, UserProfile,
};

#[test]
fn pagination_of_twenty_three_items() {
    let req = PageRequest::resolve(Some(3), Some(10)).unwrap();
    assert_eq!(total_pages(23, 10), 3);
    assert_eq!(req.offset(), 20);
    assert_eq!(page_bounds(23, &req), (20, 23));
    let first = PageRequest::resolve(None, None).unwrap();
    assert_eq!(first, PageRequest { page: 1, per_page: 10 });
    assert_eq!(page_bounds(23, &first), (0, 10));
    let beyond = PageRequest::resolve(Some(4), Some(10)).unwrap();
    assert_eq!(page_bounds(23, &beyond), (23, 23));
}

#[test]
fn total_pages_edges() {
    assert_eq!(total_pages(0, 10), 0);
    assert_eq!(total_pages(10, 10), 1);
    assert_eq!(total_pages(11, 10), 2);
    assert_eq!(total_pages(i64::MAX, 1), i64::MAX);
}

#[test]
fn page_request_rejects_zero() {
    assert!(matches!(PageRequest::resolve(Some(0), None), Err(ServiceError::Validation(_))));
    assert!(matches!(PageRequest::resolve(None, Some(0)), Err(ServiceError::Validation(_))));
    assert!(matches!(PageRequest::resolve(Some(-1), Some(5)), Err(ServiceError::Validation(_))));
}

#[test]
fn paginated_response_counts_pages() {
    let req = PageRequest::resolve(Some(3), Some(10)).unwrap();
    let page = PaginatedResponse::new(vec![20, 21, 22], 23, &req);
    assert_eq!(page.items, vec![20, 21, 22]);
    assert_eq!(page.total, 23);
    assert_eq!(page.page, 3);
    assert_eq!(page.per_page, 10);
    assert_eq!(page.total_pages, 3);
}

#[test]
fn api_response_envelopes() {
    let ok = ApiResponse::success(7);
    assert!(ok.success);
    assert_eq!(ok.data, Some(7));
    assert_eq!(ok.message, "操作成功");
    let err: ApiResponse<i32> = ApiResponse::error("nope".to_string());
    assert!(!err.success);
    assert_eq!(err.data, None);
    assert_eq!(err.message, "nope");
}

#[test]
fn bootstrap_admin_cannot_be_deleted() {
    for role in [1, 2, 3, 99] {
        assert!(matches!(check_user_deletable(1, "someone", role), Err(ServiceError::ProtectedResource(_))));
        assert!(matches!(check_user_deletable(42, "admin", role), Err(ServiceError::ProtectedResource(_))));
    }
    assert!(matches!(check_user_deletable(7, "bob", 1), Err(ServiceError::ProtectedResource(_))));
    assert!(check_user_deletable(7, "bob", 2).is_ok());
    assert!(check_user_deletable(7, "Admin", 3).is_ok());
}

#[test]
fn admin_name_is_exact() {
    assert!(is_admin_name("admin"));
    assert!(!is_admin_name("Admin"));
    assert!(!is_admin_name("admin "));
}

fn keys() -> Vec<AccountKey> {
    vec![
        AccountKey { username: "admin".to_string(), email: "admin@example.com".to_string() },
        AccountKey { username: "alice".to_string(), email: "alice@example.com".to_string() },
    ]
}

#[test]
fn username_or_email_uniqueness() {
    let k = keys();
    assert!(username_or_email_taken(&k, &"alice".to_string(), &"new@example.com".to_string()));
    assert!(username_or_email_taken(&k, &"carol".to_string(), &"admin@example.com".to_string()));
    assert!(!username_or_email_taken(&k, &"carol".to_string(), &"carol@example.com".to_string()));
    assert!(!username_or_email_taken(&Vec::new(), &"alice".to_string(), &"a@b".to_string()));
}

#[test]
fn duplicate_user_is_a_validation_error() {
    let req = CreateUserRequest {
        username: "alice".to_string(),
        email: "other@example.com".to_string(),
        password: "pw".to_string(),
        phone: None,
        address: None,
        avatar: None,
        role_id: 3,
    };
    assert!(matches!(prepare_new_user(&req, &keys()), Err(ServiceError::Validation(_))));
}

fn profile(name: &str) -> UserProfile {
    UserProfile {
        id: 5,
        username: name.to_string(),
        email: format!("{}@example.com", name),
        phone: None,
        address: None,
        avatar: None,
        role_id: 2,
    }
}

fn update() -> UpdateUserRequest {
    UpdateUserRequest {
        username: "renamed".to_string(),
        email: "renamed@example.com".to_string(),
        phone: Some("123".to_string()),
        address: Some("street".to_string()),
        avatar: None,
        role_id: 3,
    }
}

#[test]
fn admin_update_keeps_identity_fields() {
    let r = apply_user_update(&profile("admin"), &update());
    assert_eq!(r.username, "admin");
    assert_eq!(r.email, "admin@example.com");
    assert_eq!(r.role_id, 2);
    assert_eq!(r.phone, Some("123".to_string()));
    assert_eq!(r.address, Some("street".to_string()));
}

#[test]
fn ordinary_update_takes_every_field() {
    let r = apply_user_update(&profile("bob"), &update());
    assert_eq!(r.id, 5);
    assert_eq!(r.username, "renamed");
    assert_eq!(r.email, "renamed@example.com");
    assert_eq!(r.role_id, 3);
    assert_eq!(r.phone, Some("123".to_string()));
    assert_eq!(r.avatar, None);
}

#[test]
fn category_name_twice_is_refused_case_sensitively() {
    let mut names: Vec<String> = Vec::new();
    let req = CreateCategoryRequest { name: "Electronics".to_string(), parent_id: None, sort_order: None };
    let first = validate_new_category(&names, &req).unwrap();
    assert_eq!(first.name, "Electronics");
    assert_eq!(first.sort_order, 0);
    names.push(first.name);
    assert!(matches!(validate_new_category(&names, &req), Err(ServiceError::Validation(_))));
    let lower = CreateCategoryRequest { name: "electronics".to_string(), parent_id: Some(1), sort_order: Some(4) };
    let second = validate_new_category(&names, &lower).unwrap();
    assert_eq!(second.name, "electronics");
    assert_eq!(second.parent_id, Some(1));
    assert_eq!(second.sort_order, 4);
    assert!(check_category_name(&names, "Books").is_ok());
}

#[test]
fn category_parent_must_be_top_level() {
    let links = vec![
        CategoryLink { id: 1, parent_id: None },
        CategoryLink { id: 2, parent_id: Some(1) },
    ];
    assert!(check_parent(&links, None, None).is_ok());
    assert!(check_parent(&links, None, Some(1)).is_ok());
    assert!(check_parent(&links, Some(3), Some(1)).is_ok());
    assert!(matches!(check_parent(&links, Some(1), Some(1)), Err(ServiceError::Validation(_))));
    assert!(matches!(check_parent(&links, None, Some(2)), Err(ServiceError::Validation(_))));
    assert!(matches!(check_parent(&links, None, Some(9)), Err(ServiceError::Validation(_))));
}

#[test]
fn order_status_codes_round_trip() {
    for s in [OrderStatus::Pending, OrderStatus::Paid, OrderStatus::Shipped, OrderStatus::Completed, OrderStatus::Cancelled] {
        assert_eq!(OrderStatus::from_code(s.code()), Ok(s));
    }
    assert_eq!(OrderStatus::Completed.code(), "completed");
    assert!(matches!(OrderStatus::from_code("Completed"), Err(ServiceError::Validation(_))));
    assert!(matches!(OrderStatus::from_code("1"), Err(ServiceError::Validation(_))));
}

#[test]
fn revenue_counts_completed_orders_only() {
    let orders = vec![
        OrderAmount { status: Some(OrderStatus::Completed), amount_cents: 1050 },
        OrderAmount { status: Some(OrderStatus::Pending), amount_cents: 999 },
        OrderAmount { status: None, amount_cents: 500 },
        OrderAmount { status: Some(OrderStatus::Completed), amount_cents: 200 },
    ];
    assert_eq!(completed_revenue(&orders), 1250);
    assert_eq!(completed_revenue(&Vec::new()), 0);
    let big = vec![OrderAmount { status: Some(OrderStatus::Completed), amount_cents: i64::MAX }; 3];
    assert_eq!(completed_revenue(&big), 3 * i64::MAX as i128);
}
