//! Request and view types that the services take and give.
use vstd::prelude::*;

verus! {

#[derive(Debug, Clone)]
pub struct CreateUserRequest {
    pub username: String,
    pub email: String,
    pub password: String,
    pub phone: Option<String>,
    pub address: Option<String>,
    pub avatar: Option<String>,
    pub role_id: i64,
}

#[derive(Debug, Clone)]
pub struct UpdateUserRequest {
    pub username: String,
    pub email: String,
    pub phone: Option<String>,
    pub address: Option<String>,
    pub avatar: Option<String>,
    pub role_id: i64,
}

#[derive(Debug, Clone)]
pub struct LoginRequest {
    pub username: String,
    pub password: String,
}

#[derive(Debug, Clone)]
pub struct UserInfo {
    pub id: i64,
    pub username: String,
    pub email: String,
    pub phone: Option<String>,
    pub address: Option<String>,
    pub avatar: Option<String>,
    pub role_name: String,
    pub permissions: String,
}

#[derive(Debug, Clone)]
pub struct ChangePasswordRequest {
    pub old_password: String,
    pub new_password: String,
}

#[derive(Debug, Clone)]
pub struct CreateCategoryRequest {
    pub name: String,
    pub parent_id: Option<i64>,
    pub sort_order: Option<i32>,
}

#[derive(Debug, Clone)]
pub struct CreateLogRequest {
    pub user_id: Option<i64>,
    pub action: String,
    pub description: String,
    pub ip_address: String,
}

#[derive(Debug, Clone, Copy, PartialEq, Eq, Structural)]
pub struct DashboardStats {
    pub total_users: i64,
    pub total_products: i64,
    pub total_orders: i64,
    pub total_categories: i64,
    /// Revenue of the completed orders, in minor units.
    pub completed_revenue_cents: i128,
}

#[derive(Debug, Clone)]
pub struct SystemInfo {
    pub system_name: String,
    pub system_version: String,
    pub system_description: String,
    pub rust_version: String,
    pub tauri_version: String,
}

#[derive(Debug, Clone)]
pub struct UpdateSettingRequest {
    pub setting_key: String,
    pub setting_value: String,
}

/// Where a domain event came from and what caused it.
#[derive(Debug, Clone)]
pub struct EventMetadata {
    pub correlation_id: Option<String>,
    pub causation_id: Option<String>,
    pub user_id: Option<String>,
    pub source: String,
}

impl Default for EventMetadata {
    fn default() -> (r: Self)
        ensures
            r.correlation_id is None,
            r.causation_id is None,
            r.user_id is None,
            r.source@ == "rust-admin"@,
    {
        EventMetadata {
            correlation_id: None,
            causation_id: None,
            user_id: None,
            source: "rust-admin".to_string(),
        }
    }
}

} // verus!
