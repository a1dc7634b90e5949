//! Core rules of an admin-panel backend: account lockout, permission
//! evaluation, pagination and the checks that guard the resource services.

pub mod auth;
pub mod categories;
pub mod errors;
pub mod ids;
pub mod lockout;
pub mod models;
pub mod money;
pub mod numbers;
pub mod orders;
pub mod permissions;
pub mod products;
pub mod response;
pub mod settings;
pub mod timestamp;
pub mod users;
