pub mod auth_denied;
pub mod dashboard;
