pub mod auth;
pub mod gate;
