pub mod config;
pub mod routes;
pub mod session;
pub mod user;
