//! Verified core of the Prior web client: auth decisions, the Prior gate protocol's
//! request bookkeeping, and the factory dashboard's view model.
pub mod text;
pub mod order;
pub mod net;
pub mod state;
pub mod auth;
pub mod pages;
pub mod runtime;
