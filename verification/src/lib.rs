//! Request-identity and result-pagination infrastructure for a coaching
//! platform backend: bearer-credential verification against a rotating
//! remote key set, first-use identity provisioning, and windowed
//! pagination with an exact total count.

pub mod cache;
pub mod errors;
pub mod identity;
pub mod keys;
pub mod models;
pub mod settings;
pub mod pagination;
pub mod strutil;
pub mod token;
