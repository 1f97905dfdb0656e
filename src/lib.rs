//! Session authentication: signed session tokens, a revocation set, the
//! per-request authorisation decision, and the account records around them.

pub mod text;
pub mod identity;
pub mod token;
pub mod revocation;
pub mod middleware;
pub mod password;
pub mod errors;
pub mod models;
pub mod account;
