//! Cookie-based session authentication: the cookie codec, the credential
//! verifier, the per-request session resolver and the login/logout
//! controller, each a function on plain values with a proved contract.

pub mod auth;
pub mod config;
pub mod model;
