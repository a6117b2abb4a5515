//! The authentication layer, leaves first.

pub mod error;
pub mod codec;
pub mod credentials;
pub mod store;
pub mod session;
pub mod controller;
