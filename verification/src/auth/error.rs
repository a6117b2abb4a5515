//! The failures of a request, as the components report them to each other.

use vstd::prelude::*;

verus! {

/// Why a request was turned away.
#[derive(Debug, Clone, Copy, PartialEq, Eq, Structural)]
pub enum AuthError {
    /// No user bears the given name.
    UserNotFound,
    /// The password does not match the stored hash.
    InvalidCredentials,
    /// The request carries neither a cookie nor a usable credentials body.
    MalformedRequest,
    /// The cookie names a session that the store does not hold.
    InvalidSession,
    /// The store could not be reached.
    StoreUnavailable,
}

} // verus!
