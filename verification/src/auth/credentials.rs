//! The credential verifier: a user name and a password against the stored
//! user record.

use vstd::prelude::*;
use crate::auth::codec::key_view;
use crate::auth::error::AuthError;
use crate::auth::session::{Identity, UserSessionBody};
use crate::model::{User, UserModel};

verus! {

/// The encoded Argon2 hash of `password` under `salt` with the hash
/// library's default parameters, or `None` where the library refuses the
/// pair (a salt that is too short, for one).
pub uninterp spec fn argon2_encoded(password: Seq<char>, salt: Seq<char>) -> Option<Seq<char>>;

/// Calls `argon2::hash_encoded` on the bytes of `password` and `salt` with
/// `argon2::Config::default()`. Trusted: the result is the library's, a
/// function of the two texts alone; an error of the library becomes `None`.
#[verifier::external_body]
fn hash_password(password: &str, salt: &str) -> (r: Option<String>)
    ensures
        key_view(r) == argon2_encoded(password@, salt@),
{
    ::argon2::hash_encoded(password.as_bytes(), salt.as_bytes(), &::argon2::Config::default()).ok()
}

/// The content of an optional user record.
pub open spec fn user_view(user: Option<&User>) -> Option<UserModel> {
    match user {
        Some(u) => Some(u@),
        None => None,
    }
}

/// The content of the verifier's answer.
pub open spec fn verdict_view(r: Result<UserSessionBody, AuthError>) -> Result<Identity, AuthError> {
    match r {
        Ok(body) => Ok(body@),
        Err(e) => Err(e),
    }
}

/// The identity that a user record stands for.
pub open spec fn identity_of(user: UserModel) -> Identity {
    Identity { user_id: user.id, username: user.username }
}

/// Whether the lookup answered the question that was asked: a record under
/// the requested name.
pub open spec fn found(username: Seq<char>, user: Option<UserModel>) -> bool {
    user matches Some(u) && u.username == username
}

/// The verifier's decision, given the hash of the supplied password.
pub open spec fn verdict(
    username: Seq<char>,
    user: Option<UserModel>,
    hashed: Option<Seq<char>>,
) -> Result<Identity, AuthError> {
    if !found(username, user) {
        Err(AuthError::UserNotFound)
    } else if hashed == Some(user.unwrap().password) {
        Ok(identity_of(user.unwrap()))
    } else {
        Err(AuthError::InvalidCredentials)
    }
}

/// Decides on a login once the supplied password has been hashed: the
/// identity of `user` where the lookup found the requested name and the
/// hash equals the stored one; `UserNotFound` without such a record;
/// `InvalidCredentials` where the hash differs or could not be computed.
pub fn check_hash(username: &str, user: Option<&User>, hashed: Option<String>) -> (r: Result<
    UserSessionBody,
    AuthError,
>)
    ensures
        verdict_view(r) == verdict(username@, user_view(user), key_view(hashed)),
{
    match user {
        None => Err(AuthError::UserNotFound),
        Some(u) => {
            let asked = username.to_owned();
            if !(u.username == asked) {
                return Err(AuthError::UserNotFound);
            }
            match hashed {
                None => Err(AuthError::InvalidCredentials),
                Some(h) => {
                    if h == u.password {
                        Ok(UserSessionBody { user_id: u.id, username: u.username.clone() })
                    } else {
                        Err(AuthError::InvalidCredentials)
                    }
                },
            }
        },
    }
}

/// Verifies a user name and a plaintext password against the record that
/// the lookup returned, hashing the password under the process-wide salt.
pub fn verify(username: &str, password: &str, user: Option<&User>, salt: &str) -> (r: Result<
    UserSessionBody,
    AuthError,
>)
    ensures
        verdict_view(r) == verdict(
            username@,
            user_view(user),
            argon2_encoded(password@, salt@),
        ),
{
    if user.is_none() {
        return Err(AuthError::UserNotFound);
    }
    check_hash(username, user, hash_password(password, salt))
}

} // verus!
