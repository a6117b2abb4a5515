//! The user record as the lookup collaborator hands it over.

use vstd::prelude::*;

verus! {

/// A stored user: `password` holds the encoded password hash.
#[derive(Debug, Clone, PartialEq, Eq)]
pub struct User {
    pub id: i32,
    pub username: String,
    pub password: String,
}

/// The mathematical content of a [`User`].
pub struct UserModel {
    pub id: i32,
    pub username: Seq<char>,
    pub password: Seq<char>,
}

impl View for User {
    type V = UserModel;

    open spec fn view(&self) -> UserModel {
        UserModel { id: self.id, username: self.username@, password: self.password@ }
    }
}

} // verus!
