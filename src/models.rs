use vstd::prelude::*;

verus! {

/// A registered user, as the credential store holds it.
#[derive(Clone, Debug)]
pub struct User {
    /// Opaque unique identifier, assigned by the store at creation.
    pub id: String,
    pub username: String,
    /// The stored credential that a login is compared against.
    pub password_hash: String,
    /// Creation time in whole seconds since the Unix epoch, when the store has one.
    pub created_at: Option<i64>,
}

/// What the credential store is asked to create on registration.
#[derive(Clone, Debug)]
pub struct NewUser {
    pub username: String,
    pub password_hash: String,
}

} // verus!
