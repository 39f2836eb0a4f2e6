//! The stored entities of the authentication collaborator, as plain values.
use vstd::prelude::*;

verus! {

/// A user: a creditor whose details a principal keeps for its slips.
pub struct User {
    pub pk: i32,
    pub name: String,
    pub address: String,
    pub zip_code: String,
    pub city: String,
    pub iban: String,
    pub country: String,
    pub fk_principal: i32,
}

/// A user not stored yet.
pub struct NewUser {
    pub name: String,
    pub address: String,
    pub zip_code: String,
    pub city: String,
    pub iban: String,
    pub country: String,
    pub fk_principal: i32,
}

/// A login: a user name and its password hash.
pub struct Principal {
    pub pk: i32,
    pub user_name: String,
    pub password: String,
}

/// A principal not stored yet.
pub struct NewPrincipal {
    pub user_name: String,
    pub password: String,
}

impl NewUser {
    /// The user that `create_user` describes, for the principal `fk_principal`.
    pub fn from_create_user(create_user: crate::auth::CreateUser, fk_principal: i32) -> (r: NewUser)
        ensures
            r.name == create_user.name,
            r.address == create_user.address,
            r.zip_code == create_user.zip_code,
            r.city == create_user.city,
            r.iban == create_user.iban,
            r.country == create_user.country,
            r.fk_principal == fk_principal,
    {
        NewUser {
            name: create_user.name,
            address: create_user.address,
            zip_code: create_user.zip_code,
            city: create_user.city,
            iban: create_user.iban,
            country: create_user.country,
            fk_principal,
        }
    }
}

} // verus!
