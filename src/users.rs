//! User values handed between the layers.
use vstd::prelude::*;

use crate::auth::Auth;
use crate::clock::{now_utc, Timestamp};

verus! {

/// A user as the forms and the credential checks pass it on: id (-1 while the
/// user is not stored), name and password text.
#[derive(Debug, Clone)]
pub struct BaseUser {
    pub id: i32,
    pub username: String,
    pub password: String,
}

impl BaseUser {
    pub fn new() -> (r: Self)
        ensures
            r.id == -1,
            r.username@.len() == 0,
            r.password@.len() == 0,
    {
        BaseUser::default()
    }

    pub fn get_id(&self) -> (r: &i32)
        ensures
            *r == self.id,
    {
        &self.id
    }

    fn _get_username(&self) -> (r: &String)
        ensures
            r@ == self.username@,
    {
        &self.username
    }

    fn _get_password(&self) -> (r: &String)
        ensures
            r@ == self.password@,
    {
        &self.password
    }
}

impl Default for BaseUser {
    fn default() -> (r: BaseUser)
        ensures
            r.id == -1,
            r.username@.len() == 0,
            r.password@.len() == 0,
    {
        BaseUser { id: -1, username: String::new(), password: String::new() }
    }
}

impl Auth for BaseUser {
    open spec fn auth_username(&self) -> Seq<char> {
        self.username@
    }

    open spec fn auth_password(&self) -> Seq<char> {
        self.password@
    }

    fn get_username(&self) -> (r: &String) {
        self._get_username()
    }

    fn get_password(&self) -> (r: &String) {
        self._get_password()
    }
}

/// The outcome of a successful login: who the user is, with neither the
/// password nor its hash.
#[derive(Debug, Clone)]
pub struct AuthenticatedUser {
    pub id: i32,
    pub username: String,
}

/// A user as shown to clients: no password.
#[derive(Debug, Clone)]
pub struct UserResponse {
    pub id: i32,
    pub username: String,
    pub created_at: Timestamp,
}

impl UserResponse {
    pub fn new() -> (r: Self)
        ensures
            r.id == -1,
            r.username@.len() == 0,
            r.created_at.wf(),
    {
        UserResponse::default()
    }

    pub fn get_id(&self) -> (r: &i32)
        ensures
            *r == self.id,
    {
        &self.id
    }

    pub fn get_createted_at(&self) -> (r: &Timestamp)
        ensures
            *r == self.created_at,
    {
        &self.created_at
    }
}

impl Default for UserResponse {
    fn default() -> (r: UserResponse)
        ensures
            r.id == -1,
            r.username@.len() == 0,
            r.created_at.wf(),
    {
        UserResponse { id: -1, username: String::new(), created_at: now_utc() }
    }
}

} // verus!
