//! Records as the credential store holds them.
use vstd::prelude::*;

use crate::auth::Auth;
use crate::clock::{now_utc, Timestamp};

verus! {

/// A stored user record. `password` holds the bcrypt hash string of the
/// user's password, never the password itself.
#[derive(Debug, Clone)]
pub struct User {
    pub id: i32,
    pub username: String,
    pub password: String,
    pub created_at: Timestamp,
}

impl User {
    /// A blank record, not yet stored (`id` is -1), stamped with the current time.
    pub fn new() -> (r: Self)
        ensures
            r.id == -1,
            r.username@.len() == 0,
            r.password@.len() == 0,
            r.created_at.wf(),
    {
        User { id: -1, username: String::new(), password: String::new(), created_at: now_utc() }
    }

    pub fn get_id(&self) -> (r: &i32)
        ensures
            *r == self.id,
    {
        &self.id
    }

    pub fn get_createted_at(&self) -> (r: &Timestamp)
        ensures
            *r == self.created_at,
    {
        &self.created_at
    }
}

impl Auth for User {
    open spec fn auth_username(&self) -> Seq<char> {
        self.username@
    }

    open spec fn auth_password(&self) -> Seq<char> {
        self.password@
    }

    fn get_username(&self) -> (r: &String) {
        &self.username
    }

    fn get_password(&self) -> (r: &String) {
        &self.password
    }
}

/// The fields of a user record that signup writes; the store assigns the rest.
#[derive(Debug)]
pub struct NewUser<'nu> {
    pub username: &'nu str,
    pub password: &'nu str,
}

/// A session to be stored: its token and the user it belongs to.
#[derive(Debug, Clone)]
pub struct NewUserSession {
    pub session_key: String,
    pub user_id: i32,
}

impl NewUserSession {
    pub fn new(session_key: String, user_id: i32) -> (r: Self)
        ensures
            r.session_key == session_key,
            r.user_id == user_id,
    {
        NewUserSession { session_key, user_id }
    }
}

/// A session as the issuer keeps it: active until `ended_at` is set.
#[derive(Debug, Clone)]
pub struct UserSession {
    pub session_key: String,
    pub user_id: i32,
    pub created_at: Timestamp,
    pub ended_at: Option<Timestamp>,
}

impl UserSession {
    pub open spec fn is_active_spec(&self) -> bool {
        self.ended_at is None
    }

    /// Whether the session has not been ended.
    pub fn is_active(&self) -> (r: bool)
        ensures
            r == self.is_active_spec(),
    {
        self.ended_at.is_none()
    }
}

} // verus!
