//! Credential checks against the record the credential store returned for a
//! username. The lookup itself is the caller's: these functions take its
//! result (`None` where the store has no such user, or failed).
use vstd::prelude::*;

use crate::errors::AuthError;
use crate::hasher::{password_matches, verify};
use crate::models::User;
use crate::users::{AuthenticatedUser, BaseUser};

verus! {

/// The record among the lookup's result that belongs to `username`: a record
/// for another name counts as none.
pub open spec fn stored_record(username: Seq<char>, found: Option<User>) -> Option<User> {
    match found {
        Some(u) => if u.username@ == username {
            Some(u)
        } else {
            None
        },
        None => None,
    }
}

/// Why logging in with `username` and `password` fails against the lookup's
/// result, or `None` where it succeeds.
pub open spec fn login_error(username: Seq<char>, password: Seq<char>, found: Option<User>) -> Option<
    AuthError,
> {
    match stored_record(username, found) {
        None => Some(AuthError::UserNotFound),
        Some(u) => if password_matches(password, u.password@) {
            None
        } else {
            Some(AuthError::InvalidPassword)
        },
    }
}

/// `base` carries the stored record `u` field for field.
pub open spec fn carries_record(base: BaseUser, u: User) -> bool {
    &&& base.id == u.id
    &&& base.username@ == u.username@
    &&& base.password@ == u.password@
}

/// The outcome of a password check on a stored user: the user where the hasher
/// accepted the password, else `InvalidPassword`.
pub fn password_verdict(usr: BaseUser, accepted: bool) -> (r: Result<BaseUser, AuthError>)
    ensures
        accepted ==> r == Ok::<BaseUser, AuthError>(usr),
        !accepted ==> r == Err::<BaseUser, AuthError>(AuthError::InvalidPassword),
{
    if accepted {
        Ok(usr)
    } else {
        Err(AuthError::InvalidPassword)
    }
}

/// A credential pair that can be checked against the credential store.
pub trait Auth: Sized {
    /// The username of the credential.
    spec fn auth_username(&self) -> Seq<char>;

    /// The password of the credential, as submitted.
    spec fn auth_password(&self) -> Seq<char>;

    fn get_username(&self) -> (r: &String)
        ensures
            r@ == self.auth_username(),
    ;

    fn get_password(&self) -> (r: &String)
        ensures
            r@ == self.auth_password(),
    ;

    /// Logs in: the stored user (`id` and `username`, never the password or its
    /// hash) where a record for this username exists and its hash accepts the
    /// password; else `UserNotFound` or `InvalidPassword`.
    fn authenticate(&self, found: &Option<User>) -> (r: Result<AuthenticatedUser, AuthError>)
        ensures
            match login_error(self.auth_username(), self.auth_password(), *found) {
                Some(e) => r == Err::<AuthenticatedUser, AuthError>(e),
                None => r matches Ok(a) && a.id == found->0.id && a.username@
                    == self.auth_username(),
            },
    {
        match self.verify_password(found) {
            Ok(usr) => Ok(AuthenticatedUser { id: usr.id, username: usr.username }),
            Err(e) => Err(e),
        }
    }

    /// The stored record for this username, or `UserNotFound`.
    fn verify_user(&self, found: &Option<User>) -> (r: Result<BaseUser, AuthError>)
        ensures
            match stored_record(self.auth_username(), *found) {
                Some(u) => r matches Ok(b) && carries_record(b, u),
                None => r == Err::<BaseUser, AuthError>(AuthError::UserNotFound),
            },
    {
        match found {
            Some(usr) => {
                if usr.username == *self.get_username() {
                    Ok(
                        BaseUser {
                            id: usr.id,
                            username: usr.username.clone(),
                            password: usr.password.clone(),
                        },
                    )
                } else {
                    Err(AuthError::UserNotFound)
                }
            },
            None => Err(AuthError::UserNotFound),
        }
    }

    /// The stored record for this username where its hash accepts the password;
    /// else `UserNotFound` or `InvalidPassword`.
    fn verify_password(&self, found: &Option<User>) -> (r: Result<BaseUser, AuthError>)
        ensures
            match login_error(self.auth_username(), self.auth_password(), *found) {
                Some(e) => r == Err::<BaseUser, AuthError>(e),
                None => r matches Ok(b) && carries_record(b, found->0),
            },
    {
        match self.verify_user(found) {
            Ok(usr) => {
                let accepted = verify(self.get_password().as_str(), usr.password.as_str());
                password_verdict(usr, accepted)
            },
            Err(e) => Err(e),
        }
    }

    /// Signup check, the opposite of `verify_user`: `UserAlreadyExists` where a
    /// record for this username exists, else `Ok`.
    fn verify_new_username(&self, found: &Option<User>) -> (r: Result<(), AuthError>)
        ensures
            stored_record(self.auth_username(), *found) is Some ==> r == Err::<(), AuthError>(
                AuthError::UserAlreadyExists,
            ),
            stored_record(self.auth_username(), *found) is None ==> r == Ok::<(), AuthError>(()),
    {
        match found {
            Some(usr) => {
                if usr.username == *self.get_username() {
                    Err(AuthError::UserAlreadyExists)
                } else {
                    Ok(())
                }
            },
            None => Ok(()),
        }
    }
}

/// A login succeeds only where the lookup returned a record for exactly that
/// username whose hash accepts the submitted password.
pub proof fn lemma_login_needs_matching_record(
    username: Seq<char>,
    password: Seq<char>,
    found: Option<User>,
)
    requires
        login_error(username, password, found) is None,
    ensures
        found is Some,
        found->0.username@ == username,
        password_matches(password, found->0.password@),
{
}

} // verus!
