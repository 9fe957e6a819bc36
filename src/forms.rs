//! Structural checks on submitted signup and login forms, made before any
//! lookup in the credential store.
use vstd::prelude::*;

use crate::auth::Auth;
use crate::errors::{FormError, FormErrorView};
use crate::users::BaseUser;

verus! {

/// Fewest characters a username may have.
pub const MIN_USERNAME_LEN: usize = 4;

/// Fewest characters a password may have.
pub const MIN_PASSWORD_LEN: usize = 8;

/// A validation result as specifications see it.
pub open spec fn form_result_view<T>(r: Result<T, FormError>) -> Result<T, FormErrorView> {
    match r {
        Ok(t) => Ok(t),
        Err(e) => Err(e@),
    }
}

/// The first rule that a form with these fields breaks, in the order the rules
/// are applied: username length, password length, then the confirmation. An
/// empty field counts as too short.
pub open spec fn validation_error(
    username: Seq<char>,
    password: Seq<char>,
    confirmed: bool,
) -> Option<FormErrorView> {
    if username.len() < MIN_USERNAME_LEN {
        Some(FormErrorView::FieldTooShort("username"@))
    } else if password.len() < MIN_PASSWORD_LEN {
        Some(FormErrorView::FieldTooShort("password"@))
    } else if !confirmed {
        Some(FormErrorView::MismatchPasswords)
    } else {
        None
    }
}

/// What validating `form` yields: the first rule it breaks, or its response
/// (`Valid::validate` states it of itself in the same terms).
pub open spec fn expected_validation<T, V: Valid<T>>(form: &V) -> Result<T, FormErrorView> {
    match validation_error(form.form_username(), form.form_password(), form.form_confirmed()) {
        Some(e) => Err(e),
        None => Ok(form.form_response()),
    }
}

/// A submitted form that can be checked for well-formedness. Validation is a
/// pure function of the form: it touches nothing else.
pub trait Valid<T = BaseUser>: Sized {
    /// The username the form carries.
    spec fn form_username(&self) -> Seq<char>;

    /// The password the form carries.
    spec fn form_password(&self) -> Seq<char>;

    /// Whether the form's password confirmation agrees with its password (a form
    /// without a confirmation field agrees).
    spec fn form_confirmed(&self) -> bool;

    /// What a form that passes validation yields.
    spec fn form_response(&self) -> T;

    fn get_username(&self) -> (r: &String)
        ensures
            r@ == self.form_username(),
    ;

    fn get_password(&self) -> (r: &String)
        ensures
            r@ == self.form_password(),
    ;

    fn get_response(&self) -> (r: T)
        ensures
            r == self.form_response(),
    ;

    fn passwords_match(&self) -> (r: bool)
        ensures
            r == self.form_confirmed(),
    ;

    /// `Ok` where the username has at least four characters.
    fn clean_username(&self) -> (r: Result<T, FormError>)
        ensures
            form_result_view(r) == (if self.form_username().len() >= MIN_USERNAME_LEN {
                Ok(self.form_response())
            } else {
                Err(FormErrorView::FieldTooShort("username"@))
            }),
    {
        if self.get_username().unicode_len() >= MIN_USERNAME_LEN {
            Ok(self.get_response())
        } else {
            Err(FormError::FieldTooShort(String::from_str("username")))
        }
    }

    /// `Ok` where the password has at least eight characters.
    fn clean_password(&self) -> (r: Result<T, FormError>)
        ensures
            form_result_view(r) == (if self.form_password().len() >= MIN_PASSWORD_LEN {
                Ok(self.form_response())
            } else {
                Err(FormErrorView::FieldTooShort("password"@))
            }),
    {
        if self.get_password().unicode_len() >= MIN_PASSWORD_LEN {
            Ok(self.get_response())
        } else {
            Err(FormError::FieldTooShort(String::from_str("password")))
        }
    }

    /// Applies the rules in order and stops at the first one broken.
    fn validate(&self) -> (r: Result<T, FormError>)
        ensures
            form_result_view(r) == (match validation_error(
                self.form_username(),
                self.form_password(),
                self.form_confirmed(),
            ) {
                Some(e) => Err(e),
                None => Ok(self.form_response()),
            }),
    {
        match self.clean_username() {
            Err(e) => Err(e),
            Ok(_) => match self.clean_password() {
                Err(e) => Err(e),
                Ok(resp) => {
                    if self.passwords_match() {
                        Ok(resp)
                    } else {
                        Err(FormError::MismatchPasswords)
                    }
                },
            },
        }
    }
}

/// A submitted login form.
#[derive(Debug, Clone)]
pub struct UserLogin {
    pub username: String,
    pub password: String,
}

impl Valid<UserLogin> for UserLogin {
    open spec fn form_username(&self) -> Seq<char> {
        self.username@
    }

    open spec fn form_password(&self) -> Seq<char> {
        self.password@
    }

    open spec fn form_confirmed(&self) -> bool {
        true
    }

    open spec fn form_response(&self) -> UserLogin {
        *self
    }

    fn get_username(&self) -> (r: &String) {
        &self.username
    }

    fn get_password(&self) -> (r: &String) {
        &self.password
    }

    fn get_response(&self) -> (r: UserLogin) {
        UserLogin { username: self.username.clone(), password: self.password.clone() }
    }

    fn passwords_match(&self) -> (r: bool) {
        true
    }
}

impl Auth for UserLogin {
    open spec fn auth_username(&self) -> Seq<char> {
        self.username@
    }

    open spec fn auth_password(&self) -> Seq<char> {
        self.password@
    }

    fn get_username(&self) -> (r: &String) {
        &self.username
    }

    fn get_password(&self) -> (r: &String) {
        &self.password
    }
}

/// A submitted signup form.
#[derive(Debug, Clone)]
pub struct UserSignup {
    pub username: String,
    pub password: String,
    pub password_confirm: String,
}

impl UserSignup {
    /// The user the form describes, not yet stored (`id` -1), where the
    /// confirmation equals the password.
    pub fn match_passwords(self) -> (r: Result<BaseUser, FormError>)
        ensures
            self.password@ == self.password_confirm@ <==> r is Ok,
            r matches Ok(u) ==> u.id == -1 && u.username@ == self.username@ && u.password@
                == self.password@,
            r matches Err(e) ==> e@ == FormErrorView::MismatchPasswords,
    {
        if self.password == self.password_confirm {
            Ok(BaseUser { id: -1, username: self.username, password: self.password })
        } else {
            Err(FormError::MismatchPasswords)
        }
    }
}

impl Valid<UserSignup> for UserSignup {
    open spec fn form_username(&self) -> Seq<char> {
        self.username@
    }

    open spec fn form_password(&self) -> Seq<char> {
        self.password@
    }

    open spec fn form_confirmed(&self) -> bool {
        self.password@ == self.password_confirm@
    }

    open spec fn form_response(&self) -> UserSignup {
        *self
    }

    fn get_username(&self) -> (r: &String) {
        &self.username
    }

    fn get_password(&self) -> (r: &String) {
        &self.password
    }

    fn get_response(&self) -> (r: UserSignup) {
        UserSignup {
            username: self.username.clone(),
            password: self.password.clone(),
            password_confirm: self.password_confirm.clone(),
        }
    }

    fn passwords_match(&self) -> (r: bool) {
        self.password == self.password_confirm
    }
}

impl Auth for UserSignup {
    open spec fn auth_username(&self) -> Seq<char> {
        self.username@
    }

    open spec fn auth_password(&self) -> Seq<char> {
        self.password@
    }

    fn get_username(&self) -> (r: &String) {
        &self.username
    }

    fn get_password(&self) -> (r: &String) {
        &self.password
    }
}

/// A username shorter than four characters fails validation with
/// `FieldTooShort`, whatever the rest of the form holds.
pub proof fn lemma_short_username_rejected<T, V: Valid<T>>(form: &V)
    requires
        form.form_username().len() < MIN_USERNAME_LEN,
    ensures
        expected_validation(form) matches Err(FormErrorView::FieldTooShort(_)),
{
}

/// A password shorter than eight characters fails validation with
/// `FieldTooShort`, whether the username is valid or not.
pub proof fn lemma_short_password_rejected<T, V: Valid<T>>(form: &V)
    requires
        form.form_password().len() < MIN_PASSWORD_LEN,
    ensures
        expected_validation(form) matches Err(FormErrorView::FieldTooShort(_)),
{
}

/// A signup form whose fields are long enough but whose confirmation differs
/// from its password fails validation with `MismatchPasswords`.
pub proof fn lemma_mismatched_confirmation_rejected(form: &UserSignup)
    requires
        form.username@.len() >= MIN_USERNAME_LEN,
        form.password@.len() >= MIN_PASSWORD_LEN,
        form.password@ != form.password_confirm@,
    ensures
        expected_validation::<UserSignup, UserSignup>(form) == Err::<UserSignup, FormErrorView>(
            FormErrorView::MismatchPasswords,
        ),
{
}

/// Validation is a pure function of the form: any two results that `validate`
/// may return for the same form are the same.
pub proof fn lemma_validation_deterministic<T, V: Valid<T>>(
    form: &V,
    first: Result<T, FormError>,
    second: Result<T, FormError>,
)
    requires
        form_result_view(first) == expected_validation(form),
        form_result_view(second) == expected_validation(form),
    ensures
        form_result_view(first) == form_result_view(second),
{
}

} // verus!
