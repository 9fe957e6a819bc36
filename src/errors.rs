use vstd::prelude::*;

verus! {

/// Why a submitted form was rejected. The text a field variant carries names the
/// offending field (`"username"`, `"password"`).
#[derive(Debug, Clone)]
pub enum FormError {
    MismatchPasswords,
    FieldTooShort(String),
    EmptyField(String),
}

/// A `FormError` as specifications see it.
pub enum FormErrorView {
    MismatchPasswords,
    FieldTooShort(Seq<char>),
    EmptyField(Seq<char>),
}

impl View for FormError {
    type V = FormErrorView;

    open spec fn view(&self) -> FormErrorView {
        match self {
            FormError::MismatchPasswords => FormErrorView::MismatchPasswords,
            FormError::FieldTooShort(f) => FormErrorView::FieldTooShort(f@),
            FormError::EmptyField(f) => FormErrorView::EmptyField(f@),
        }
    }
}

/// Why a credential check failed.
#[derive(Debug, Clone, Copy, PartialEq, Eq, Structural)]
pub enum AuthError {
    InvalidPassword,
    UserNotFound,
    UserAlreadyExists,
}

/// Why a password could not be hashed: it holds a NUL character, or the
/// hasher could not draw its salt.
#[derive(Debug, Clone, Copy, PartialEq, Eq, Structural)]
pub enum HashError {
    NulInPassword,
    Unavailable,
}

/// Why a session could not be issued or ended.
#[derive(Debug, Clone, Copy, PartialEq, Eq, Structural)]
pub enum SessionError {
    /// The token drawn is already in use; draw another.
    TokenInUse,
    /// No session has this token.
    UnknownSession,
    /// The session has already been ended.
    AlreadyEnded,
}

} // verus!
