//! Salted, cost-parameterised password hashing (bcrypt).
use vstd::prelude::*;

use crate::errors::HashError;

verus! {

#[verifier::external_type_specification]
#[verifier::external_body]
pub struct ExBcryptError(bcrypt::BcryptError);

/// What `bcrypt::verify` reports for a plaintext and a stored hash string:
/// `None` where it fails (a malformed hash string, a NUL in the plaintext),
/// otherwise whether the plaintext matches the hash.
pub uninterp spec fn bcrypt_outcome(plaintext: Seq<char>, hashed: Seq<char>) -> Option<bool>;

/// Whether `hashed` is a hash string that accepts `plaintext`.
pub open spec fn password_matches(plaintext: Seq<char>, hashed: Seq<char>) -> bool {
    bcrypt_outcome(plaintext, hashed) == Some(true)
}

/// Relies on `bcrypt::hash` at `bcrypt::DEFAULT_COST`. The string it returns
/// holds the cost, the fresh salt and the digest; `bcrypt::verify` reads the cost
/// and salt back out of it and recomputes the same digest for the same plaintext.
/// A plaintext that holds a NUL byte is refused (`BcryptError::InvalidPassword`).
#[verifier::external_body]
fn bcrypt_hash(plaintext: &str) -> (r: Result<String, bcrypt::BcryptError>)
    ensures
        r matches Ok(h) ==> bcrypt_outcome(plaintext@, h@) == Some(true),
        plaintext@.contains('\0') ==> r is Err,
{
    bcrypt::hash(plaintext, bcrypt::DEFAULT_COST)
}

/// Relies on `bcrypt::verify`: its outcome depends on its two arguments alone.
/// Its running time grows with the cost written in the hash string.
#[verifier::external_body]
fn bcrypt_verify(plaintext: &str, hashed: &str) -> (r: Result<bool, bcrypt::BcryptError>)
    ensures
        bcrypt_outcome(plaintext@, hashed@) == (match r {
            Ok(b) => Some(b),
            Err(_) => None,
        }),
{
    bcrypt::verify(plaintext, hashed)
}

/// Whether `s` holds a NUL character.
fn holds_nul(s: &str) -> (r: bool)
    ensures
        r == s@.contains('\0'),
{
    let n = s.unicode_len();
    let mut i: usize = 0;
    while i < n
        invariant
            n == s@.len(),
            i <= n,
            forall|j: int| 0 <= j < i ==> s@[j] != '\0',
        decreases n - i,
    {
        if s.get_char(i) == '\0' {
            return true;
        }
        i = i + 1;
    }
    false
}

/// Hashes `plaintext` with a fresh random salt. Every hash string handed back is
/// accepted by `verify` for the same plaintext.
pub fn hash(plaintext: &str) -> (r: Result<String, HashError>)
    ensures
        r matches Ok(h) ==> password_matches(plaintext@, h@),
        plaintext@.contains('\0') <==> r == Err::<String, HashError>(HashError::NulInPassword),
{
    if holds_nul(plaintext) {
        return Err(HashError::NulInPassword);
    }
    match bcrypt_hash(plaintext) {
        Ok(h) => Ok(h),
        Err(_) => Err(HashError::Unavailable),
    }
}

/// Whether `plaintext` matches the stored hash string `hashed`. A hash string
/// that cannot be read accepts nothing.
pub fn verify(plaintext: &str, hashed: &str) -> (r: bool)
    ensures
        r == password_matches(plaintext@, hashed@),
{
    match bcrypt_verify(plaintext, hashed) {
        Ok(b) => b,
        Err(_) => false,
    }
}

} // verus!
