//! Hashing passwords and checking them against a stored hash.
//!
//! The hashing is argon2's. What it computes is not spelled out here: the
//! check of a password against a hash is spoken of through
//! [`password_check`], and the contracts of the calls below are taken on
//! trust.

use argon2::password_hash::rand_core::OsRng;
use argon2::password_hash::{PasswordHash, PasswordHasher, PasswordVerifier, SaltString};
use argon2::Argon2;
use vstd::prelude::*;

use crate::error::AppError;

verus! {

/// `argon2::password_hash::Error`, the reason why a password could not be
/// hashed or a hash could not be read.
#[verifier::external_type_specification]
#[verifier::external_body]
pub struct ExPasswordHashError(argon2::password_hash::Error);

/// Whether `password` is the password that `hash` was made from; `None`
/// where `hash` is not a well-formed hash.
pub uninterp spec fn password_check(password: Seq<char>, hash: Seq<char>) -> Option<bool>;

/// `PasswordHasher::hash_password` of `Argon2::default()`, with a salt from
/// `SaltString::generate`. Trusted: a hash that comes out is well formed and
/// the password checks against it. Which hash comes out depends on the
/// salt, which is random.
#[verifier::external_body]
fn argon2_hash(password: &str) -> (hashed: Result<String, argon2::password_hash::Error>)
    ensures
        hashed matches Ok(hash) ==> password_check(password@, hash@) == Some(true),
{
    let salt = SaltString::generate(&mut OsRng);
    match Argon2::default().hash_password(password.as_bytes(), &salt) {
        Ok(hash) => Ok(hash.to_string()),
        Err(e) => Err(e),
    }
}

/// `PasswordHash::new` followed by `PasswordVerifier::verify_password` of
/// `Argon2::default()`. Trusted: the result depends on the two texts alone;
/// it is an error exactly when the hash is not well formed.
#[verifier::external_body]
fn argon2_verify(password: &str, hash: &str) -> (checked: Result<
    bool,
    argon2::password_hash::Error,
>)
    ensures
        match checked {
            Ok(matches) => password_check(password@, hash@) == Some(matches),
            Err(_) => password_check(password@, hash@) is None,
        },
{
    match PasswordHash::new(hash) {
        Ok(parsed) => Ok(Argon2::default().verify_password(password.as_bytes(), &parsed).is_ok()),
        Err(e) => Err(e),
    }
}

/// The words of an error of the hashing, as its `Display` gives them.
/// Nothing is claimed of them.
#[verifier::external_body]
fn fault_text(fault: &argon2::password_hash::Error) -> (text: String) {
    fault.to_string()
}

/// Hashes a password for storage. Two hashes of one password differ, and
/// the password checks against each of them.
pub fn hash_password(password: &str) -> (hashed: Result<String, AppError>)
    ensures
        match hashed {
            Ok(hash) => password_check(password@, hash@) == Some(true),
            Err(e) => e is PasswordHashError,
        },
{
    match argon2_hash(password) {
        Ok(hash) => Ok(hash),
        Err(fault) => Err(AppError::PasswordHashError(fault_text(&fault))),
    }
}

/// Checks a password against a stored hash.
pub fn verify_password(password: &str, password_hash: &str) -> (checked: Result<bool, AppError>)
    ensures
        match checked {
            Ok(matches) => password_check(password@, password_hash@) == Some(matches),
            Err(e) => password_check(password@, password_hash@) is None && e is PasswordHashError,
        },
{
    match argon2_verify(password, password_hash) {
        Ok(matches) => Ok(matches),
        Err(fault) => Err(AppError::PasswordHashError(fault_text(&fault))),
    }
}

/// Checks a password against the hash that is stored for a user, if one is
/// stored: a user without a hash is checked against the empty text.
pub fn verify_stored_password(password: &str, stored: Option<&String>) -> (checked: Result<
    bool,
    AppError,
>)
    ensures
        match checked {
            Ok(matches) => password_check(password@, stored_text(stored)) == Some(matches),
            Err(e) => password_check(password@, stored_text(stored)) is None && e
                is PasswordHashError,
        },
{
    match stored {
        Some(hash) => verify_password(password, hash.as_str()),
        None => verify_password(password, ""),
    }
}

/// The text of the hash that is stored for a user; empty where none is.
pub open spec fn stored_text(stored: Option<&String>) -> Seq<char> {
    match stored {
        Some(hash) => hash@,
        None => ""@,
    }
}

} // verus!
