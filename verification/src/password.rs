//! Passwords: hashed with bcrypt, never kept in the clear.

use vstd::prelude::*;

use crate::error::{AppError, ErrorView};
use crate::id::UserId;

verus! {

/// What `bcrypt::verify` makes of a password and a hash: whether the hash is
/// the password's, or `None` where it cannot tell because the hash is
/// malformed.
pub uninterp spec fn bcrypt_verdict(password: Seq<char>, hash: Seq<char>) -> Option<bool>;

/// `bcrypt::BcryptError`: why hashing or verifying failed. Nothing is known
/// of what it holds: it only passes through.
#[verifier::external_type_specification]
#[verifier::external_body]
pub struct ExBcryptError(bcrypt::BcryptError);

/// `bcrypt::verify`: hashes the password with the cost and the salt that the
/// hash names and compares; fails on a malformed hash.
#[verifier::external_body]
fn bcrypt_verify(password: &str, hash: &str) -> (checked: Result<bool, bcrypt::BcryptError>)
    ensures
        match checked {
            Ok(same) => bcrypt_verdict(password@, hash@) == Some(same),
            Err(_) => bcrypt_verdict(password@, hash@) is None,
        },
{
    bcrypt::verify(password, hash)
}

/// `bcrypt::hash` at `bcrypt::DEFAULT_COST`: hashes the password with a
/// random salt. The hash differs from call to call; whatever it is,
/// `bcrypt::verify` finds it to be the password's.
#[verifier::external_body]
fn bcrypt_hash(password: &str) -> (hashed: Result<String, bcrypt::BcryptError>)
    ensures
        hashed matches Ok(hash) ==> bcrypt_verdict(password@, hash@) == Some(true),
{
    bcrypt::hash(password, bcrypt::DEFAULT_COST)
}

/// `bcrypt::BcryptError`'s `to_string`: what went wrong.
#[verifier::external_body]
fn bcrypt_error_text(e: &bcrypt::BcryptError) -> String {
    e.to_string()
}

/// Hashes a password for the store. Whatever hash comes out, it verifies the
/// password.
pub fn hash_password(password: &str) -> (hashed: Result<String, AppError>)
    ensures
        match hashed {
            Ok(hash) => bcrypt_verdict(password@, hash@) == Some(true),
            Err(e) => e is BcryptError,
        },
{
    match bcrypt_hash(password) {
        Ok(hash) => Ok(hash),
        Err(e) => Err(AppError::BcryptError(bcrypt_error_text(&e))),
    }
}

/// What a user who changes their password is told of the password that they
/// gave as the current one.
pub fn password_accepted(valid: bool) -> (verdict: Result<(), AppError>)
    ensures
        valid ==> verdict is Ok,
        !valid ==> (verdict matches Err(e) && e@ == ErrorView::UnauthenticatedError),
{
    if valid {
        Ok(())
    } else {
        Err(AppError::UnauthenticatedError)
    }
}

/// Holds a password against the hash that the store keeps: it passes if the
/// hash is the password's, is refused as unauthenticated if it is another
/// password's, and fails where the hash is malformed.
pub fn verify_password(password: &str, hash: &str) -> (verdict: Result<(), AppError>)
    ensures
        match verdict {
            Ok(()) => bcrypt_verdict(password@, hash@) == Some(true),
            Err(e) => if e is BcryptError {
                bcrypt_verdict(password@, hash@) is None
            } else {
                bcrypt_verdict(password@, hash@) == Some(false) && e@
                    == ErrorView::UnauthenticatedError
            },
        },
{
    match bcrypt_verify(password, hash) {
        Ok(valid) => password_accepted(valid),
        Err(e) => Err(AppError::BcryptError(bcrypt_error_text(&e))),
    }
}

/// What a user who logs in is told of their password: the user it is, or
/// that the credentials are refused.
pub fn login_accepted(valid: bool, user_id: UserId) -> (verdict: Result<UserId, AppError>)
    ensures
        valid ==> verdict == Ok::<_, AppError>(user_id),
        !valid ==> (verdict matches Err(e) && e@ == ErrorView::UnauthorizedError),
{
    if valid {
        Ok(user_id)
    } else {
        Err(AppError::UnauthorizedError)
    }
}

/// Holds the password of a login against the user's stored hash: the user
/// is let in if the hash is the password's, refused as unauthorized if it
/// is another password's, and the login fails where the hash is malformed.
pub fn verify_login(password: &str, hash: &str, user_id: UserId) -> (verdict: Result<
    UserId,
    AppError,
>)
    ensures
        match verdict {
            Ok(id) => bcrypt_verdict(password@, hash@) == Some(true) && id == user_id,
            Err(e) => if e is BcryptError {
                bcrypt_verdict(password@, hash@) is None
            } else {
                bcrypt_verdict(password@, hash@) == Some(false) && e@
                    == ErrorView::UnauthorizedError
            },
        },
{
    match bcrypt_verify(password, hash) {
        Ok(valid) => login_accepted(valid, user_id),
        Err(e) => Err(AppError::BcryptError(bcrypt_error_text(&e))),
    }
}

/// Changes a password: holds the current one against the stored hash and,
/// if it passes, hashes the new one for the store.
pub fn renew_password(current_password: &str, new_password: &str, stored_hash: &str) -> (renewed:
    Result<String, AppError>)
    ensures
        match renewed {
            Ok(hash) => {
                &&& bcrypt_verdict(current_password@, stored_hash@) == Some(true)
                &&& bcrypt_verdict(new_password@, hash@) == Some(true)
            },
            Err(e) => if e is BcryptError {
                bcrypt_verdict(current_password@, stored_hash@) != Some(false)
            } else {
                bcrypt_verdict(current_password@, stored_hash@) == Some(false) && e@
                    == ErrorView::UnauthenticatedError
            },
        },
{
    match verify_password(current_password, stored_hash) {
        Ok(()) => hash_password(new_password),
        Err(e) => Err(e),
    }
}

} // verus!
