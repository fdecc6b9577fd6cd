use rusty_book_manager::error::AppError;
use rusty_book_manager::id::UserId;
use rusty_book_manager::password::{
    hash_password, login_accepted, password_accepted, renew_password, verify_login,
    verify_password,
};

const HASH_OF_PASSWORD: &str = "$2a$04$UuTkLRZZ6QofpDOlMz32MuuxEHA43WOemOYHPz6.SjsVsyO1tDU96";

#[test]
fn a_hash_verifies_its_password_and_no_other() {
    let hash = hash_password("correct horse").unwrap();
    assert_ne!(hash, "correct horse");
    assert!(hash.starts_with("$2b$12$"));
    assert_eq!(hash.len(), 60);
    assert_eq!(verify_password("correct horse", &hash), Ok(()));
    assert_eq!(verify_password("wrong horse", &hash), Err(AppError::UnauthenticatedError));
}

#[test]
fn a_known_hash_verifies_its_password() {
    assert_eq!(verify_password("password", HASH_OF_PASSWORD), Ok(()));
    assert_eq!(verify_password("Password", HASH_OF_PASSWORD), Err(AppError::UnauthenticatedError));
}

#[test]
fn a_malformed_hash_is_a_failure_of_the_hasher() {
    assert_eq!(
        verify_password("password", "nonsense"),
        Err(AppError::BcryptError("Invalid hash: nonsense".to_string()))
    );
    assert!(matches!(
        verify_login("password", "$2a$04$short", UserId(1)),
        Err(AppError::BcryptError(_))
    ));
}

#[test]
fn a_login_with_the_right_password_names_the_user() {
    assert_eq!(verify_login("password", HASH_OF_PASSWORD, UserId(5)), Ok(UserId(5)));
    assert_eq!(
        verify_login("guess", HASH_OF_PASSWORD, UserId(5)),
        Err(AppError::UnauthorizedError)
    );
    assert_eq!(login_accepted(true, UserId(5)), Ok(UserId(5)));
    assert_eq!(login_accepted(false, UserId(5)), Err(AppError::UnauthorizedError));
    assert_eq!(password_accepted(true), Ok(()));
    assert_eq!(password_accepted(false), Err(AppError::UnauthenticatedError));
}

#[test]
fn a_password_is_renewed_only_with_the_current_one() {
    let renewed = renew_password("password", "next", HASH_OF_PASSWORD).unwrap();
    assert_eq!(verify_password("next", &renewed), Ok(()));
    assert_eq!(verify_password("password", &renewed), Err(AppError::UnauthenticatedError));
    assert_eq!(
        renew_password("guess", "next", HASH_OF_PASSWORD),
        Err(AppError::UnauthenticatedError)
    );
    assert!(matches!(renew_password("password", "next", "nonsense"), Err(AppError::BcryptError(_))));
}
