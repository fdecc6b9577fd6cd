use vstd::prelude::*;
use vstd::string::*;

use crate::database::user::{user_of, UserRow};
use crate::error::{AppError, ErrorView};
use crate::id::UserId;
use crate::model::user::{CreateUser, User};
use crate::role::{no_role_text, Role};

verus! {

/// What is said of a change to a user that changed no row.
pub open spec fn user_missing_text() -> Seq<char> {
    "specified user not found"@
}

/// What is said of a registration that wrote no row.
pub open spec fn user_not_created_text() -> Seq<char> {
    "no user has been created"@
}

/// What a registration comes to, given the number of rows that it wrote:
/// the new user, in the role of a plain user, or a failure if it wrote
/// none.
pub fn user_created(event: CreateUser, user_id: UserId, rows_affected: u64) -> (created: Result<
    User,
    AppError,
>)
    ensures
        rows_affected >= 1 ==> created == Ok::<_, AppError>(
            User { id: user_id, name: event.name, email: event.email, role: Role::User },
        ),
        rows_affected < 1 ==> (created matches Err(e) && e@ == ErrorView::NoRowsAffectedError(
            user_not_created_text(),
        )),
{
    if rows_affected < 1 {
        return Err(AppError::NoRowsAffectedError(String::from_str("no user has been created")));
    }
    Ok(User { id: user_id, name: event.name, email: event.email, role: Role::default() })
}

/// What a change of role or a removal comes to, given the number of rows
/// that it changed: one that changed none found no such user.
pub fn user_written(rows_affected: u64) -> (verdict: Result<(), AppError>)
    ensures
        rows_affected >= 1 ==> verdict is Ok,
        rows_affected < 1 ==> (verdict matches Err(e) && e@ == ErrorView::EntityNotFound(
            user_missing_text(),
        )),
{
    if rows_affected < 1 {
        Err(AppError::EntityNotFound(String::from_str("specified user not found")))
    } else {
        Ok(())
    }
}

/// The user that a lookup found, if it found a row. A row that names no
/// role is an error.
pub fn found_user(row: Option<UserRow>) -> (found: Result<Option<User>, AppError>)
    ensures
        match row {
            None => found == Ok::<_, AppError>(None::<User>),
            Some(row) => match found {
                Ok(user) => user is Some && user == user_of(row),
                Err(e) => user_of(row) is None && e@ == ErrorView::ConversionEntityError(
                    no_role_text(),
                ),
            },
        },
{
    match row {
        Some(row) => match User::try_from(row) {
            Ok(user) => Ok(Some(user)),
            Err(e) => Err(e),
        },
        None => Ok(None),
    }
}

} // verus!
