use vstd::prelude::*;

use crate::error::{AppError, ErrorView};
use crate::id::UserId;
use crate::model::auth::AccessToken;
use crate::model::user::User;
use crate::role::Role;

verus! {

/// The user on whose behalf a request runs, with the token that proved it.
#[derive(Debug, Clone, PartialEq, Eq)]
pub struct AuthorizedUser {
    pub access_token: AccessToken,
    pub user: User,
}

impl AuthorizedUser {
    pub fn id(&self) -> (id: UserId)
        ensures
            id == self.user.id,
    {
        self.user.id
    }

    pub fn is_admin(&self) -> (admin: bool)
        ensures
            admin == (self.user.role == Role::Admin),
    {
        self.user.role == Role::Admin
    }

    /// The token of a request, given the bearer token of its authorization
    /// header if it had one: a request without one is unauthorized.
    pub fn token_of(bearer: Option<String>) -> (token: Result<AccessToken, AppError>)
        ensures
            match bearer {
                Some(text) => token == Ok::<_, AppError>(AccessToken(text)),
                None => token matches Err(e) && e@ == ErrorView::UnauthorizedError,
            },
    {
        match bearer {
            Some(text) => Ok(AccessToken(text)),
            None => Err(AppError::UnauthorizedError),
        }
    }

    /// The user of a session, given what the token store holds under the
    /// token: a token that it does not hold, or holds no longer, is
    /// unauthenticated.
    pub fn session_of(stored: Option<UserId>) -> (user_id: Result<UserId, AppError>)
        ensures
            match stored {
                Some(id) => user_id == Ok::<_, AppError>(id),
                None => user_id matches Err(e) && e@ == ErrorView::UnauthenticatedError,
            },
    {
        match stored {
            Some(id) => Ok(id),
            None => Err(AppError::UnauthenticatedError),
        }
    }

    /// The user on whose behalf the request runs, given the user that the
    /// store holds under the session's identifier: a session of a user that
    /// the store does not hold is unauthenticated.
    pub fn of(access_token: AccessToken, stored: Option<User>) -> (authorized: Result<
        AuthorizedUser,
        AppError,
    >)
        ensures
            match stored {
                Some(user) => authorized == Ok::<_, AppError>(
                    AuthorizedUser { access_token, user },
                ),
                None => authorized matches Err(e) && e@ == ErrorView::UnauthenticatedError,
            },
    {
        match stored {
            Some(user) => Ok(AuthorizedUser { access_token, user }),
            None => Err(AppError::UnauthenticatedError),
        }
    }

    /// Lets only an administrator through: anyone else is forbidden.
    pub fn require_admin(&self) -> (verdict: Result<(), AppError>)
        ensures
            self.user.role == Role::Admin ==> verdict is Ok,
            self.user.role != Role::Admin ==> (verdict matches Err(e) && e@
                == ErrorView::ForbiddenOperation),
    {
        if self.is_admin() {
            Ok(())
        } else {
            Err(AppError::ForbiddenOperation)
        }
    }
}

} // verus!
