use vstd::prelude::*;
use vstd::std_specs::convert::FromSpecImpl;

use crate::error::AppError;
use crate::id::{parsed_uuid, simple_text, UserId};
use crate::model::auth::{AccessToken, CreateToken};

verus! {

/// A user's identifier with the hash of their password.
#[derive(Debug, Clone, PartialEq, Eq)]
pub struct UserItem {
    pub user_id: UserId,
    pub password_hash: String,
}

/// The key under which the token store keeps a session: the access token.
#[derive(Debug, Clone, PartialEq, Eq)]
pub struct AuthorizationKey(pub String);

/// What the token store keeps under a key: the user whose session it is.
#[derive(Debug, Clone, Copy, PartialEq, Eq, Structural)]
pub struct AuthorizedUserId(pub UserId);

/// The entry of the token store that issues the token to the user.
pub fn from(event: CreateToken) -> (entry: (AuthorizationKey, AuthorizedUserId))
    ensures
        entry.0.0 == event.access_token,
        entry.1.0 == event.user_id,
{
    (AuthorizationKey(event.access_token), AuthorizedUserId(event.user_id))
}

impl From<AuthorizationKey> for AccessToken {
    fn from(value: AuthorizationKey) -> (token: Self) {
        AccessToken(value.0)
    }
}

impl FromSpecImpl<AuthorizationKey> for AccessToken {
    open spec fn obeys_from_spec() -> bool {
        true
    }

    open spec fn from_spec(value: AuthorizationKey) -> Self {
        AccessToken(value.0)
    }
}

impl From<AccessToken> for AuthorizationKey {
    fn from(value: AccessToken) -> (key: Self) {
        AuthorizationKey(value.0)
    }
}

impl FromSpecImpl<AccessToken> for AuthorizationKey {
    open spec fn obeys_from_spec() -> bool {
        true
    }

    open spec fn from_spec(value: AccessToken) -> Self {
        AuthorizationKey(value.0)
    }
}

impl AuthorizationKey {
    /// The key of the session that the token opens.
    pub fn of(token: &AccessToken) -> (key: Self)
        ensures
            key.0 == token.0,
    {
        AuthorizationKey(token.0.clone())
    }

    /// The key as the token store takes it.
    pub fn inner(&self) -> (text: String)
        ensures
            text == self.0,
    {
        self.0.clone()
    }
}

impl AuthorizedUserId {
    /// The value as the token store takes it: the text of the identifier.
    pub fn inner(&self) -> (text: String)
        ensures
            text@ == simple_text(self.0.0),
            parsed_uuid(text@) == Some(self.0.0),
    {
        self.0.to_string()
    }

    /// Reads a value of the token store: it holds if the text is an
    /// identifier's.
    pub fn try_from(value: String) -> (read: Result<Self, AppError>)
        ensures
            match read {
                Ok(id) => parsed_uuid(value@) == Some(id.0.0),
                Err(e) => parsed_uuid(value@) is None && e is ConversionEntityError,
            },
    {
        match UserId::from_str(value.as_str()) {
            Ok(id) => Ok(AuthorizedUserId(id)),
            Err(e) => Err(AppError::ConversionEntityError(e.to_string())),
        }
    }

    /// The user whose session it is.
    pub fn into_inner(self) -> (user_id: UserId)
        ensures
            user_id == self.0,
    {
        self.0
    }
}

} // verus!
