use vstd::prelude::*;

use crate::id::UserId;
use crate::model::auth::AccessToken;

verus! {

/// The body of a login.
#[derive(Debug, Clone, PartialEq, Eq)]
pub struct LoginRequest {
    pub email: String,
    pub password: String,
}

/// The answer to a login that went through.
#[derive(Debug, Clone, PartialEq, Eq)]
pub struct AccessTokenResponse {
    pub user_id: UserId,
    pub access_token: String,
}

impl AccessTokenResponse {
    /// The answer that hands the token to the user.
    pub fn new(user_id: UserId, access_token: AccessToken) -> (response: Self)
        ensures
            response.user_id == user_id,
            response.access_token == access_token.0,
    {
        AccessTokenResponse { user_id, access_token: access_token.0 }
    }
}

} // verus!
