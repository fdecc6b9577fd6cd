use vstd::prelude::*;

use crate::id::{fresh_token, simple_text, UserId};

verus! {

/// The token that a client shows to prove who it is.
#[derive(Debug, Clone, PartialEq, Eq)]
pub struct AccessToken(pub String);

/// A request to issue a token to a user.
#[derive(Debug, Clone, PartialEq, Eq)]
pub struct CreateToken {
    pub user_id: UserId,
    pub access_token: String,
}

impl CreateToken {
    /// A request to issue a fresh random token to the user: 32 hexadecimal
    /// digits.
    pub fn new(user_id: UserId) -> (event: Self)
        ensures
            event.user_id == user_id,
            exists|raw: u128| event.access_token@ == simple_text(raw),
    {
        CreateToken { user_id, access_token: fresh_token() }
    }
}

} // verus!
