use vstd::prelude::*;

use crate::id::UserId;
use crate::role::Role;

verus! {

/// A user of the library.
#[derive(Debug, Clone, PartialEq, Eq, Hash)]
pub struct User {
    pub id: UserId,
    pub name: String,
    pub email: String,
    pub role: Role,
}

/// The user who owns a book, as the book shows them.
#[derive(Debug, Clone, PartialEq, Eq)]
pub struct BookOwner {
    pub id: UserId,
    pub name: String,
}

/// The user who holds a book, as the book shows them.
#[derive(Debug, Clone, PartialEq, Eq)]
pub struct CheckoutUser {
    pub id: UserId,
    pub name: String,
}

/// A request to register a user.
#[derive(Debug, Clone, PartialEq, Eq)]
pub struct CreateUser {
    pub name: String,
    pub email: String,
    pub password: String,
}

/// A request to change a user's password.
#[derive(Debug, Clone, PartialEq, Eq)]
pub struct UpdateUserPassword {
    pub user_id: UserId,
    pub current_password: String,
    pub new_password: String,
}

/// A request to change a user's role.
#[derive(Debug, Clone, Copy, PartialEq, Eq, Structural)]
pub struct UpdateUserRole {
    pub user_id: UserId,
    pub role: Role,
}

/// A request to remove a user.
#[derive(Debug, Clone, Copy, PartialEq, Eq, Structural)]
pub struct DeleteUser {
    pub user_id: UserId,
}

} // verus!
