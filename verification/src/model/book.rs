use vstd::prelude::*;

use crate::id::{BookId, CheckoutId, UserId};
use crate::model::user::{BookOwner, CheckoutUser};

verus! {

/// A book of the catalogue, with its running loan if it is out.
#[derive(Debug, Clone, PartialEq, Eq)]
pub struct Book {
    pub id: BookId,
    pub title: String,
    pub author: String,
    pub isbn: String,
    pub description: String,
    pub owner: BookOwner,
    pub checkout: Option<Checkout>,
}

/// The running loan of a book, as the book shows it.
///
/// The time is in microseconds since the Unix epoch, UTC.
#[derive(Debug, Clone, PartialEq, Eq)]
pub struct Checkout {
    pub checkout_id: CheckoutId,
    pub checked_out_by: CheckoutUser,
    pub checked_out_at: i64,
}

/// Which page of the catalogue to show.
#[derive(Debug, Clone, Copy, PartialEq, Eq, Structural)]
pub struct BookListOptions {
    pub limit: i64,
    pub offset: i64,
}

/// A request to register a book.
#[derive(Debug, Clone, PartialEq, Eq)]
pub struct CreateBook {
    pub title: String,
    pub author: String,
    pub isbn: String,
    pub description: String,
}

/// A request to change a book, made by `requested_user`.
#[derive(Debug, Clone, PartialEq, Eq)]
pub struct UpdateBook {
    pub book_id: BookId,
    pub title: String,
    pub author: String,
    pub isbn: String,
    pub description: String,
    pub requested_user: UserId,
}

/// A request to remove a book, made by `requested_user`.
#[derive(Debug, Clone, Copy, PartialEq, Eq, Structural)]
pub struct DeleteBook {
    pub book_id: BookId,
    pub requested_user: UserId,
}

} // verus!
