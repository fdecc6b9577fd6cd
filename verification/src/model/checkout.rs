use vstd::prelude::*;

use crate::id::{BookId, CheckoutId, UserId};

verus! {

/// One loan of a book, running (`returned_at` is `None`) or over.
///
/// Times are microseconds since the Unix epoch, UTC.
#[derive(Debug, Clone, PartialEq, Eq)]
pub struct Checkout {
    pub id: CheckoutId,
    pub checked_out_by: UserId,
    pub checked_out_at: i64,
    pub returned_at: Option<i64>,
    pub book: CheckoutBook,
}

/// What a loan shows of its book.
#[derive(Debug, Clone, PartialEq, Eq)]
pub struct CheckoutBook {
    pub book_id: BookId,
    pub title: String,
    pub author: String,
    pub isbn: String,
}

/// A request to lend a book to a user.
#[derive(Debug, Clone, Copy, PartialEq, Eq, Structural)]
pub struct CreateCheckout {
    pub book_id: BookId,
    pub checked_out_by: UserId,
    pub checked_out_at: i64,
}

impl CreateCheckout {
    pub fn new(book_id: BookId, checked_out_by: UserId, checked_out_at: i64) -> (event: Self)
        ensures
            event == (CreateCheckout { book_id, checked_out_by, checked_out_at }),
    {
        CreateCheckout { book_id, checked_out_by, checked_out_at }
    }
}

/// A request to take a book back from the user who holds it.
#[derive(Debug, Clone, Copy, PartialEq, Eq, Structural)]
pub struct UpdateReturned {
    pub checkout_id: CheckoutId,
    pub book_id: BookId,
    pub returned_by: UserId,
    pub returned_at: i64,
}

impl UpdateReturned {
    pub fn new(
        checkout_id: CheckoutId,
        book_id: BookId,
        returned_by: UserId,
        returned_at: i64,
    ) -> (event: Self)
        ensures
            event == (UpdateReturned { checkout_id, book_id, returned_by, returned_at }),
    {
        UpdateReturned { checkout_id, book_id, returned_by, returned_at }
    }
}

} // verus!
