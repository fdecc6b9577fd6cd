use vstd::prelude::*;
use vstd::std_specs::convert::FromSpecImpl;

use crate::id::{BookId, CheckoutId, UserId};
use crate::model::checkout::{Checkout, CheckoutBook};

verus! {

/// A book together with its running loan, if it has one: what a transaction
/// reads before it decides.
#[derive(Debug, Clone, Copy, PartialEq, Eq, Structural)]
pub struct CheckoutStateRow {
    pub book_id: BookId,
    pub checkout_id: Option<CheckoutId>,
    pub user_id: Option<UserId>,
}

/// A row of the table of running loans.
#[derive(Debug, Clone, Copy, PartialEq, Eq, Structural)]
pub struct LoanRecord {
    pub checkout_id: CheckoutId,
    pub book_id: BookId,
    pub user_id: UserId,
    pub checked_out_at: i64,
}

/// A row of the table of loans that are over.
#[derive(Debug, Clone, Copy, PartialEq, Eq, Structural)]
pub struct ReturnRecord {
    pub checkout_id: CheckoutId,
    pub book_id: BookId,
    pub user_id: UserId,
    pub checked_out_at: i64,
    pub returned_at: i64,
}

impl LoanRecord {
    /// The history row that this loan becomes when the book comes back.
    pub open spec fn closed_at(self, returned_at: i64) -> ReturnRecord {
        ReturnRecord {
            checkout_id: self.checkout_id,
            book_id: self.book_id,
            user_id: self.user_id,
            checked_out_at: self.checked_out_at,
            returned_at,
        }
    }

    /// The history row that this loan becomes when the book comes back at
    /// `returned_at`.
    pub fn close(&self, returned_at: i64) -> (row: ReturnRecord)
        ensures
            row == self.closed_at(returned_at),
    {
        ReturnRecord {
            checkout_id: self.checkout_id,
            book_id: self.book_id,
            user_id: self.user_id,
            checked_out_at: self.checked_out_at,
            returned_at,
        }
    }
}

/// A running loan joined with its book.
#[derive(Debug, Clone, PartialEq, Eq)]
pub struct CheckoutRow {
    pub checkout_id: CheckoutId,
    pub book_id: BookId,
    pub user_id: UserId,
    pub checked_out_at: i64,
    pub title: String,
    pub author: String,
    pub isbn: String,
}

impl From<CheckoutRow> for Checkout {
    fn from(value: CheckoutRow) -> (checkout: Self) {
        let book = CheckoutBook {
            book_id: value.book_id,
            title: value.title,
            author: value.author,
            isbn: value.isbn,
        };
        Checkout {
            id: value.checkout_id,
            book,
            checked_out_by: value.user_id,
            checked_out_at: value.checked_out_at,
            returned_at: None,
        }
    }
}

impl FromSpecImpl<CheckoutRow> for Checkout {
    open spec fn obeys_from_spec() -> bool {
        true
    }

    open spec fn from_spec(value: CheckoutRow) -> Self {
        Checkout {
            id: value.checkout_id,
            checked_out_by: value.user_id,
            checked_out_at: value.checked_out_at,
            returned_at: None,
            book: CheckoutBook {
                book_id: value.book_id,
                title: value.title,
                author: value.author,
                isbn: value.isbn,
            },
        }
    }
}

/// A loan that is over, joined with its book.
#[derive(Debug, Clone, PartialEq, Eq)]
pub struct ReturnedCheckoutRow {
    pub checkout_id: CheckoutId,
    pub book_id: BookId,
    pub user_id: UserId,
    pub checked_out_at: i64,
    pub returned_at: i64,
    pub title: String,
    pub author: String,
    pub isbn: String,
}

impl From<ReturnedCheckoutRow> for Checkout {
    fn from(value: ReturnedCheckoutRow) -> (checkout: Self) {
        let ReturnedCheckoutRow {
            checkout_id,
            book_id,
            user_id,
            checked_out_at,
            returned_at,
            title,
            author,
            isbn,
        } = value;
        Checkout {
            id: checkout_id,
            book: CheckoutBook { book_id, title, author, isbn },
            checked_out_by: user_id,
            checked_out_at,
            returned_at: Some(returned_at),
        }
    }
}

impl FromSpecImpl<ReturnedCheckoutRow> for Checkout {
    open spec fn obeys_from_spec() -> bool {
        true
    }

    open spec fn from_spec(value: ReturnedCheckoutRow) -> Self {
        Checkout {
            id: value.checkout_id,
            checked_out_by: value.user_id,
            checked_out_at: value.checked_out_at,
            returned_at: Some(value.returned_at),
            book: CheckoutBook {
                book_id: value.book_id,
                title: value.title,
                author: value.author,
                isbn: value.isbn,
            },
        }
    }
}

} // verus!
