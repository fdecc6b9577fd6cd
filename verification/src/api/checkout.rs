use vstd::prelude::*;
use vstd::std_specs::convert::FromSpecImpl;

use crate::id::{BookId, CheckoutId, UserId};
use crate::model::checkout::{Checkout, CheckoutBook};

verus! {

/// The book of a loan as it goes over the wire.
#[derive(Debug, Clone, PartialEq, Eq)]
pub struct CheckoutBookResponse {
    pub id: BookId,
    pub title: String,
    pub author: String,
    pub isbn: String,
}

/// The book of a loan as the wire shows it.
pub open spec fn shown_book(book: CheckoutBook) -> CheckoutBookResponse {
    CheckoutBookResponse {
        id: book.book_id,
        title: book.title,
        author: book.author,
        isbn: book.isbn,
    }
}

impl From<CheckoutBook> for CheckoutBookResponse {
    fn from(value: CheckoutBook) -> (response: Self) {
        let CheckoutBook { book_id, title, author, isbn } = value;
        CheckoutBookResponse { id: book_id, title, author, isbn }
    }
}

impl FromSpecImpl<CheckoutBook> for CheckoutBookResponse {
    open spec fn obeys_from_spec() -> bool {
        true
    }

    open spec fn from_spec(value: CheckoutBook) -> Self {
        shown_book(value)
    }
}

/// A loan as it goes over the wire.
///
/// Times are microseconds since the Unix epoch, UTC.
#[derive(Debug, Clone, PartialEq, Eq)]
pub struct CheckoutResponse {
    pub id: CheckoutId,
    pub checked_out_by: UserId,
    pub checked_out_at: i64,
    pub returned_at: Option<i64>,
    pub book: CheckoutBookResponse,
}

/// A loan as the wire shows it.
pub open spec fn shown_checkout(checkout: Checkout) -> CheckoutResponse {
    CheckoutResponse {
        id: checkout.id,
        checked_out_by: checkout.checked_out_by,
        checked_out_at: checkout.checked_out_at,
        returned_at: checkout.returned_at,
        book: shown_book(checkout.book),
    }
}

impl From<Checkout> for CheckoutResponse {
    fn from(value: Checkout) -> (response: Self) {
        let Checkout { id, book, checked_out_by, checked_out_at, returned_at } = value;
        CheckoutResponse {
            id,
            checked_out_by,
            checked_out_at,
            returned_at,
            book: CheckoutBookResponse::from(book),
        }
    }
}

impl FromSpecImpl<Checkout> for CheckoutResponse {
    open spec fn obeys_from_spec() -> bool {
        true
    }

    open spec fn from_spec(value: Checkout) -> Self {
        shown_checkout(value)
    }
}

/// Loans as they go over the wire.
#[derive(Debug, Clone, PartialEq, Eq)]
pub struct CheckoutsResponse {
    pub items: Vec<CheckoutResponse>,
}

/// Loans as the wire shows them, in their order.
pub open spec fn shown_checkouts(checkouts: Seq<Checkout>) -> Seq<CheckoutResponse> {
    Seq::new(checkouts.len(), |i: int| shown_checkout(checkouts[i]))
}

impl CheckoutsResponse {
    /// Loans as the wire shows them, in their order.
    pub fn from(value: Vec<Checkout>) -> (response: Self)
        ensures
            response.items@ == shown_checkouts(value@),
    {
        let mut items: Vec<CheckoutResponse> = Vec::new();
        for checkout in it: value
            invariant
                items@ == shown_checkouts(it.seq().take(it.index() as int)),
        {
            items.push(CheckoutResponse::from(checkout));
            assert(items@ =~= shown_checkouts(it.seq().take(it.index() + 1)));
        }
        assert(value@.take(value@.len() as int) =~= value@);
        CheckoutsResponse { items }
    }
}

} // verus!
