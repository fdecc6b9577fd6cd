use vstd::prelude::*;
use vstd::std_specs::convert::FromSpecImpl;
use vstd::string::*;

use crate::api::user::{BookOwner, CheckoutUser};
use crate::api::validate::{conclude, empty_fault, negative_fault, require_filled, require_not_negative};
use crate::error::{AppError, ErrorView};
use crate::id::{BookId, CheckoutId, UserId};
use crate::model::book::{Book, BookListOptions, Checkout, CreateBook, UpdateBook};
use crate::model::list::PaginatedList;

verus! {

/// The body of the registration of a book.
#[derive(Debug, Clone, PartialEq, Eq)]
pub struct CreateBookRequest {
    pub title: String,
    pub author: String,
    pub isbn: String,
    pub description: String,
}

/// The report on the fields that a book must have: a line for each of
/// title, author and ISBN that is empty.
pub open spec fn book_faults(title: Seq<char>, author: Seq<char>, isbn: Seq<char>) -> Seq<char> {
    empty_fault("title"@, title) + empty_fault("author"@, author) + empty_fault("isbn"@, isbn)
}

fn validate_book(title: &str, author: &str, isbn: &str) -> (verdict: Result<(), AppError>)
    ensures
        match verdict {
            Ok(()) => book_faults(title@, author@, isbn@).len() == 0,
            Err(e) => book_faults(title@, author@, isbn@).len() > 0 && e@
                == ErrorView::ValidationError(book_faults(title@, author@, isbn@)),
        },
{
    let mut report = String::new();
    require_filled(&mut report, "title", title);
    require_filled(&mut report, "author", author);
    require_filled(&mut report, "isbn", isbn);
    assert(report@ =~= book_faults(title@, author@, isbn@));
    conclude(report)
}

impl CreateBookRequest {
    /// Holds the body against its rules: title, author and ISBN may not be
    /// empty.
    pub fn validate(&self) -> (verdict: Result<(), AppError>)
        ensures
            match verdict {
                Ok(()) => book_faults(self.title@, self.author@, self.isbn@).len() == 0,
                Err(e) => book_faults(self.title@, self.author@, self.isbn@).len() > 0 && e@
                    == ErrorView::ValidationError(
                    book_faults(self.title@, self.author@, self.isbn@),
                ),
            },
    {
        validate_book(self.title.as_str(), self.author.as_str(), self.isbn.as_str())
    }
}

impl From<CreateBookRequest> for CreateBook {
    fn from(value: CreateBookRequest) -> (event: Self) {
        CreateBook {
            title: value.title,
            author: value.author,
            isbn: value.isbn,
            description: value.description,
        }
    }
}

impl FromSpecImpl<CreateBookRequest> for CreateBook {
    open spec fn obeys_from_spec() -> bool {
        true
    }

    open spec fn from_spec(value: CreateBookRequest) -> Self {
        CreateBook {
            title: value.title,
            author: value.author,
            isbn: value.isbn,
            description: value.description,
        }
    }
}

/// The body of a change to a book.
#[derive(Debug, Clone, PartialEq, Eq)]
pub struct UpdateBookRequest {
    pub title: String,
    pub author: String,
    pub isbn: String,
    pub description: String,
}

impl UpdateBookRequest {
    /// Holds the body against its rules: title, author and ISBN may not be
    /// empty.
    pub fn validate(&self) -> (verdict: Result<(), AppError>)
        ensures
            match verdict {
                Ok(()) => book_faults(self.title@, self.author@, self.isbn@).len() == 0,
                Err(e) => book_faults(self.title@, self.author@, self.isbn@).len() > 0 && e@
                    == ErrorView::ValidationError(
                    book_faults(self.title@, self.author@, self.isbn@),
                ),
            },
    {
        validate_book(self.title.as_str(), self.author.as_str(), self.isbn.as_str())
    }
}

/// A change to a book with the book and the user who asks for it.
#[derive(Debug, Clone, PartialEq, Eq)]
pub struct UpdateBookRequestWithIds(pub BookId, pub UserId, pub UpdateBookRequest);

impl UpdateBookRequestWithIds {
    pub fn new(book_id: BookId, user_id: UserId, request: UpdateBookRequest) -> (with_ids: Self)
        ensures
            with_ids == UpdateBookRequestWithIds(book_id, user_id, request),
    {
        UpdateBookRequestWithIds(book_id, user_id, request)
    }
}

impl From<UpdateBookRequestWithIds> for UpdateBook {
    fn from(value: UpdateBookRequestWithIds) -> (event: Self) {
        let UpdateBookRequestWithIds(
            book_id,
            user_id,
            UpdateBookRequest { title, author, isbn, description },
        ) = value;
        UpdateBook { book_id, title, author, isbn, description, requested_user: user_id }
    }
}

impl FromSpecImpl<UpdateBookRequestWithIds> for UpdateBook {
    open spec fn obeys_from_spec() -> bool {
        true
    }

    open spec fn from_spec(value: UpdateBookRequestWithIds) -> Self {
        UpdateBook {
            book_id: value.0,
            title: value.2.title,
            author: value.2.author,
            isbn: value.2.isbn,
            description: value.2.description,
            requested_user: value.1,
        }
    }
}

/// Which page of the catalogue a request asks for.
#[derive(Debug, Clone, Copy, PartialEq, Eq, Structural)]
pub struct BookListQuery {
    pub limit: i64,
    pub offset: i64,
}

/// The length of a page where the request names none.
pub const DEFAULT_LIMIT: i64 = 20;

/// The length of a page where the request names none.
pub fn default_limit() -> (limit: i64)
    ensures
        limit == DEFAULT_LIMIT,
{
    DEFAULT_LIMIT
}

impl BookListQuery {
    /// The page that a request asks for, given what it names: a page of
    /// [`DEFAULT_LIMIT`] books where it names no length, from the start of
    /// the catalogue where it names no offset.
    pub fn of(limit: Option<i64>, offset: Option<i64>) -> (query: Self)
        ensures
            query.limit == match limit {
                Some(limit) => limit,
                None => DEFAULT_LIMIT,
            },
            query.offset == match offset {
                Some(offset) => offset,
                None => 0,
            },
    {
        BookListQuery {
            limit: match limit {
                Some(limit) => limit,
                None => default_limit(),
            },
            offset: match offset {
                Some(offset) => offset,
                None => 0,
            },
        }
    }

    /// The report on the query: a line for each of limit and offset that
    /// is negative.
    pub open spec fn faults(&self) -> Seq<char> {
        negative_fault("limit"@, self.limit) + negative_fault("offset"@, self.offset)
    }

    /// Holds the query against its rules: neither the limit nor the offset
    /// may be negative.
    pub fn validate(&self) -> (verdict: Result<(), AppError>)
        ensures
            match verdict {
                Ok(()) => self.faults().len() == 0,
                Err(e) => self.faults().len() > 0 && e@ == ErrorView::ValidationError(
                    self.faults(),
                ),
            },
    {
        let mut report = String::new();
        require_not_negative(&mut report, "limit", self.limit);
        require_not_negative(&mut report, "offset", self.offset);
        assert(report@ =~= self.faults());
        conclude(report)
    }
}

impl From<BookListQuery> for BookListOptions {
    fn from(value: BookListQuery) -> (options: Self) {
        BookListOptions { limit: value.limit, offset: value.offset }
    }
}

impl FromSpecImpl<BookListQuery> for BookListOptions {
    open spec fn obeys_from_spec() -> bool {
        true
    }

    open spec fn from_spec(value: BookListQuery) -> Self {
        BookListOptions { limit: value.limit, offset: value.offset }
    }
}

/// The running loan of a book as it goes over the wire.
///
/// The time is in microseconds since the Unix epoch, UTC.
#[derive(Debug, Clone, PartialEq, Eq)]
pub struct BookCheckoutResponse {
    pub id: CheckoutId,
    pub checked_out_by: CheckoutUser,
    pub checked_out_at: i64,
}

/// The running loan of a book as the wire shows it.
pub open spec fn shown_loan(checkout: Checkout) -> BookCheckoutResponse {
    BookCheckoutResponse {
        id: checkout.checkout_id,
        checked_out_by: CheckoutUser {
            id: checkout.checked_out_by.id,
            name: checkout.checked_out_by.name,
        },
        checked_out_at: checkout.checked_out_at,
    }
}

impl From<Checkout> for BookCheckoutResponse {
    fn from(value: Checkout) -> (response: Self) {
        let Checkout { checkout_id, checked_out_by, checked_out_at } = value;
        BookCheckoutResponse {
            id: checkout_id,
            checked_out_by: CheckoutUser::from(checked_out_by),
            checked_out_at,
        }
    }
}

impl FromSpecImpl<Checkout> for BookCheckoutResponse {
    open spec fn obeys_from_spec() -> bool {
        true
    }

    open spec fn from_spec(value: Checkout) -> Self {
        shown_loan(value)
    }
}

/// A book as it goes over the wire.
#[derive(Debug, Clone, PartialEq, Eq)]
pub struct BookResponse {
    pub id: BookId,
    pub title: String,
    pub author: String,
    pub isbn: String,
    pub description: String,
    pub owner: BookOwner,
    pub checkout: Option<BookCheckoutResponse>,
}

/// A book as the wire shows it.
pub open spec fn shown_book(book: Book) -> BookResponse {
    BookResponse {
        id: book.id,
        title: book.title,
        author: book.author,
        isbn: book.isbn,
        description: book.description,
        owner: BookOwner { id: book.owner.id, name: book.owner.name },
        checkout: match book.checkout {
            Some(checkout) => Some(shown_loan(checkout)),
            None => None,
        },
    }
}

impl From<Book> for BookResponse {
    fn from(value: Book) -> (response: Self) {
        BookResponse {
            id: value.id,
            title: value.title,
            author: value.author,
            isbn: value.isbn,
            description: value.description,
            owner: BookOwner::from(value.owner),
            checkout: match value.checkout {
                Some(checkout) => Some(BookCheckoutResponse::from(checkout)),
                None => None,
            },
        }
    }
}

impl FromSpecImpl<Book> for BookResponse {
    open spec fn obeys_from_spec() -> bool {
        true
    }

    open spec fn from_spec(value: Book) -> Self {
        shown_book(value)
    }
}

/// What is said of a book that a lookup did not find.
pub open spec fn book_not_found_text() -> Seq<char> {
    "the specified book was not found"@
}

impl BookResponse {
    /// The answer to a lookup of one book: the book as the wire shows it,
    /// or that there is none.
    pub fn of(found: Option<Book>) -> (response: Result<BookResponse, AppError>)
        ensures
            match found {
                Some(book) => response == Ok::<_, AppError>(shown_book(book)),
                None => response matches Err(e) && e@ == ErrorView::EntityNotFound(
                    book_not_found_text(),
                ),
            },
    {
        match found {
            Some(book) => Ok(BookResponse::from(book)),
            None => Err(
                AppError::EntityNotFound(String::from_str("the specified book was not found")),
            ),
        }
    }
}

/// A page of the catalogue as it goes over the wire.
#[derive(Debug, Clone, PartialEq, Eq)]
pub struct PaginatedBookResponse {
    pub total: i64,
    pub limit: i64,
    pub offset: i64,
    pub items: Vec<BookResponse>,
}

/// Books as the wire shows them, in their order.
pub open spec fn shown_books(books: Seq<Book>) -> Seq<BookResponse> {
    Seq::new(books.len(), |i: int| shown_book(books[i]))
}

impl PaginatedBookResponse {
    /// A page of the catalogue as the wire shows it.
    pub fn from(value: PaginatedList<Book>) -> (response: Self)
        ensures
            response.total == value.total,
            response.limit == value.limit,
            response.offset == value.offset,
            response.items@ == shown_books(value.items@),
    {
        let PaginatedList { total, limit, offset, items } = value;
        let mut shown: Vec<BookResponse> = Vec::new();
        for book in it: items
            invariant
                shown@ == shown_books(it.seq().take(it.index() as int)),
        {
            shown.push(BookResponse::from(book));
            assert(shown@ =~= shown_books(it.seq().take(it.index() + 1)));
        }
        assert(items@.take(items@.len() as int) =~= items@);
        PaginatedBookResponse { total, limit, offset, items: shown }
    }
}

} // verus!
