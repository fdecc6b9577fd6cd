use vstd::prelude::*;
use vstd::std_specs::convert::FromSpecImpl;

use crate::id::{BookId, UserId};
use crate::model::book::{Book, BookListOptions};
use crate::model::list::PaginatedList;
use crate::model::user::BookOwner;

verus! {

/// A book joined with its owner.
#[derive(Debug, Clone, PartialEq, Eq)]
pub struct BookRow {
    pub book_id: BookId,
    pub title: String,
    pub author: String,
    pub isbn: String,
    pub description: String,
    pub owned_by: UserId,
    pub owner_name: String,
}

impl From<BookRow> for Book {
    fn from(value: BookRow) -> (book: Self) {
        Book {
            id: value.book_id,
            title: value.title,
            author: value.author,
            isbn: value.isbn,
            description: value.description,
            owner: BookOwner { id: value.owned_by, name: value.owner_name },
            checkout: None,
        }
    }
}

impl FromSpecImpl<BookRow> for Book {
    open spec fn obeys_from_spec() -> bool {
        true
    }

    open spec fn from_spec(value: BookRow) -> Self {
        book_of_row(value)
    }
}

/// The book that a row shows: the row's fields, the owner made of the row's
/// two owner fields, and no running loan.
pub open spec fn book_of_row(row: BookRow) -> Book {
    Book {
        id: row.book_id,
        title: row.title,
        author: row.author,
        isbn: row.isbn,
        description: row.description,
        owner: BookOwner { id: row.owned_by, name: row.owner_name },
        checkout: None,
    }
}

/// One row of a page of book identifiers: the identifier, and the number of
/// books in the whole catalogue.
#[derive(Debug, Clone, Copy, PartialEq, Eq, Structural)]
pub struct PaginatedBookRow {
    pub total: i64,
    pub id: BookId,
}

/// The number of books in the whole catalogue as a page of identifiers tells
/// it: every row carries it, and an empty page tells zero.
pub open spec fn total_of(rows: Seq<PaginatedBookRow>) -> i64 {
    if rows.len() > 0 {
        rows[0].total
    } else {
        0
    }
}

/// The identifiers of a page, row by row.
pub open spec fn ids_of(rows: Seq<PaginatedBookRow>) -> Seq<BookId> {
    Seq::new(rows.len(), |i: int| rows[i].id)
}

/// The books of a page, row by row.
pub open spec fn books_of(rows: Seq<BookRow>) -> Seq<Book> {
    Seq::new(rows.len(), |i: int| book_of_row(rows[i]))
}

/// The number of books in the whole catalogue as a page of identifiers tells
/// it.
pub fn page_total(rows: &Vec<PaginatedBookRow>) -> (total: i64)
    ensures
        total == total_of(rows@),
{
    if rows.len() > 0 {
        rows[0].total
    } else {
        0
    }
}

/// The identifiers of a page, row by row.
pub fn page_ids(rows: &Vec<PaginatedBookRow>) -> (ids: Vec<BookId>)
    ensures
        ids@ == ids_of(rows@),
{
    let mut ids: Vec<BookId> = Vec::new();
    let mut i: usize = 0;
    while i < rows.len()
        invariant
            i <= rows.len(),
            ids@ == ids_of(rows@.take(i as int)),
        decreases rows.len() - i,
    {
        ids.push(rows[i].id);
        i += 1;
        assert(ids@ =~= ids_of(rows@.take(i as int)));
    }
    assert(rows@.take(i as int) =~= rows@);
    ids
}

/// The page that the options asked for: its books row by row, beside the
/// number of books in the whole catalogue.
pub fn book_page(options: BookListOptions, total: i64, rows: Vec<BookRow>) -> (page: PaginatedList<
    Book,
>)
    ensures
        page.total == total,
        page.limit == options.limit,
        page.offset == options.offset,
        page.items@ == books_of(rows@),
{
    let mut items: Vec<Book> = Vec::new();
    for row in it: rows
        invariant
            items@ == books_of(it.seq().take(it.index() as int)),
    {
        items.push(Book::from(row));
        assert(items@ =~= books_of(it.seq().take(it.index() + 1)));
    }
    PaginatedList { total, limit: options.limit, offset: options.offset, items }
}

} // verus!
