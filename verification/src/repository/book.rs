use vstd::prelude::*;
use vstd::string::*;

use crate::database::book::{book_of_row, BookRow};
use crate::error::{AppError, ErrorView};
use crate::model::book::Book;

verus! {

/// What is said of a change to a book that changed no row.
pub open spec fn book_missing_text() -> Seq<char> {
    "specified book not found"@
}

/// What a change to a book comes to, given the number of rows that it
/// changed: a change that changed none found no such book, or none that the
/// user owns.
pub fn book_written(rows_affected: u64) -> (verdict: Result<(), AppError>)
    ensures
        rows_affected >= 1 ==> verdict is Ok,
        rows_affected < 1 ==> (verdict matches Err(e) && e@ == ErrorView::EntityNotFound(
            book_missing_text(),
        )),
{
    if rows_affected < 1 {
        Err(AppError::EntityNotFound(String::from_str("specified book not found")))
    } else {
        Ok(())
    }
}

/// The book that a lookup found, if it found a row.
pub fn found_book(row: Option<BookRow>) -> (book: Option<Book>)
    ensures
        book == match row {
            Some(row) => Some(book_of_row(row)),
            None => None,
        },
{
    match row {
        Some(row) => Some(Book::from(row)),
        None => None,
    }
}

} // verus!
