//! The tables as mathematics: what the store holds, which rules its rows
//! obey, and what each statement does to them.

use vstd::prelude::*;

use crate::database::checkout::{CheckoutStateRow, LoanRecord, ReturnRecord};
use crate::id::{BookId, CheckoutId, UserId};
use crate::model::checkout::{Checkout, CheckoutBook};
use crate::error::ErrorView;
use crate::transaction::{Action, Phase, ReplyView, Request, Transaction};

verus! {

/// The first position at which `keys` holds `key`, or the length of `keys`
/// if it holds it nowhere.
pub open spec fn position(keys: Seq<u128>, key: u128) -> int
    decreases keys.len(),
{
    if keys.len() == 0 {
        0
    } else if keys[0] == key {
        0
    } else {
        1 + position(keys.drop_first(), key)
    }
}

/// The first position at which `times` holds a time after `at`, or the length
/// of `times` if it holds none.
pub open spec fn first_after(times: Seq<i64>, at: i64) -> int
    decreases times.len(),
{
    if times.len() == 0 {
        0
    } else if times[0] > at {
        0
    } else {
        1 + first_after(times.drop_first(), at)
    }
}

/// The first position at which `times` holds a time before `at`, or the
/// length of `times` if it holds none.
pub open spec fn first_before(times: Seq<i64>, at: i64) -> int
    decreases times.len(),
{
    if times.len() == 0 {
        0
    } else if times[0] < at {
        0
    } else {
        1 + first_before(times.drop_first(), at)
    }
}

/// The identifiers of the books, row by row.
pub open spec fn book_keys(books: Seq<CheckoutBook>) -> Seq<u128> {
    Seq::new(books.len(), |i: int| books[i].book_id.0)
}

/// Whether the catalogue holds the book.
pub open spec fn has_book(books: Seq<CheckoutBook>, book_id: BookId) -> bool {
    position(book_keys(books), book_id.0) < books.len()
}

/// The book of that identifier as the catalogue shows it.
pub open spec fn book_of(books: Seq<CheckoutBook>, book_id: BookId) -> CheckoutBook {
    books[position(book_keys(books), book_id.0)]
}

/// A running loan with its book.
pub open spec fn running(books: Seq<CheckoutBook>, loan: LoanRecord) -> Checkout {
    Checkout {
        id: loan.checkout_id,
        checked_out_by: loan.user_id,
        checked_out_at: loan.checked_out_at,
        returned_at: None,
        book: book_of(books, loan.book_id),
    }
}

/// A loan that is over with its book.
pub open spec fn returned(books: Seq<CheckoutBook>, row: ReturnRecord) -> Checkout {
    Checkout {
        id: row.checkout_id,
        checked_out_by: row.user_id,
        checked_out_at: row.checked_out_at,
        returned_at: Some(row.returned_at),
        book: book_of(books, row.book_id),
    }
}

/// The running loans with their books, row by row.
pub open spec fn all_running(books: Seq<CheckoutBook>, loans: Seq<LoanRecord>) -> Seq<Checkout> {
    Seq::new(loans.len(), |i: int| running(books, loans[i]))
}

/// The loans that are over with their books, row by row.
pub open spec fn all_returned(books: Seq<CheckoutBook>, rows: Seq<ReturnRecord>) -> Seq<Checkout> {
    Seq::new(rows.len(), |i: int| returned(books, rows[i]))
}

/// Whether a running loan is this user's.
pub open spec fn held_by(user_id: UserId) -> spec_fn(LoanRecord) -> bool {
    |loan: LoanRecord| loan.user_id == user_id
}

/// Whether a loan that is over was of this book.
pub open spec fn of_book(book_id: BookId) -> spec_fn(ReturnRecord) -> bool {
    |row: ReturnRecord| row.book_id == book_id
}

/// A book's loans: the running one, if there is one, before those that are
/// over.
pub open spec fn with_running(active: Option<Checkout>, past: Seq<Checkout>) -> Seq<Checkout> {
    match active {
        Some(checkout) => seq![checkout] + past,
        None => past,
    }
}

/// The running loans and the history.
pub struct Tables {
    /// The running loans, oldest first.
    pub loans: Seq<LoanRecord>,
    /// The loans that are over, most recently lent first.
    pub history: Seq<ReturnRecord>,
}

impl Tables {
    /// The identifiers of the running loans, row by row.
    pub open spec fn loan_keys(self) -> Seq<u128> {
        Seq::new(self.loans.len(), |i: int| self.loans[i].checkout_id.0)
    }

    /// The books of the running loans, row by row.
    pub open spec fn loan_books(self) -> Seq<u128> {
        Seq::new(self.loans.len(), |i: int| self.loans[i].book_id.0)
    }

    /// When the running loans began, row by row.
    pub open spec fn loan_times(self) -> Seq<i64> {
        Seq::new(self.loans.len(), |i: int| self.loans[i].checked_out_at)
    }

    /// The identifiers of the loans that are over, row by row.
    pub open spec fn history_keys(self) -> Seq<u128> {
        Seq::new(self.history.len(), |i: int| self.history[i].checkout_id.0)
    }

    /// When the loans that are over began, row by row.
    pub open spec fn history_times(self) -> Seq<i64> {
        Seq::new(self.history.len(), |i: int| self.history[i].checked_out_at)
    }

    /// Where the running loan `checkout_id` stands, or the number of running
    /// loans if there is none.
    pub open spec fn loan_position(self, checkout_id: CheckoutId) -> int {
        position(self.loan_keys(), checkout_id.0)
    }

    /// Whether `checkout_id` is a running loan.
    pub open spec fn has_loan(self, checkout_id: CheckoutId) -> bool {
        self.loan_position(checkout_id) < self.loans.len()
    }

    /// Whether the history holds the loan `checkout_id`.
    pub open spec fn in_history(self, checkout_id: CheckoutId) -> bool {
        position(self.history_keys(), checkout_id.0) < self.history.len()
    }

    /// Where the running loan of the book stands, or the number of running
    /// loans if the book is in.
    pub open spec fn book_position(self, book_id: BookId) -> int {
        position(self.loan_books(), book_id.0)
    }

    /// Whether the book is out.
    pub open spec fn is_out(self, book_id: BookId) -> bool {
        self.book_position(book_id) < self.loans.len()
    }

    /// The rules that the store enforces on every row: each loan is of a
    /// book of the catalogue; no book has two running loans; no identifier
    /// names two running loans or two loans of the history; the running
    /// loans stand oldest first and the history most recently lent first.
    pub open spec fn obeys(self, books: Seq<CheckoutBook>) -> bool {
        &&& forall|i: int| 0 <= i < self.loans.len() ==> has_book(books, #[trigger] self.loans[i].book_id)
        &&& forall|i: int, j: int|
            0 <= i < j < self.loans.len() ==> #[trigger] self.loans[i].book_id
                != #[trigger] self.loans[j].book_id
        &&& forall|i: int, j: int|
            0 <= i < j < self.loans.len() ==> #[trigger] self.loans[i].checkout_id
                != #[trigger] self.loans[j].checkout_id
        &&& forall|i: int, j: int|
            0 <= i < j < self.loans.len() ==> #[trigger] self.loans[i].checked_out_at
                <= #[trigger] self.loans[j].checked_out_at
        &&& forall|i: int|
            0 <= i < self.history.len() ==> has_book(books, #[trigger] self.history[i].book_id)
        &&& forall|i: int, j: int|
            0 <= i < j < self.history.len() ==> #[trigger] self.history[i].checkout_id
                != #[trigger] self.history[j].checkout_id
        &&& forall|i: int, j: int|
            0 <= i < j < self.history.len() ==> #[trigger] self.history[i].checked_out_at
                >= #[trigger] self.history[j].checked_out_at
    }

    /// Whether no loan is both running and in the history.
    pub open spec fn split(self) -> bool {
        forall|i: int| 0 <= i < self.loans.len() ==> !self.in_history(#[trigger] self.loans[i].checkout_id)
    }

    /// The book with its running loan, as a transaction reads it.
    pub open spec fn state_of(self, books: Seq<CheckoutBook>, book_id: BookId) -> Option<
        CheckoutStateRow,
    > {
        if !has_book(books, book_id) {
            None
        } else if self.is_out(book_id) {
            let loan = self.loans[self.book_position(book_id)];
            Some(
                CheckoutStateRow {
                    book_id,
                    checkout_id: Some(loan.checkout_id),
                    user_id: Some(loan.user_id),
                },
            )
        } else {
            Some(CheckoutStateRow { book_id, checkout_id: None, user_id: None })
        }
    }

    /// Whether the store takes `record` as a new running loan: its book is
    /// in the catalogue and in, and its identifier names no loan, running or
    /// over.
    pub open spec fn admits(self, books: Seq<CheckoutBook>, record: LoanRecord) -> bool {
        &&& has_book(books, record.book_id)
        &&& !self.is_out(record.book_id)
        &&& !self.has_loan(record.checkout_id)
        &&& !self.in_history(record.checkout_id)
    }

    /// The tables with `record` among the running loans, behind the loans
    /// that began no later.
    pub open spec fn lend(self, record: LoanRecord) -> Tables {
        Tables {
            loans: self.loans.insert(first_after(self.loan_times(), record.checked_out_at), record),
            history: self.history,
        }
    }

    /// The tables with `row` in the history, behind the loans that began no
    /// earlier.
    pub open spec fn archive(self, row: ReturnRecord) -> Tables {
        Tables {
            loans: self.loans,
            history: self.history.insert(
                first_before(self.history_times(), row.checked_out_at),
                row,
            ),
        }
    }

    /// The tables without the running loan `checkout_id`.
    pub open spec fn strike(self, checkout_id: CheckoutId) -> Tables {
        Tables { loans: self.loans.remove(self.loan_position(checkout_id)), history: self.history }
    }
}

/// A connection to the store. At most one transaction is open on it at a
/// time.
#[derive(Debug, Clone, Copy, PartialEq, Eq, Hash, Structural)]
pub struct SessionId(pub u64);

/// The connection on which the store runs the requests that it is handed
/// whole.
pub open spec fn own_session() -> SessionId {
    SessionId(0)
}

/// An open transaction: the committed tables as they were when it began,
/// and the tables as it has left them.
pub struct SessionView {
    pub base: Tables,
    pub tables: Tables,
}

/// What the store holds: the catalogue, the tables as committed, and the
/// open transaction of each connection that has one.
pub struct LedgerView {
    pub books: Seq<CheckoutBook>,
    pub committed: Tables,
    pub sessions: Map<SessionId, SessionView>,
}

/// What the store says to a second `Begin`.
pub open spec fn already_open_text() -> Seq<char> {
    "a transaction is already open"@
}

/// What the store says to a statement outside a transaction.
pub open spec fn not_open_text() -> Seq<char> {
    "no transaction is open"@
}

/// What the store says to a row that breaks its rules.
pub open spec fn refused_text() -> Seq<char> {
    "the row violates a constraint"@
}

/// What the store says to the commit of a transaction that it gives up.
pub open spec fn not_serializable_text() -> Seq<char> {
    "could not serialize access due to a concurrent commit"@
}

impl LedgerView {
    /// The rules of the store: no two rows of the catalogue are of one book,
    /// and the tables, committed and of every open transaction, obey the
    /// rules on rows.
    pub open spec fn wf(self) -> bool {
        &&& forall|i: int, j: int|
            0 <= i < j < self.books.len() ==> #[trigger] self.books[i].book_id
                != #[trigger] self.books[j].book_id
        &&& self.committed.obeys(self.books)
        &&& forall|id: SessionId| #[trigger]
            self.sessions.contains_key(id) ==> self.sessions[id].tables.obeys(self.books)
    }

    /// Whether a transaction is open on the connection.
    pub open spec fn is_open(self, id: SessionId) -> bool {
        self.sessions.contains_key(id)
    }

    /// The store with the transaction of a connection as given.
    pub open spec fn with_session(self, id: SessionId, session: SessionView) -> LedgerView {
        LedgerView {
            books: self.books,
            committed: self.committed,
            sessions: self.sessions.insert(id, session),
        }
    }

    /// The store with a transaction on the connection that has written
    /// `tables` since it began on the committed tables.
    pub open spec fn in_transaction(self, id: SessionId, tables: Tables) -> LedgerView {
        self.with_session(id, SessionView { base: self.committed, tables })
    }

    /// The store with the transaction of a connection dropped, if it has
    /// one.
    pub open spec fn rolled_back(self, id: SessionId) -> LedgerView {
        LedgerView {
            books: self.books,
            committed: self.committed,
            sessions: self.sessions.remove(id),
        }
    }

    /// What an action does on a connection with an open transaction, and
    /// what the store answers.
    ///
    /// A statement works on the transaction's own tables. A commit goes
    /// through only if the committed tables are still what they were when
    /// the transaction began: then the transaction's tables take their
    /// place. Else another transaction has committed in between, and the
    /// store gives this one up.
    pub open spec fn perform_in(self, id: SessionId, session: SessionView, action: Action) -> (
        LedgerView,
        ReplyView,
    ) {
        let tables = session.tables;
        let base = session.base;
        match action {
            Action::Begin => (self, ReplyView::Failed(already_open_text())),
            Action::SetSerializable => (self, ReplyView::Done),
            Action::ReadState { book_id } => (
                self,
                ReplyView::State(tables.state_of(self.books, book_id)),
            ),
            Action::InsertCheckout { record } => if tables.admits(self.books, record) {
                (
                    self.with_session(id, SessionView { base, tables: tables.lend(record) }),
                    ReplyView::Affected(1),
                )
            } else {
                (self, ReplyView::Failed(refused_text()))
            },
            Action::InsertReturned { checkout_id, returned_at } => if !tables.has_loan(checkout_id) {
                (self, ReplyView::Affected(0))
            } else if tables.in_history(checkout_id) {
                (self, ReplyView::Failed(refused_text()))
            } else {
                (
                    self.with_session(
                        id,
                        SessionView {
                            base,
                            tables: tables.archive(
                                tables.loans[tables.loan_position(checkout_id)].closed_at(
                                    returned_at,
                                ),
                            ),
                        },
                    ),
                    ReplyView::Affected(1),
                )
            },
            Action::DeleteCheckout { checkout_id } => if tables.has_loan(checkout_id) {
                (
                    self.with_session(id, SessionView { base, tables: tables.strike(checkout_id) }),
                    ReplyView::Affected(1),
                )
            } else {
                (self, ReplyView::Affected(0))
            },
            Action::Commit => if self.committed == base {
                (
                    LedgerView {
                        books: self.books,
                        committed: tables,
                        sessions: self.sessions.remove(id),
                    },
                    ReplyView::Done,
                )
            } else {
                (self.rolled_back(id), ReplyView::Aborted(not_serializable_text()))
            },
        }
    }

    /// Every running loan with its book, oldest first: what a reader sees,
    /// whatever an open transaction has written.
    pub open spec fn unreturned_all(self) -> Seq<Checkout> {
        all_running(self.books, self.committed.loans)
    }

    /// The user's running loans with their books, oldest first.
    pub open spec fn unreturned_by(self, user_id: UserId) -> Seq<Checkout> {
        all_running(self.books, self.committed.loans.filter(held_by(user_id)))
    }

    /// The book's running loan with its book, if the book is out.
    pub open spec fn running_of(self, book_id: BookId) -> Option<Checkout> {
        if self.committed.is_out(book_id) {
            Some(running(self.books, self.committed.loans[self.committed.book_position(book_id)]))
        } else {
            None
        }
    }

    /// The book's loans that are over, most recently lent first.
    pub open spec fn returned_of(self, book_id: BookId) -> Seq<Checkout> {
        all_returned(self.books, self.committed.history.filter(of_book(book_id)))
    }

    /// The book's loans: the running one, if the book is out, then those
    /// that are over, most recently lent first.
    pub open spec fn history_of(self, book_id: BookId) -> Seq<Checkout> {
        with_running(self.running_of(book_id), self.returned_of(book_id))
    }

    /// The committed tables once the request has gone through: a loan has
    /// its row among the running loans; a return has moved the row of its
    /// loan to the history, closed at the time of the return.
    pub open spec fn fulfilled(self, request: Request) -> Tables {
        match request {
            Request::Create { event, checkout_id } => self.committed.lend(
                LoanRecord {
                    checkout_id,
                    book_id: event.book_id,
                    user_id: event.checked_out_by,
                    checked_out_at: event.checked_out_at,
                },
            ),
            Request::Return { event } => self.committed.archive(
                self.committed.loans[self.committed.loan_position(event.checkout_id)].closed_at(
                    event.returned_at,
                ),
            ).strike(event.checkout_id),
        }
    }

    /// Whether the store refuses the rows of a request that the state of the
    /// book allows: the new loan's identifier names a loan already, or the
    /// history holds the loan that is to enter it.
    pub open spec fn blocked(self, request: Request) -> bool {
        match request {
            Request::Create { checkout_id, .. } => self.committed.has_loan(checkout_id)
                || self.committed.in_history(checkout_id),
            Request::Return { event } => self.committed.in_history(event.checkout_id),
        }
    }

    /// Whether `after` are the committed tables of a request that the state
    /// of its book allowed, whose rows the store took, and that has done all
    /// of its work.
    pub open spec fn went_through(self, request: Request, after: Tables) -> bool {
        &&& request.verdict(self.committed.state_of(self.books, request.book())) is Ok
        &&& !self.blocked(request)
        &&& after == self.fulfilled(request)
    }

    /// What a request does to the store when the protocol is run on it from
    /// `Begin` to the end, and how the request ends.
    ///
    /// The protocol runs on the store's own connection, and nothing else
    /// runs in between. With a transaction open there already, none can be
    /// opened. Else the request is held against the committed state of its
    /// book. A request that passes and whose rows the store takes is
    /// fulfilled; every other one leaves the store as it was.
    pub open spec fn outcome(self, request: Request) -> (LedgerView, Result<(), ErrorView>) {
        if self.is_open(own_session()) {
            (self, Err(ErrorView::TransactionError(already_open_text())))
        } else {
            match request.verdict(self.committed.state_of(self.books, request.book())) {
                Err(e) => (self, Err(e)),
                Ok(()) => if self.blocked(request) {
                    (self, Err(ErrorView::SpecificOperationError(refused_text())))
                } else {
                    (
                        LedgerView {
                            books: self.books,
                            committed: self.fulfilled(request),
                            sessions: self.sessions,
                        },
                        Ok(()),
                    )
                },
            }
        }
    }

    /// Whether `now` is the store that a transaction on the store's own
    /// connection has reached when it waits at its phase, having begun on
    /// `self`.
    pub open spec fn on_track(self, tx: Transaction, now: LedgerView) -> bool {
        let request = tx.request;
        let passed = request.verdict(self.committed.state_of(self.books, request.book())) is Ok;
        let own = own_session();
        match tx.phase {
            Phase::Begin => now == self,
            Phase::Isolate | Phase::Read => !self.is_open(own) && now == self.in_transaction(
                own,
                self.committed,
            ),
            Phase::Insert => request is Create && !self.is_open(own) && passed && now
                == self.in_transaction(own, self.committed),
            Phase::Archive => request is Return && !self.is_open(own) && passed && now
                == self.in_transaction(own, self.committed),
            Phase::Remove => request matches Request::Return { event } && !self.is_open(own)
                && passed && !self.blocked(request) && now == self.in_transaction(
                own,
                self.committed.archive(
                    self.committed.loans[self.committed.loan_position(
                        event.checkout_id,
                    )].closed_at(event.returned_at),
                ),
            ),
            Phase::Commit => !self.is_open(own) && passed && !self.blocked(request) && now
                == self.in_transaction(own, self.fulfilled(request)),
        }
    }

    /// What an action does on a connection, and what the store answers.
    ///
    /// `Begin` opens a transaction on a copy of the committed tables. Every
    /// other action needs the connection's open transaction.
    pub open spec fn perform(self, id: SessionId, action: Action) -> (LedgerView, ReplyView) {
        if self.is_open(id) {
            self.perform_in(id, self.sessions[id], action)
        } else {
            match action {
                Action::Begin => (self.in_transaction(id, self.committed), ReplyView::Done),
                _ => (self, ReplyView::Failed(not_open_text())),
            }
        }
    }
}

} // verus!
