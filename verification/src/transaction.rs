//! The protocol that lends a book and takes it back.
//!
//! Both requests run as one transaction at the strictest isolation level.
//! Inside it the current state of the book is read afresh, the request is
//! held against that state, the rows are written, and each write is checked
//! to have changed a row before the transaction commits. The store is
//! somewhere else: this module only decides. A [`Transaction`] says which
//! [`Action`] the store is to perform next, and takes the store's [`Reply`]
//! to say what follows.

use vstd::prelude::*;
use vstd::string::*;

use crate::database::checkout::{CheckoutStateRow, LoanRecord};
use crate::error::{AppError, ErrorView};
use crate::id::{simple_text, text_of, BookId, CheckoutId, UserId};
use crate::model::checkout::{CreateCheckout, UpdateReturned};

verus! {

/// What a transaction is to bring about.
#[derive(Debug, Clone, Copy, PartialEq, Eq, Structural)]
pub enum Request {
    /// Lend the book; `checkout_id` is the new loan's identifier.
    Create { event: CreateCheckout, checkout_id: CheckoutId },
    /// Take the book back.
    Return { event: UpdateReturned },
}

/// One thing that the store is asked to do.
#[derive(Debug, Clone, Copy, PartialEq, Eq, Structural)]
pub enum Action {
    /// Open a transaction.
    Begin,
    /// Raise the open transaction to serializable isolation.
    SetSerializable,
    /// Read the book with its running loan, if any.
    ReadState { book_id: BookId },
    /// Add a row to the running loans.
    InsertCheckout { record: LoanRecord },
    /// Copy the running loan `checkout_id` into the history, closed at
    /// `returned_at`.
    InsertReturned { checkout_id: CheckoutId, returned_at: i64 },
    /// Remove the running loan `checkout_id`.
    DeleteCheckout { checkout_id: CheckoutId },
    /// Commit the open transaction.
    Commit,
}

/// What the store answers to an [`Action`].
#[derive(Debug, Clone, PartialEq, Eq)]
pub enum Reply {
    /// The transaction was opened, raised or committed.
    Done,
    /// The book that was read, or `None` if there is no such book.
    State(Option<CheckoutStateRow>),
    /// The number of rows that a write changed.
    Affected(u64),
    /// The store gave the transaction up because it could not be serialized
    /// with another one.
    Aborted(String),
    /// The store failed to do what it was asked.
    Failed(String),
}

/// A [`Reply`] with its text as a sequence of characters.
pub enum ReplyView {
    Done,
    State(Option<CheckoutStateRow>),
    Affected(u64),
    Aborted(Seq<char>),
    Failed(Seq<char>),
}

impl View for Reply {
    type V = ReplyView;

    open spec fn view(&self) -> ReplyView {
        match self {
            Reply::Done => ReplyView::Done,
            Reply::State(state) => ReplyView::State(*state),
            Reply::Affected(rows) => ReplyView::Affected(*rows),
            Reply::Aborted(text) => ReplyView::Aborted(text@),
            Reply::Failed(text) => ReplyView::Failed(text@),
        }
    }
}

/// The action whose reply a transaction waits for.
#[derive(Debug, Clone, Copy, PartialEq, Eq, Structural)]
pub enum Phase {
    Begin,
    Isolate,
    Read,
    Insert,
    Archive,
    Remove,
    Commit,
}

/// A request on its way through the protocol.
#[derive(Debug, Clone, Copy, PartialEq, Eq, Structural)]
pub struct Transaction {
    pub request: Request,
    pub phase: Phase,
}

/// What follows a reply.
#[derive(Debug, PartialEq, Eq)]
pub enum Next {
    /// The store is to perform the action and hand its reply to the
    /// transaction.
    Perform(Transaction, Action),
    /// The request fails, and the open transaction is to be dropped without
    /// a commit.
    Abort(AppError),
    /// The request is over and no transaction is open.
    Finish(Result<(), AppError>),
}

/// A [`Next`] with the text of its error as a sequence of characters.
pub enum NextView {
    Perform(Transaction, Action),
    Abort(ErrorView),
    Finish(Result<(), ErrorView>),
}

impl View for Next {
    type V = NextView;

    open spec fn view(&self) -> NextView {
        match self {
            Next::Perform(tx, action) => NextView::Perform(*tx, *action),
            Next::Abort(e) => NextView::Abort(e@),
            Next::Finish(Ok(())) => NextView::Finish(Ok(())),
            Next::Finish(Err(e)) => NextView::Finish(Err(e@)),
        }
    }
}

/// The verdict on a request as text: `Ok`, or the error that refuses it.
pub open spec fn verdict_view(verdict: Result<(), AppError>) -> Result<(), ErrorView> {
    match verdict {
        Ok(()) => Ok(()),
        Err(e) => Err(e@),
    }
}

/// Why a loan is refused for a book that does not exist.
pub open spec fn create_missing_text(book_id: BookId) -> Seq<char> {
    "The book ("@ + simple_text(book_id.0) + ") doesn't exist"@
}

/// Why a loan is refused for a book that is out.
pub open spec fn create_conflict_text(book_id: BookId) -> Seq<char> {
    "The book ("@ + simple_text(book_id.0) + ") was already borrowed"@
}

/// Why a return is refused for a book that does not exist.
pub open spec fn return_missing_text(book_id: BookId) -> Seq<char> {
    "the book ("@ + simple_text(book_id.0) + ") doesn't exist"@
}

/// Why a return is refused when the book's running loan is not the one that
/// the request names, or not this user's.
pub open spec fn return_conflict_text(event: UpdateReturned) -> Seq<char> {
    "the user ("@ + simple_text(event.returned_by.0) + ") can not return the book ("@ + simple_text(
        event.book_id.0,
    ) + ") of the checkout ("@ + simple_text(event.checkout_id.0) + ")"@
}

/// Whether the row shows the running loan `checkout_id`, held by `user_id`.
pub open spec fn holds_loan(row: CheckoutStateRow, checkout_id: CheckoutId, user_id: UserId) -> bool {
    row.checkout_id == Some(checkout_id) && row.user_id == Some(user_id)
}

/// The verdict on a loan, given the book as the transaction read it: the book
/// must exist and must not be out.
pub open spec fn create_verdict(event: CreateCheckout, state: Option<CheckoutStateRow>) -> Result<
    (),
    ErrorView,
> {
    match state {
        None => Err(ErrorView::EntityNotFound(create_missing_text(event.book_id))),
        Some(row) => if row.checkout_id is Some {
            Err(ErrorView::UnprocessableEntity(create_conflict_text(event.book_id)))
        } else {
            Ok(())
        },
    }
}

/// The verdict on a return, given the book as the transaction read it: the
/// book must exist, and its running loan must be the one that the request
/// names and be held by the user who returns it.
pub open spec fn return_verdict(event: UpdateReturned, state: Option<CheckoutStateRow>) -> Result<
    (),
    ErrorView,
> {
    match state {
        None => Err(ErrorView::EntityNotFound(return_missing_text(event.book_id))),
        Some(row) => if holds_loan(row, event.checkout_id, event.returned_by) {
            Ok(())
        } else {
            Err(ErrorView::UnprocessableEntity(return_conflict_text(event)))
        },
    }
}

/// Puts the text of an identifier between two pieces of text.
fn around(before: &str, id: u128, after: &str) -> (text: String)
    ensures
        text@ == before@ + simple_text(id) + after@,
{
    let id_text = text_of(id);
    let mut text = String::from_str(before);
    text.append(id_text.as_str());
    text.append(after);
    text
}

/// Holds a loan against the book as the transaction read it.
pub fn decide_create(event: &CreateCheckout, state: Option<CheckoutStateRow>) -> (verdict: Result<
    (),
    AppError,
>)
    ensures
        verdict_view(verdict) == create_verdict(*event, state),
{
    match state {
        None => Err(AppError::EntityNotFound(around("The book (", event.book_id.0, ") doesn't exist"))),
        Some(row) => {
            if row.checkout_id.is_some() {
                Err(
                    AppError::UnprocessableEntity(
                        around("The book (", event.book_id.0, ") was already borrowed"),
                    ),
                )
            } else {
                Ok(())
            }
        },
    }
}

/// Holds a return against the book as the transaction read it.
pub fn decide_return(event: &UpdateReturned, state: Option<CheckoutStateRow>) -> (verdict: Result<
    (),
    AppError,
>)
    ensures
        verdict_view(verdict) == return_verdict(*event, state),
{
    match state {
        None => Err(AppError::EntityNotFound(around("the book (", event.book_id.0, ") doesn't exist"))),
        Some(row) => {
            let holds = match (row.checkout_id, row.user_id) {
                (Some(c), Some(u)) => c == event.checkout_id && u == event.returned_by,
                _ => false,
            };
            if holds {
                Ok(())
            } else {
                let mut text = around("the user (", event.returned_by.0, ") can not return the book (");
                let tail = around("", event.book_id.0, ") of the checkout (");
                text.append(tail.as_str());
                let end = around("", event.checkout_id.0, ")");
                text.append(end.as_str());
                proof {
                    reveal_strlit("");
                    assert(""@ + simple_text(event.book_id.0) =~= simple_text(event.book_id.0));
                    assert(""@ + simple_text(event.checkout_id.0) =~= simple_text(
                        event.checkout_id.0,
                    ));
                    assert(text@ =~= return_conflict_text(*event));
                }
                Err(AppError::UnprocessableEntity(text))
            }
        },
    }
}

impl Request {
    /// The book that the request is about.
    pub open spec fn book(self) -> BookId {
        match self {
            Request::Create { event, .. } => event.book_id,
            Request::Return { event } => event.book_id,
        }
    }

    /// The write that follows the read once the request has passed, and the
    /// phase that waits for its reply.
    pub open spec fn first_write(self) -> (Phase, Action) {
        match self {
            Request::Create { event, checkout_id } => (
                Phase::Insert,
                Action::InsertCheckout {
                    record: LoanRecord {
                        checkout_id,
                        book_id: event.book_id,
                        user_id: event.checked_out_by,
                        checked_out_at: event.checked_out_at,
                    },
                },
            ),
            Request::Return { event } => (
                Phase::Archive,
                Action::InsertReturned {
                    checkout_id: event.checkout_id,
                    returned_at: event.returned_at,
                },
            ),
        }
    }

    /// The verdict on the request, given the book as the transaction read it.
    pub open spec fn verdict(self, state: Option<CheckoutStateRow>) -> Result<(), ErrorView> {
        match self {
            Request::Create { event, .. } => create_verdict(event, state),
            Request::Return { event } => return_verdict(event, state),
        }
    }
}

/// What is said of a reply that does not answer the action that was asked.
pub open spec fn unexpected_text() -> Seq<char> {
    "unexpected reply from the store"@
}

impl Transaction {
    /// The transaction at another phase.
    pub open spec fn at(self, phase: Phase) -> Transaction {
        Transaction { request: self.request, phase }
    }

    /// The action whose reply the transaction waits for.
    pub open spec fn awaited(self) -> Action {
        match self.phase {
            Phase::Begin => Action::Begin,
            Phase::Isolate => Action::SetSerializable,
            Phase::Read => Action::ReadState { book_id: self.request.book() },
            Phase::Insert | Phase::Archive => self.request.first_write().1,
            Phase::Remove => match self.request {
                Request::Return { event } => Action::DeleteCheckout { checkout_id: event.checkout_id },
                Request::Create { checkout_id, .. } => Action::DeleteCheckout { checkout_id },
            },
            Phase::Commit => Action::Commit,
        }
    }

    /// How many actions are still to come at most, the awaited one included.
    pub open spec fn remaining(self) -> nat {
        match self.phase {
            Phase::Begin => 7,
            Phase::Isolate => 6,
            Phase::Read => 5,
            Phase::Insert => 2,
            Phase::Archive => 3,
            Phase::Remove => 2,
            Phase::Commit => 1,
        }
    }

    /// The failure of a statement in the open transaction.
    pub open spec fn statement_failure(self, text: Seq<char>) -> NextView {
        match self.phase {
            Phase::Begin => NextView::Finish(Err(ErrorView::TransactionError(text))),
            Phase::Commit => NextView::Abort(ErrorView::TransactionError(text)),
            _ => NextView::Abort(ErrorView::SpecificOperationError(text)),
        }
    }

    /// What follows a write that changed `rows` rows.
    pub open spec fn after_write(self, rows: u64) -> NextView {
        match self.phase {
            Phase::Insert => if rows < 1 {
                NextView::Abort(
                    ErrorView::NoRowsAffectedError("no checkout record has been created"@),
                )
            } else {
                NextView::Perform(self.at(Phase::Commit), Action::Commit)
            },
            Phase::Archive => if rows < 1 {
                NextView::Abort(
                    ErrorView::NoRowsAffectedError("not returning record has been updated"@),
                )
            } else {
                NextView::Perform(self.at(Phase::Remove), self.at(Phase::Remove).awaited())
            },
            Phase::Remove => if rows < 1 {
                NextView::Abort(
                    ErrorView::NoRowsAffectedError("no checkout record has been deleted"@),
                )
            } else {
                NextView::Perform(self.at(Phase::Commit), Action::Commit)
            },
            _ => self.statement_failure(unexpected_text()),
        }
    }

    /// What follows the reply to the awaited action.
    ///
    /// A failure to open the transaction ends the request with nothing to
    /// drop. Any later failure, a refusal of the request, and a write that
    /// changed no row drop the transaction. A transaction that the store
    /// gave up for want of serializability is refused like a request that
    /// found the book in the wrong state. A reply of the wrong kind counts
    /// as a failure of the store.
    pub open spec fn next(self, reply: ReplyView) -> NextView {
        match reply {
            ReplyView::Failed(text) => self.statement_failure(text),
            ReplyView::Aborted(text) => match self.phase {
                Phase::Begin => self.statement_failure(text),
                _ => NextView::Abort(ErrorView::UnprocessableEntity(text)),
            },
            ReplyView::Done => match self.phase {
                Phase::Begin => NextView::Perform(self.at(Phase::Isolate), Action::SetSerializable),
                Phase::Isolate => NextView::Perform(
                    self.at(Phase::Read),
                    self.at(Phase::Read).awaited(),
                ),
                Phase::Commit => NextView::Finish(Ok(())),
                _ => self.statement_failure(unexpected_text()),
            },
            ReplyView::State(state) => match self.phase {
                Phase::Read => match self.request.verdict(state) {
                    Ok(()) => NextView::Perform(
                        self.at(self.request.first_write().0),
                        self.request.first_write().1,
                    ),
                    Err(e) => NextView::Abort(e),
                },
                _ => self.statement_failure(unexpected_text()),
            },
            ReplyView::Affected(rows) => self.after_write(rows),
        }
    }

    /// Starts the protocol for a request: the store is to open a transaction.
    pub fn start(request: Request) -> (first: (Transaction, Action))
        ensures
            first.0 == (Transaction { request, phase: Phase::Begin }),
            first.1 == Action::Begin,
    {
        (Transaction { request, phase: Phase::Begin }, Action::Begin)
    }

    fn fail(&self, text: String) -> (next: Next)
        ensures
            next@ == self.statement_failure(text@),
    {
        match self.phase {
            Phase::Begin => Next::Finish(Err(AppError::TransactionError(text))),
            Phase::Commit => Next::Abort(AppError::TransactionError(text)),
            _ => Next::Abort(AppError::SpecificOperationError(text)),
        }
    }

    fn unexpected(&self) -> (next: Next)
        ensures
            next@ == self.statement_failure(unexpected_text()),
    {
        self.fail(String::from_str("unexpected reply from the store"))
    }

    fn write_action(&self) -> (write: (Phase, Action))
        ensures
            write == self.request.first_write(),
    {
        match self.request {
            Request::Create { event, checkout_id } => (
                Phase::Insert,
                Action::InsertCheckout {
                    record: LoanRecord {
                        checkout_id,
                        book_id: event.book_id,
                        user_id: event.checked_out_by,
                        checked_out_at: event.checked_out_at,
                    },
                },
            ),
            Request::Return { event } => (
                Phase::Archive,
                Action::InsertReturned {
                    checkout_id: event.checkout_id,
                    returned_at: event.returned_at,
                },
            ),
        }
    }

    fn delete_action(&self) -> (action: Action)
        ensures
            action == self.at(Phase::Remove).awaited(),
    {
        match self.request {
            Request::Return { event } => Action::DeleteCheckout { checkout_id: event.checkout_id },
            Request::Create { checkout_id, .. } => Action::DeleteCheckout { checkout_id },
        }
    }

    fn read_action(&self) -> (action: Action)
        ensures
            action == self.at(Phase::Read).awaited(),
    {
        match self.request {
            Request::Create { event, .. } => Action::ReadState { book_id: event.book_id },
            Request::Return { event } => Action::ReadState { book_id: event.book_id },
        }
    }

    fn moved(&self, phase: Phase) -> (tx: Transaction)
        ensures
            tx == self.at(phase),
    {
        Transaction { request: self.request, phase }
    }

    fn decide(&self, state: Option<CheckoutStateRow>) -> (verdict: Result<(), AppError>)
        ensures
            verdict_view(verdict) == self.request.verdict(state),
    {
        match self.request {
            Request::Create { event, .. } => decide_create(&event, state),
            Request::Return { event } => decide_return(&event, state),
        }
    }

    fn wrote(&self, rows: u64) -> (next: Next)
        ensures
            next@ == self.after_write(rows),
    {
        match self.phase {
            Phase::Insert => {
                if rows < 1 {
                    Next::Abort(
                        AppError::NoRowsAffectedError(
                            String::from_str("no checkout record has been created"),
                        ),
                    )
                } else {
                    Next::Perform(self.moved(Phase::Commit), Action::Commit)
                }
            },
            Phase::Archive => {
                if rows < 1 {
                    Next::Abort(
                        AppError::NoRowsAffectedError(
                            String::from_str("not returning record has been updated"),
                        ),
                    )
                } else {
                    Next::Perform(self.moved(Phase::Remove), self.delete_action())
                }
            },
            Phase::Remove => {
                if rows < 1 {
                    Next::Abort(
                        AppError::NoRowsAffectedError(
                            String::from_str("no checkout record has been deleted"),
                        ),
                    )
                } else {
                    Next::Perform(self.moved(Phase::Commit), Action::Commit)
                }
            },
            _ => self.unexpected(),
        }
    }

    /// Takes the store's reply to the awaited action and says what follows.
    pub fn step(self, reply: Reply) -> (next: Next)
        ensures
            next@ == self.next(reply@),
    {
        match reply {
            Reply::Failed(text) => self.fail(text),
            Reply::Aborted(text) => match self.phase {
                Phase::Begin => self.fail(text),
                _ => Next::Abort(AppError::UnprocessableEntity(text)),
            },
            Reply::Done => match self.phase {
                Phase::Begin => Next::Perform(self.moved(Phase::Isolate), Action::SetSerializable),
                Phase::Isolate => Next::Perform(self.moved(Phase::Read), self.read_action()),
                Phase::Commit => Next::Finish(Ok(())),
                _ => self.unexpected(),
            },
            Reply::State(state) => match self.phase {
                Phase::Read => match self.decide(state) {
                    Ok(()) => {
                        let (phase, action) = self.write_action();
                        Next::Perform(self.moved(phase), action)
                    },
                    Err(e) => Next::Abort(e),
                },
                _ => self.unexpected(),
            },
            Reply::Affected(rows) => self.wrote(rows),
        }
    }
}

} // verus!
