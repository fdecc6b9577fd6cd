//! A store in memory: the catalogue, the running loans and the history, with
//! transactions.
//!
//! [`Ledger::execute`] is the store's side of the protocol of
//! [`crate::transaction`]: it performs one action on one connection and
//! answers. Each connection may have one transaction open, which works on
//! its own copy of the tables. Nothing that it writes shows in the
//! committed tables, or to another transaction, before its `Commit`;
//! [`Ledger::rollback`] drops it without a trace; and the store lets it
//! commit only if no other transaction has committed since it began.

pub mod lemmas;
pub mod tables;

use vstd::prelude::*;
use vstd::string::*;

use crate::database::checkout::{
    CheckoutRow, CheckoutStateRow, LoanRecord, ReturnRecord, ReturnedCheckoutRow,
};
use crate::id::{is_random_uuid, BookId, CheckoutId, UserId};
use crate::error::AppError;
use crate::ledger::lemmas::{
    lemma_archive_obeys, lemma_first_after_is, lemma_first_before_is, lemma_lend_obeys,
    lemma_obeys_in_larger_catalogue, lemma_position, lemma_position_is, lemma_step,
    lemma_strike_obeys,
};
use crate::ledger::tables::{
    all_returned, all_running, book_keys, has_book, held_by, of_book, own_session, position,
    returned, running, with_running, LedgerView, SessionId, SessionView, Tables,
};
use crate::model::checkout::{Checkout, CheckoutBook, CreateCheckout, UpdateReturned};
use crate::transaction::{verdict_view, Action, Next, Reply, Request, Transaction};

verus! {

/// The two tables of loans.
struct Rows {
    loans: Vec<LoanRecord>,
    history: Vec<ReturnRecord>,
}

impl View for Rows {
    type V = Tables;

    closed spec fn view(&self) -> Tables {
        Tables { loans: self.loans@, history: self.history@ }
    }
}

/// Where the book stands in the catalogue, or the catalogue's length if it
/// is not there.
fn book_slot(books: &Vec<CheckoutBook>, book_id: BookId) -> (slot: usize)
    ensures
        slot == position(book_keys(books@), book_id.0),
        slot <= books.len(),
{
    let mut i: usize = 0;
    while i < books.len() && books[i].book_id != book_id
        invariant
            i <= books.len(),
            forall|j: int| 0 <= j < i ==> book_keys(books@)[j] != book_id.0,
        decreases books.len() - i,
    {
        i += 1;
    }
    proof {
        lemma_position_is(book_keys(books@), book_id.0, i as int);
    }
    i
}

/// A running loan joined with its book.
fn join_loan(books: &Vec<CheckoutBook>, loan: &LoanRecord) -> (checkout: Checkout)
    requires
        has_book(books@, loan.book_id),
    ensures
        checkout == running(books@, *loan),
{
    let book = &books[book_slot(books, loan.book_id)];
    Checkout::from(
        CheckoutRow {
            checkout_id: loan.checkout_id,
            book_id: book.book_id,
            user_id: loan.user_id,
            checked_out_at: loan.checked_out_at,
            title: book.title.clone(),
            author: book.author.clone(),
            isbn: book.isbn.clone(),
        },
    )
}

/// A loan that is over joined with its book.
fn join_return(books: &Vec<CheckoutBook>, row: &ReturnRecord) -> (checkout: Checkout)
    requires
        has_book(books@, row.book_id),
    ensures
        checkout == returned(books@, *row),
{
    let book = &books[book_slot(books, row.book_id)];
    Checkout::from(
        ReturnedCheckoutRow {
            checkout_id: row.checkout_id,
            book_id: book.book_id,
            user_id: row.user_id,
            checked_out_at: row.checked_out_at,
            returned_at: row.returned_at,
            title: book.title.clone(),
            author: book.author.clone(),
            isbn: book.isbn.clone(),
        },
    )
}

/// Puts a book's running loan, if it has one, before its loans that are
/// over.
pub fn assemble_history(active: Option<Checkout>, past: Vec<Checkout>) -> (all: Vec<Checkout>)
    ensures
        all@ == with_running(active, past@),
{
    let mut all = past;
    if let Some(checkout) = active {
        all.insert(0, checkout);
        assert(all@ =~= seq![checkout] + past@);
    }
    all
}

impl Rows {
    fn copy(&self) -> (rows: Rows)
        ensures
            rows@ == self@,
    {
        let mut loans: Vec<LoanRecord> = Vec::new();
        let mut i: usize = 0;
        while i < self.loans.len()
            invariant
                i <= self.loans.len(),
                loans@ == self.loans@.take(i as int),
            decreases self.loans.len() - i,
        {
            loans.push(self.loans[i]);
            i += 1;
            assert(loans@ =~= self.loans@.take(i as int));
        }
        assert(loans@ =~= self.loans@);
        let mut history: Vec<ReturnRecord> = Vec::new();
        let mut k: usize = 0;
        while k < self.history.len()
            invariant
                k <= self.history.len(),
                history@ == self.history@.take(k as int),
            decreases self.history.len() - k,
        {
            history.push(self.history[k]);
            k += 1;
            assert(history@ =~= self.history@.take(k as int));
        }
        assert(history@ =~= self.history@);
        Rows { loans, history }
    }

    fn same_as(&self, other: &Rows) -> (same: bool)
        ensures
            same == (self@ == other@),
    {
        if self.loans.len() != other.loans.len() || self.history.len() != other.history.len() {
            return false;
        }
        let mut i: usize = 0;
        while i < self.loans.len()
            invariant
                i <= self.loans.len(),
                self.loans.len() == other.loans.len(),
                forall|j: int| 0 <= j < i ==> self.loans@[j] == other.loans@[j],
            decreases self.loans.len() - i,
        {
            if self.loans[i] != other.loans[i] {
                return false;
            }
            i += 1;
        }
        let mut k: usize = 0;
        while k < self.history.len()
            invariant
                k <= self.history.len(),
                self.history.len() == other.history.len(),
                self.loans@ =~= other.loans@,
                forall|j: int| 0 <= j < k ==> self.history@[j] == other.history@[j],
            decreases self.history.len() - k,
        {
            if self.history[k] != other.history[k] {
                return false;
            }
            k += 1;
        }
        assert(self.history@ =~= other.history@);
        true
    }

    fn loan_slot(&self, checkout_id: CheckoutId) -> (slot: usize)
        ensures
            slot == self@.loan_position(checkout_id),
            slot <= self.loans.len(),
    {
        let mut i: usize = 0;
        while i < self.loans.len() && self.loans[i].checkout_id != checkout_id
            invariant
                i <= self.loans.len(),
                forall|j: int| 0 <= j < i ==> self@.loan_keys()[j] != checkout_id.0,
            decreases self.loans.len() - i,
        {
            i += 1;
        }
        proof {
            lemma_position_is(self@.loan_keys(), checkout_id.0, i as int);
        }
        i
    }

    fn book_slot(&self, book_id: BookId) -> (slot: usize)
        ensures
            slot == self@.book_position(book_id),
            slot <= self.loans.len(),
    {
        let mut i: usize = 0;
        while i < self.loans.len() && self.loans[i].book_id != book_id
            invariant
                i <= self.loans.len(),
                forall|j: int| 0 <= j < i ==> self@.loan_books()[j] != book_id.0,
            decreases self.loans.len() - i,
        {
            i += 1;
        }
        proof {
            lemma_position_is(self@.loan_books(), book_id.0, i as int);
        }
        i
    }

    fn in_history(&self, checkout_id: CheckoutId) -> (found: bool)
        ensures
            found == self@.in_history(checkout_id),
    {
        let mut i: usize = 0;
        while i < self.history.len() && self.history[i].checkout_id != checkout_id
            invariant
                i <= self.history.len(),
                forall|j: int| 0 <= j < i ==> self@.history_keys()[j] != checkout_id.0,
            decreases self.history.len() - i,
        {
            i += 1;
        }
        proof {
            lemma_position_is(self@.history_keys(), checkout_id.0, i as int);
        }
        i < self.history.len()
    }

    fn state_of(&self, books: &Vec<CheckoutBook>, book_id: BookId) -> (state: Option<
        CheckoutStateRow,
    >)
        ensures
            state == self@.state_of(books@, book_id),
    {
        if book_slot(books, book_id) >= books.len() {
            return None;
        }
        let slot = self.book_slot(book_id);
        if slot < self.loans.len() {
            let loan = self.loans[slot];
            Some(
                CheckoutStateRow {
                    book_id,
                    checkout_id: Some(loan.checkout_id),
                    user_id: Some(loan.user_id),
                },
            )
        } else {
            Some(CheckoutStateRow { book_id, checkout_id: None, user_id: None })
        }
    }

    fn admits(&self, books: &Vec<CheckoutBook>, record: &LoanRecord) -> (admitted: bool)
        ensures
            admitted == self@.admits(books@, *record),
    {
        book_slot(books, record.book_id) < books.len() && self.book_slot(record.book_id)
            >= self.loans.len() && self.loan_slot(record.checkout_id) >= self.loans.len()
            && !self.in_history(record.checkout_id)
    }

    fn lend(&mut self, record: LoanRecord)
        ensures
            final(self)@ == old(self)@.lend(record),
    {
        let at = record.checked_out_at;
        let mut i: usize = 0;
        while i < self.loans.len() && self.loans[i].checked_out_at <= at
            invariant
                *self == *old(self),
                i <= self.loans.len(),
                forall|j: int| 0 <= j < i ==> self@.loan_times()[j] <= at,
            decreases self.loans.len() - i,
        {
            i += 1;
        }
        proof {
            lemma_first_after_is(self@.loan_times(), at, i as int);
        }
        self.loans.insert(i, record);
    }

    fn archive(&mut self, row: ReturnRecord)
        ensures
            final(self)@ == old(self)@.archive(row),
    {
        let at = row.checked_out_at;
        let mut i: usize = 0;
        while i < self.history.len() && self.history[i].checked_out_at >= at
            invariant
                *self == *old(self),
                i <= self.history.len(),
                forall|j: int| 0 <= j < i ==> self@.history_times()[j] >= at,
            decreases self.history.len() - i,
        {
            i += 1;
        }
        proof {
            lemma_first_before_is(self@.history_times(), at, i as int);
        }
        self.history.insert(i, row);
    }
}

/// The connection on which the store runs the requests that it is handed
/// whole.
pub fn own_connection() -> (id: SessionId)
    ensures
        id == own_session(),
{
    SessionId(0)
}

/// An open transaction on a connection.
struct Session {
    id: SessionId,
    base: Rows,
    rows: Rows,
}

impl View for Session {
    type V = SessionView;

    closed spec fn view(&self) -> SessionView {
        SessionView { base: self.base@, tables: self.rows@ }
    }
}

/// The connections of the open transactions, one by one.
spec fn session_keys(sessions: Seq<Session>) -> Seq<u128> {
    Seq::new(sessions.len(), |i: int| sessions[i].id.0 as u128)
}

/// Where the transaction of the connection stands, or the number of open
/// transactions if the connection has none.
spec fn session_slot(sessions: Seq<Session>, id: SessionId) -> int {
    position(session_keys(sessions), id.0 as u128)
}

/// The open transactions by their connections.
spec fn sessions_view(sessions: Seq<Session>) -> Map<SessionId, SessionView> {
    Map::new(
        |id: SessionId| session_slot(sessions, id) < sessions.len(),
        |id: SessionId| sessions[session_slot(sessions, id)]@,
    )
}

/// Whether no connection has two open transactions.
spec fn one_each(sessions: Seq<Session>) -> bool {
    forall|i: int, j: int|
        0 <= i < j < sessions.len() ==> #[trigger] sessions[i].id != #[trigger] sessions[j].id
}

/// Putting a transaction among the open ones, on a connection that had
/// none, opens it and touches no other.
proof fn lemma_session_put(sessions: Seq<Session>, at: int, session: Session)
    requires
        0 <= at <= sessions.len(),
        one_each(sessions),
        session_slot(sessions, session.id) == sessions.len(),
    ensures
        one_each(sessions.insert(at, session)),
        sessions_view(sessions.insert(at, session)) == sessions_view(sessions).insert(
            session.id,
            session@,
        ),
{
    let after = sessions.insert(at, session);
    lemma_position(session_keys(sessions), session.id.0 as u128);
    assert forall|i: int| 0 <= i < sessions.len() implies sessions[i].id != session.id by {
        assert(session_keys(sessions)[i] != session.id.0 as u128);
    }
    assert forall|i: int| 0 <= i < after.len() implies after[i] == (if i < at {
        sessions[i]
    } else if i == at {
        session
    } else {
        sessions[i - 1]
    }) by {}
    let left = sessions_view(after);
    let right = sessions_view(sessions).insert(session.id, session@);
    assert forall|id: SessionId|
        #![trigger left.dom().contains(id)]
        #![trigger right.dom().contains(id)]
        left.dom().contains(id) == right.dom().contains(id) && (left.dom().contains(id)
            ==> left[id] == right[id]) by {
        let key = id.0 as u128;
        let before = session_slot(sessions, id);
        lemma_position(session_keys(sessions), key);
        if id == session.id {
            lemma_position_is(session_keys(after), key, at);
        } else if before < sessions.len() {
            let moved = if before < at {
                before
            } else {
                before + 1
            };
            assert forall|j: int| 0 <= j < moved implies session_keys(after)[j] != key by {
                if j < at {
                    assert(session_keys(sessions)[j] != key);
                } else if j > at {
                    assert(session_keys(sessions)[j - 1] != key);
                }
            }
            assert(session_keys(after)[moved] == session_keys(sessions)[before]);
            lemma_position_is(session_keys(after), key, moved);
        } else {
            assert forall|j: int| 0 <= j < after.len() implies session_keys(after)[j] != key by {
                if j < at {
                    assert(session_keys(sessions)[j] != key);
                } else if j > at {
                    assert(session_keys(sessions)[j - 1] != key);
                }
            }
            lemma_position_is(session_keys(after), key, after.len() as int);
        }
    }
    assert(left =~= right);
}

/// Taking a transaction from among the open ones closes it and touches no
/// other.
proof fn lemma_session_taken(sessions: Seq<Session>, at: int)
    requires
        0 <= at < sessions.len(),
        one_each(sessions),
    ensures
        one_each(sessions.remove(at)),
        session_slot(sessions.remove(at), sessions[at].id) == sessions.remove(at).len(),
        sessions_view(sessions.remove(at)) == sessions_view(sessions).remove(sessions[at].id),
{
    let after = sessions.remove(at);
    let gone = sessions[at].id;
    assert forall|i: int| 0 <= i < after.len() implies after[i] == (if i < at {
        sessions[i]
    } else {
        sessions[i + 1]
    }) by {}
    assert forall|j: int| 0 <= j < after.len() implies session_keys(after)[j]
        != gone.0 as u128 by {
        if j < at {
            assert(sessions[j].id != sessions[at].id);
        } else {
            assert(sessions[at].id != sessions[j + 1].id);
        }
    }
    lemma_position_is(session_keys(after), gone.0 as u128, after.len() as int);
    let left = sessions_view(after);
    let right = sessions_view(sessions).remove(gone);
    assert forall|id: SessionId|
        #![trigger left.dom().contains(id)]
        #![trigger right.dom().contains(id)]
        left.dom().contains(id) == right.dom().contains(id) && (left.dom().contains(id)
            ==> left[id] == right[id]) by {
        let key = id.0 as u128;
        let before = session_slot(sessions, id);
        lemma_position(session_keys(sessions), key);
        if id != gone {
            if before < sessions.len() {
                assert(before != at);
                let moved = if before < at {
                    before
                } else {
                    before - 1
                };
                assert forall|j: int| 0 <= j < moved implies session_keys(after)[j] != key by {
                    if j < at {
                        assert(session_keys(sessions)[j] != key);
                    } else {
                        assert(session_keys(sessions)[j + 1] != key);
                    }
                }
                assert(session_keys(after)[moved] == session_keys(sessions)[before]);
                lemma_position_is(session_keys(after), key, moved);
            } else {
                assert forall|j: int| 0 <= j < after.len() implies session_keys(after)[j]
                    != key by {
                    if j < at {
                        assert(session_keys(sessions)[j] != key);
                    } else {
                        assert(session_keys(sessions)[j + 1] != key);
                    }
                }
                lemma_position_is(session_keys(after), key, after.len() as int);
            }
        }
    }
    assert(left =~= right);
}

/// The store: the catalogue, the committed tables, and the open
/// transactions.
///
/// Several transactions may be open at once, each on a connection of its
/// own and each on its own copy of the tables. The first to commit wins: a
/// transaction that finds the committed tables changed since it began is
/// given up at its commit.
pub struct Ledger {
    books: Vec<CheckoutBook>,
    committed: Rows,
    sessions: Vec<Session>,
}

impl View for Ledger {
    type V = LedgerView;

    closed spec fn view(&self) -> LedgerView {
        LedgerView {
            books: self.books@,
            committed: self.committed@,
            sessions: sessions_view(self.sessions@),
        }
    }
}

impl Ledger {
    /// Whether the ledger keeps the rules of the store.
    pub closed spec fn wf(&self) -> bool {
        self@.wf() && one_each(self.sessions@)
    }

    /// A ledger that keeps the rules shows a store that keeps them.
    pub proof fn lemma_rules(&self)
        requires
            self.wf(),
        ensures
            self@.wf(),
    {
    }

    /// A store without books, loans or open transactions.
    pub fn new() -> (ledger: Ledger)
        ensures
            ledger.wf(),
            ledger@.books.len() == 0,
            ledger@.committed.loans.len() == 0,
            ledger@.committed.history.len() == 0,
            ledger@.sessions == Map::<SessionId, SessionView>::empty(),
    {
        let ledger = Ledger {
            books: Vec::new(),
            committed: Rows { loans: Vec::new(), history: Vec::new() },
            sessions: Vec::new(),
        };
        assert(ledger@.sessions =~= Map::<SessionId, SessionView>::empty());
        ledger
    }

    /// Puts a book in the catalogue, unless the catalogue holds a book of
    /// that identifier: says whether it did.
    pub fn add_book(&mut self, book: CheckoutBook) -> (added: bool)
        requires
            old(self).wf(),
        ensures
            final(self).wf(),
            added == !has_book(old(self)@.books, book.book_id),
            final(self)@.committed == old(self)@.committed,
            final(self)@.sessions == old(self)@.sessions,
            final(self)@.books == if added {
                old(self)@.books.push(book)
            } else {
                old(self)@.books
            },
    {
        if book_slot(&self.books, book.book_id) < self.books.len() {
            return false;
        }
        proof {
            lemma_position(book_keys(self.books@), book.book_id.0);
            let before = self.books@;
            let after = before.push(book);
            assert forall|i: int| 0 <= i < before.len() implies before[i].book_id
                != book.book_id by {
                assert(book_keys(before)[i] != book.book_id.0);
            }
            assert forall|id: BookId| has_book(before, id) implies has_book(after, id) by {
                lemma_position(book_keys(before), id.0);
                let k = position(book_keys(before), id.0);
                assert(book_keys(before)[k] == id.0);
                assert forall|j: int| 0 <= j < k implies book_keys(after)[j] != id.0 by {
                    assert(book_keys(before)[j] != id.0);
                }
                lemma_position_is(book_keys(after), id.0, k);
            }
            lemma_obeys_in_larger_catalogue(self@.committed, before, after);
        }
        self.books.push(book);
        proof {
            let before = old(self)@;
            assert forall|id: SessionId| #[trigger] self@.sessions.contains_key(id) implies self@.sessions[id].tables.obeys(
                self@.books,
            ) by {
                assert(before.sessions.contains_key(id));
                lemma_obeys_in_larger_catalogue(
                    before.sessions[id].tables,
                    before.books,
                    self@.books,
                );
            }
        }
        true
    }

    fn session_slot(&self, session: SessionId) -> (slot: usize)
        ensures
            slot == session_slot(self.sessions@, session),
            slot <= self.sessions.len(),
            slot < self.sessions.len() <==> self@.is_open(session),
            slot < self.sessions.len() ==> self.sessions[slot as int].id == session
                && self@.sessions[session] == self.sessions[slot as int]@,
    {
        let mut i: usize = 0;
        while i < self.sessions.len() && self.sessions[i].id != session
            invariant
                i <= self.sessions.len(),
                forall|j: int| 0 <= j < i ==> session_keys(self.sessions@)[j] != session.0 as u128,
            decreases self.sessions.len() - i,
        {
            i += 1;
        }
        proof {
            lemma_position_is(session_keys(self.sessions@), session.0 as u128, i as int);
        }
        i
    }

    /// Puts the transaction back among the open ones from which it was
    /// taken.
    fn keep(&mut self, slot: usize, open: Session)
        requires
            slot <= old(self).sessions.len(),
            one_each(old(self).sessions@),
            session_slot(old(self).sessions@, open.id) == old(self).sessions.len(),
        ensures
            final(self).books == old(self).books,
            final(self).committed == old(self).committed,
            one_each(final(self).sessions@),
            final(self)@.sessions == old(self)@.sessions.insert(open.id, open@),
    {
        proof {
            lemma_session_put(self.sessions@, slot as int, open);
        }
        self.sessions.insert(slot, open);
    }

    /// Performs one action of a transaction on a connection and answers.
    pub fn execute(&mut self, session: SessionId, action: Action) -> (reply: Reply)
        requires
            old(self).wf(),
        ensures
            final(self).wf(),
            (final(self)@, reply@) == old(self)@.perform(session, action),
    {
        let slot = self.session_slot(session);
        if slot >= self.sessions.len() {
            return match action {
                Action::Begin => {
                    let open = Session {
                        id: session,
                        base: self.committed.copy(),
                        rows: self.committed.copy(),
                    };
                    let end = self.sessions.len();
                    self.keep(end, open);
                    Reply::Done
                },
                _ => Reply::Failed(String::from_str("no transaction is open")),
            };
        }
        proof {
            lemma_session_taken(self.sessions@, slot as int);
        }
        let ghost before = self@;
        let mut open = self.sessions.remove(slot);
        assert(self@.sessions == before.sessions.remove(session));
        assert(before.sessions.remove(session).insert(session, before.sessions[session])
            =~= before.sessions);
        assert forall|other: SessionView| #[trigger]
            before.sessions.remove(session).insert(session, other) =~= before.sessions.insert(
                session,
                other,
            ) by {}
        match action {
            Action::Begin => {
                self.keep(slot, open);
                Reply::Failed(String::from_str("a transaction is already open"))
            },
            Action::SetSerializable => {
                self.keep(slot, open);
                Reply::Done
            },
            Action::ReadState { book_id } => {
                let state = open.rows.state_of(&self.books, book_id);
                self.keep(slot, open);
                Reply::State(state)
            },
            Action::InsertCheckout { record } => {
                if open.rows.admits(&self.books, &record) {
                    proof {
                        lemma_lend_obeys(open.rows@, self.books@, record);
                    }
                    open.rows.lend(record);
                    self.keep(slot, open);
                    Reply::Affected(1)
                } else {
                    self.keep(slot, open);
                    Reply::Failed(String::from_str("the row violates a constraint"))
                }
            },
            Action::InsertReturned { checkout_id, returned_at } => {
                let at = open.rows.loan_slot(checkout_id);
                if at >= open.rows.loans.len() {
                    self.keep(slot, open);
                    Reply::Affected(0)
                } else if open.rows.in_history(checkout_id) {
                    self.keep(slot, open);
                    Reply::Failed(String::from_str("the row violates a constraint"))
                } else {
                    let row = open.rows.loans[at].close(returned_at);
                    proof {
                        lemma_position(open.rows@.loan_keys(), checkout_id.0);
                        lemma_archive_obeys(open.rows@, self.books@, row);
                    }
                    open.rows.archive(row);
                    self.keep(slot, open);
                    Reply::Affected(1)
                }
            },
            Action::DeleteCheckout { checkout_id } => {
                let at = open.rows.loan_slot(checkout_id);
                if at < open.rows.loans.len() {
                    proof {
                        lemma_strike_obeys(open.rows@, self.books@, checkout_id);
                    }
                    open.rows.loans.remove(at);
                    self.keep(slot, open);
                    Reply::Affected(1)
                } else {
                    self.keep(slot, open);
                    Reply::Affected(0)
                }
            },
            Action::Commit => {
                if self.committed.same_as(&open.base) {
                    self.committed = open.rows;
                    Reply::Done
                } else {
                    Reply::Aborted(
                        String::from_str("could not serialize access due to a concurrent commit"),
                    )
                }
            },
        }
    }

    /// Drops the open transaction of a connection, if it has one: the
    /// committed tables and the other transactions stay as they are.
    pub fn rollback(&mut self, session: SessionId)
        requires
            old(self).wf(),
        ensures
            final(self).wf(),
            final(self)@ == old(self)@.rolled_back(session),
    {
        let slot = self.session_slot(session);
        if slot < self.sessions.len() {
            proof {
                lemma_session_taken(self.sessions@, slot as int);
            }
            self.sessions.remove(slot);
        } else {
            assert(self@.sessions.remove(session) =~= self@.sessions);
        }
    }

    /// Every running loan with its book, oldest first.
    pub fn find_unreturned_all(&self) -> (found: Result<Vec<Checkout>, AppError>)
        requires
            self.wf(),
        ensures
            found matches Ok(checkouts) && checkouts@ == self@.unreturned_all(),
    {
        let mut checkouts: Vec<Checkout> = Vec::new();
        let mut i: usize = 0;
        while i < self.committed.loans.len()
            invariant
                self.wf(),
                i <= self.committed.loans.len(),
                checkouts@ == all_running(self.books@, self.committed.loans@.take(i as int)),
            decreases self.committed.loans.len() - i,
        {
            assert(has_book(self@.books, self@.committed.loans[i as int].book_id));
            checkouts.push(join_loan(&self.books, &self.committed.loans[i]));
            i += 1;
            assert(checkouts@ =~= all_running(self.books@, self.committed.loans@.take(i as int)));
        }
        assert(self.committed.loans@.take(i as int) =~= self.committed.loans@);
        Ok(checkouts)
    }

    /// The user's running loans with their books, oldest first.
    pub fn find_unreturned_by_user_id(&self, user_id: UserId) -> (found: Result<
        Vec<Checkout>,
        AppError,
    >)
        requires
            self.wf(),
        ensures
            found matches Ok(checkouts) && checkouts@ == self@.unreturned_by(user_id),
    {
        let mut checkouts: Vec<Checkout> = Vec::new();
        let mut i: usize = 0;
        while i < self.committed.loans.len()
            invariant
                self.wf(),
                i <= self.committed.loans.len(),
                checkouts@ == all_running(
                    self.books@,
                    self.committed.loans@.take(i as int).filter(held_by(user_id)),
                ),
            decreases self.committed.loans.len() - i,
        {
            let loan = &self.committed.loans[i];
            proof {
                reveal(Seq::filter);
                assert(self.committed.loans@.take(i + 1).drop_last()
                    =~= self.committed.loans@.take(i as int));
            }
            if loan.user_id == user_id {
                assert(has_book(self@.books, self@.committed.loans[i as int].book_id));
                checkouts.push(join_loan(&self.books, loan));
            }
            i += 1;
            assert(checkouts@ =~= all_running(
                self.books@,
                self.committed.loans@.take(i as int).filter(held_by(user_id)),
            ));
        }
        assert(self.committed.loans@.take(i as int) =~= self.committed.loans@);
        Ok(checkouts)
    }

    /// The book's loans: the running one, if the book is out, then those
    /// that are over, most recently lent first.
    pub fn find_history_by_book_id(&self, book_id: BookId) -> (found: Result<
        Vec<Checkout>,
        AppError,
    >)
        requires
            self.wf(),
        ensures
            found matches Ok(checkouts) && checkouts@ == self@.history_of(book_id),
    {
        let slot = self.committed.book_slot(book_id);
        let active = if slot < self.committed.loans.len() {
            assert(has_book(self@.books, self@.committed.loans[slot as int].book_id));
            Some(join_loan(&self.books, &self.committed.loans[slot]))
        } else {
            None
        };
        let mut past: Vec<Checkout> = Vec::new();
        let mut i: usize = 0;
        while i < self.committed.history.len()
            invariant
                self.wf(),
                i <= self.committed.history.len(),
                past@ == all_returned(
                    self.books@,
                    self.committed.history@.take(i as int).filter(of_book(book_id)),
                ),
            decreases self.committed.history.len() - i,
        {
            let row = &self.committed.history[i];
            proof {
                reveal(Seq::filter);
                assert(self.committed.history@.take(i + 1).drop_last()
                    =~= self.committed.history@.take(i as int));
            }
            if row.book_id == book_id {
                assert(has_book(self@.books, self@.committed.history[i as int].book_id));
                past.push(join_return(&self.books, row));
            }
            i += 1;
            assert(past@ =~= all_returned(
                self.books@,
                self.committed.history@.take(i as int).filter(of_book(book_id)),
            ));
        }
        assert(self.committed.history@.take(i as int) =~= self.committed.history@);
        Ok(assemble_history(active, past))
    }

    /// Runs the protocol for a request from `Begin` to the end, each action
    /// on the store's own connection.
    pub fn run(&mut self, request: Request) -> (verdict: Result<(), AppError>)
        requires
            old(self).wf(),
        ensures
            final(self).wf(),
            (final(self)@, verdict_view(verdict)) == old(self)@.outcome(request),
    {
        let ghost start = self@;
        let (mut tx, mut action) = Transaction::start(request);
        loop
            invariant
                start == old(self)@,
                start.wf(),
                self.wf(),
                tx.request == request,
                action == tx.awaited(),
                start.on_track(tx, self@),
            decreases tx.remaining(),
        {
            proof {
                lemma_step(start, tx, self@);
            }
            let reply = self.execute(own_connection(), action);
            match tx.step(reply) {
                Next::Perform(then, following) => {
                    tx = then;
                    action = following;
                },
                Next::Abort(e) => {
                    self.rollback(own_connection());
                    return Err(e);
                },
                Next::Finish(verdict) => {
                    return verdict;
                },
            }
        }
    }

    /// Lends a book under the identifier `checkout_id`.
    ///
    /// The book must exist (else `EntityNotFound`) and be in (else
    /// `UnprocessableEntity`), and the identifier must name no loan, running
    /// or over (else `SpecificOperationError`). Then the loan stands among
    /// the running loans, and in every other case the store is as it was.
    pub fn create_with_id(&mut self, event: CreateCheckout, checkout_id: CheckoutId) -> (verdict:
        Result<(), AppError>)
        requires
            old(self).wf(),
        ensures
            final(self).wf(),
            (final(self)@, verdict_view(verdict)) == old(self)@.outcome(
                Request::Create { event, checkout_id },
            ),
    {
        self.run(Request::Create { event, checkout_id })
    }

    /// Lends a book under a fresh random identifier: what comes of it is
    /// what comes of lending it under some random UUID.
    pub fn create(&mut self, event: CreateCheckout) -> (verdict: Result<(), AppError>)
        requires
            old(self).wf(),
        ensures
            final(self).wf(),
            exists|checkout_id: CheckoutId|
                #[trigger] is_random_uuid(checkout_id.0) && (final(self)@, verdict_view(verdict))
                    == old(self)@.outcome(Request::Create { event, checkout_id }),
    {
        let checkout_id = CheckoutId::new();
        self.create_with_id(event, checkout_id)
    }

    /// Takes a book back.
    ///
    /// The book must exist (else `EntityNotFound`), and its running loan
    /// must be the one that the event names and be held by the user who
    /// returns it (else `UnprocessableEntity`). Then the loan leaves the
    /// running loans and enters the history, closed at the time of the
    /// return; in every other case the store is as it was.
    pub fn update_returned(&mut self, event: UpdateReturned) -> (verdict: Result<(), AppError>)
        requires
            old(self).wf(),
        ensures
            final(self).wf(),
            (final(self)@, verdict_view(verdict)) == old(self)@.outcome(Request::Return { event }),
    {
        self.run(Request::Return { event })
    }
}

} // verus!
