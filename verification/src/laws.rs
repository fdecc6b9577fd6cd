//! What holds of the store under every request: no copy is lent twice, only
//! the borrower returns, the history is complete, and a request goes through
//! entirely or not at all.

use vstd::prelude::*;

use crate::database::checkout::{LoanRecord, ReturnRecord};
use crate::error::{AppError, ErrorView};
use crate::id::{BookId, CheckoutId, UserId};
use crate::ledger::lemmas::{
    lemma_allowed_return, lemma_archive_obeys, lemma_first_after, lemma_first_before,
    lemma_lend_obeys, lemma_position, lemma_position_is, lemma_strike_obeys,
};
use crate::ledger::tables::{
    all_returned, first_after, first_before, has_book, held_by, of_book, own_session, returned,
    LedgerView, SessionId,
};
use crate::ledger::Ledger;
use crate::model::checkout::{Checkout, CreateCheckout, UpdateReturned};
use crate::transaction::{
    create_conflict_text, create_missing_text, return_conflict_text, verdict_view, Action,
    NextView, Phase, ReplyView, Request, Transaction,
};

verus! {

/// The store after the requests have run one after another, and how each
/// ended.
pub open spec fn run_all(view: LedgerView, requests: Seq<Request>) -> (
    LedgerView,
    Seq<Result<(), ErrorView>>,
)
    decreases requests.len(),
{
    if requests.len() == 0 {
        (view, Seq::empty())
    } else {
        let (before, verdicts) = run_all(view, requests.drop_last());
        let (after, verdict) = before.outcome(requests.last());
        (after, verdicts.push(verdict))
    }
}

/// How many of the requests went through.
pub open spec fn successes(verdicts: Seq<Result<(), ErrorView>>) -> nat
    decreases verdicts.len(),
{
    if verdicts.len() == 0 {
        0
    } else {
        successes(verdicts.drop_last()) + if verdicts.last() is Ok {
            1nat
        } else {
            0nat
        }
    }
}

/// Whether every request is to lend this book.
pub open spec fn all_lend(requests: Seq<Request>, book_id: BookId) -> bool {
    forall|i: int|
        0 <= i < requests.len() ==> (#[trigger] requests[i] matches Request::Create { event, .. }
            && event.book_id == book_id)
}

/// A request leaves the rules of the store intact, the catalogue as it was,
/// and no transaction open.
pub proof fn law_outcome_keeps_rules(view: LedgerView, request: Request)
    requires
        view.wf(),
        !view.is_open(own_session()),
    ensures
        view.outcome(request).0.wf(),
        view.outcome(request).0.sessions == view.sessions,
        view.outcome(request).0.books == view.books,
{
    let passed = request.verdict(view.committed.state_of(view.books, request.book())) is Ok;
    if passed && !view.blocked(request) {
        match request {
            Request::Create { event, checkout_id } => {
                lemma_lend_obeys(
                    view.committed,
                    view.books,
                    LoanRecord {
                        checkout_id,
                        book_id: event.book_id,
                        user_id: event.checked_out_by,
                        checked_out_at: event.checked_out_at,
                    },
                );
            },
            Request::Return { event } => {
                lemma_allowed_return(view, request);
                let tables = view.committed;
                let slot = tables.loan_position(event.checkout_id);
                let row = tables.loans[slot].closed_at(event.returned_at);
                lemma_archive_obeys(tables, view.books, row);
                assert(tables.archive(row).loan_keys() =~= tables.loan_keys());
                lemma_strike_obeys(tables.archive(row), view.books, event.checkout_id);
            },
        }
    }
}

/// A book that is out stays out under any request to lend it, which is
/// refused as a conflict and changes nothing.
pub proof fn law_lent_book_is_refused(view: LedgerView, request: Request)
    requires
        view.wf(),
        !view.is_open(own_session()),
        request is Create,
        view.committed.is_out(request.book()),
    ensures
        view.outcome(request) == (
            view,
            Err::<(), _>(ErrorView::UnprocessableEntity(create_conflict_text(request.book()))),
        ),
{
    let tables = view.committed;
    let slot = tables.book_position(request.book());
    lemma_position(tables.loan_books(), request.book().0);
    assert(has_book(view.books, tables.loans[slot].book_id));
}

/// A loan that went through leaves its book out.
pub proof fn law_lending_takes_the_book(view: LedgerView, request: Request)
    requires
        view.wf(),
        !view.is_open(own_session()),
        request is Create,
        view.outcome(request).1 is Ok,
    ensures
        has_book(view.books, request.book()),
        !view.committed.is_out(request.book()),
        view.outcome(request).0.committed.is_out(request.book()),
{
    let event = request->Create_event;
    let record = LoanRecord {
        checkout_id: request->Create_checkout_id,
        book_id: event.book_id,
        user_id: event.checked_out_by,
        checked_out_at: event.checked_out_at,
    };
    let tables = view.committed;
    let after = tables.lend(record);
    let slot = first_after(tables.loan_times(), record.checked_out_at);
    lemma_first_after(tables.loan_times(), record.checked_out_at);
    assert(after.loans[slot] == record);
    assert(after.loan_books()[slot] == event.book_id.0);
    lemma_position(after.loan_books(), event.book_id.0);
}

/// Mutual exclusion, first half: of any number of requests to lend one
/// book, run one after another in any order, at most one goes through; and
/// if the book is out before the first, none does.
pub proof fn law_at_most_one_loan(view: LedgerView, requests: Seq<Request>, book_id: BookId)
    requires
        view.wf(),
        !view.is_open(own_session()),
        all_lend(requests, book_id),
    ensures
        successes(run_all(view, requests).1) <= 1,
        view.committed.is_out(book_id) ==> successes(run_all(view, requests).1) == 0,
        run_all(view, requests).0.wf(),
        run_all(view, requests).0.sessions == view.sessions,
        successes(run_all(view, requests).1) == 1 ==> run_all(view, requests).0.committed.is_out(
            book_id,
        ),
        view.committed.is_out(book_id) ==> run_all(view, requests).0 == view,
    decreases requests.len(),
{
    if requests.len() > 0 {
        let earlier = requests.drop_last();
        let request = requests.last();
        assert(all_lend(earlier, book_id)) by {
            assert forall|i: int| 0 <= i < earlier.len() implies (#[trigger] earlier[i] matches Request::Create {
                event,
                ..
            } && event.book_id == book_id) by {
                assert(earlier[i] == requests[i]);
            }
        }
        law_at_most_one_loan(view, earlier, book_id);
        let (before, verdicts) = run_all(view, earlier);
        assert(request == requests[requests.len() - 1]);
        assert(request.book() == book_id);
        law_outcome_keeps_rules(before, request);
        assert(run_all(view, requests).1.drop_last() =~= verdicts);
        if before.committed.is_out(book_id) {
            law_lent_book_is_refused(before, request);
        } else if before.outcome(request).1 is Ok {
            law_lending_takes_the_book(before, request);
        }
    }
}

/// Mutual exclusion: of any number of requests to lend one book that is in,
/// run one after another in any order, the first goes through, provided its
/// identifier names no loan yet, and every later one is refused as a
/// conflict.
pub proof fn law_exactly_one_loan(view: LedgerView, requests: Seq<Request>, book_id: BookId)
    requires
        view.wf(),
        !view.is_open(own_session()),
        all_lend(requests, book_id),
        requests.len() > 0,
        has_book(view.books, book_id),
        !view.committed.is_out(book_id),
        !view.blocked(requests[0]),
    ensures
        successes(run_all(view, requests).1) == 1,
        run_all(view, requests).1[0] is Ok,
        forall|i: int|
            1 <= i < requests.len() ==> #[trigger] run_all(view, requests).1[i] == Err::<(), _>(
                ErrorView::UnprocessableEntity(create_conflict_text(book_id)),
            ),
        run_all(view, requests).0 == view.outcome(requests[0]).0,
        run_all(view, requests).1.len() == requests.len(),
    decreases requests.len(),
{
    let earlier = requests.drop_last();
    let request = requests.last();
    assert(run_all(view, requests).1.drop_last() =~= run_all(view, earlier).1);
    if requests.len() == 1 {
        assert(earlier.len() == 0);
        assert(request == requests[0]);
        assert(run_all(view, earlier).1 =~= Seq::empty());
        assert(run_all(view, requests).1 =~= seq![view.outcome(request).1]);
        assert(successes(run_all(view, earlier).1) == 0);
    } else {
        assert(all_lend(earlier, book_id)) by {
            assert forall|i: int| 0 <= i < earlier.len() implies (#[trigger] earlier[i] matches Request::Create {
                event,
                ..
            } && event.book_id == book_id) by {
                assert(earlier[i] == requests[i]);
            }
        }
        assert(earlier[0] == requests[0]);
        law_exactly_one_loan(view, earlier, book_id);
        law_at_most_one_loan(view, earlier, book_id);
        let (before, verdicts) = run_all(view, earlier);
        assert(request == requests[requests.len() - 1]);
        assert(request.book() == book_id);
        law_lent_book_is_refused(before, request);
    }
}

/// Return authorization: a return goes through only if the book's running
/// loan is the one that the request names and the user who returns it
/// holds it. A return of a book of the catalogue for which this does not
/// hold is refused as a conflict and changes nothing.
pub proof fn law_only_the_borrower_returns(view: LedgerView, event: UpdateReturned)
    requires
        view.wf(),
        !view.is_open(own_session()),
    ensures
        view.outcome(Request::Return { event }).1 is Ok ==> {
            &&& view.committed.is_out(event.book_id)
            &&& view.committed.loans[view.committed.book_position(event.book_id)].checkout_id
                == event.checkout_id
            &&& view.committed.loans[view.committed.book_position(event.book_id)].user_id
                == event.returned_by
        },
        has_book(view.books, event.book_id) && !(view.committed.is_out(event.book_id)
            && view.committed.loans[view.committed.book_position(event.book_id)].checkout_id
            == event.checkout_id
            && view.committed.loans[view.committed.book_position(event.book_id)].user_id
            == event.returned_by) ==> view.outcome(Request::Return { event }) == (
            view,
            Err::<(), _>(ErrorView::UnprocessableEntity(return_conflict_text(event))),
        ),
{
}

/// The position at which a row that satisfies the filter stands among the
/// filtered rows once it is put at `at`.
pub proof fn lemma_filter_insert<T>(rows: Seq<T>, keep: spec_fn(T) -> bool, at: int, row: T)
    requires
        0 <= at <= rows.len(),
    ensures
        keep(row) ==> rows.insert(at, row).filter(keep) == rows.filter(keep).insert(
            rows.take(at).filter(keep).len() as int,
            row,
        ),
        !keep(row) ==> rows.insert(at, row).filter(keep) == rows.filter(keep),
        rows.take(at).filter(keep).len() <= rows.filter(keep).len(),
{
    let head = rows.take(at);
    let tail = rows.skip(at);
    assert(rows =~= head + tail);
    assert(rows.insert(at, row) =~= head + seq![row] + tail);
    Seq::filter_distributes_over_add(head, tail, keep);
    Seq::filter_distributes_over_add(head + seq![row], tail, keep);
    Seq::filter_distributes_over_add(head, seq![row], keep);
    assert(seq![row].filter(keep) =~= if keep(row) {
        seq![row]
    } else {
        Seq::empty()
    }) by {
        reveal(Seq::filter);
        assert(seq![row].drop_last().filter(keep) =~= Seq::empty());
    }
    let kept = head.filter(keep);
    if keep(row) {
        assert((kept + tail.filter(keep)).insert(kept.len() as int, row) =~= kept + seq![row]
            + tail.filter(keep));
    } else {
        assert(kept + Seq::empty() =~= kept);
    }
}

/// History completeness: after a return that went through, the book has no
/// running loan, and its loans that are over are those of before and exactly
/// one more, which carries the loan's identifier, borrower and beginning,
/// and the time of the return.
pub proof fn law_return_completes_history(view: LedgerView, event: UpdateReturned)
    requires
        view.wf(),
        !view.is_open(own_session()),
        view.outcome(Request::Return { event }).1 is Ok,
    ensures
        ({
            let after = view.outcome(Request::Return { event }).0;
            let loan = view.committed.loans[view.committed.book_position(event.book_id)];
            let closed = Checkout {
                id: event.checkout_id,
                checked_out_by: event.returned_by,
                checked_out_at: loan.checked_out_at,
                returned_at: Some(event.returned_at),
                book: view.running_of(event.book_id)->0.book,
            };
            &&& after.running_of(event.book_id) is None
            &&& exists|at: int|
                0 <= at <= view.returned_of(event.book_id).len() && after.returned_of(
                    event.book_id,
                ) == view.returned_of(event.book_id).insert(at, closed)
        }),
{
    let request = Request::Return { event };
    lemma_allowed_return(view, request);
    let tables = view.committed;
    let slot = tables.loan_position(event.checkout_id);
    let loan = tables.loans[slot];
    let row = loan.closed_at(event.returned_at);
    let archived = tables.archive(row);
    assert(archived.loan_keys() =~= tables.loan_keys());
    let after = view.outcome(request).0;
    // The book is in again: its only running loan is gone.
    let left = after.committed.loans;
    assert forall|j: int| 0 <= j < left.len() implies after.committed.loan_books()[j]
        != event.book_id.0 by {
        let source = if j < slot {
            j
        } else {
            j + 1
        };
        assert(left[j] == tables.loans[source]);
        assert(tables.loans[source].book_id != tables.loans[slot].book_id);
    }
    lemma_position_is(after.committed.loan_books(), event.book_id.0, left.len() as int);
    // The history of the book has the closed loan, once.
    let at = first_before(tables.history_times(), row.checked_out_at);
    lemma_first_before(tables.history_times(), row.checked_out_at);
    lemma_filter_insert(tables.history, of_book(event.book_id), at, row);
    let before_rows = tables.history.filter(of_book(event.book_id));
    let k = tables.history.take(at).filter(of_book(event.book_id)).len() as int;
    assert(after.committed.history == tables.history.insert(at, row));
    assert(after.committed.history.filter(of_book(event.book_id)) == before_rows.insert(k, row));
    assert(all_returned(view.books, before_rows.insert(k, row)) =~= all_returned(
        view.books,
        before_rows,
    ).insert(k, returned(view.books, row)));
    let closed = Checkout {
        id: event.checkout_id,
        checked_out_by: event.returned_by,
        checked_out_at: loan.checked_out_at,
        returned_at: Some(event.returned_at),
        book: view.running_of(event.book_id)->0.book,
    };
    assert(returned(view.books, row) == closed);
    assert(0 <= k <= view.returned_of(event.book_id).len());
    assert(after.returned_of(event.book_id) == view.returned_of(event.book_id).insert(k, closed));
}

/// No orphan state: a return that goes through has both put the loan in the
/// history and struck it from the running loans, and a return that fails
/// has done neither: the store is as it was.
pub proof fn law_return_is_all_or_nothing(view: LedgerView, event: UpdateReturned)
    requires
        view.wf(),
        !view.is_open(own_session()),
    ensures
        ({
            let (after, verdict) = view.outcome(Request::Return { event });
            let slot = view.committed.loan_position(event.checkout_id);
            let row = view.committed.loans[slot].closed_at(event.returned_at);
            &&& verdict is Err ==> after == view
            &&& verdict is Ok ==> {
                &&& view.committed.has_loan(event.checkout_id)
                &&& !view.committed.in_history(event.checkout_id)
                &&& after.committed.loans == view.committed.loans.remove(slot)
                &&& after.committed.history == view.committed.archive(row).history
                &&& !after.committed.has_loan(event.checkout_id)
                &&& after.committed.in_history(event.checkout_id)
            }
        }),
{
    let request = Request::Return { event };
    let (after, verdict) = view.outcome(request);
    if verdict is Ok {
        lemma_allowed_return(view, request);
        let tables = view.committed;
        let slot = tables.loan_position(event.checkout_id);
        let row = tables.loans[slot].closed_at(event.returned_at);
        assert(tables.archive(row).loan_keys() =~= tables.loan_keys());
        lemma_position(tables.loan_keys(), event.checkout_id.0);
        let left = after.committed.loans;
        assert forall|j: int| 0 <= j < left.len() implies after.committed.loan_keys()[j]
            != event.checkout_id.0 by {
            let source = if j < slot {
                j
            } else {
                j + 1
            };
            assert(left[j] == tables.loans[source]);
            assert(tables.loans[source].checkout_id != tables.loans[slot].checkout_id);
        }
        lemma_position_is(after.committed.loan_keys(), event.checkout_id.0, left.len() as int);
        let at = first_before(tables.history_times(), row.checked_out_at);
        lemma_first_before(tables.history_times(), row.checked_out_at);
        assert(after.committed.history[at] == row);
        assert(after.committed.history_keys()[at] == event.checkout_id.0);
        lemma_position(after.committed.history_keys(), event.checkout_id.0);
    }
}

/// The store after the actions have been performed on a connection one
/// after another.
pub open spec fn perform_all(view: LedgerView, id: SessionId, actions: Seq<Action>) -> LedgerView
    decreases actions.len(),
{
    if actions.len() == 0 {
        view
    } else {
        perform_all(view, id, actions.drop_last()).perform(id, actions.last()).0
    }
}

/// No orphan state, step by step: whatever a transaction has done and
/// wherever it is interrupted, as long as it has not committed, dropping it
/// leaves the catalogue, the committed tables and every other transaction
/// as they were before it began.
pub proof fn law_interrupted_work_leaves_no_trace(
    view: LedgerView,
    id: SessionId,
    actions: Seq<Action>,
)
    requires
        forall|i: int| 0 <= i < actions.len() ==> actions[i] != Action::Commit,
    ensures
        perform_all(view, id, actions).rolled_back(id) == view.rolled_back(id),
    decreases actions.len(),
{
    if actions.len() > 0 {
        let earlier = actions.drop_last();
        assert forall|i: int| 0 <= i < earlier.len() implies earlier[i] != Action::Commit by {
            assert(earlier[i] == actions[i]);
        }
        law_interrupted_work_leaves_no_trace(view, id, earlier);
        assert(actions.last() == actions[actions.len() - 1]);
        let before = perform_all(view, id, earlier);
        let after = before.perform(id, actions.last()).0;
        assert(after.sessions.remove(id) =~= before.sessions.remove(id));
    }
}

/// The protocol commits only once every write of the request has changed a
/// row, and ends well only on the reply to its commit.
pub proof fn law_commit_follows_the_writes(tx: Transaction, reply: ReplyView)
    ensures
        (tx.next(reply) matches NextView::Perform(_, action) && action == Action::Commit) ==> {
            &&& (tx.phase == Phase::Insert || tx.phase == Phase::Remove)
            &&& (reply matches ReplyView::Affected(rows) && rows >= 1)
        },
        (tx.next(reply) matches NextView::Perform(_, action) && action is DeleteCheckout) ==> {
            &&& tx.phase == Phase::Archive
            &&& (reply matches ReplyView::Affected(rows) && rows >= 1)
        },
        (tx.next(reply) matches NextView::Perform(_, action) && (action is InsertCheckout
            || action is InsertReturned)) ==> {
            &&& tx.phase == Phase::Read
            &&& (reply matches ReplyView::State(state) && tx.request.verdict(state) is Ok)
        },
        tx.next(reply) == NextView::Finish(Ok(())) ==> (tx.phase == Phase::Commit && reply
            == ReplyView::Done),
{
}

/// A transaction that the store gave up for want of serializability, once
/// it was open, is refused as a conflict and dropped: the loser of a race
/// for one book is told what a request is told that found the book out.
pub proof fn law_serialization_failure_is_a_conflict(tx: Transaction, text: Seq<char>)
    requires
        tx.phase != Phase::Begin,
    ensures
        tx.next(ReplyView::Aborted(text)) == NextView::Abort(ErrorView::UnprocessableEntity(text)),
{
}

/// Every reply brings the protocol nearer to its end: a transaction is over
/// after seven actions at most, and each action that it asks for is the
/// one that its next phase waits for.
pub proof fn law_protocol_ends(tx: Transaction, reply: ReplyView)
    ensures
        tx.remaining() <= 7,
        tx.next(reply) matches NextView::Perform(then, action) ==> {
            &&& then.remaining() < tx.remaining()
            &&& then.request == tx.request
            &&& then.awaited() == action
        },
{
}

/// Nonexistent book: a request to lend a book that the catalogue lacks is
/// refused as not found and leaves no row.
pub proof fn law_unknown_book_is_not_lent(
    view: LedgerView,
    event: CreateCheckout,
    checkout_id: CheckoutId,
)
    requires
        !view.is_open(own_session()),
        !has_book(view.books, event.book_id),
    ensures
        view.outcome(Request::Create { event, checkout_id }) == (
            view,
            Err::<(), _>(ErrorView::EntityNotFound(create_missing_text(event.book_id))),
        ),
{
}

/// Nothing is lost or doubled between the running loans and the history: a
/// store in which no loan is both running and over stays so under every
/// request.
pub proof fn law_no_loan_is_both(view: LedgerView, request: Request)
    requires
        view.wf(),
        !view.is_open(own_session()),
        view.committed.split(),
    ensures
        view.outcome(request).0.committed.split(),
{
    let (after, verdict) = view.outcome(request);
    if verdict is Ok {
        let tables = view.committed;
        match request {
            Request::Create { event, checkout_id } => {
                let record = LoanRecord {
                    checkout_id,
                    book_id: event.book_id,
                    user_id: event.checked_out_by,
                    checked_out_at: event.checked_out_at,
                };
                let slot = first_after(tables.loan_times(), record.checked_out_at);
                lemma_first_after(tables.loan_times(), record.checked_out_at);
                assert forall|i: int| 0 <= i < after.committed.loans.len() implies !after.committed.in_history(
                    #[trigger] after.committed.loans[i].checkout_id,
                ) by {
                    if i < slot {
                        assert(after.committed.loans[i] == tables.loans[i]);
                    } else if i > slot {
                        assert(after.committed.loans[i] == tables.loans[i - 1]);
                    }
                }
            },
            Request::Return { event } => {
                lemma_allowed_return(view, request);
                let slot = tables.loan_position(event.checkout_id);
                let row = tables.loans[slot].closed_at(event.returned_at);
                let at = first_before(tables.history_times(), row.checked_out_at);
                lemma_first_before(tables.history_times(), row.checked_out_at);
                assert(tables.archive(row).loan_keys() =~= tables.loan_keys());
                lemma_position(tables.loan_keys(), event.checkout_id.0);
                let grown = after.committed.history;
                assert forall|i: int| 0 <= i < after.committed.loans.len() implies !after.committed.in_history(
                    #[trigger] after.committed.loans[i].checkout_id,
                ) by {
                    let source = if i < slot {
                        i
                    } else {
                        i + 1
                    };
                    let id = tables.loans[source].checkout_id;
                    assert(after.committed.loans[i] == tables.loans[source]);
                    assert(id != tables.loans[slot].checkout_id);
                    assert(!tables.in_history(id));
                    lemma_position(tables.history_keys(), id.0);
                    assert forall|j: int| 0 <= j < grown.len() implies after.committed.history_keys()[j]
                        != id.0 by {
                        if j < at {
                            assert(grown[j] == tables.history[j]);
                            assert(tables.history_keys()[j] != id.0);
                        } else if j > at {
                            assert(grown[j] == tables.history[j - 1]);
                            assert(tables.history_keys()[j - 1] != id.0);
                        }
                    }
                    lemma_position_is(after.committed.history_keys(), id.0, grown.len() as int);
                }
            },
        }
    }
}

/// The history only grows: every loan that is over stays in it under every
/// request.
pub proof fn law_history_is_kept(view: LedgerView, request: Request, row: ReturnRecord)
    requires
        view.wf(),
        !view.is_open(own_session()),
        view.committed.history.contains(row),
    ensures
        view.outcome(request).0.committed.history.contains(row),
{
    let (after, verdict) = view.outcome(request);
    if verdict is Ok {
        if let Request::Return { event } = request {
            lemma_allowed_return(view, request);
            let tables = view.committed;
            let slot = tables.loan_position(event.checkout_id);
            let closed = tables.loans[slot].closed_at(event.returned_at);
            let at = first_before(tables.history_times(), closed.checked_out_at);
            lemma_first_before(tables.history_times(), closed.checked_out_at);
            let i = choose|i: int| 0 <= i < tables.history.len() && tables.history[i] == row;
            let moved = if i < at {
                i
            } else {
                i + 1
            };
            assert(after.committed.history[moved] == row);
        }
    }
}

/// The running loans come oldest first, whoever's they are.
pub proof fn law_running_loans_oldest_first(view: LedgerView, user_id: UserId)
    requires
        view.wf(),
    ensures
        forall|i: int, j: int|
            0 <= i <= j < view.unreturned_all().len() ==> view.unreturned_all()[i].checked_out_at
                <= view.unreturned_all()[j].checked_out_at,
        forall|i: int, j: int|
            0 <= i <= j < view.unreturned_by(user_id).len() ==> view.unreturned_by(
                user_id,
            )[i].checked_out_at <= view.unreturned_by(user_id)[j].checked_out_at,
        forall|i: int|
            0 <= i < view.unreturned_by(user_id).len() ==> view.unreturned_by(
                user_id,
            )[i].checked_out_by == user_id,
{
    let loans = view.committed.loans;
    assert forall|i: int, j: int| 0 <= i <= j < view.unreturned_all().len() implies view.unreturned_all()[i].checked_out_at
        <= view.unreturned_all()[j].checked_out_at by {
        if i < j {
            assert(loans[i].checked_out_at <= loans[j].checked_out_at);
        }
    }
    lemma_filter_keeps_order(loans, held_by(user_id));
    let kept = loans.filter(held_by(user_id));
    assert forall|i: int, j: int| 0 <= i <= j < kept.len() implies kept[i].checked_out_at
        <= kept[j].checked_out_at by {
        if i < j {
            let (a, b) = choose|a: int, b: int|
                0 <= a < b < loans.len() && loans[a] == kept[i] && loans[b] == kept[j];
            assert(loans[a].checked_out_at <= loans[b].checked_out_at);
        }
    }
    assert forall|i: int| 0 <= i < kept.len() implies kept[i].user_id == user_id by {
        loans.lemma_filter_pred(held_by(user_id), i);
    }
}

/// A book's loans that are over come most recently lent first, and each is
/// of that book.
pub proof fn law_history_most_recent_first(view: LedgerView, book_id: BookId)
    requires
        view.wf(),
    ensures
        forall|i: int, j: int|
            0 <= i <= j < view.returned_of(book_id).len() ==> view.returned_of(
                book_id,
            )[i].checked_out_at >= view.returned_of(book_id)[j].checked_out_at,
        forall|i: int|
            0 <= i < view.returned_of(book_id).len() ==> view.returned_of(book_id)[i].returned_at
                is Some,
        view.history_of(book_id).len() == view.returned_of(book_id).len() + if view.running_of(
            book_id,
        ) is Some {
            1int
        } else {
            0int
        },
        view.running_of(book_id) matches Some(checkout) ==> view.history_of(book_id)[0]
            == checkout && checkout.returned_at is None,
{
    let rows = view.committed.history;
    lemma_filter_keeps_order(rows, of_book(book_id));
    let kept = rows.filter(of_book(book_id));
    assert forall|i: int, j: int| 0 <= i <= j < kept.len() implies kept[i].checked_out_at
        >= kept[j].checked_out_at by {
        if i < j {
            let (a, b) = choose|a: int, b: int|
                0 <= a < b < rows.len() && rows[a] == kept[i] && rows[b] == kept[j];
            assert(rows[a].checked_out_at >= rows[b].checked_out_at);
        }
    }
}

/// What a filter keeps stands in the order in which it stood.
pub proof fn lemma_filter_keeps_order<T>(rows: Seq<T>, keep: spec_fn(T) -> bool)
    ensures
        forall|i: int, j: int|
            0 <= i < j < rows.filter(keep).len() ==> exists|a: int, b: int|
                0 <= a < b < rows.len() && rows[a] == #[trigger] rows.filter(keep)[i] && rows[b]
                    == #[trigger] rows.filter(keep)[j],
        forall|i: int|
            0 <= i < rows.filter(keep).len() ==> exists|a: int|
                0 <= a < rows.len() && rows[a] == #[trigger] rows.filter(keep)[i],
    decreases rows.len(),
{
    reveal(Seq::filter);
    if rows.len() > 0 {
        let front = rows.drop_last();
        lemma_filter_keeps_order(front, keep);
        let kept = rows.filter(keep);
        let kept_front = front.filter(keep);
        assert forall|i: int| 0 <= i < kept.len() implies exists|a: int|
            0 <= a < rows.len() && rows[a] == #[trigger] kept[i] by {
            if i < kept_front.len() {
                let a = choose|a: int| 0 <= a < front.len() && front[a] == kept_front[i];
                assert(rows[a] == kept[i]);
            } else {
                assert(rows[rows.len() - 1] == kept[i]);
            }
        }
        assert forall|i: int, j: int| 0 <= i < j < kept.len() implies exists|a: int, b: int|
            0 <= a < b < rows.len() && rows[a] == #[trigger] kept[i] && rows[b]
                == #[trigger] kept[j] by {
            if j < kept_front.len() {
                let (a, b) = choose|a: int, b: int|
                    0 <= a < b < front.len() && front[a] == kept_front[i] && front[b]
                        == kept_front[j];
                assert(rows[a] == kept[i] && rows[b] == kept[j]);
            } else {
                let a = choose|a: int| 0 <= a < front.len() && front[a] == kept_front[i];
                assert(rows[a] == kept[i] && rows[rows.len() - 1] == kept[j]);
            }
        }
    }
}

/// The verdicts as text, one by one.
pub open spec fn verdict_views(verdicts: Seq<Result<(), AppError>>) -> Seq<Result<(), ErrorView>> {
    Seq::new(verdicts.len(), |i: int| verdict_view(verdicts[i]))
}

impl Ledger {
    /// Runs the requests one after another on the store's own connection,
    /// and says how each ended.
    ///
    /// What comes of it is what [`run_all`] says. In particular, of requests
    /// that are all to lend one book, at most one goes through; and where
    /// the book is in the catalogue and in, and the first request's
    /// identifier names no loan, the first goes through and every later one
    /// is refused as a conflict.
    pub fn run_in_turn(&mut self, requests: &Vec<Request>) -> (verdicts: Vec<Result<(), AppError>>)
        requires
            old(self).wf(),
        ensures
            final(self).wf(),
            verdicts@.len() == requests@.len(),
            (final(self)@, verdict_views(verdicts@)) == run_all(old(self)@, requests@),
            forall|book_id: BookId|
                !old(self)@.is_open(own_session()) && #[trigger] all_lend(requests@, book_id)
                    ==> successes(verdict_views(verdicts@)) <= 1,
            forall|book_id: BookId|
                {
                    &&& !old(self)@.is_open(own_session())
                    &&& #[trigger] all_lend(requests@, book_id)
                    &&& requests@.len() > 0
                    &&& has_book(old(self)@.books, book_id)
                    &&& !old(self)@.committed.is_out(book_id)
                    &&& !old(self)@.blocked(requests@[0])
                } ==> {
                    &&& successes(verdict_views(verdicts@)) == 1
                    &&& verdicts@[0] is Ok
                    &&& forall|i: int|
                        1 <= i < verdicts@.len() ==> (#[trigger] verdicts@[i] matches Err(e) && e@
                            == ErrorView::UnprocessableEntity(create_conflict_text(book_id)))
                },
    {
        let ghost start = self@;
        proof {
            self.lemma_rules();
        }
        let mut verdicts: Vec<Result<(), AppError>> = Vec::new();
        let mut i: usize = 0;
        while i < requests.len()
            invariant
                i <= requests.len(),
                start == old(self)@,
                self.wf(),
                verdicts@.len() == i,
                (self@, verdict_views(verdicts@)) == run_all(start, requests@.take(i as int)),
            decreases requests.len() - i,
        {
            proof {
                assert(requests@.take(i + 1).drop_last() =~= requests@.take(i as int));
                assert(requests@.take(i + 1).last() == requests@[i as int]);
            }
            let ghost before = verdicts@;
            let verdict = self.run(requests[i]);
            verdicts.push(verdict);
            i += 1;
            assert(verdict_views(verdicts@) =~= verdict_views(before).push(verdict_view(verdict)));
        }
        proof {
            assert(requests@.take(i as int) =~= requests@);
            let views = verdict_views(verdicts@);
            assert forall|book_id: BookId|
                !start.is_open(own_session()) && #[trigger] all_lend(
                    requests@,
                    book_id,
                ) implies successes(views) <= 1 by {
                law_at_most_one_loan(start, requests@, book_id);
            }
            assert forall|book_id: BookId|
                {
                    &&& !start.is_open(own_session())
                    &&& #[trigger] all_lend(requests@, book_id)
                    &&& requests@.len() > 0
                    &&& has_book(start.books, book_id)
                    &&& !start.committed.is_out(book_id)
                    &&& !start.blocked(requests@[0])
                } implies {
                &&& successes(views) == 1
                &&& verdicts@[0] is Ok
                &&& forall|i: int|
                    1 <= i < verdicts@.len() ==> (#[trigger] verdicts@[i] matches Err(e) && e@
                        == ErrorView::UnprocessableEntity(create_conflict_text(book_id)))
            } by {
                law_exactly_one_loan(start, requests@, book_id);
                assert(views[0] is Ok);
                assert forall|i: int| 1 <= i < verdicts@.len() implies (
                #[trigger] verdicts@[i] matches Err(e) && e@ == ErrorView::UnprocessableEntity(
                    create_conflict_text(book_id),
                )) by {
                    assert(views[i] == Err::<(), _>(
                        ErrorView::UnprocessableEntity(create_conflict_text(book_id)),
                    ));
                }
            }
        }
        verdicts
    }
}

} // verus!
