//! Facts about positions in the tables, and that every statement keeps the
//! rules of the store.

use vstd::prelude::*;

use crate::database::checkout::{LoanRecord, ReturnRecord};
use crate::id::{BookId, CheckoutId};
use crate::ledger::tables::{
    first_after, first_before, has_book, own_session, position, LedgerView, SessionView, Tables,
};
use crate::model::checkout::CheckoutBook;
use crate::transaction::{NextView, Phase, Request, Transaction};

verus! {

/// `position` is within bounds, stands on the key if it stands on anything,
/// and has passed no occurrence of the key.
pub proof fn lemma_position(keys: Seq<u128>, key: u128)
    ensures
        0 <= position(keys, key) <= keys.len(),
        position(keys, key) < keys.len() ==> keys[position(keys, key)] == key,
        forall|j: int| 0 <= j < position(keys, key) ==> keys[j] != key,
    decreases keys.len(),
{
    if keys.len() != 0 && keys[0] != key {
        let rest = keys.drop_first();
        lemma_position(rest, key);
        assert forall|j: int| 0 <= j < position(keys, key) implies keys[j] != key by {
            if j > 0 {
                assert(keys[j] == rest[j - 1]);
            }
        }
    }
}

/// A place that stands on the key, or at the end, and that no occurrence of
/// the key precedes, is the key's position.
pub proof fn lemma_position_is(keys: Seq<u128>, key: u128, k: int)
    requires
        0 <= k <= keys.len(),
        forall|j: int| 0 <= j < k ==> keys[j] != key,
        k < keys.len() ==> keys[k] == key,
    ensures
        position(keys, key) == k,
{
    lemma_position(keys, key);
}

/// `first_after` is within bounds, stands on a later time if it stands on
/// anything, and has passed no later time.
pub proof fn lemma_first_after(times: Seq<i64>, at: i64)
    ensures
        0 <= first_after(times, at) <= times.len(),
        first_after(times, at) < times.len() ==> times[first_after(times, at)] > at,
        forall|j: int| 0 <= j < first_after(times, at) ==> times[j] <= at,
    decreases times.len(),
{
    if times.len() != 0 && times[0] <= at {
        let rest = times.drop_first();
        lemma_first_after(rest, at);
        assert forall|j: int| 0 <= j < first_after(times, at) implies times[j] <= at by {
            if j > 0 {
                assert(times[j] == rest[j - 1]);
            }
        }
    }
}

/// A place that stands on a later time, or at the end, and that no later
/// time precedes, is `first_after`.
pub proof fn lemma_first_after_is(times: Seq<i64>, at: i64, k: int)
    requires
        0 <= k <= times.len(),
        forall|j: int| 0 <= j < k ==> times[j] <= at,
        k < times.len() ==> times[k] > at,
    ensures
        first_after(times, at) == k,
{
    lemma_first_after(times, at);
}

/// `first_before` is within bounds, stands on an earlier time if it stands
/// on anything, and has passed no earlier time.
pub proof fn lemma_first_before(times: Seq<i64>, at: i64)
    ensures
        0 <= first_before(times, at) <= times.len(),
        first_before(times, at) < times.len() ==> times[first_before(times, at)] < at,
        forall|j: int| 0 <= j < first_before(times, at) ==> times[j] >= at,
    decreases times.len(),
{
    if times.len() != 0 && times[0] >= at {
        let rest = times.drop_first();
        lemma_first_before(rest, at);
        assert forall|j: int| 0 <= j < first_before(times, at) implies times[j] >= at by {
            if j > 0 {
                assert(times[j] == rest[j - 1]);
            }
        }
    }
}

/// A place that stands on an earlier time, or at the end, and that no
/// earlier time precedes, is `first_before`.
pub proof fn lemma_first_before_is(times: Seq<i64>, at: i64, k: int)
    requires
        0 <= k <= times.len(),
        forall|j: int| 0 <= j < k ==> times[j] >= at,
        k < times.len() ==> times[k] < at,
    ensures
        first_before(times, at) == k,
{
    lemma_first_before(times, at);
}

/// A new running loan that the store admits leaves the rules intact.
pub proof fn lemma_lend_obeys(tables: Tables, books: Seq<CheckoutBook>, record: LoanRecord)
    requires
        tables.obeys(books),
        tables.admits(books, record),
    ensures
        tables.lend(record).obeys(books),
{
    let at = record.checked_out_at;
    let k = first_after(tables.loan_times(), at);
    let after = tables.lend(record).loans;
    lemma_first_after(tables.loan_times(), at);
    lemma_position(tables.loan_keys(), record.checkout_id.0);
    lemma_position(tables.loan_books(), record.book_id.0);
    assert forall|i: int| 0 <= i < tables.loans.len() implies tables.loans[i].checkout_id
        != record.checkout_id && tables.loans[i].book_id != record.book_id by {
        assert(tables.loan_keys()[i] != record.checkout_id.0);
        assert(tables.loan_books()[i] != record.book_id.0);
    }
    assert forall|i: int| 0 <= i < after.len() implies after[i] == (if i < k {
        tables.loans[i]
    } else if i == k {
        record
    } else {
        tables.loans[i - 1]
    }) by {}
    assert forall|i: int, j: int| 0 <= i < j < after.len() implies after[i].checked_out_at
        <= after[j].checked_out_at by {
        if i < k && j > k {
            assert(tables.loan_times()[i] <= at);
            assert(tables.loans[k].checked_out_at == tables.loan_times()[k]);
        } else if i < k && j == k {
            assert(tables.loan_times()[i] <= at);
        } else if i == k {
            assert(tables.loans[k].checked_out_at == tables.loan_times()[k]);
        }
    }
}

/// A loan that enters the history under an identifier that the history
/// lacks, for a book of the catalogue, leaves the rules intact.
pub proof fn lemma_archive_obeys(tables: Tables, books: Seq<CheckoutBook>, row: ReturnRecord)
    requires
        tables.obeys(books),
        has_book(books, row.book_id),
        !tables.in_history(row.checkout_id),
    ensures
        tables.archive(row).obeys(books),
{
    let at = row.checked_out_at;
    let k = first_before(tables.history_times(), at);
    let after = tables.archive(row).history;
    lemma_first_before(tables.history_times(), at);
    lemma_position(tables.history_keys(), row.checkout_id.0);
    assert forall|i: int| 0 <= i < tables.history.len() implies tables.history[i].checkout_id
        != row.checkout_id by {
        assert(tables.history_keys()[i] != row.checkout_id.0);
    }
    assert forall|i: int| 0 <= i < after.len() implies after[i] == (if i < k {
        tables.history[i]
    } else if i == k {
        row
    } else {
        tables.history[i - 1]
    }) by {}
    assert forall|i: int, j: int| 0 <= i < j < after.len() implies after[i].checked_out_at
        >= after[j].checked_out_at by {
        if i < k && j > k {
            assert(tables.history_times()[i] >= at);
            assert(tables.history[k].checked_out_at == tables.history_times()[k]);
        } else if i < k && j == k {
            assert(tables.history_times()[i] >= at);
        } else if i == k {
            assert(tables.history[k].checked_out_at == tables.history_times()[k]);
        }
    }
}

/// Striking a running loan leaves the rules intact.
pub proof fn lemma_strike_obeys(tables: Tables, books: Seq<CheckoutBook>, checkout_id: CheckoutId)
    requires
        tables.obeys(books),
        tables.has_loan(checkout_id),
    ensures
        tables.strike(checkout_id).obeys(books),
{
    let k = tables.loan_position(checkout_id);
    let after = tables.strike(checkout_id).loans;
    lemma_position(tables.loan_keys(), checkout_id.0);
    assert forall|i: int| 0 <= i < after.len() implies after[i] == (if i < k {
        tables.loans[i]
    } else {
        tables.loans[i + 1]
    }) by {}
}

/// Tables that obey the rules with one catalogue obey them with any that
/// holds the same books and more.
pub proof fn lemma_obeys_in_larger_catalogue(
    tables: Tables,
    fewer: Seq<CheckoutBook>,
    more: Seq<CheckoutBook>,
)
    requires
        tables.obeys(fewer),
        forall|id: BookId| has_book(fewer, id) ==> has_book(more, id),
    ensures
        tables.obeys(more),
{
    assert forall|i: int| 0 <= i < tables.loans.len() implies has_book(
        more,
        #[trigger] tables.loans[i].book_id,
    ) by {
        assert(has_book(fewer, tables.loans[i].book_id));
    }
    assert forall|i: int| 0 <= i < tables.history.len() implies has_book(
        more,
        #[trigger] tables.history[i].book_id,
    ) by {
        assert(has_book(fewer, tables.history[i].book_id));
    }
}

/// A return that the state of the book allows names a running loan, and
/// that loan is the book's.
pub proof fn lemma_allowed_return(view: LedgerView, request: Request)
    requires
        view.wf(),
        request is Return,
        request.verdict(view.committed.state_of(view.books, request.book())) is Ok,
    ensures
        view.committed.has_loan(request->Return_event.checkout_id),
        view.committed.is_out(request.book()),
        0 <= view.committed.loan_position(request->Return_event.checkout_id)
            < view.committed.loans.len(),
        view.committed.loan_position(request->Return_event.checkout_id)
            == view.committed.book_position(request.book()),
        view.committed.loans[view.committed.loan_position(request->Return_event.checkout_id)]
            == (LoanRecord {
            checkout_id: request->Return_event.checkout_id,
            book_id: request.book(),
            user_id: request->Return_event.returned_by,
            checked_out_at: view.committed.loans[view.committed.book_position(
                request.book(),
            )].checked_out_at,
        }),
        has_book(view.books, request.book()),
{
    let event = request->Return_event;
    let tables = view.committed;
    let at = tables.book_position(event.book_id);
    lemma_position(tables.loan_books(), event.book_id.0);
    assert(tables.loans[at].checkout_id == event.checkout_id);
    assert forall|j: int| 0 <= j < at implies tables.loan_keys()[j] != event.checkout_id.0 by {
        assert(tables.loans[j].checkout_id != tables.loans[at].checkout_id);
    }
    assert(tables.loan_keys()[at] == event.checkout_id.0);
    lemma_position_is(tables.loan_keys(), event.checkout_id.0, at);
}

/// One step of the protocol on the store's own connection keeps the
/// transaction on its track, and where the transaction ends, the store and
/// the verdict are the request's outcome.
pub proof fn lemma_step(start: LedgerView, tx: Transaction, now: LedgerView)
    requires
        start.wf(),
        start.on_track(tx, now),
    ensures
        ({
            let (after, reply) = now.perform(own_session(), tx.awaited());
            match tx.next(reply) {
                NextView::Perform(then, action) => {
                    &&& then.request == tx.request
                    &&& action == then.awaited()
                    &&& then.remaining() < tx.remaining()
                    &&& start.on_track(then, after)
                },
                NextView::Abort(e) => {
                    &&& after.rolled_back(own_session()) == start.outcome(tx.request).0
                    &&& Err::<(), _>(e) == start.outcome(tx.request).1
                },
                NextView::Finish(verdict) => {
                    &&& after == start.outcome(tx.request).0
                    &&& verdict == start.outcome(tx.request).1
                },
            }
        }),
{
    let request = tx.request;
    let own = own_session();
    if tx.phase != Phase::Begin {
        // The transaction runs on a connection of its own: dropping it, or
        // committing it, leaves the other connections as they were.
        assert forall|session: SessionView| #[trigger]
            start.sessions.insert(own, session).remove(own) =~= start.sessions by {}
        assert forall|first: SessionView, second: SessionView| #[trigger]
            start.sessions.insert(own, first).insert(own, second) =~= start.sessions.insert(
                own,
                second,
            ) by {}
        if request is Return && request.verdict(
            start.committed.state_of(start.books, request.book()),
        ) is Ok {
            lemma_allowed_return(start, request);
            let event = request->Return_event;
            let tables = start.committed;
            let row = tables.loans[tables.loan_position(event.checkout_id)].closed_at(
                event.returned_at,
            );
            assert(tables.archive(row).loans == tables.loans);
            assert(tables.archive(row).loan_keys() =~= tables.loan_keys());
        }
        let (after, reply) = now.perform(own, tx.awaited());
        assert(now.sessions.contains_key(own));
        assert(after.sessions.insert(own, now.sessions[own]) =~= after.sessions
            || after.sessions.remove(own) =~= start.sessions);
        assert(after.rolled_back(own).sessions =~= start.sessions);
    }
}

} // verus!
