use vstd::prelude::*;

use crate::error::AppError;
use crate::id::{is_random_uuid, BookId, CheckoutId, UserId};
use crate::ledger::tables::{has_book, LedgerView};
use crate::ledger::Ledger;
use crate::model::checkout::{Checkout, CreateCheckout, UpdateReturned};
use crate::transaction::{verdict_view, Request};

verus! {

/// The operations on loans, whatever keeps them.
///
/// The contract is what every keeper owes: a request that goes through was
/// allowed by the state of its book and has done all of its work, and a
/// request that fails has done none of it. A keeper may fail for reasons
/// of its own, so the contract does not say when a request goes through;
/// [`Ledger`] says so of itself.
pub trait CheckoutRepository {
    /// What the repository holds.
    spec fn store(&self) -> LedgerView;

    /// Whether the repository is in order. One that is holds a store that
    /// keeps its rules.
    spec fn valid(&self) -> bool;

    /// Lends a book under a fresh identifier.
    fn create(&mut self, event: CreateCheckout) -> (verdict: Result<(), AppError>)
        requires
            old(self).valid(),
        ensures
            final(self).valid(),
            final(self).store().wf(),
            final(self).store().books == old(self).store().books,
            match verdict {
                Ok(()) => exists|checkout_id: CheckoutId| #[trigger]
                    old(self).store().went_through(
                        Request::Create { event, checkout_id },
                        final(self).store().committed,
                    ),
                Err(e) => {
                    &&& final(self).store().committed == old(self).store().committed
                    &&& e is EntityNotFound ==> !has_book(old(self).store().books, event.book_id)
                },
            },
    ;

    /// Takes a book back.
    fn update_returned(&mut self, event: UpdateReturned) -> (verdict: Result<(), AppError>)
        requires
            old(self).valid(),
        ensures
            final(self).valid(),
            final(self).store().wf(),
            final(self).store().books == old(self).store().books,
            match verdict {
                Ok(()) => old(self).store().went_through(
                    Request::Return { event },
                    final(self).store().committed,
                ),
                Err(e) => {
                    &&& final(self).store().committed == old(self).store().committed
                    &&& e is EntityNotFound ==> !has_book(old(self).store().books, event.book_id)
                },
            },
    ;

    /// Every running loan, oldest first.
    fn find_unreturned_all(&self) -> (found: Result<Vec<Checkout>, AppError>)
        requires
            self.valid(),
        ensures
            found matches Ok(checkouts) ==> checkouts@ == self.store().unreturned_all(),
    ;

    /// The user's running loans, oldest first.
    fn find_unreturned_by_user_id(&self, user_id: UserId) -> (found: Result<
        Vec<Checkout>,
        AppError,
    >)
        requires
            self.valid(),
        ensures
            found matches Ok(checkouts) ==> checkouts@ == self.store().unreturned_by(user_id),
    ;

    /// The book's loans: the running one, if the book is out, then those
    /// that are over, most recently lent first.
    fn find_history_by_book_id(&self, book_id: BookId) -> (found: Result<Vec<Checkout>, AppError>)
        requires
            self.valid(),
        ensures
            found matches Ok(checkouts) ==> checkouts@ == self.store().history_of(book_id),
    ;
}

impl CheckoutRepository for Ledger {
    open spec fn store(&self) -> LedgerView {
        self@
    }

    open spec fn valid(&self) -> bool {
        self.wf()
    }

    /// The ledger fails for no reason of its own: what comes of a loan is
    /// what comes of lending the book under some random UUID.
    fn create(&mut self, event: CreateCheckout) -> (verdict: Result<(), AppError>)
        ensures
            exists|checkout_id: CheckoutId|
                #[trigger] is_random_uuid(checkout_id.0) && (final(self)@, verdict_view(verdict))
                    == old(self)@.outcome(Request::Create { event, checkout_id }),
    {
        let ghost before = self@;
        let verdict = Ledger::create(self, event);
        proof {
            let checkout_id = choose|checkout_id: CheckoutId|
                #[trigger] is_random_uuid(checkout_id.0) && (self@, verdict_view(verdict))
                    == before.outcome(Request::Create { event, checkout_id });
            if verdict is Ok {
                assert(before.went_through(Request::Create { event, checkout_id }, self@.committed));
            }
            self.lemma_rules();
        }
        verdict
    }

    /// The ledger fails for no reason of its own: a return ends as the
    /// state of its book has it.
    fn update_returned(&mut self, event: UpdateReturned) -> (verdict: Result<(), AppError>)
        ensures
            (final(self)@, verdict_view(verdict)) == old(self)@.outcome(Request::Return { event }),
    {
        let verdict = Ledger::update_returned(self, event);
        proof {
            self.lemma_rules();
        }
        verdict
    }

    /// The ledger reads its own memory, which does not fail: it always
    /// finds the running loans.
    fn find_unreturned_all(&self) -> (found: Result<Vec<Checkout>, AppError>)
        ensures
            found matches Ok(checkouts) && checkouts@ == self@.unreturned_all(),
    {
        Ledger::find_unreturned_all(self)
    }

    /// The ledger always finds the user's running loans.
    fn find_unreturned_by_user_id(&self, user_id: UserId) -> (found: Result<
        Vec<Checkout>,
        AppError,
    >)
        ensures
            found matches Ok(checkouts) && checkouts@ == self@.unreturned_by(user_id),
    {
        Ledger::find_unreturned_by_user_id(self, user_id)
    }

    /// The ledger always finds the book's loans.
    fn find_history_by_book_id(&self, book_id: BookId) -> (found: Result<Vec<Checkout>, AppError>)
        ensures
            found matches Ok(checkouts) && checkouts@ == self@.history_of(book_id),
    {
        Ledger::find_history_by_book_id(self, book_id)
    }
}

} // verus!
