use rusty_book_manager::database::checkout::{CheckoutStateRow, LoanRecord};
use rusty_book_manager::error::AppError;
use rusty_book_manager::id::{BookId, CheckoutId, UserId};
use rusty_book_manager::model::checkout::{CreateCheckout, UpdateReturned};
use rusty_book_manager::transaction::{
    decide_create, decide_return, Action, Next, Phase, Reply, Request, Transaction,
};

const BOOK: BookId = BookId(0x0123_4567_89ab_cdef_0011_2233_4455_6677);
const USER: UserId = UserId(0xa1);
const OTHER: UserId = UserId(0xa2);
const LOAN: CheckoutId = CheckoutId(0xc1);

const BOOK_TEXT: &str = "0123456789abcdef0011223344556677";

fn lend() -> Request {
    Request::Create { event: CreateCheckout::new(BOOK, USER, 10), checkout_id: LOAN }
}

fn take_back() -> Request {
    Request::Return { event: UpdateReturned::new(LOAN, BOOK, USER, 20) }
}

fn at(request: Request, phase: Phase) -> Transaction {
    Transaction { request, phase }
}

fn free() -> Option<CheckoutStateRow> {
    Some(CheckoutStateRow { book_id: BOOK, checkout_id: None, user_id: None })
}

fn held(checkout_id: CheckoutId, user_id: UserId) -> Option<CheckoutStateRow> {
    Some(CheckoutStateRow { book_id: BOOK, checkout_id: Some(checkout_id), user_id: Some(user_id) })
}

#[test]
fn a_loan_needs_a_book_that_exists_and_is_in() {
    let event = CreateCheckout::new(BOOK, USER, 10);
    assert_eq!(decide_create(&event, free()), Ok(()));
    assert_eq!(
        decide_create(&event, None),
        Err(AppError::EntityNotFound(format!("The book ({BOOK_TEXT}) doesn't exist")))
    );
    assert_eq!(
        decide_create(&event, held(LOAN, OTHER)),
        Err(AppError::UnprocessableEntity(format!("The book ({BOOK_TEXT}) was already borrowed")))
    );
}

#[test]
fn a_return_needs_the_loan_and_its_borrower() {
    let event = UpdateReturned::new(LOAN, BOOK, USER, 20);
    let conflict = AppError::UnprocessableEntity(format!(
        "the user (000000000000000000000000000000a1) can not return the book ({BOOK_TEXT}) of the \
         checkout (000000000000000000000000000000c1)"
    ));
    assert_eq!(decide_return(&event, held(LOAN, USER)), Ok(()));
    assert_eq!(decide_return(&event, held(LOAN, OTHER)), Err(conflict.clone()));
    assert_eq!(decide_return(&event, held(CheckoutId(0xc2), USER)), Err(conflict.clone()));
    assert_eq!(decide_return(&event, free()), Err(conflict.clone()));
    assert_eq!(
        decide_return(
            &event,
            Some(CheckoutStateRow { book_id: BOOK, checkout_id: Some(LOAN), user_id: None })
        ),
        Err(conflict)
    );
    assert_eq!(
        decide_return(&event, None),
        Err(AppError::EntityNotFound(format!("the book ({BOOK_TEXT}) doesn't exist")))
    );
}

#[test]
fn a_loan_runs_begin_isolate_read_insert_commit() {
    let (tx, action) = Transaction::start(lend());
    assert_eq!(action, Action::Begin);
    assert_eq!(tx, at(lend(), Phase::Begin));

    let next = tx.step(Reply::Done);
    assert_eq!(next, Next::Perform(at(lend(), Phase::Isolate), Action::SetSerializable));
    let next = at(lend(), Phase::Isolate).step(Reply::Done);
    assert_eq!(next, Next::Perform(at(lend(), Phase::Read), Action::ReadState { book_id: BOOK }));
    let next = at(lend(), Phase::Read).step(Reply::State(free()));
    let record = LoanRecord { checkout_id: LOAN, book_id: BOOK, user_id: USER, checked_out_at: 10 };
    assert_eq!(
        next,
        Next::Perform(at(lend(), Phase::Insert), Action::InsertCheckout { record })
    );
    let next = at(lend(), Phase::Insert).step(Reply::Affected(1));
    assert_eq!(next, Next::Perform(at(lend(), Phase::Commit), Action::Commit));
    let next = at(lend(), Phase::Commit).step(Reply::Done);
    assert_eq!(next, Next::Finish(Ok(())));
}

#[test]
fn a_return_runs_begin_isolate_read_archive_remove_commit() {
    let request = take_back();
    let (tx, action) = Transaction::start(request);
    assert_eq!(action, Action::Begin);
    assert_eq!(
        tx.step(Reply::Done),
        Next::Perform(at(request, Phase::Isolate), Action::SetSerializable)
    );
    assert_eq!(
        at(request, Phase::Isolate).step(Reply::Done),
        Next::Perform(at(request, Phase::Read), Action::ReadState { book_id: BOOK })
    );
    assert_eq!(
        at(request, Phase::Read).step(Reply::State(held(LOAN, USER))),
        Next::Perform(
            at(request, Phase::Archive),
            Action::InsertReturned { checkout_id: LOAN, returned_at: 20 }
        )
    );
    assert_eq!(
        at(request, Phase::Archive).step(Reply::Affected(1)),
        Next::Perform(at(request, Phase::Remove), Action::DeleteCheckout { checkout_id: LOAN })
    );
    assert_eq!(
        at(request, Phase::Remove).step(Reply::Affected(1)),
        Next::Perform(at(request, Phase::Commit), Action::Commit)
    );
    assert_eq!(at(request, Phase::Commit).step(Reply::Done), Next::Finish(Ok(())));
}

#[test]
fn a_request_that_is_refused_writes_nothing() {
    assert_eq!(
        at(lend(), Phase::Read).step(Reply::State(None)),
        Next::Abort(AppError::EntityNotFound(format!("The book ({BOOK_TEXT}) doesn't exist")))
    );
    assert_eq!(
        at(lend(), Phase::Read).step(Reply::State(held(LOAN, OTHER))),
        Next::Abort(AppError::UnprocessableEntity(format!(
            "The book ({BOOK_TEXT}) was already borrowed"
        )))
    );
    assert!(matches!(
        at(take_back(), Phase::Read).step(Reply::State(held(LOAN, OTHER))),
        Next::Abort(AppError::UnprocessableEntity(_))
    ));
    assert_eq!(
        at(take_back(), Phase::Read).step(Reply::State(None)),
        Next::Abort(AppError::EntityNotFound(format!("the book ({BOOK_TEXT}) doesn't exist")))
    );
}

#[test]
fn a_write_that_changes_no_row_fails_the_request() {
    assert_eq!(
        at(lend(), Phase::Insert).step(Reply::Affected(0)),
        Next::Abort(AppError::NoRowsAffectedError(
            "no checkout record has been created".to_string()
        ))
    );
    assert_eq!(
        at(take_back(), Phase::Archive).step(Reply::Affected(0)),
        Next::Abort(AppError::NoRowsAffectedError(
            "not returning record has been updated".to_string()
        ))
    );
    assert_eq!(
        at(take_back(), Phase::Remove).step(Reply::Affected(0)),
        Next::Abort(AppError::NoRowsAffectedError(
            "no checkout record has been deleted".to_string()
        ))
    );
    assert_eq!(
        at(take_back(), Phase::Remove).step(Reply::Affected(2)),
        Next::Perform(at(take_back(), Phase::Commit), Action::Commit)
    );
}

#[test]
fn a_failure_of_the_store_fails_the_request() {
    let failed = || Reply::Failed("connection reset".to_string());
    let text = "connection reset".to_string();
    assert_eq!(
        at(lend(), Phase::Begin).step(failed()),
        Next::Finish(Err(AppError::TransactionError(text.clone())))
    );
    for phase in [Phase::Isolate, Phase::Read, Phase::Insert, Phase::Archive, Phase::Remove] {
        assert_eq!(
            at(take_back(), phase).step(failed()),
            Next::Abort(AppError::SpecificOperationError(text.clone()))
        );
    }
    assert_eq!(
        at(lend(), Phase::Commit).step(failed()),
        Next::Abort(AppError::TransactionError(text))
    );
}

#[test]
fn a_transaction_that_could_not_be_serialized_is_a_conflict() {
    let aborted = || Reply::Aborted("could not serialize access".to_string());
    let text = "could not serialize access".to_string();
    for phase in [
        Phase::Isolate,
        Phase::Read,
        Phase::Insert,
        Phase::Archive,
        Phase::Remove,
        Phase::Commit,
    ] {
        assert_eq!(
            at(lend(), phase).step(aborted()),
            Next::Abort(AppError::UnprocessableEntity(text.clone()))
        );
    }
    assert_eq!(
        at(lend(), Phase::Begin).step(aborted()),
        Next::Finish(Err(AppError::TransactionError(text)))
    );
}

#[test]
fn a_reply_of_the_wrong_kind_fails_the_request() {
    let text = "unexpected reply from the store".to_string();
    assert_eq!(
        at(lend(), Phase::Begin).step(Reply::Affected(1)),
        Next::Finish(Err(AppError::TransactionError(text.clone())))
    );
    assert_eq!(
        at(lend(), Phase::Read).step(Reply::Done),
        Next::Abort(AppError::SpecificOperationError(text.clone()))
    );
    assert_eq!(
        at(lend(), Phase::Insert).step(Reply::State(None)),
        Next::Abort(AppError::SpecificOperationError(text.clone()))
    );
    assert_eq!(
        at(lend(), Phase::Isolate).step(Reply::Affected(0)),
        Next::Abort(AppError::SpecificOperationError(text.clone()))
    );
    assert_eq!(
        at(lend(), Phase::Commit).step(Reply::State(None)),
        Next::Abort(AppError::TransactionError(text))
    );
}
