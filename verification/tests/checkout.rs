use rusty_book_manager::error::AppError;
use rusty_book_manager::id::{BookId, CheckoutId, UserId};
use rusty_book_manager::ledger::tables::SessionId;
use rusty_book_manager::ledger::{assemble_history, own_connection, Ledger};
use rusty_book_manager::database::checkout::{CheckoutStateRow, LoanRecord};
use rusty_book_manager::model::checkout::{Checkout, CheckoutBook, CreateCheckout, UpdateReturned};
use rusty_book_manager::race::Standing;
use rusty_book_manager::repository::checkout::CheckoutRepository;
use rusty_book_manager::transaction::{Action, Next, Phase, Reply, Request, Transaction};

const B1: BookId = BookId(0x0000_0000_0000_0000_0000_0000_0000_00b1);
const B2: BookId = BookId(0x0000_0000_0000_0000_0000_0000_0000_00b2);
const U1: UserId = UserId(0x0000_0000_0000_0000_0000_0000_0000_00a1);
const U2: UserId = UserId(0x0000_0000_0000_0000_0000_0000_0000_00a2);
const C1: CheckoutId = CheckoutId(0x0000_0000_0000_0000_0000_0000_0000_00c1);
const C2: CheckoutId = CheckoutId(0x0000_0000_0000_0000_0000_0000_0000_00c2);
const C3: CheckoutId = CheckoutId(0x0000_0000_0000_0000_0000_0000_0000_00c3);

const B1_TEXT: &str = "000000000000000000000000000000b1";
const U2_TEXT: &str = "000000000000000000000000000000a2";
const C1_TEXT: &str = "000000000000000000000000000000c1";

fn book(id: BookId, title: &str) -> CheckoutBook {
    CheckoutBook {
        book_id: id,
        title: title.to_string(),
        author: "Author".to_string(),
        isbn: "ISBN".to_string(),
    }
}

fn library() -> Ledger {
    let mut ledger = Ledger::new();
    assert!(ledger.add_book(book(B1, "First")));
    assert!(ledger.add_book(book(B2, "Second")));
    ledger
}

fn running(id: CheckoutId, book_id: BookId, title: &str, user: UserId, at: i64) -> Checkout {
    Checkout {
        id,
        checked_out_by: user,
        checked_out_at: at,
        returned_at: None,
        book: book(book_id, title),
    }
}

fn over(id: CheckoutId, book_id: BookId, title: &str, user: UserId, at: i64, back: i64) -> Checkout {
    Checkout {
        id,
        checked_out_by: user,
        checked_out_at: at,
        returned_at: Some(back),
        book: book(book_id, title),
    }
}

#[test]
fn add_book_refuses_a_second_book_of_one_identifier() {
    let mut ledger = library();
    assert!(!ledger.add_book(book(B1, "Again")));
    assert_eq!(ledger.create_with_id(CreateCheckout::new(B1, U1, 1), C1), Ok(()));
    assert_eq!(
        ledger.find_unreturned_all(),
        Ok(vec![running(C1, B1, "First", U1, 1)])
    );
}

#[test]
fn lend_conflict_wrong_borrower_return_history() {
    let mut ledger = library();
    assert_eq!(ledger.find_history_by_book_id(B1), Ok(vec![]));

    assert_eq!(ledger.create(CreateCheckout::new(B1, U1, 100)), Ok(()));
    let lent = ledger.find_unreturned_all().unwrap();
    assert_eq!(lent.len(), 1);
    let cid = lent[0].id;

    assert_eq!(
        ledger.create(CreateCheckout::new(B1, U2, 200)),
        Err(AppError::UnprocessableEntity(format!(
            "The book ({B1_TEXT}) was already borrowed"
        )))
    );
    assert_eq!(
        ledger.update_returned(UpdateReturned::new(cid, B1, U2, 300)),
        Err(AppError::UnprocessableEntity(format!(
            "the user ({U2_TEXT}) can not return the book ({B1_TEXT}) of the checkout ({})",
            cid.to_string()
        )))
    );
    assert_eq!(ledger.update_returned(UpdateReturned::new(cid, B1, U1, 300)), Ok(()));

    assert_eq!(
        ledger.find_history_by_book_id(B1),
        Ok(vec![over(cid, B1, "First", U1, 100, 300)])
    );
    assert_eq!(ledger.find_unreturned_all(), Ok(vec![]));
}

#[test]
fn of_many_loans_of_one_book_exactly_one_goes_through() {
    let mut ledger = library();
    let mut through = 0;
    let mut conflicts = 0;
    for n in 0..8u128 {
        match ledger.create_with_id(CreateCheckout::new(B1, UserId(n), n as i64), CheckoutId(n)) {
            Ok(()) => through += 1,
            Err(AppError::UnprocessableEntity(_)) => conflicts += 1,
            Err(other) => panic!("{other:?}"),
        }
    }
    assert_eq!(through, 1);
    assert_eq!(conflicts, 7);
    assert_eq!(
        ledger.find_unreturned_all(),
        Ok(vec![running(CheckoutId(0), B1, "First", UserId(0), 0)])
    );
}

#[test]
fn loans_of_different_books_do_not_hinder_each_other() {
    let mut ledger = library();
    assert_eq!(ledger.create_with_id(CreateCheckout::new(B1, U1, 10), C1), Ok(()));
    assert_eq!(ledger.create_with_id(CreateCheckout::new(B2, U1, 20), C2), Ok(()));
    assert_eq!(
        ledger.find_unreturned_by_user_id(U1),
        Ok(vec![running(C1, B1, "First", U1, 10), running(C2, B2, "Second", U1, 20)])
    );
}

#[test]
fn a_return_that_names_another_loan_or_user_changes_nothing() {
    let mut ledger = library();
    ledger.create_with_id(CreateCheckout::new(B1, U1, 10), C1).unwrap();
    ledger.create_with_id(CreateCheckout::new(B2, U2, 20), C2).unwrap();
    let before = ledger.find_unreturned_all();

    // Another loan's identifier, the right user.
    assert!(matches!(
        ledger.update_returned(UpdateReturned::new(C2, B1, U1, 30)),
        Err(AppError::UnprocessableEntity(_))
    ));
    // The right loan, another user.
    assert!(matches!(
        ledger.update_returned(UpdateReturned::new(C1, B1, U2, 30)),
        Err(AppError::UnprocessableEntity(_))
    ));
    // An identifier that names no loan.
    assert!(matches!(
        ledger.update_returned(UpdateReturned::new(C3, B1, U1, 30)),
        Err(AppError::UnprocessableEntity(_))
    ));
    assert_eq!(ledger.find_unreturned_all(), before);
    assert_eq!(ledger.find_history_by_book_id(B1), Ok(vec![running(C1, B1, "First", U1, 10)]));
}

#[test]
fn a_return_of_a_book_that_is_in_is_a_conflict() {
    let mut ledger = library();
    assert_eq!(
        ledger.update_returned(UpdateReturned::new(C1, B1, U2, 30)),
        Err(AppError::UnprocessableEntity(format!(
            "the user ({U2_TEXT}) can not return the book ({B1_TEXT}) of the checkout ({C1_TEXT})"
        )))
    );
    assert_eq!(ledger.find_history_by_book_id(B1), Ok(vec![]));
}

#[test]
fn a_return_adds_exactly_one_loan_to_the_history() {
    let mut ledger = library();
    ledger.create_with_id(CreateCheckout::new(B1, U1, 10), C1).unwrap();
    ledger.update_returned(UpdateReturned::new(C1, B1, U1, 15)).unwrap();
    ledger.create_with_id(CreateCheckout::new(B1, U2, 20), C2).unwrap();
    assert_eq!(
        ledger.find_history_by_book_id(B1),
        Ok(vec![running(C2, B1, "First", U2, 20), over(C1, B1, "First", U1, 10, 15)])
    );

    ledger.update_returned(UpdateReturned::new(C2, B1, U2, 25)).unwrap();
    assert_eq!(
        ledger.find_history_by_book_id(B1),
        Ok(vec![over(C2, B1, "First", U2, 20, 25), over(C1, B1, "First", U1, 10, 15)])
    );
    assert_eq!(ledger.find_unreturned_all(), Ok(vec![]));
    assert_eq!(ledger.find_history_by_book_id(B2), Ok(vec![]));
}

#[test]
fn a_loan_of_an_unknown_book_is_not_found_and_leaves_no_row() {
    let mut ledger = library();
    let unknown = BookId(0xdead);
    assert_eq!(
        ledger.create_with_id(CreateCheckout::new(unknown, U1, 10), C1),
        Err(AppError::EntityNotFound(
            "The book (0000000000000000000000000000dead) doesn't exist".to_string()
        ))
    );
    assert!(matches!(
        ledger.create(CreateCheckout::new(unknown, U1, 10)),
        Err(AppError::EntityNotFound(_))
    ));
    assert_eq!(ledger.find_unreturned_all(), Ok(vec![]));
    assert_eq!(ledger.find_history_by_book_id(unknown), Ok(vec![]));
}

#[test]
fn a_return_of_an_unknown_book_is_not_found() {
    let mut ledger = library();
    assert_eq!(
        ledger.update_returned(UpdateReturned::new(C1, BookId(0xdead), U1, 10)),
        Err(AppError::EntityNotFound(
            "the book (0000000000000000000000000000dead) doesn't exist".to_string()
        ))
    );
}

#[test]
fn an_identifier_that_names_a_loan_is_not_taken_again() {
    let mut ledger = library();
    ledger.create_with_id(CreateCheckout::new(B1, U1, 10), C1).unwrap();
    // Running under that identifier.
    assert_eq!(
        ledger.create_with_id(CreateCheckout::new(B2, U2, 20), C1),
        Err(AppError::SpecificOperationError("the row violates a constraint".to_string()))
    );
    ledger.update_returned(UpdateReturned::new(C1, B1, U1, 30)).unwrap();
    // Over under that identifier.
    assert_eq!(
        ledger.create_with_id(CreateCheckout::new(B2, U2, 40), C1),
        Err(AppError::SpecificOperationError("the row violates a constraint".to_string()))
    );
    assert_eq!(ledger.find_unreturned_all(), Ok(vec![]));
    assert_eq!(
        ledger.find_history_by_book_id(B1),
        Ok(vec![over(C1, B1, "First", U1, 10, 30)])
    );
}

#[test]
fn running_loans_come_oldest_first() {
    let mut ledger = Ledger::new();
    for n in 1..=4u128 {
        assert!(ledger.add_book(book(BookId(n), "T")));
    }
    ledger.create_with_id(CreateCheckout::new(BookId(1), U1, 30), CheckoutId(1)).unwrap();
    ledger.create_with_id(CreateCheckout::new(BookId(2), U2, 10), CheckoutId(2)).unwrap();
    ledger.create_with_id(CreateCheckout::new(BookId(3), U1, 20), CheckoutId(3)).unwrap();
    ledger.create_with_id(CreateCheckout::new(BookId(4), U1, 20), CheckoutId(4)).unwrap();
    let all = ledger.find_unreturned_all().unwrap();
    let ids: Vec<u128> = all.iter().map(|c| c.id.0).collect();
    assert_eq!(ids, vec![2, 3, 4, 1]);
    let mine = ledger.find_unreturned_by_user_id(U1).unwrap();
    let ids: Vec<u128> = mine.iter().map(|c| c.id.0).collect();
    assert_eq!(ids, vec![3, 4, 1]);
    assert_eq!(ledger.find_unreturned_by_user_id(UserId(77)), Ok(vec![]));
}

#[test]
fn the_history_comes_most_recently_lent_first() {
    let mut ledger = library();
    for (id, at) in [(1u128, 20i64), (2, 40), (3, 10), (4, 30)] {
        ledger.create_with_id(CreateCheckout::new(B1, U1, at), CheckoutId(id)).unwrap();
        ledger.update_returned(UpdateReturned::new(CheckoutId(id), B1, U1, at + 5)).unwrap();
    }
    ledger.create_with_id(CreateCheckout::new(B1, U2, 5), CheckoutId(9)).unwrap();
    let history = ledger.find_history_by_book_id(B1).unwrap();
    let seen: Vec<(u128, i64, Option<i64>)> =
        history.iter().map(|c| (c.id.0, c.checked_out_at, c.returned_at)).collect();
    assert_eq!(
        seen,
        vec![
            (9, 5, None),
            (2, 40, Some(45)),
            (4, 30, Some(35)),
            (1, 20, Some(25)),
            (3, 10, Some(15)),
        ]
    );
}

#[test]
fn assemble_history_puts_the_running_loan_first() {
    let past = vec![over(C1, B1, "First", U1, 10, 15)];
    assert_eq!(assemble_history(None, past.clone()), past);
    assert_eq!(
        assemble_history(Some(running(C2, B1, "First", U2, 20)), past.clone()),
        vec![running(C2, B1, "First", U2, 20), past[0].clone()]
    );
}

const S1: SessionId = SessionId(1);
const S2: SessionId = SessionId(2);

fn drive(ledger: &mut Ledger, request: Request, fail_at: Option<Action>) -> Result<(), AppError> {
    let (mut tx, mut action) = Transaction::start(request);
    loop {
        let reply = if Some(action) == fail_at {
            Reply::Failed("injected".to_string())
        } else {
            ledger.execute(S1, action)
        };
        match tx.step(reply) {
            Next::Perform(then, following) => {
                tx = then;
                action = following;
            }
            Next::Abort(e) => {
                ledger.rollback(S1);
                return Err(e);
            }
            Next::Finish(verdict) => return verdict,
        }
    }
}

#[test]
fn a_failure_between_the_two_writes_of_a_return_restores_everything() {
    let mut ledger = library();
    ledger.create_with_id(CreateCheckout::new(B1, U1, 10), C1).unwrap();
    ledger.create_with_id(CreateCheckout::new(B2, U2, 20), C2).unwrap();
    ledger.update_returned(UpdateReturned::new(C2, B2, U2, 25)).unwrap();
    let running_before = ledger.find_unreturned_all();
    let history_before = ledger.find_history_by_book_id(B1);

    let request = Request::Return { event: UpdateReturned::new(C1, B1, U1, 30) };
    let verdict = drive(&mut ledger, request, Some(Action::DeleteCheckout { checkout_id: C1 }));
    assert_eq!(verdict, Err(AppError::SpecificOperationError("injected".to_string())));
    assert_eq!(ledger.find_unreturned_all(), running_before);
    assert_eq!(ledger.find_history_by_book_id(B1), history_before);

    // The same request goes through once nothing fails.
    assert_eq!(drive(&mut ledger, request, None), Ok(()));
    assert_eq!(ledger.find_history_by_book_id(B1), Ok(vec![over(C1, B1, "First", U1, 10, 30)]));
}

#[test]
fn a_failure_at_any_step_leaves_the_store_as_it_was() {
    let steps = [
        Action::Begin,
        Action::SetSerializable,
        Action::ReadState { book_id: B1 },
        Action::InsertReturned { checkout_id: C1, returned_at: 30 },
        Action::DeleteCheckout { checkout_id: C1 },
        Action::Commit,
    ];
    for step in steps {
        let mut ledger = library();
        ledger.create_with_id(CreateCheckout::new(B1, U1, 10), C1).unwrap();
        let request = Request::Return { event: UpdateReturned::new(C1, B1, U1, 30) };
        let verdict = drive(&mut ledger, request, Some(step));
        let expected = match step {
            Action::Begin | Action::Commit => AppError::TransactionError("injected".to_string()),
            _ => AppError::SpecificOperationError("injected".to_string()),
        };
        assert_eq!(verdict, Err(expected));
        assert_eq!(ledger.find_unreturned_all(), Ok(vec![running(C1, B1, "First", U1, 10)]));
        assert_eq!(ledger.find_history_by_book_id(B1), Ok(vec![running(C1, B1, "First", U1, 10)]));
        // No transaction is left open: the next request runs on the same
        // connection.
        assert_eq!(drive(&mut ledger, request, None), Ok(()));
    }
}

#[test]
fn what_a_transaction_writes_shows_only_after_its_commit() {
    let mut ledger = library();
    assert_eq!(ledger.execute(S1, Action::Begin), Reply::Done);
    assert_eq!(ledger.execute(S1, Action::SetSerializable), Reply::Done);
    let record = LoanRecord { checkout_id: C1, book_id: B1, user_id: U1, checked_out_at: 10 };
    assert_eq!(ledger.execute(S1, Action::InsertCheckout { record }), Reply::Affected(1));
    assert_eq!(ledger.find_unreturned_all(), Ok(vec![]));
    // Nor does another transaction see it.
    assert_eq!(ledger.execute(S2, Action::Begin), Reply::Done);
    assert_eq!(
        ledger.execute(S2, Action::ReadState { book_id: B1 }),
        Reply::State(Some(CheckoutStateRow { book_id: B1, checkout_id: None, user_id: None }))
    );
    assert_eq!(ledger.execute(S1, Action::Commit), Reply::Done);
    assert_eq!(ledger.find_unreturned_all(), Ok(vec![running(C1, B1, "First", U1, 10)]));
}

#[test]
fn the_store_answers_each_action() {
    let mut ledger = library();
    let not_open = Reply::Failed("no transaction is open".to_string());
    assert_eq!(ledger.execute(S1, Action::Commit), not_open);
    assert_eq!(ledger.execute(S1, Action::ReadState { book_id: B1 }), not_open);
    assert_eq!(ledger.execute(S1, Action::Begin), Reply::Done);
    assert_eq!(ledger.execute(S2, Action::SetSerializable), not_open);
    assert_eq!(
        ledger.execute(S1, Action::Begin),
        Reply::Failed("a transaction is already open".to_string())
    );
    assert_eq!(
        ledger.execute(S1, Action::ReadState { book_id: B1 }),
        Reply::State(Some(CheckoutStateRow { book_id: B1, checkout_id: None, user_id: None }))
    );
    assert_eq!(ledger.execute(S1, Action::ReadState { book_id: BookId(9) }), Reply::State(None));
    assert_eq!(
        ledger.execute(S1, Action::InsertReturned { checkout_id: C1, returned_at: 5 }),
        Reply::Affected(0)
    );
    assert_eq!(ledger.execute(S1, Action::DeleteCheckout { checkout_id: C1 }), Reply::Affected(0));
    let record =
        LoanRecord { checkout_id: C1, book_id: BookId(9), user_id: U1, checked_out_at: 10 };
    assert_eq!(
        ledger.execute(S1, Action::InsertCheckout { record }),
        Reply::Failed("the row violates a constraint".to_string())
    );
    let record = LoanRecord { book_id: B1, ..record };
    assert_eq!(ledger.execute(S1, Action::InsertCheckout { record }), Reply::Affected(1));
    assert_eq!(
        ledger.execute(S1, Action::InsertCheckout { record }),
        Reply::Failed("the row violates a constraint".to_string())
    );
    assert_eq!(
        ledger.execute(S1, Action::ReadState { book_id: B1 }),
        Reply::State(Some(CheckoutStateRow {
            book_id: B1,
            checkout_id: Some(C1),
            user_id: Some(U1),
        }))
    );
    assert_eq!(
        ledger.execute(S1, Action::InsertReturned { checkout_id: C1, returned_at: 5 }),
        Reply::Affected(1)
    );
    assert_eq!(
        ledger.execute(S1, Action::InsertReturned { checkout_id: C1, returned_at: 6 }),
        Reply::Failed("the row violates a constraint".to_string())
    );
    assert_eq!(ledger.execute(S1, Action::DeleteCheckout { checkout_id: C1 }), Reply::Affected(1));
    ledger.rollback(S1);
    assert_eq!(ledger.execute(S1, Action::Commit), not_open);
    assert_eq!(ledger.find_history_by_book_id(B1), Ok(vec![]));
}

#[test]
fn a_request_needs_the_store_s_own_connection() {
    let mut ledger = library();
    // A transaction on another connection is in nobody's way.
    assert_eq!(ledger.execute(S1, Action::Begin), Reply::Done);
    assert_eq!(ledger.create_with_id(CreateCheckout::new(B1, U1, 10), C1), Ok(()));
    // One on the store's own connection is.
    assert_eq!(own_connection(), SessionId(0));
    assert_eq!(ledger.execute(own_connection(), Action::Begin), Reply::Done);
    assert_eq!(
        ledger.create_with_id(CreateCheckout::new(B2, U1, 10), C2),
        Err(AppError::TransactionError("a transaction is already open".to_string()))
    );
    // It is still there, untouched.
    assert_eq!(ledger.execute(own_connection(), Action::Commit), Reply::Done);
    assert_eq!(ledger.create_with_id(CreateCheckout::new(B2, U1, 10), C2), Ok(()));
}

#[test]
fn the_first_commit_wins_and_the_store_gives_up_the_others() {
    let mut ledger = library();
    assert_eq!(ledger.execute(S1, Action::Begin), Reply::Done);
    assert_eq!(ledger.execute(S2, Action::Begin), Reply::Done);
    let first = LoanRecord { checkout_id: C1, book_id: B1, user_id: U1, checked_out_at: 10 };
    let second = LoanRecord { checkout_id: C2, book_id: B1, user_id: U2, checked_out_at: 11 };
    assert_eq!(ledger.execute(S1, Action::InsertCheckout { record: first }), Reply::Affected(1));
    assert_eq!(ledger.execute(S2, Action::InsertCheckout { record: second }), Reply::Affected(1));
    assert_eq!(ledger.execute(S2, Action::Commit), Reply::Done);
    assert_eq!(
        ledger.execute(S1, Action::Commit),
        Reply::Aborted("could not serialize access due to a concurrent commit".to_string())
    );
    // The transaction that was given up is closed.
    assert_eq!(
        ledger.execute(S1, Action::Commit),
        Reply::Failed("no transaction is open".to_string())
    );
    assert_eq!(ledger.find_unreturned_all(), Ok(vec![running(C2, B1, "First", U2, 11)]));
}

/// Runs the requests at once: the schedule names, step by step, the request
/// that takes its next step, each on a connection of its own.
fn race(
    ledger: &mut Ledger,
    requests: &[Request],
    schedule: &[usize],
) -> Vec<Option<Result<(), AppError>>> {
    let mut running: Vec<Option<(Transaction, Action)>> =
        requests.iter().map(|request| Some(Transaction::start(*request))).collect();
    let mut verdicts: Vec<Option<Result<(), AppError>>> = requests.iter().map(|_| None).collect();
    for &who in schedule {
        let Some((tx, action)) = running[who] else {
            continue;
        };
        let session = SessionId(100 + who as u64);
        let reply = ledger.execute(session, action);
        match tx.step(reply) {
            Next::Perform(then, following) => running[who] = Some((then, following)),
            Next::Abort(e) => {
                ledger.rollback(session);
                running[who] = None;
                verdicts[who] = Some(Err(e));
            }
            Next::Finish(verdict) => {
                running[who] = None;
                verdicts[who] = Some(verdict);
            }
        }
    }
    verdicts
}

fn lend_requests(book: BookId, n: usize) -> Vec<Request> {
    (0..n)
        .map(|i| Request::Create {
            event: CreateCheckout::new(book, UserId(i as u128), 10 + i as i64),
            checkout_id: CheckoutId(0xc0 + i as u128),
        })
        .collect()
}

fn count(verdicts: &[Option<Result<(), AppError>>]) -> (usize, usize) {
    let won = verdicts.iter().filter(|v| matches!(v, Some(Ok(())))).count();
    let lost = verdicts
        .iter()
        .filter(|v| matches!(v, Some(Err(AppError::UnprocessableEntity(_)))))
        .count();
    (won, lost)
}

#[test]
fn of_requests_that_race_step_by_step_exactly_one_wins() {
    let n = 5;
    let requests = lend_requests(B1, n);
    // Round robin: everybody reads before anybody commits.
    let schedule: Vec<usize> = (0..6).flat_map(|_| 0..n).collect();
    let mut ledger = library();
    let verdicts = race(&mut ledger, &requests, &schedule);
    assert_eq!(count(&verdicts), (1, n - 1));
    assert_eq!(verdicts[0], Some(Ok(())));
    for verdict in &verdicts[1..] {
        assert_eq!(
            verdict,
            &Some(Err(AppError::UnprocessableEntity(
                "could not serialize access due to a concurrent commit".to_string()
            )))
        );
    }
    assert_eq!(
        ledger.find_unreturned_all(),
        Ok(vec![running(CheckoutId(0xc0), B1, "First", UserId(0), 10)])
    );
}

#[test]
fn of_requests_that_race_in_any_order_exactly_one_wins() {
    let n = 4;
    let requests = lend_requests(B1, n);
    // A few hundred schedules from a small generator: each names a racer
    // per step, and ends with enough rounds for everybody to finish.
    let mut seed: u64 = 0x2545_f491_4f6c_dd1d;
    for _ in 0..300 {
        let mut schedule: Vec<usize> = Vec::new();
        for _ in 0..(5 * n) {
            seed ^= seed << 13;
            seed ^= seed >> 7;
            seed ^= seed << 17;
            schedule.push((seed % n as u64) as usize);
        }
        schedule.extend((0..5).flat_map(|_| 0..n));
        let mut ledger = library();
        let verdicts = race(&mut ledger, &requests, &schedule);
        assert_eq!(count(&verdicts), (1, n - 1), "{schedule:?}");
        let lent = ledger.find_unreturned_all().unwrap();
        assert_eq!(lent.len(), 1);
        let winner = verdicts.iter().position(|v| v == &Some(Ok(()))).unwrap();
        assert_eq!(lent[0].id, CheckoutId(0xc0 + winner as u128));
        assert_eq!(ledger.find_history_by_book_id(B1), Ok(lent));
    }
}

#[test]
fn a_race_that_is_not_over_has_no_second_winner() {
    let requests = lend_requests(B1, 3);
    let mut ledger = library();
    // The first racer runs to its end; the others have only begun.
    let verdicts = race(&mut ledger, &requests, &[1, 2, 0, 0, 0, 0, 0, 1, 2]);
    assert_eq!(verdicts, vec![Some(Ok(())), None, None]);
    assert_eq!(ledger.find_unreturned_all().unwrap().len(), 1);
}

fn lend_through<R: CheckoutRepository>(repository: &mut R, event: CreateCheckout) -> Result<(), AppError> {
    repository.create(event)
}

#[test]
fn the_ledger_keeps_the_contract_of_the_repository() {
    let mut ledger = library();
    assert_eq!(lend_through(&mut ledger, CreateCheckout::new(B1, U1, 10)), Ok(()));
    assert!(matches!(
        lend_through(&mut ledger, CreateCheckout::new(B1, U2, 20)),
        Err(AppError::UnprocessableEntity(_))
    ));
    let lent = CheckoutRepository::find_unreturned_by_user_id(&ledger, U1).unwrap();
    assert_eq!(lent.len(), 1);
    let cid = lent[0].id;
    assert_eq!(
        CheckoutRepository::update_returned(&mut ledger, UpdateReturned::new(cid, B1, U1, 30)),
        Ok(())
    );
    assert_eq!(CheckoutRepository::find_unreturned_all(&ledger), Ok(vec![]));
    assert_eq!(
        CheckoutRepository::find_history_by_book_id(&ledger, B1),
        Ok(vec![over(cid, B1, "First", U1, 10, 30)])
    );
}

fn serialization_conflict() -> Standing {
    Standing::Over(Err(AppError::UnprocessableEntity(
        "could not serialize access due to a concurrent commit".to_string(),
    )))
}

#[test]
fn run_at_once_lets_exactly_one_of_the_racers_through() {
    let n = 5;
    let requests = lend_requests(B1, n);
    let schedule: Vec<usize> = (0..6).flat_map(|_| 0..n).collect();
    let mut ledger = library();
    let standings = ledger.run_at_once(&requests, &schedule);
    let mut expected = vec![Standing::Over(Ok(()))];
    for _ in 1..n {
        expected.push(serialization_conflict());
    }
    assert_eq!(standings, expected);
    assert_eq!(
        ledger.find_unreturned_all(),
        Ok(vec![running(CheckoutId(0xc0), B1, "First", UserId(0), 10)])
    );
}

#[test]
fn run_at_once_has_one_winner_under_every_schedule_tried() {
    let n = 4;
    let requests = lend_requests(B1, n);
    let mut seed: u64 = 0x9e37_79b9_7f4a_7c15;
    for _ in 0..300 {
        let mut schedule: Vec<usize> = Vec::new();
        for _ in 0..(6 * n) {
            seed ^= seed << 13;
            seed ^= seed >> 7;
            seed ^= seed << 17;
            // Now and then a turn names nobody.
            schedule.push((seed % (n as u64 + 1)) as usize);
        }
        schedule.extend((0..5).flat_map(|_| 0..n));
        let mut ledger = library();
        let standings = ledger.run_at_once(&requests, &schedule);
        let won = standings.iter().filter(|s| matches!(s, Standing::Over(Ok(())))).count();
        let lost = standings
            .iter()
            .filter(|s| matches!(s, Standing::Over(Err(AppError::UnprocessableEntity(_)))))
            .count();
        assert_eq!((won, lost), (1, n - 1), "{schedule:?}");
        assert_eq!(ledger.find_unreturned_all().unwrap().len(), 1);
    }
}

#[test]
fn run_at_once_leaves_a_racer_that_had_no_turn_where_it_was() {
    let requests = lend_requests(B1, 3);
    let mut ledger = library();
    // The second racer runs to its end, the first takes two steps, the third
    // none; a turn for a fourth racer is nobody's.
    let standings = ledger.run_at_once(&requests, &vec![0, 1, 1, 3, 1, 0, 1, 1]);
    assert_eq!(
        standings,
        vec![
            Standing::Running(
                Transaction { request: requests[0], phase: Phase::Read },
                Action::ReadState { book_id: B1 },
            ),
            Standing::Over(Ok(())),
            Standing::Running(
                Transaction { request: requests[2], phase: Phase::Begin },
                Action::Begin,
            ),
        ]
    );
    assert_eq!(
        ledger.find_unreturned_all(),
        Ok(vec![running(CheckoutId(0xc1), B1, "First", UserId(1), 11)])
    );
    // The race goes on where it stopped: the first racer is on its lane.
    assert_eq!(
        ledger.execute(SessionId(1), Action::ReadState { book_id: B1 }),
        Reply::State(Some(CheckoutStateRow { book_id: B1, checkout_id: None, user_id: None }))
    );
}

#[test]
fn run_at_once_refuses_who_begins_after_the_winner_at_the_read() {
    let requests = lend_requests(B1, 2);
    let mut ledger = library();
    let standings = ledger.run_at_once(&requests, &vec![0, 0, 0, 0, 0, 1, 1, 1]);
    assert_eq!(
        standings,
        vec![
            Standing::Over(Ok(())),
            Standing::Over(Err(AppError::UnprocessableEntity(format!(
                "The book ({B1_TEXT}) was already borrowed"
            )))),
        ]
    );
}

#[test]
fn run_at_once_with_no_request_or_no_turn_changes_nothing() {
    let mut ledger = library();
    assert_eq!(ledger.run_at_once(&vec![], &vec![0, 1, 2]), vec![]);
    let requests = lend_requests(B1, 1);
    assert_eq!(
        ledger.run_at_once(&requests, &vec![]),
        vec![Standing::Running(
            Transaction { request: requests[0], phase: Phase::Begin },
            Action::Begin,
        )]
    );
    assert_eq!(ledger.find_unreturned_all(), Ok(vec![]));
}

#[test]
fn run_in_turn_lets_the_first_through_and_refuses_the_rest() {
    let requests = lend_requests(B1, 4);
    let mut ledger = library();
    let verdicts = ledger.run_in_turn(&requests);
    let conflict = Err(AppError::UnprocessableEntity(format!(
        "The book ({B1_TEXT}) was already borrowed"
    )));
    assert_eq!(verdicts, vec![Ok(()), conflict.clone(), conflict.clone(), conflict]);
    assert_eq!(
        ledger.find_unreturned_all(),
        Ok(vec![running(CheckoutId(0xc0), B1, "First", UserId(0), 10)])
    );
    assert_eq!(ledger.run_in_turn(&vec![]), vec![]);
}

#[test]
fn run_in_turn_runs_loans_and_returns_alike() {
    let mut ledger = library();
    let requests = vec![
        Request::Create { event: CreateCheckout::new(B1, U1, 10), checkout_id: C1 },
        Request::Return { event: UpdateReturned::new(C1, B1, U2, 20) },
        Request::Return { event: UpdateReturned::new(C1, B1, U1, 20) },
        Request::Create { event: CreateCheckout::new(B1, U2, 30), checkout_id: C1 },
        Request::Create { event: CreateCheckout::new(B1, U2, 30), checkout_id: C2 },
    ];
    let verdicts = ledger.run_in_turn(&requests);
    assert_eq!(verdicts[0], Ok(()));
    assert!(matches!(verdicts[1], Err(AppError::UnprocessableEntity(_))));
    assert_eq!(verdicts[2], Ok(()));
    assert_eq!(
        verdicts[3],
        Err(AppError::SpecificOperationError("the row violates a constraint".to_string()))
    );
    assert_eq!(verdicts[4], Ok(()));
    assert_eq!(
        ledger.find_history_by_book_id(B1),
        Ok(vec![running(C2, B1, "First", U2, 30), over(C1, B1, "First", U1, 10, 20)])
    );
}
