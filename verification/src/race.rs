//! Requests that run at once.
//!
//! Each request runs the protocol on a connection of its own, and their
//! steps interleave in any order. The store lets the first commit through
//! and gives up every transaction that began before it: so of any number of
//! requests that race for one book, one gets it and every other is told of
//! a conflict.

use vstd::prelude::*;

use crate::database::checkout::LoanRecord;
use crate::error::{AppError, ErrorView};
use crate::id::BookId;
use crate::laws::law_protocol_ends;
use crate::ledger::lemmas::{lemma_first_after, lemma_lend_obeys, lemma_position};
use crate::ledger::tables::{first_after, has_book, LedgerView, SessionId, Tables};
use crate::ledger::Ledger;
use crate::transaction::{verdict_view, Action, Next, NextView, Phase, Request, Transaction};

verus! {

/// How far a request has got.
pub enum Progress {
    /// Its transaction waits for the reply to the action of this phase.
    Running(Phase),
    /// It is over, with this verdict.
    Over(Result<(), ErrorView>),
}

/// A request that runs at the same time as others, on a connection of its
/// own.
pub struct Racer {
    pub id: SessionId,
    pub request: Request,
    pub progress: Progress,
}

impl Racer {
    /// The racer further on.
    pub open spec fn at(self, progress: Progress) -> Racer {
        Racer { id: self.id, request: self.request, progress }
    }

    /// Whether the racer's request went through.
    pub open spec fn won(self) -> bool {
        self.progress matches Progress::Over(verdict) && verdict is Ok
    }

    /// Whether the racer's request was refused as a conflict.
    pub open spec fn lost(self) -> bool {
        self.progress matches Progress::Over(Err(e)) && e is UnprocessableEntity
    }

    /// The row that the racer's request is to add to the running loans.
    pub open spec fn record(self) -> LoanRecord {
        match self.request {
            Request::Create { event, checkout_id } => LoanRecord {
                checkout_id,
                book_id: event.book_id,
                user_id: event.checked_out_by,
                checked_out_at: event.checked_out_at,
            },
            Request::Return { event } => LoanRecord {
                checkout_id: event.checkout_id,
                book_id: event.book_id,
                user_id: event.returned_by,
                checked_out_at: event.returned_at,
            },
        }
    }
}

/// One step of one racer: the store performs the action that the racer's
/// transaction waits for, and the transaction takes the reply. A racer
/// whose request fails with its transaction open drops the transaction. A
/// racer that is over stays where it is.
pub open spec fn advance(view: LedgerView, racer: Racer) -> (LedgerView, Racer) {
    match racer.progress {
        Progress::Over(_) => (view, racer),
        Progress::Running(phase) => {
            let tx = Transaction { request: racer.request, phase };
            let (after, reply) = view.perform(racer.id, tx.awaited());
            match tx.next(reply) {
                NextView::Perform(then, _) => (after, racer.at(Progress::Running(then.phase))),
                NextView::Abort(e) => (
                    after.rolled_back(racer.id),
                    racer.at(Progress::Over(Err(e))),
                ),
                NextView::Finish(verdict) => (after, racer.at(Progress::Over(verdict))),
            }
        },
    }
}

/// The store and the racers after the steps of a schedule, each of which
/// names the racer that takes the next step.
pub open spec fn race(view: LedgerView, racers: Seq<Racer>, schedule: Seq<int>) -> (
    LedgerView,
    Seq<Racer>,
)
    decreases schedule.len(),
{
    if schedule.len() == 0 {
        (view, racers)
    } else {
        let (before, so_far) = race(view, racers, schedule.drop_last());
        let who = schedule.last();
        if 0 <= who < so_far.len() {
            let (after, moved) = advance(before, so_far[who]);
            (after, so_far.update(who, moved))
        } else {
            (before, so_far)
        }
    }
}

/// Whether the racers are at the start of a race for one book: each is to
/// lend that book and has not begun, no two share a connection, and no
/// transaction is open on the connection of any.
pub open spec fn lined_up(view: LedgerView, racers: Seq<Racer>, book_id: BookId) -> bool {
    &&& forall|i: int|
        0 <= i < racers.len() ==> {
            &&& (#[trigger] racers[i]).progress == Progress::Running(Phase::Begin)
            &&& racers[i].request matches Request::Create { event, .. } && event.book_id == book_id
            &&& !view.is_open(racers[i].id)
        }
    &&& forall|i: int, j: int|
        0 <= i < j < racers.len() ==> (#[trigger] racers[i]).id != (#[trigger] racers[j]).id
}

/// Whether nothing but the race itself can refuse a racer: the book is in
/// the catalogue and in, and no racer's identifier names a loan.
pub open spec fn open_field(view: LedgerView, racers: Seq<Racer>, book_id: BookId) -> bool {
    &&& has_book(view.books, book_id)
    &&& !view.committed.is_out(book_id)
    &&& forall|i: int| 0 <= i < racers.len() ==> !view.blocked((#[trigger] racers[i]).request)
}

/// Where a racer stands in a race that began on the tables `start`, with
/// `now` the committed tables.
///
/// A racer that began before the first commit works on a copy of `start`.
/// One that began after it works on a copy of `now`, in which the book is
/// out, and gets no further than its read.
pub open spec fn placed(start: Tables, view: LedgerView, racer: Racer, book_id: BookId) -> bool {
    let now = view.committed;
    let early = view.sessions[racer.id].base == start;
    let late = now != start && view.sessions[racer.id].base == now;
    let untouched = view.sessions[racer.id].tables == view.sessions[racer.id].base;
    &&& racer.request matches Request::Create { event, .. } && event.book_id == book_id
    &&& match racer.progress {
        Progress::Running(Phase::Begin) => !view.is_open(racer.id),
        Progress::Running(Phase::Isolate) | Progress::Running(Phase::Read) => {
            &&& view.is_open(racer.id)
            &&& untouched
            &&& early || late
        },
        Progress::Running(Phase::Insert) => {
            &&& view.is_open(racer.id)
            &&& untouched
            &&& early
            &&& has_book(view.books, book_id)
            &&& !start.is_out(book_id)
        },
        Progress::Running(Phase::Commit) => {
            &&& view.is_open(racer.id)
            &&& early
            &&& view.sessions[racer.id].tables == start.lend(racer.record())
            &&& start.admits(view.books, racer.record())
        },
        Progress::Running(_) => false,
        Progress::Over(verdict) => {
            &&& !view.is_open(racer.id)
            &&& verdict is Ok ==> now == start.lend(racer.record()) && start.admits(
                view.books,
                racer.record(),
            )
        },
    }
}

/// What holds throughout a race for one book that began on `start`.
pub open spec fn in_order(start: LedgerView, view: LedgerView, racers: Seq<Racer>, book_id: BookId) -> bool {
    let changed = view.committed != start.committed;
    &&& start.wf()
    &&& view.wf()
    &&& view.books == start.books
    &&& forall|i: int, j: int|
        0 <= i < j < racers.len() ==> (#[trigger] racers[i]).id != (#[trigger] racers[j]).id
    &&& forall|i: int|
        0 <= i < racers.len() ==> placed(start.committed, view, #[trigger] racers[i], book_id)
    &&& forall|i: int, j: int|
        0 <= i < racers.len() && 0 <= j < racers.len() && (#[trigger] racers[i]).won()
            && (#[trigger] racers[j]).won() ==> i == j
    &&& forall|i: int| 0 <= i < racers.len() && (#[trigger] racers[i]).won() ==> changed
    &&& changed ==> view.committed.is_out(book_id) && exists|i: int|
        0 <= i < racers.len() && (#[trigger] racers[i]).won()
    &&& open_field(start, racers, book_id) ==> forall|i: int|
        0 <= i < racers.len() && (#[trigger] racers[i]).progress is Over ==> changed && (
        racers[i].won() || racers[i].lost())
}

/// A loan that the store admits leaves its book out, and the tables other
/// than they were.
pub proof fn lemma_lend_shows(tables: Tables, books: Seq<crate::model::checkout::CheckoutBook>, record: LoanRecord)
    requires
        tables.obeys(books),
        tables.admits(books, record),
    ensures
        tables.lend(record).is_out(record.book_id),
        tables.lend(record) != tables,
        tables.lend(record).obeys(books),
{
    let after = tables.lend(record);
    let slot = first_after(tables.loan_times(), record.checked_out_at);
    lemma_first_after(tables.loan_times(), record.checked_out_at);
    lemma_lend_obeys(tables, books, record);
    assert(after.loans[slot] == record);
    assert(after.loan_books()[slot] == record.book_id.0);
    lemma_position(after.loan_books(), record.book_id.0);
    assert(after.loans.len() == tables.loans.len() + 1);
}

/// One step of one racer keeps the race in order.
pub proof fn lemma_advance_in_order(
    start: LedgerView,
    view: LedgerView,
    racers: Seq<Racer>,
    book_id: BookId,
    who: int,
)
    requires
        in_order(start, view, racers, book_id),
        0 <= who < racers.len(),
    ensures
        in_order(
            start,
            advance(view, racers[who]).0,
            racers.update(who, advance(view, racers[who]).1),
            book_id,
        ),
{
    let racer = racers[who];
    let (after, moved) = advance(view, racer);
    let then = racers.update(who, moved);
    let base = start.committed;
    assert(placed(base, view, racer, book_id));
    if racer.progress is Running {
        let phase = racer.progress->Running_0;
        let tx = Transaction { request: racer.request, phase };
        let record = racer.record();
        if phase != Phase::Begin {
            let session = view.sessions[racer.id];
            assert(session.tables.obeys(view.books));
            if phase == Phase::Insert {
                if session.tables.admits(view.books, record) {
                    lemma_lend_shows(session.tables, view.books, record);
                }
            }
            if phase == Phase::Commit {
                lemma_lend_shows(base, view.books, record);
            }
        }
        // The other racers stand where they stood.
        assert forall|i: int| 0 <= i < then.len() implies placed(
            base,
            after,
            #[trigger] then[i],
            book_id,
        ) by {
            if i != who {
                assert(placed(base, view, racers[i], book_id));
                assert(racers[i].id != racer.id);
                assert(then[i] == racers[i]);
                if after.committed != view.committed {
                    // The step was the first commit: until now nobody had
                    // won, so everybody else began on the first tables.
                    assert(view.committed == base);
                    if racers[i].progress matches Progress::Over(verdict) && verdict is Ok {
                        assert(racers[i].won());
                    }
                }
            } else if moved.progress matches Progress::Over(verdict) && verdict is Ok {
                assert(phase == Phase::Commit);
                assert(view.committed == view.sessions[racer.id].base);
                assert(after.committed == view.sessions[racer.id].tables);
            }
        }
        assert forall|i: int, j: int|
            0 <= i < then.len() && 0 <= j < then.len() && (#[trigger] then[i]).won()
                && (#[trigger] then[j]).won() implies i == j by {
            if i != who && j != who {
                assert(racers[i].won() && racers[j].won());
            } else if i != j {
                let other = if i == who {
                    j
                } else {
                    i
                };
                assert(racers[other].won());
                assert(view.committed != base);
            }
        }
        assert forall|i: int| 0 <= i < then.len() && (#[trigger] then[i]).won() implies after.committed
            != base by {
            if i != who {
                assert(racers[i].won());
            }
        }
        if after.committed != base {
            if view.committed != base {
                let winner = choose|i: int| 0 <= i < racers.len() && (#[trigger] racers[i]).won();
                assert(then[winner].won());
            } else {
                assert(then[who].won());
            }
        }
        if open_field(start, racers, book_id) {
            assert(!start.blocked(racer.request));
            assert(open_field(start, then, book_id)) by {
                assert forall|i: int| 0 <= i < then.len() implies !start.blocked(
                    (#[trigger] then[i]).request,
                ) by {
                    assert(!start.blocked(racers[i].request));
                }
            }
            assert forall|i: int|
                0 <= i < then.len() && (#[trigger] then[i]).progress is Over implies after.committed
                != base && (then[i].won() || then[i].lost()) by {
                if i != who {
                    assert(racers[i].progress is Over);
                }
            }
        } else {
            assert(!open_field(start, then, book_id)) by {
                if open_field(start, then, book_id) {
                    assert forall|i: int| 0 <= i < racers.len() implies !start.blocked(
                        (#[trigger] racers[i]).request,
                    ) by {
                        assert(!start.blocked(then[i].request));
                    }
                }
            }
        }
    } else {
        assert(then =~= racers);
    }
}

/// However the steps of the racers interleave, the race stays in order.
pub proof fn lemma_race_in_order(
    view: LedgerView,
    racers: Seq<Racer>,
    book_id: BookId,
    schedule: Seq<int>,
)
    requires
        view.wf(),
        lined_up(view, racers, book_id),
    ensures
        in_order(view, race(view, racers, schedule).0, race(view, racers, schedule).1, book_id),
        race(view, racers, schedule).1.len() == racers.len(),
        forall|i: int|
            0 <= i < racers.len() ==> (#[trigger] race(view, racers, schedule).1[i]).request
                == racers[i].request && race(view, racers, schedule).1[i].id == racers[i].id,
    decreases schedule.len(),
{
    if schedule.len() == 0 {
        assert forall|i: int| 0 <= i < racers.len() implies placed(
            view.committed,
            view,
            #[trigger] racers[i],
            book_id,
        ) by {}
        assert forall|i: int| 0 <= i < racers.len() implies !(#[trigger] racers[i]).won() by {}
        assert forall|i: int| 0 <= i < racers.len() implies !((#[trigger] racers[i]).progress
            is Over) by {}
    } else {
        let earlier = schedule.drop_last();
        lemma_race_in_order(view, racers, book_id, earlier);
        let (before, so_far) = race(view, racers, earlier);
        let who = schedule.last();
        if 0 <= who < so_far.len() {
            lemma_advance_in_order(view, before, so_far, book_id, who);
        }
    }
}

/// Mutual exclusion under concurrency: of any number of requests that race
/// for one book, their steps interleaved in any order, at most one goes
/// through, the store keeps its rules all along, and a racer that went
/// through has put its loan, and nothing else, in the committed tables.
pub proof fn law_one_winner_at_most(
    view: LedgerView,
    racers: Seq<Racer>,
    book_id: BookId,
    schedule: Seq<int>,
)
    requires
        view.wf(),
        lined_up(view, racers, book_id),
    ensures
        ({
            let (after, finals) = race(view, racers, schedule);
            &&& after.wf()
            &&& finals.len() == racers.len()
            &&& forall|i: int, j: int|
                0 <= i < finals.len() && 0 <= j < finals.len() && (#[trigger] finals[i]).won()
                    && (#[trigger] finals[j]).won() ==> i == j
            &&& forall|i: int|
                0 <= i < finals.len() && (#[trigger] finals[i]).won() ==> after.committed
                    == view.committed.lend(racers[i].record())
            &&& (forall|i: int| 0 <= i < finals.len() ==> !(#[trigger] finals[i]).won())
                ==> after.committed == view.committed
        }),
{
    lemma_race_in_order(view, racers, book_id, schedule);
    let (after, finals) = race(view, racers, schedule);
    assert forall|i: int| 0 <= i < finals.len() && (#[trigger] finals[i]).won() implies after.committed
        == view.committed.lend(racers[i].record()) by {
        assert(placed(view.committed, after, finals[i], book_id));
    }
}

/// Mutual exclusion under concurrency, to the end: where the book is in the
/// catalogue and in, and no racer's identifier names a loan, a race that
/// every racer has finished has exactly one winner, and every other racer
/// was refused as a conflict.
pub proof fn law_exactly_one_winner(
    view: LedgerView,
    racers: Seq<Racer>,
    book_id: BookId,
    schedule: Seq<int>,
)
    requires
        view.wf(),
        lined_up(view, racers, book_id),
        open_field(view, racers, book_id),
        racers.len() > 0,
        forall|i: int|
            0 <= i < racers.len() ==> (#[trigger] race(view, racers, schedule).1[i]).progress
                is Over,
    ensures
        exists|winner: int|
            {
                &&& 0 <= winner < racers.len()
                &&& (#[trigger] race(view, racers, schedule).1[winner]).won()
                &&& forall|i: int|
                    0 <= i < racers.len() && i != winner ==> (#[trigger] race(
                        view,
                        racers,
                        schedule,
                    ).1[i]).lost()
            },
{
    lemma_race_in_order(view, racers, book_id, schedule);
    let (after, finals) = race(view, racers, schedule);
    assert(open_field(view, finals, book_id)) by {
        assert forall|i: int| 0 <= i < finals.len() implies !view.blocked(
            (#[trigger] finals[i]).request,
        ) by {
            assert(!view.blocked(racers[i].request));
        }
    }
    assert(finals[0].progress is Over);
    let winner = choose|i: int| 0 <= i < finals.len() && (#[trigger] finals[i]).won();
    assert forall|i: int| 0 <= i < racers.len() && i != winner implies (#[trigger] finals[i]).lost() by {
        assert(finals[i].progress is Over);
    }
}

/// Where a request stands that runs beside others.
#[derive(Debug, PartialEq, Eq)]
pub enum Standing {
    /// Its transaction waits for the store to perform this action.
    Running(Transaction, Action),
    /// It is over, with this verdict.
    Over(Result<(), AppError>),
}

impl View for Standing {
    type V = Progress;

    open spec fn view(&self) -> Progress {
        match self {
            Standing::Running(tx, _) => Progress::Running(tx.phase),
            Standing::Over(verdict) => Progress::Over(verdict_view(*verdict)),
        }
    }
}

impl Standing {
    /// Whether the request went through.
    pub open spec fn won(self) -> bool {
        self matches Standing::Over(verdict) && verdict is Ok
    }

    /// Whether the request was refused as a conflict.
    pub open spec fn lost(self) -> bool {
        self matches Standing::Over(Err(e)) && e is UnprocessableEntity
    }
}

/// The connection on which the request at `place` runs: each request has
/// one of its own, and none has the store's own.
pub open spec fn lane(place: int) -> SessionId {
    SessionId((place + 1) as u64)
}

/// The requests as racers that have not begun, each on its lane.
pub open spec fn starters(requests: Seq<Request>) -> Seq<Racer> {
    Seq::new(
        requests.len(),
        |i: int|
            Racer {
                id: lane(i),
                request: requests[i],
                progress: Progress::Running(Phase::Begin),
            },
    )
}

/// A schedule as the places that it names.
pub open spec fn turns(schedule: Seq<usize>) -> Seq<int> {
    Seq::new(schedule.len(), |k: int| schedule[k] as int)
}

/// A race changes neither the number of the racers nor the connection or
/// the request of any.
pub proof fn lemma_race_keeps_racers(view: LedgerView, racers: Seq<Racer>, schedule: Seq<int>)
    ensures
        race(view, racers, schedule).1.len() == racers.len(),
        forall|i: int|
            0 <= i < racers.len() ==> (#[trigger] race(view, racers, schedule).1[i]).id
                == racers[i].id && race(view, racers, schedule).1[i].request == racers[i].request,
    decreases schedule.len(),
{
    if schedule.len() > 0 {
        lemma_race_keeps_racers(view, racers, schedule.drop_last());
    }
}

impl Ledger {
    /// Runs the requests at once: each runs the protocol on a connection of
    /// its own, and the schedule names, step by step, the place of the
    /// request that takes its next step. A place that names no request, or
    /// one that is over, passes its turn.
    ///
    /// What comes of it is what [`race`] says. In particular, of requests
    /// that are all to lend one book, whatever the schedule, at most one
    /// goes through; and where the book is in the catalogue and in, no
    /// request's identifier names a loan, and every request is over, exactly
    /// one has gone through and every other was refused as a conflict.
    pub fn run_at_once(&mut self, requests: &Vec<Request>, schedule: &Vec<usize>) -> (standings:
        Vec<Standing>)
        requires
            old(self).wf(),
        ensures
            final(self).wf(),
            standings@.len() == requests@.len(),
            final(self)@ == race(old(self)@, starters(requests@), turns(schedule@)).0,
            forall|i: int|
                0 <= i < standings@.len() ==> (#[trigger] standings@[i])@ == race(
                    old(self)@,
                    starters(requests@),
                    turns(schedule@),
                ).1[i].progress,
            forall|book_id: BookId| #[trigger]
                lined_up(old(self)@, starters(requests@), book_id) ==> forall|i: int, j: int|
                    0 <= i < standings@.len() && 0 <= j < standings@.len() && (
                    #[trigger] standings@[i]).won() && (#[trigger] standings@[j]).won() ==> i
                        == j,
            forall|book_id: BookId|
                {
                    &&& #[trigger] lined_up(old(self)@, starters(requests@), book_id)
                    &&& open_field(old(self)@, starters(requests@), book_id)
                    &&& standings@.len() > 0
                    &&& forall|i: int|
                        0 <= i < standings@.len() ==> (#[trigger] standings@[i]) is Over
                } ==> exists|winner: int|
                    {
                        &&& 0 <= winner < standings@.len()
                        &&& (#[trigger] standings@[winner]).won()
                        &&& forall|i: int|
                            0 <= i < standings@.len() && i != winner ==> (
                            #[trigger] standings@[i]).lost()
                    },
    {
        let ghost start = self@;
        let ghost racers = starters(requests@);
        proof {
            self.lemma_rules();
        }
        let mut standings: Vec<Standing> = Vec::new();
        let mut i: usize = 0;
        while i < requests.len()
            invariant
                i <= requests.len(),
                standings@.len() == i,
                forall|k: int|
                    0 <= k < i ==> #[trigger] standings@[k] == Standing::Running(
                        Transaction { request: requests@[k], phase: Phase::Begin },
                        Action::Begin,
                    ),
            decreases requests.len() - i,
        {
            let (tx, action) = Transaction::start(requests[i]);
            standings.push(Standing::Running(tx, action));
            i += 1;
        }
        let mut k: usize = 0;
        while k < schedule.len()
            invariant
                k <= schedule.len(),
                start == old(self)@,
                racers == starters(requests@),
                self.wf(),
                standings@.len() == requests@.len(),
                self@ == race(start, racers, turns(schedule@).take(k as int)).0,
                forall|i: int|
                    0 <= i < standings@.len() ==> (#[trigger] standings@[i])@ == race(
                        start,
                        racers,
                        turns(schedule@).take(k as int),
                    ).1[i].progress,
                forall|i: int|
                    0 <= i < standings@.len() ==> (#[trigger] standings@[i] matches Standing::Running(
                        tx,
                        action,
                    ) ==> tx.request == requests@[i] && action == tx.awaited()),
            decreases schedule.len() - k,
        {
            let who = schedule[k];
            let ghost so_far = turns(schedule@).take(k as int);
            proof {
                let next = turns(schedule@).take(k + 1);
                assert(next.drop_last() =~= so_far);
                assert(next.last() == who as int);
                lemma_race_keeps_racers(start, racers, so_far);
            }
            if who < requests.len() {
                let pending = match &standings[who] {
                    Standing::Running(tx, action) => Some((*tx, *action)),
                    Standing::Over(_) => None,
                };
                match pending {
                    Some((tx, action)) => {
                        let connection = SessionId(who as u64 + 1);
                        proof {
                            law_protocol_ends(tx, self@.perform(connection, action).1);
                        }
                        let reply = self.execute(connection, action);
                        let moved = match tx.step(reply) {
                            Next::Perform(then, following) => Standing::Running(then, following),
                            Next::Abort(e) => {
                                self.rollback(connection);
                                Standing::Over(Err(e))
                            },
                            Next::Finish(verdict) => Standing::Over(verdict),
                        };
                        standings.set(who, moved);
                    },
                    None => {
                        assert(race(start, racers, so_far).1.update(
                            who as int,
                            race(start, racers, so_far).1[who as int],
                        ) =~= race(start, racers, so_far).1);
                    },
                }
            }
            k += 1;
        }
        proof {
            assert(turns(schedule@).take(k as int) =~= turns(schedule@));
            let finals = race(start, racers, turns(schedule@)).1;
            lemma_race_keeps_racers(start, racers, turns(schedule@));
            assert forall|book_id: BookId| #[trigger]
                lined_up(start, racers, book_id) implies forall|i: int, j: int|
                0 <= i < standings@.len() && 0 <= j < standings@.len() && (
                #[trigger] standings@[i]).won() && (#[trigger] standings@[j]).won() ==> i
                    == j by {
                law_one_winner_at_most(start, racers, book_id, turns(schedule@));
                assert forall|i: int, j: int|
                    0 <= i < standings@.len() && 0 <= j < standings@.len() && (
                    #[trigger] standings@[i]).won() && (#[trigger] standings@[j]).won() implies i
                    == j by {
                    assert(finals[i].won() && finals[j].won());
                }
            }
            assert forall|book_id: BookId|
                {
                    &&& #[trigger] lined_up(start, racers, book_id)
                    &&& open_field(start, racers, book_id)
                    &&& standings@.len() > 0
                    &&& forall|i: int|
                        0 <= i < standings@.len() ==> (#[trigger] standings@[i]) is Over
                } implies exists|winner: int|
                {
                    &&& 0 <= winner < standings@.len()
                    &&& (#[trigger] standings@[winner]).won()
                    &&& forall|i: int|
                        0 <= i < standings@.len() && i != winner ==> (
                        #[trigger] standings@[i]).lost()
                } by {
                assert forall|i: int| 0 <= i < racers.len() implies (#[trigger] finals[i]).progress
                    is Over by {
                    assert(standings@[i] is Over);
                }
                law_exactly_one_winner(start, racers, book_id, turns(schedule@));
                let winner = choose|winner: int|
                    {
                        &&& 0 <= winner < racers.len()
                        &&& (#[trigger] finals[winner]).won()
                        &&& forall|i: int|
                            0 <= i < racers.len() && i != winner ==> (#[trigger] finals[i]).lost()
                    };
                assert(standings@[winner]@ == finals[winner].progress);
                assert(standings@[winner].won());
                assert forall|i: int| 0 <= i < standings@.len() && i != winner implies (
                #[trigger] standings@[i]).lost() by {
                    assert(finals[i].lost());
                    assert(standings@[i]@ == finals[i].progress);
                }
            }
        }
        standings
    }
}

} // verus!
