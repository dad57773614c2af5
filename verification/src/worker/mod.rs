//! The decisions of the background worker. The worker loops for ever: when
//! the last scraping run finished at least a day ago it runs every shop's
//! scraper in turn and records the run; then it gives every product without
//! an embedding one, in batches, then guesses a beef cut for every product
//! without one, in batches; then it sleeps a minute. Every failure stops the
//! loop.
//!
//! The work itself (database, clock, scrapers, language model, sleeping) is
//! done by the caller: it performs the `WorkerAction` that a step returns
//! and reports how it went as the next `WorkerEvent`.
use vstd::prelude::*;

pub mod db_queries;

verus! {

/// Seconds in a day: the least time between two scraping runs.
pub const SCRAPE_INTERVAL_SECS: u64 = 86400u64;

/// Seconds to sleep between two rounds of the loop.
pub const SLEEP_SECS: u64 = 60u64;

pub const NANOS_PER_SEC: u64 = 1_000_000_000u64;

/// Whether scraping is due: there was no run yet, or `now` is at least a day
/// after the last run finished (`last_run_secs`, whole seconds since the
/// epoch; `now` is `now_secs` seconds and `now_nanos` nanoseconds).
pub open spec fn time_to_run(last_run_secs: Option<u64>, now_secs: u64, now_nanos: u32) -> bool {
    match last_run_secs {
        None => true,
        Some(last) => (now_secs * NANOS_PER_SEC + now_nanos) - last * NANOS_PER_SEC
            >= SCRAPE_INTERVAL_SECS * NANOS_PER_SEC,
    }
}

/// Whether scraping is due (see `time_to_run`). A last run after `now` is
/// refused, as the clock went back.
pub fn is_time_to_run(last_run_secs: Option<u64>, now_secs: u64, now_nanos: u32) -> (r: bool)
    requires
        now_nanos < NANOS_PER_SEC,
        last_run_secs matches Some(last) ==> last <= now_secs,
    ensures
        r == time_to_run(last_run_secs, now_secs, now_nanos),
{
    match last_run_secs {
        None => true,
        Some(last) => {
            let elapsed = now_secs - last;
            proof {
                assert((now_secs * NANOS_PER_SEC + now_nanos) - last * NANOS_PER_SEC == elapsed
                    * NANOS_PER_SEC + now_nanos) by (nonlinear_arith)
                    requires
                        elapsed == now_secs - last,
                ;
                assert(elapsed >= SCRAPE_INTERVAL_SECS <==> elapsed * NANOS_PER_SEC + now_nanos
                    >= SCRAPE_INTERVAL_SECS * NANOS_PER_SEC) by (nonlinear_arith)
                    requires
                        now_nanos < NANOS_PER_SEC,
                ;
            }
            elapsed >= SCRAPE_INTERVAL_SECS
        },
    }
}

/// Where the worker is in its loop, and so which event it waits for.
#[derive(Clone, Copy, Debug, PartialEq, Eq, Structural)]
pub enum WorkerState {
    /// Waits for the time of the last run and the clock.
    CheckingSchedule,
    /// Waits for the clock, to stamp the start of a scraping run.
    StartingScrape,
    /// Waits for scraper `next` to finish; the run started at `started`.
    Scraping { next: usize, started: u64 },
    /// Waits for the clock, to stamp the end of the run.
    FinishingScrape { started: u64 },
    /// Waits for the run to be recorded.
    RecordingRun,
    /// Waits for a batch of products without an embedding.
    FetchingUnembedded,
    /// Waits for product `next` of a batch of `len` to get its embedding.
    Embedding { len: usize, next: usize },
    /// Waits for a batch of products without a beef cut.
    FetchingUncut,
    /// Waits for the guess of the beef cut of product `next` of the batch.
    GuessingCut { len: usize, next: usize },
    /// Waits for the guessed beef cut of product `next` to be stored.
    StoringCut { len: usize, next: usize },
    /// Waits for the sleep to end.
    Sleeping,
    /// The loop ended on a failure.
    Stopped,
}

/// What happened after the last action.
#[derive(Clone, Copy, Debug, PartialEq, Eq, Structural)]
pub enum WorkerEvent {
    /// The time the last run finished (if any run was recorded) and the clock.
    Schedule { last_run_secs: Option<u64>, now_secs: u64, now_nanos: u32 },
    /// The clock, in whole seconds.
    Clock { now_secs: u64 },
    /// The scraper ran and its products were stored.
    ScraperDone,
    /// The run was recorded.
    RunRecorded,
    /// A batch of `len` products was fetched.
    Batch { len: usize },
    /// The guess for a product came back, with a cut or without one.
    CutGuessed { found: bool },
    /// The product was dealt with.
    ItemDone,
    /// The sleep ended.
    Slept,
    /// The action failed.
    Failed,
}

/// What the worker asks for next.
#[derive(Clone, Copy, Debug, PartialEq, Eq, Structural)]
pub enum WorkerAction {
    /// Read the time of the last run and the clock.
    CheckSchedule,
    /// Read the clock.
    ReadClock,
    /// Run scraper `index` and store its products.
    RunScraper { index: usize },
    /// Record a run that started and finished at these times.
    RecordRun { started: u64, finished: u64 },
    /// Fetch a batch of products without an embedding.
    FetchUnembedded,
    /// Compute and store the embedding of product `index` of the batch.
    Embed { index: usize },
    /// Fetch a batch of products without a beef cut.
    FetchUncut,
    /// Ask for the beef cut of product `index` of the batch.
    GuessCut { index: usize },
    /// Store the guessed beef cut of product `index` of the batch.
    StoreCut { index: usize },
    /// Sleep this many seconds.
    Sleep { secs: u64 },
    /// Stop the loop.
    Stop,
}

/// The step after a beef cut was dealt with: the next product of the batch,
/// or a new batch.
pub open spec fn after_cut(len: usize, next: usize) -> (WorkerState, WorkerAction) {
    if next + 1 < len {
        (
            WorkerState::GuessingCut { len, next: (next + 1) as usize },
            WorkerAction::GuessCut { index: (next + 1) as usize },
        )
    } else {
        (WorkerState::FetchingUncut, WorkerAction::FetchUncut)
    }
}

/// The worker's transition: from a state and the event that came, with
/// `scrapers` shops to scrape, the next state and the action to perform.
/// An event that the state does not wait for, and every failure, stop the
/// loop.
pub open spec fn transition(state: WorkerState, event: WorkerEvent, scrapers: usize) -> (
    WorkerState,
    WorkerAction,
) {
    let stop = (WorkerState::Stopped, WorkerAction::Stop);
    match (state, event) {
        (WorkerState::CheckingSchedule, WorkerEvent::Schedule { last_run_secs, now_secs, now_nanos }) => {
            if time_to_run(last_run_secs, now_secs, now_nanos) {
                (WorkerState::StartingScrape, WorkerAction::ReadClock)
            } else {
                (WorkerState::FetchingUnembedded, WorkerAction::FetchUnembedded)
            }
        },
        (WorkerState::StartingScrape, WorkerEvent::Clock { now_secs }) => {
            if scrapers == 0 {
                (WorkerState::FinishingScrape { started: now_secs }, WorkerAction::ReadClock)
            } else {
                (
                    WorkerState::Scraping { next: 0, started: now_secs },
                    WorkerAction::RunScraper { index: 0 },
                )
            }
        },
        (WorkerState::Scraping { next, started }, WorkerEvent::ScraperDone) => {
            if next + 1 < scrapers {
                (
                    WorkerState::Scraping { next: (next + 1) as usize, started },
                    WorkerAction::RunScraper { index: (next + 1) as usize },
                )
            } else {
                (WorkerState::FinishingScrape { started }, WorkerAction::ReadClock)
            }
        },
        (WorkerState::FinishingScrape { started }, WorkerEvent::Clock { now_secs }) => (
            WorkerState::RecordingRun,
            WorkerAction::RecordRun { started, finished: now_secs },
        ),
        (WorkerState::RecordingRun, WorkerEvent::RunRecorded) => (
            WorkerState::FetchingUnembedded,
            WorkerAction::FetchUnembedded,
        ),
        (WorkerState::FetchingUnembedded, WorkerEvent::Batch { len }) => {
            if len == 0 {
                (WorkerState::FetchingUncut, WorkerAction::FetchUncut)
            } else {
                (WorkerState::Embedding { len, next: 0 }, WorkerAction::Embed { index: 0 })
            }
        },
        (WorkerState::Embedding { len, next }, WorkerEvent::ItemDone) => {
            if next + 1 < len {
                (
                    WorkerState::Embedding { len, next: (next + 1) as usize },
                    WorkerAction::Embed { index: (next + 1) as usize },
                )
            } else {
                (WorkerState::FetchingUnembedded, WorkerAction::FetchUnembedded)
            }
        },
        (WorkerState::FetchingUncut, WorkerEvent::Batch { len }) => {
            if len == 0 {
                (WorkerState::Sleeping, WorkerAction::Sleep { secs: SLEEP_SECS })
            } else {
                (WorkerState::GuessingCut { len, next: 0 }, WorkerAction::GuessCut { index: 0 })
            }
        },
        (WorkerState::GuessingCut { len, next }, WorkerEvent::CutGuessed { found }) => {
            if found {
                (WorkerState::StoringCut { len, next }, WorkerAction::StoreCut { index: next })
            } else {
                after_cut(len, next)
            }
        },
        (WorkerState::StoringCut { len, next }, WorkerEvent::ItemDone) => after_cut(len, next),
        (WorkerState::Sleeping, WorkerEvent::Slept) => (
            WorkerState::CheckingSchedule,
            WorkerAction::CheckSchedule,
        ),
        _ => stop,
    }
}

/// The indices a state holds are in range: the scraper it waits for exists,
/// and the product it waits for is in its batch.
pub open spec fn state_wf(state: WorkerState, scrapers: usize) -> bool {
    match state {
        WorkerState::Scraping { next, .. } => next < scrapers,
        WorkerState::Embedding { len, next } => next < len,
        WorkerState::GuessingCut { len, next } => next < len,
        WorkerState::StoringCut { len, next } => next < len,
        _ => true,
    }
}

/// The clock may not go back behind the last recorded run: a schedule whose
/// last run lies after `now` is not a valid event (the loop panics on it).
pub open spec fn event_wf(event: WorkerEvent) -> bool {
    match event {
        WorkerEvent::Schedule { last_run_secs, now_secs, now_nanos } => {
            &&& now_nanos < NANOS_PER_SEC
            &&& last_run_secs matches Some(last) ==> last <= now_secs
        },
        _ => true,
    }
}

/// The worker's loop state, for a fixed number of shops.
pub struct WorkerLoop {
    pub scrapers: usize,
    pub state: WorkerState,
}

impl WorkerLoop {
    pub open spec fn wf(&self) -> bool {
        state_wf(self.state, self.scrapers)
    }

    /// A loop over `scrapers` shops, which first checks whether scraping is
    /// due.
    pub fn new(scrapers: usize) -> (r: (WorkerLoop, WorkerAction))
        ensures
            r.0.scrapers == scrapers,
            r.0.state == WorkerState::CheckingSchedule,
            r.1 == WorkerAction::CheckSchedule,
            r.0.wf(),
    {
        (WorkerLoop { scrapers, state: WorkerState::CheckingSchedule }, WorkerAction::CheckSchedule)
    }

    /// Takes in the event that the last action led to and returns the next
    /// action (see `transition`).
    pub fn step(&mut self, event: WorkerEvent) -> (action: WorkerAction)
        requires
            old(self).wf(),
            event_wf(event),
        ensures
            final(self).scrapers == old(self).scrapers,
            (final(self).state, action) == transition(old(self).state, event, old(self).scrapers),
            final(self).wf(),
    {
        let (state, action) = next_step(self.state, event, self.scrapers);
        self.state = state;
        action
    }
}

fn after_cut_step(len: usize, next: usize) -> (r: (WorkerState, WorkerAction))
    requires
        next < len,
    ensures
        r == after_cut(len, next),
        state_wf(r.0, 0),
{
    if next + 1 < len {
        (WorkerState::GuessingCut { len, next: next + 1 }, WorkerAction::GuessCut { index: next + 1 })
    } else {
        (WorkerState::FetchingUncut, WorkerAction::FetchUncut)
    }
}

/// Computes `transition`.
pub fn next_step(state: WorkerState, event: WorkerEvent, scrapers: usize) -> (r: (
    WorkerState,
    WorkerAction,
))
    requires
        state_wf(state, scrapers),
        event_wf(event),
    ensures
        r == transition(state, event, scrapers),
        state_wf(r.0, scrapers),
{
    match (state, event) {
        (WorkerState::CheckingSchedule, WorkerEvent::Schedule { last_run_secs, now_secs, now_nanos }) => {
            if is_time_to_run(last_run_secs, now_secs, now_nanos) {
                (WorkerState::StartingScrape, WorkerAction::ReadClock)
            } else {
                (WorkerState::FetchingUnembedded, WorkerAction::FetchUnembedded)
            }
        },
        (WorkerState::StartingScrape, WorkerEvent::Clock { now_secs }) => {
            if scrapers == 0 {
                (WorkerState::FinishingScrape { started: now_secs }, WorkerAction::ReadClock)
            } else {
                (
                    WorkerState::Scraping { next: 0, started: now_secs },
                    WorkerAction::RunScraper { index: 0 },
                )
            }
        },
        (WorkerState::Scraping { next, started }, WorkerEvent::ScraperDone) => {
            if next + 1 < scrapers {
                (
                    WorkerState::Scraping { next: next + 1, started },
                    WorkerAction::RunScraper { index: next + 1 },
                )
            } else {
                (WorkerState::FinishingScrape { started }, WorkerAction::ReadClock)
            }
        },
        (WorkerState::FinishingScrape { started }, WorkerEvent::Clock { now_secs }) => (
            WorkerState::RecordingRun,
            WorkerAction::RecordRun { started, finished: now_secs },
        ),
        (WorkerState::RecordingRun, WorkerEvent::RunRecorded) => (
            WorkerState::FetchingUnembedded,
            WorkerAction::FetchUnembedded,
        ),
        (WorkerState::FetchingUnembedded, WorkerEvent::Batch { len }) => {
            if len == 0 {
                (WorkerState::FetchingUncut, WorkerAction::FetchUncut)
            } else {
                (WorkerState::Embedding { len, next: 0 }, WorkerAction::Embed { index: 0 })
            }
        },
        (WorkerState::Embedding { len, next }, WorkerEvent::ItemDone) => {
            if next + 1 < len {
                (
                    WorkerState::Embedding { len, next: next + 1 },
                    WorkerAction::Embed { index: next + 1 },
                )
            } else {
                (WorkerState::FetchingUnembedded, WorkerAction::FetchUnembedded)
            }
        },
        (WorkerState::FetchingUncut, WorkerEvent::Batch { len }) => {
            if len == 0 {
                (WorkerState::Sleeping, WorkerAction::Sleep { secs: SLEEP_SECS })
            } else {
                (WorkerState::GuessingCut { len, next: 0 }, WorkerAction::GuessCut { index: 0 })
            }
        },
        (WorkerState::GuessingCut { len, next }, WorkerEvent::CutGuessed { found }) => {
            if found {
                (WorkerState::StoringCut { len, next }, WorkerAction::StoreCut { index: next })
            } else {
                after_cut_step(len, next)
            }
        },
        (WorkerState::StoringCut { len, next }, WorkerEvent::ItemDone) => after_cut_step(len, next),
        (WorkerState::Sleeping, WorkerEvent::Slept) => (
            WorkerState::CheckingSchedule,
            WorkerAction::CheckSchedule,
        ),
        _ => (WorkerState::Stopped, WorkerAction::Stop),
    }
}

/// The states and actions that a sequence of events leads to, one step each.
pub open spec fn run_events(state: WorkerState, events: Seq<WorkerEvent>, scrapers: usize) -> (
    WorkerState,
    Seq<WorkerAction>,
)
    decreases events.len(),
{
    if events.len() == 0 {
        (state, Seq::empty())
    } else {
        let (next, action) = transition(state, events[0], scrapers);
        let (last, rest) = run_events(next, events.drop_first(), scrapers);
        (last, seq![action] + rest)
    }
}

/// Scraping is due when no run was recorded yet.
pub proof fn law_first_run_is_due(now_secs: u64, now_nanos: u32)
    ensures
        time_to_run(None, now_secs, now_nanos),
{
}

/// Scraping is due exactly when a whole day has passed since the last run
/// finished, counted in whole seconds of the clock.
pub proof fn law_due_after_a_day(last: u64, now_secs: u64, now_nanos: u32)
    requires
        now_nanos < NANOS_PER_SEC,
        last <= now_secs,
    ensures
        time_to_run(Some(last), now_secs, now_nanos) <==> now_secs - last >= SCRAPE_INTERVAL_SECS,
{
    let elapsed = now_secs - last;
    assert((now_secs * NANOS_PER_SEC + now_nanos) - last * NANOS_PER_SEC == elapsed * NANOS_PER_SEC
        + now_nanos) by (nonlinear_arith)
        requires
            elapsed == now_secs - last,
    ;
    assert(elapsed >= SCRAPE_INTERVAL_SECS <==> elapsed * NANOS_PER_SEC + now_nanos
        >= SCRAPE_INTERVAL_SECS * NANOS_PER_SEC) by (nonlinear_arith)
        requires
            now_nanos < NANOS_PER_SEC,
    ;
}

/// Once scraping is due it stays due as the clock goes on.
pub proof fn law_due_stays_due(
    last: Option<u64>,
    now_secs: u64,
    now_nanos: u32,
    later_secs: u64,
    later_nanos: u32,
)
    requires
        now_nanos < NANOS_PER_SEC,
        later_nanos < NANOS_PER_SEC,
        last matches Some(l) ==> l <= now_secs,
        now_secs * NANOS_PER_SEC + now_nanos <= later_secs * NANOS_PER_SEC + later_nanos,
        time_to_run(last, now_secs, now_nanos),
    ensures
        time_to_run(last, later_secs, later_nanos),
{
}

/// A failure stops the loop, from whatever state, and a stopped loop stays
/// stopped.
pub proof fn law_failure_stops(state: WorkerState, event: WorkerEvent, scrapers: usize)
    ensures
        transition(state, WorkerEvent::Failed, scrapers) == (WorkerState::Stopped, WorkerAction::Stop),
        transition(WorkerState::Stopped, event, scrapers) == (WorkerState::Stopped, WorkerAction::Stop),
{
}

/// When scraping is not due, the loop goes straight to the embeddings and no
/// scraper runs.
pub proof fn law_no_scraping_when_not_due(
    last_run_secs: Option<u64>,
    now_secs: u64,
    now_nanos: u32,
    scrapers: usize,
)
    requires
        !time_to_run(last_run_secs, now_secs, now_nanos),
    ensures
        transition(
            WorkerState::CheckingSchedule,
            WorkerEvent::Schedule { last_run_secs, now_secs, now_nanos },
            scrapers,
        ) == (WorkerState::FetchingUnembedded, WorkerAction::FetchUnembedded),
{
}

/// A round ends by sleeping a minute, after which the schedule is checked
/// again.
pub proof fn law_round_ends_with_sleep(scrapers: usize)
    ensures
        transition(WorkerState::FetchingUncut, WorkerEvent::Batch { len: 0 }, scrapers) == (
            WorkerState::Sleeping,
            WorkerAction::Sleep { secs: SLEEP_SECS },
        ),
        transition(WorkerState::Sleeping, WorkerEvent::Slept, scrapers) == (
            WorkerState::CheckingSchedule,
            WorkerAction::CheckSchedule,
        ),
{
}

proof fn lemma_run_events_cons(state: WorkerState, e: WorkerEvent, rest: Seq<WorkerEvent>, scrapers: usize)
    ensures
        run_events(state, seq![e] + rest, scrapers) == ({
            let (next, action) = transition(state, e, scrapers);
            let (last, actions) = run_events(next, rest, scrapers);
            (last, seq![action] + actions)
        }),
{
    let events = seq![e] + rest;
    assert(events[0] == e);
    assert(events.drop_first() =~= rest);
}

proof fn lemma_scraping_tail(scrapers: usize, k: usize, started: u64)
    requires
        k < scrapers,
    ensures
        run_events(
            WorkerState::Scraping { next: k, started },
            Seq::new((scrapers - k) as nat, |i: int| WorkerEvent::ScraperDone),
            scrapers,
        ) == (
            WorkerState::FinishingScrape { started },
            Seq::new(
                (scrapers - k - 1) as nat,
                |i: int| WorkerAction::RunScraper { index: (k + 1 + i) as usize },
            ).push(WorkerAction::ReadClock),
        ),
    decreases scrapers - k,
{
    let events = Seq::new((scrapers - k) as nat, |i: int| WorkerEvent::ScraperDone);
    let rest = Seq::new((scrapers - k - 1) as nat, |i: int| WorkerEvent::ScraperDone);
    assert(events =~= seq![WorkerEvent::ScraperDone] + rest);
    lemma_run_events_cons(WorkerState::Scraping { next: k, started }, WorkerEvent::ScraperDone, rest, scrapers);
    if k + 1 < scrapers {
        lemma_scraping_tail(scrapers, (k + 1) as usize, started);
        let tail = Seq::new(
            (scrapers - k - 2) as nat,
            |i: int| WorkerAction::RunScraper { index: (k + 2 + i) as usize },
        ).push(WorkerAction::ReadClock);
        assert(seq![WorkerAction::RunScraper { index: (k + 1) as usize }] + tail =~= Seq::new(
            (scrapers - k - 1) as nat,
            |i: int| WorkerAction::RunScraper { index: (k + 1 + i) as usize },
        ).push(WorkerAction::ReadClock));
    } else {
        assert(rest =~= Seq::<WorkerEvent>::empty());
        assert(seq![WorkerAction::ReadClock] =~= Seq::new(
            (scrapers - k - 1) as nat,
            |i: int| WorkerAction::RunScraper { index: (k + 1 + i) as usize },
        ).push(WorkerAction::ReadClock));
    }
}

/// A scraping round runs every scraper once, in order, between two readings
/// of the clock, and then records the run with those two times.
pub proof fn law_scraping_round(scrapers: usize, started: u64, finished: u64)
    requires
        scrapers > 0,
    ensures
        run_events(
            WorkerState::StartingScrape,
            seq![WorkerEvent::Clock { now_secs: started }] + Seq::new(
                scrapers as nat,
                |i: int| WorkerEvent::ScraperDone,
            ) + seq![WorkerEvent::Clock { now_secs: finished }],
            scrapers,
        ) == (
            WorkerState::RecordingRun,
            seq![WorkerAction::RunScraper { index: 0 }] + Seq::new(
                (scrapers - 1) as nat,
                |i: int| WorkerAction::RunScraper { index: (1 + i) as usize },
            ) + seq![WorkerAction::ReadClock, WorkerAction::RecordRun { started, finished }],
        ),
{
    let done = Seq::new(scrapers as nat, |i: int| WorkerEvent::ScraperDone);
    let last = seq![WorkerEvent::Clock { now_secs: finished }];
    let events = seq![WorkerEvent::Clock { now_secs: started }] + done + last;
    assert(events =~= seq![WorkerEvent::Clock { now_secs: started }] + (done + last));
    lemma_run_events_cons(
        WorkerState::StartingScrape,
        WorkerEvent::Clock { now_secs: started },
        done + last,
        scrapers,
    );
    lemma_run_events_append(WorkerState::Scraping { next: 0, started }, done, last, scrapers);
    lemma_scraping_tail(scrapers, 0, started);
    lemma_run_events_cons(
        WorkerState::FinishingScrape { started },
        WorkerEvent::Clock { now_secs: finished },
        Seq::empty(),
        scrapers,
    );
    assert(last =~= seq![WorkerEvent::Clock { now_secs: finished }] + Seq::<WorkerEvent>::empty());
    let runs = Seq::new(
        (scrapers - 1) as nat,
        |i: int| WorkerAction::RunScraper { index: (1 + i) as usize },
    );
    let runs0 = Seq::new(
        (scrapers - 0 - 1) as nat,
        |i: int| WorkerAction::RunScraper { index: (0 + 1 + i) as usize },
    );
    assert(runs0 =~= runs);
    assert(seq![WorkerAction::RunScraper { index: 0 }] + (runs.push(WorkerAction::ReadClock) + (
    seq![WorkerAction::RecordRun { started, finished }] + Seq::empty())) =~= seq![
        WorkerAction::RunScraper { index: 0 },
    ] + runs + seq![WorkerAction::ReadClock, WorkerAction::RecordRun { started, finished }]);
}

proof fn lemma_run_events_append(
    state: WorkerState,
    a: Seq<WorkerEvent>,
    b: Seq<WorkerEvent>,
    scrapers: usize,
)
    ensures
        run_events(state, a + b, scrapers) == ({
            let (mid, first) = run_events(state, a, scrapers);
            let (last, second) = run_events(mid, b, scrapers);
            (last, first + second)
        }),
    decreases a.len(),
{
    if a.len() == 0 {
        assert(a + b =~= b);
        assert(Seq::<WorkerAction>::empty() + run_events(state, b, scrapers).1 =~= run_events(
            state,
            b,
            scrapers,
        ).1);
    } else {
        let (next, action) = transition(state, a[0], scrapers);
        assert((a + b).drop_first() =~= a.drop_first() + b);
        assert((a + b)[0] == a[0]);
        lemma_run_events_append(next, a.drop_first(), b, scrapers);
        let (mid, first) = run_events(next, a.drop_first(), scrapers);
        let (last, second) = run_events(mid, b, scrapers);
        assert(seq![action] + (first + second) =~= (seq![action] + first) + second);
    }
}

proof fn lemma_embedding_tail(len: usize, k: usize, scrapers: usize)
    requires
        k < len,
    ensures
        run_events(
            WorkerState::Embedding { len, next: k },
            Seq::new((len - k) as nat, |i: int| WorkerEvent::ItemDone),
            scrapers,
        ) == (
            WorkerState::FetchingUnembedded,
            Seq::new((len - k - 1) as nat, |i: int| WorkerAction::Embed { index: (k + 1 + i) as usize })
                .push(WorkerAction::FetchUnembedded),
        ),
    decreases len - k,
{
    let events = Seq::new((len - k) as nat, |i: int| WorkerEvent::ItemDone);
    let rest = Seq::new((len - k - 1) as nat, |i: int| WorkerEvent::ItemDone);
    assert(events =~= seq![WorkerEvent::ItemDone] + rest);
    lemma_run_events_cons(WorkerState::Embedding { len, next: k }, WorkerEvent::ItemDone, rest, scrapers);
    if k + 1 < len {
        lemma_embedding_tail(len, (k + 1) as usize, scrapers);
        let tail = Seq::new(
            (len - k - 2) as nat,
            |i: int| WorkerAction::Embed { index: (k + 2 + i) as usize },
        ).push(WorkerAction::FetchUnembedded);
        assert(seq![WorkerAction::Embed { index: (k + 1) as usize }] + tail =~= Seq::new(
            (len - k - 1) as nat,
            |i: int| WorkerAction::Embed { index: (k + 1 + i) as usize },
        ).push(WorkerAction::FetchUnembedded));
    } else {
        assert(rest =~= Seq::<WorkerEvent>::empty());
        assert(seq![WorkerAction::FetchUnembedded] =~= Seq::new(
            (len - k - 1) as nat,
            |i: int| WorkerAction::Embed { index: (k + 1 + i) as usize },
        ).push(WorkerAction::FetchUnembedded));
    }
}

/// Every product of a fetched batch gets its embedding once, in batch
/// order, and then the next batch is fetched.
pub proof fn law_each_product_embedded_once(len: usize, scrapers: usize)
    requires
        len > 0,
    ensures
        run_events(
            WorkerState::FetchingUnembedded,
            seq![WorkerEvent::Batch { len }] + Seq::new(len as nat, |i: int| WorkerEvent::ItemDone),
            scrapers,
        ) == (
            WorkerState::FetchingUnembedded,
            Seq::new(len as nat, |i: int| WorkerAction::Embed { index: i as usize }).push(
                WorkerAction::FetchUnembedded,
            ),
        ),
{
    let done = Seq::new(len as nat, |i: int| WorkerEvent::ItemDone);
    lemma_run_events_cons(WorkerState::FetchingUnembedded, WorkerEvent::Batch { len }, done, scrapers);
    lemma_embedding_tail(len, 0, scrapers);
    let tail = Seq::new(
        (len - 0 - 1) as nat,
        |i: int| WorkerAction::Embed { index: (0 + 1 + i) as usize },
    ).push(WorkerAction::FetchUnembedded);
    assert(seq![WorkerAction::Embed { index: 0 }] + tail =~= Seq::new(
        len as nat,
        |i: int| WorkerAction::Embed { index: i as usize },
    ).push(WorkerAction::FetchUnembedded));
}

/// The schedule check decides only by the time: whether or not a run was
/// recorded before, scraping starts (the clock is read to stamp the run)
/// exactly when no run was recorded or the last one finished at least a day
/// (86400 seconds) before now; otherwise the loop goes on to the embeddings.
pub proof fn law_schedule_starts_scrape_when_a_day_passed(
    last_run_secs: Option<u64>,
    now_secs: u64,
    now_nanos: u32,
    scrapers: usize,
)
    requires
        event_wf(WorkerEvent::Schedule { last_run_secs, now_secs, now_nanos }),
    ensures
        ({
            let due = match last_run_secs {
                None => true,
                Some(last) => now_secs - last >= 86400,
            };
            transition(
                WorkerState::CheckingSchedule,
                WorkerEvent::Schedule { last_run_secs, now_secs, now_nanos },
                scrapers,
            ) == if due {
                (WorkerState::StartingScrape, WorkerAction::ReadClock)
            } else {
                (WorkerState::FetchingUnembedded, WorkerAction::FetchUnembedded)
            }
        }),
{
    if let Some(last) = last_run_secs {
        law_due_after_a_day(last, now_secs, now_nanos);
    }
}

/// Beef cuts are guessed one product of the batch after the other: a guess
/// that found a cut is stored for that same product before the next one is
/// asked for; a guess without a cut stores nothing; after the last product
/// of the batch the next batch is fetched. A fetched batch starts at its
/// first product.
pub proof fn law_cut_guesses_in_batch_order(len: usize, next: usize, scrapers: usize)
    requires
        next < len,
    ensures
        transition(WorkerState::FetchingUncut, WorkerEvent::Batch { len }, scrapers) == (
            WorkerState::GuessingCut { len, next: 0 },
            WorkerAction::GuessCut { index: 0 },
        ),
        transition(
            WorkerState::GuessingCut { len, next },
            WorkerEvent::CutGuessed { found: true },
            scrapers,
        ) == (WorkerState::StoringCut { len, next }, WorkerAction::StoreCut { index: next }),
        transition(
            WorkerState::GuessingCut { len, next },
            WorkerEvent::CutGuessed { found: false },
            scrapers,
        ) == transition(WorkerState::StoringCut { len, next }, WorkerEvent::ItemDone, scrapers),
        transition(WorkerState::StoringCut { len, next }, WorkerEvent::ItemDone, scrapers) == if next
            + 1 < len {
            (
                WorkerState::GuessingCut { len, next: (next + 1) as usize },
                WorkerAction::GuessCut { index: (next + 1) as usize },
            )
        } else {
            (WorkerState::FetchingUncut, WorkerAction::FetchUncut)
        },
{
}

/// The phases of a round follow each other: a finished scraping run is
/// recorded with the time the clock gave at its end, then the products
/// without an embedding are fetched; when none is left, those without a
/// beef cut are.
pub proof fn law_round_phases_in_order(started: u64, now_secs: u64, scrapers: usize)
    ensures
        transition(WorkerState::FinishingScrape { started }, WorkerEvent::Clock { now_secs }, scrapers)
            == (WorkerState::RecordingRun, WorkerAction::RecordRun { started, finished: now_secs }),
        transition(WorkerState::RecordingRun, WorkerEvent::RunRecorded, scrapers) == (
            WorkerState::FetchingUnembedded,
            WorkerAction::FetchUnembedded,
        ),
        transition(WorkerState::FetchingUnembedded, WorkerEvent::Batch { len: 0 }, scrapers) == (
            WorkerState::FetchingUncut,
            WorkerAction::FetchUncut,
        ),
        transition(WorkerState::StartingScrape, WorkerEvent::Clock { now_secs }, scrapers) == if scrapers
            == 0 {
            (WorkerState::FinishingScrape { started: now_secs }, WorkerAction::ReadClock)
        } else {
            (
                WorkerState::Scraping { next: 0, started: now_secs },
                WorkerAction::RunScraper { index: 0 },
            )
        },
{
}

} // verus!
