use beef_market::worker::db_queries::ProductWithoutInfoDb;
use beef_market::worker::{
    is_time_to_run, next_step, WorkerAction, WorkerEvent, WorkerLoop, WorkerState,
};

#[test]
fn first_run_is_due() {
    assert!(is_time_to_run(None, 0, 0));
    assert!(is_time_to_run(None, 1_700_000_000, 5));
}

#[test]
fn run_is_due_after_a_day() {
    let last = 1_700_000_000u64;
    assert!(!is_time_to_run(Some(last), last, 0));
    assert!(!is_time_to_run(Some(last), last + 86_399, 999_999_999));
    assert!(is_time_to_run(Some(last), last + 86_400, 0));
    assert!(is_time_to_run(Some(last), last + 100_000, 1));
}

fn drive(events: &[WorkerEvent], scrapers: usize) -> (WorkerState, Vec<WorkerAction>) {
    let (mut w, first) = WorkerLoop::new(scrapers);
    let mut actions = vec![first];
    for e in events {
        actions.push(w.step(*e));
    }
    (w.state, actions)
}

#[test]
fn round_with_scraping() {
    let events = [
        WorkerEvent::Schedule { last_run_secs: None, now_secs: 100, now_nanos: 0 },
        WorkerEvent::Clock { now_secs: 101 },
        WorkerEvent::ScraperDone,
        WorkerEvent::ScraperDone,
        WorkerEvent::Clock { now_secs: 150 },
        WorkerEvent::RunRecorded,
        WorkerEvent::Batch { len: 2 },
        WorkerEvent::ItemDone,
        WorkerEvent::ItemDone,
        WorkerEvent::Batch { len: 0 },
        WorkerEvent::Batch { len: 2 },
        WorkerEvent::CutGuessed { found: true },
        WorkerEvent::ItemDone,
        WorkerEvent::CutGuessed { found: false },
        WorkerEvent::Batch { len: 0 },
        WorkerEvent::Slept,
    ];
    let (state, actions) = drive(&events, 2);
    assert_eq!(state, WorkerState::CheckingSchedule);
    assert_eq!(
        actions,
        vec![
            WorkerAction::CheckSchedule,
            WorkerAction::ReadClock,
            WorkerAction::RunScraper { index: 0 },
            WorkerAction::RunScraper { index: 1 },
            WorkerAction::ReadClock,
            WorkerAction::RecordRun { started: 101, finished: 150 },
            WorkerAction::FetchUnembedded,
            WorkerAction::Embed { index: 0 },
            WorkerAction::Embed { index: 1 },
            WorkerAction::FetchUnembedded,
            WorkerAction::FetchUncut,
            WorkerAction::GuessCut { index: 0 },
            WorkerAction::StoreCut { index: 0 },
            WorkerAction::GuessCut { index: 1 },
            WorkerAction::FetchUncut,
            WorkerAction::Sleep { secs: 60 },
            WorkerAction::CheckSchedule,
        ]
    );
}

#[test]
fn round_without_scraping() {
    let events = [
        WorkerEvent::Schedule { last_run_secs: Some(1000), now_secs: 2000, now_nanos: 0 },
        WorkerEvent::Batch { len: 0 },
        WorkerEvent::Batch { len: 0 },
    ];
    let (state, actions) = drive(&events, 3);
    assert_eq!(state, WorkerState::Sleeping);
    assert_eq!(
        actions,
        vec![
            WorkerAction::CheckSchedule,
            WorkerAction::FetchUnembedded,
            WorkerAction::FetchUncut,
            WorkerAction::Sleep { secs: 60 },
        ]
    );
}

#[test]
fn scraping_with_no_shops_still_records_the_run() {
    let events = [
        WorkerEvent::Schedule { last_run_secs: None, now_secs: 5, now_nanos: 0 },
        WorkerEvent::Clock { now_secs: 6 },
        WorkerEvent::Clock { now_secs: 7 },
    ];
    let (_, actions) = drive(&events, 0);
    assert_eq!(
        actions,
        vec![
            WorkerAction::CheckSchedule,
            WorkerAction::ReadClock,
            WorkerAction::ReadClock,
            WorkerAction::RecordRun { started: 6, finished: 7 },
        ]
    );
}

#[test]
fn failure_stops_the_loop() {
    let (state, actions) = drive(&[WorkerEvent::Failed, WorkerEvent::Slept], 1);
    assert_eq!(state, WorkerState::Stopped);
    assert_eq!(actions, vec![WorkerAction::CheckSchedule, WorkerAction::Stop, WorkerAction::Stop]);
}

#[test]
fn unexpected_event_stops_the_loop() {
    assert_eq!(
        next_step(WorkerState::Sleeping, WorkerEvent::ItemDone, 1),
        (WorkerState::Stopped, WorkerAction::Stop)
    );
}

#[test]
fn product_without_info_row() {
    let p = ProductWithoutInfoDb::new(7, "Veise sisefilee".to_string());
    assert_eq!(p.id, 7);
    assert_eq!(p.name, "Veise sisefilee");
}
