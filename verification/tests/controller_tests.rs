use crossbeam::queue::SegQueue;
use grip_grab::app::UiResult;
use grip_grab::controller::{IncrementalSearchController, SearchCommand, DRAIN_BATCH};

fn row(line_number: u64) -> UiResult {
    UiResult {
        path: String::from("p"),
        line_number,
        line: String::from("l\n"),
        matches: vec![],
    }
}

#[test]
fn short_query_clears_and_idles() {
    let mut c = IncrementalSearchController::new();
    assert_eq!(c.current_generation(), 0);
    assert!(!c.searching());
    let cmd = c.on_query_change(1);
    assert_eq!(cmd, SearchCommand::ClearResults);
    assert!(!c.searching());
    assert_eq!(c.current_generation(), 0);
    assert!(c.results().is_empty());
}

#[test]
fn long_query_starts_next_generation() {
    let mut c = IncrementalSearchController::new();
    let cmd = c.on_query_change(3);
    assert_eq!(cmd, SearchCommand::StartSearch(1));
    assert!(c.searching());
    assert_eq!(c.current_generation(), 1);
    let cmd = c.on_query_change(4);
    assert_eq!(cmd, SearchCommand::StartSearch(2));
    assert_eq!(c.current_generation(), 2);
}

#[test]
fn stale_generation_rows_are_never_displayed() {
    let mut c = IncrementalSearchController::new();
    assert_eq!(c.on_query_change(3), SearchCommand::StartSearch(1));
    let mut first_gen_buffer: SegQueue<UiResult> = SegQueue::new();
    first_gen_buffer.push(row(1));
    assert_eq!(c.drain_tick(&mut first_gen_buffer, 1), 1);
    assert_eq!(c.results().len(), 1);

    assert_eq!(c.on_query_change(5), SearchCommand::StartSearch(2));
    assert!(c.results().is_empty());
    first_gen_buffer.push(row(2));
    assert_eq!(c.drain_tick(&mut first_gen_buffer, 1), 0);
    assert!(c.results().is_empty());
    assert_eq!(first_gen_buffer.len(), 1);

    let mut second_gen_buffer: SegQueue<UiResult> = SegQueue::new();
    second_gen_buffer.push(row(9));
    assert_eq!(c.drain_tick(&mut second_gen_buffer, 2), 1);
    assert_eq!(c.results().len(), 1);
    assert_eq!(c.results()[0].line_number, 9);
}

#[test]
fn idle_controller_accepts_nothing() {
    let mut c = IncrementalSearchController::new();
    assert_eq!(c.on_query_change(0), SearchCommand::ClearResults);
    let mut buffer: SegQueue<UiResult> = SegQueue::new();
    buffer.push(row(1));
    assert_eq!(c.drain_tick(&mut buffer, 0), 0);
    assert!(c.results().is_empty());
}

#[test]
fn tick_drains_a_bounded_batch() {
    let mut c = IncrementalSearchController::new();
    assert_eq!(c.on_query_change(2), SearchCommand::StartSearch(1));
    let mut buffer: SegQueue<UiResult> = SegQueue::new();
    for i in 0..(DRAIN_BATCH as u64 + 17) {
        buffer.push(row(i));
    }
    assert_eq!(c.drain_tick(&mut buffer, 1), DRAIN_BATCH);
    assert_eq!(c.results().len(), DRAIN_BATCH);
    assert_eq!(buffer.len(), 17);
    assert_eq!(c.drain_tick(&mut buffer, 1), 17);
    assert_eq!(c.results().len(), DRAIN_BATCH + 17);
}
