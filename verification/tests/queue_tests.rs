use crossbeam::queue::SegQueue;
use grip_grab::app::UiResult;
use grip_grab::queue::{
    drain_rows, enqueue_file_results, forwarder_step, results_queue_size, ui_queue_size,
};
use grip_grab::search::{FileResults, MatchRange, SearchResult};

fn one_result(line_number: u64, line: &str) -> SearchResult {
    SearchResult {
        line_number,
        line: line.to_string(),
        line_start: line_number,
        line_end: line_number,
        matches: vec![MatchRange::new(0, 1)],
    }
}

#[test]
fn empty_results_never_enter_the_queue() {
    let mut queue: SegQueue<FileResults> = SegQueue::new();
    let empty = FileResults { path: String::from("empty.txt"), results: vec![] };
    assert!(!enqueue_file_results(&mut queue, empty));
    assert_eq!(results_queue_size(&queue), 0);
    let full = FileResults { path: String::from("full.txt"), results: vec![one_result(1, "x\n")] };
    assert!(enqueue_file_results(&mut queue, full));
    assert_eq!(results_queue_size(&queue), 1);
    assert_eq!(queue.pop().unwrap().path, "full.txt");
}

#[test]
fn forwarder_flattens_one_result_set() {
    let mut queue: SegQueue<FileResults> = SegQueue::new();
    let mut ui: SegQueue<UiResult> = SegQueue::new();
    let set = FileResults {
        path: String::from("src/lib.rs"),
        results: vec![one_result(3, "three\n"), one_result(7, "seven\n")],
    };
    enqueue_file_results(&mut queue, set);
    assert!(forwarder_step(&mut queue, &mut ui, false));
    assert_eq!(results_queue_size(&queue), 0);
    assert_eq!(ui_queue_size(&ui), 2);
    let first = ui.pop().unwrap();
    assert_eq!(first.path, "src/lib.rs");
    assert_eq!(first.line_number, 3);
    assert_eq!(first.line, "three\n");
    let second = ui.pop().unwrap();
    assert_eq!(second.line_number, 7);
    assert!(!forwarder_step(&mut queue, &mut ui, false));
}

#[test]
fn cancelled_forwarder_relays_nothing() {
    let mut queue: SegQueue<FileResults> = SegQueue::new();
    let mut ui: SegQueue<UiResult> = SegQueue::new();
    let set = FileResults { path: String::from("a"), results: vec![one_result(1, "x\n")] };
    enqueue_file_results(&mut queue, set);
    assert!(!forwarder_step(&mut queue, &mut ui, true));
    assert_eq!(results_queue_size(&queue), 1);
    assert_eq!(ui_queue_size(&ui), 0);
}

#[test]
fn drain_moves_at_most_the_batch() {
    let mut ui: SegQueue<UiResult> = SegQueue::new();
    for i in 0..5u64 {
        ui.push(UiResult {
            path: String::from("p"),
            line_number: i + 1,
            line: String::from("l\n"),
            matches: vec![],
        });
    }
    let mut displayed: Vec<UiResult> = Vec::new();
    assert_eq!(drain_rows(&mut ui, &mut displayed, 3), 3);
    assert_eq!(displayed.len(), 3);
    assert_eq!(ui_queue_size(&ui), 2);
    assert_eq!(displayed[0].line_number, 1);
    assert_eq!(displayed[2].line_number, 3);
    assert_eq!(drain_rows(&mut ui, &mut displayed, 3), 2);
    assert_eq!(displayed.len(), 5);
    assert_eq!(displayed[4].line_number, 5);
    assert_eq!(drain_rows(&mut ui, &mut displayed, 3), 0);
}
