//! The result queue protocol: an unbounded multi-producer/multi-consumer
//! queue of per-file result sets connects the search workers to the consumer,
//! and a second queue of flattened rows feeds the interactive screen. The
//! queues themselves come from crossbeam; the protocol around them — the
//! suppression of empty result sets, the forwarding of one generation's
//! results, the bounded per-tick drain — is verified here.

use vstd::prelude::*;

use crossbeam::queue::SegQueue;

use crate::app::{file_results_to_ui_results, spec_ui_results, UiRec, UiResult};
use crate::search::{FileRec, FileResults};

verus! {

/// crossbeam's unbounded multi-producer/multi-consumer queue, declared so
/// that it can be held and passed around; what it holds is named below and
/// pinned down by the wrappers.
#[verifier::external_type_specification]
#[verifier::external_body]
#[verifier::reject_recursive_types(T)]
pub struct ExSegQueue<T>(SegQueue<T>);

/// What a queue of per-file result sets holds, oldest first.
pub uninterp spec fn file_results_in_queue(q: SegQueue<FileResults>) -> Seq<FileRec>;

/// What a queue of display rows holds, oldest first.
pub uninterp spec fn ui_rows_in_queue(q: SegQueue<UiResult>) -> Seq<UiRec>;

/// Relies on crossbeam's `SegQueue::new`: the queue starts empty.
#[verifier::external_body]
pub(crate) fn new_results_queue() -> (q: SegQueue<FileResults>)
    ensures
        file_results_in_queue(q) == Seq::<FileRec>::empty(),
{
    SegQueue::new()
}

/// Relies on crossbeam's `SegQueue::push_mut`: appends the value at the back
/// of the queue.
#[verifier::external_body]
pub(crate) fn results_queue_push(q: &mut SegQueue<FileResults>, value: FileResults)
    ensures
        file_results_in_queue(*final(q)) == file_results_in_queue(*old(q)).push(value@),
{
    q.push_mut(value)
}

/// Relies on crossbeam's `SegQueue::pop_mut`: removes and returns the oldest
/// element, or returns nothing exactly when the queue is empty.
#[verifier::external_body]
pub(crate) fn results_queue_pop(q: &mut SegQueue<FileResults>) -> (r: Option<FileResults>)
    ensures
        file_results_in_queue(*old(q)).len() == 0 ==> r is None && file_results_in_queue(
            *final(q),
        ) == file_results_in_queue(*old(q)),
        file_results_in_queue(*old(q)).len() > 0 ==> (r matches Some(x) && x@
            == file_results_in_queue(*old(q)).first() && file_results_in_queue(*final(q))
            == file_results_in_queue(*old(q)).drop_first()),
{
    q.pop_mut()
}

/// Relies on crossbeam's `SegQueue::len`: the number of elements held. Under
/// concurrent access this is approximate; the library uses it only on a
/// queue it holds exclusively.
#[verifier::external_body]
pub(crate) fn results_queue_len(q: &SegQueue<FileResults>) -> (n: usize)
    ensures
        n == file_results_in_queue(*q).len(),
{
    q.len()
}

/// Relies on crossbeam's `SegQueue::new`: the queue starts empty.
#[verifier::external_body]
pub(crate) fn new_ui_queue() -> (q: SegQueue<UiResult>)
    ensures
        ui_rows_in_queue(q) == Seq::<UiRec>::empty(),
{
    SegQueue::new()
}

/// Relies on crossbeam's `SegQueue::push_mut`: appends the value at the back
/// of the queue.
#[verifier::external_body]
pub(crate) fn ui_queue_push(q: &mut SegQueue<UiResult>, value: UiResult)
    ensures
        ui_rows_in_queue(*final(q)) == ui_rows_in_queue(*old(q)).push(value@),
{
    q.push_mut(value)
}

/// Relies on crossbeam's `SegQueue::pop_mut`: removes and returns the oldest
/// element, or returns nothing exactly when the queue is empty.
#[verifier::external_body]
pub(crate) fn ui_queue_pop(q: &mut SegQueue<UiResult>) -> (r: Option<UiResult>)
    ensures
        ui_rows_in_queue(*old(q)).len() == 0 ==> r is None && ui_rows_in_queue(*final(q))
            == ui_rows_in_queue(*old(q)),
        ui_rows_in_queue(*old(q)).len() > 0 ==> (r matches Some(x) && x@ == ui_rows_in_queue(
            *old(q),
        ).first() && ui_rows_in_queue(*final(q)) == ui_rows_in_queue(*old(q)).drop_first()),
{
    q.pop_mut()
}

/// Relies on crossbeam's `SegQueue::len`: the number of elements held. Under
/// concurrent access this is approximate; the library uses it only on a
/// queue it holds exclusively.
#[verifier::external_body]
pub(crate) fn ui_queue_len(q: &SegQueue<UiResult>) -> (n: usize)
    ensures
        n == ui_rows_in_queue(*q).len(),
{
    q.len()
}

/// A fresh, empty pair of queues for one search generation: the queue the
/// walker's workers fill with per-file result sets, and the screen-facing
/// buffer its forwarder fills with flattened rows. Each generation starts
/// with its own pair; an abandoned generation's pair becomes garbage once
/// its walker finishes.
pub fn new_generation_queues() -> (queues: (SegQueue<FileResults>, SegQueue<UiResult>))
    ensures
        file_results_in_queue(queues.0) == Seq::<FileRec>::empty(),
        ui_rows_in_queue(queues.1) == Seq::<UiRec>::empty(),
{
    (new_results_queue(), new_ui_queue())
}

/// Push one file's result set into the result queue — unless the file had no
/// matching line: an empty result set is suppressed, so the queue never
/// holds one. Returns whether the set was pushed.
pub fn enqueue_file_results(queue: &mut SegQueue<FileResults>, results: FileResults) -> (pushed:
    bool)
    ensures
        pushed <==> results@.results.len() > 0,
        pushed ==> file_results_in_queue(*final(queue)) == file_results_in_queue(
            *old(queue),
        ).push(results@),
        !pushed ==> file_results_in_queue(*final(queue)) == file_results_in_queue(*old(queue)),
{
    if results.is_empty() {
        false
    } else {
        results_queue_push(queue, results);
        true
    }
}

/// The number of result sets waiting in the queue. Approximate under
/// concurrent pushes; used for progress display, never for control flow.
pub fn results_queue_size(queue: &SegQueue<FileResults>) -> (n: usize)
    ensures
        n == file_results_in_queue(*queue).len(),
{
    results_queue_len(queue)
}

/// The number of display rows waiting in the row buffer. Approximate under
/// concurrent pushes; used for progress display, never for control flow.
pub fn ui_queue_size(queue: &SegQueue<UiResult>) -> (n: usize)
    ensures
        n == ui_rows_in_queue(*queue).len(),
{
    ui_queue_len(queue)
}

/// One iteration of a generation's forwarding task: unless the generation
/// has been cancelled, take the oldest result set out of its queue, flatten
/// it, and append its rows to the screen-facing row buffer. Once the
/// cancellation signal has been observed nothing is forwarded any more:
/// both queues stay exactly as they are.
pub fn forwarder_step(
    queue: &mut SegQueue<FileResults>,
    ui_buffer: &mut SegQueue<UiResult>,
    cancelled: bool,
) -> (forwarded: bool)
    ensures
        cancelled ==> !forwarded,
        !forwarded ==> file_results_in_queue(*final(queue)) == file_results_in_queue(*old(queue))
            && ui_rows_in_queue(*final(ui_buffer)) == ui_rows_in_queue(*old(ui_buffer)),
        forwarded ==> file_results_in_queue(*old(queue)).len() > 0 && file_results_in_queue(
            *final(queue),
        ) == file_results_in_queue(*old(queue)).drop_first() && ui_rows_in_queue(*final(ui_buffer))
            == ui_rows_in_queue(*old(ui_buffer)) + spec_ui_results(
            file_results_in_queue(*old(queue)).first(),
        ),
        !cancelled ==> (forwarded <==> file_results_in_queue(*old(queue)).len() > 0),
{
    if cancelled {
        return false;
    }
    match results_queue_pop(queue) {
        Option::None => false,
        Option::Some(results) => {
            let ghost fr = results@;
            let rows = file_results_to_ui_results(results);
            let mut k: usize = 0;
            proof {
                assert(ui_rows_in_queue(*ui_buffer) =~= ui_rows_in_queue(*old(ui_buffer))
                    + spec_ui_results(fr).take(0));
            }
            while k < rows.len()
                invariant
                    k <= rows@.len(),
                    rows.deep_view() == spec_ui_results(fr),
                    rows.deep_view().len() == rows@.len(),
                    ui_rows_in_queue(*ui_buffer) == ui_rows_in_queue(*old(ui_buffer))
                        + spec_ui_results(fr).take(k as int),
                    file_results_in_queue(*queue) == file_results_in_queue(
                        *old(queue),
                    ).drop_first(),
                decreases rows@.len() - k,
            {
                let row = UiResult {
                    path: rows[k].path.clone(),
                    line_number: rows[k].line_number,
                    line: rows[k].line.clone(),
                    matches: crate::app::copy_matches(&rows[k].matches),
                };
                proof {
                    assert(row@.matches =~= rows.deep_view()[k as int].matches);
                    assert(row@ == rows.deep_view()[k as int]);
                }
                ui_queue_push(ui_buffer, row);
                proof {
                    assert(ui_rows_in_queue(*ui_buffer) =~= ui_rows_in_queue(*old(ui_buffer))
                        + spec_ui_results(fr).take(k + 1));
                }
                k = k + 1;
            }
            proof {
                assert(spec_ui_results(fr).take(rows@.len() as int) =~= spec_ui_results(fr));
            }
            true
        },
    }
}

/// The least of two lengths: how many rows one tick may move.
pub open spec fn spec_drain_count(max: int, available: int) -> int {
    if max <= available {
        max
    } else {
        available
    }
}

/// One screen tick's drain: move up to `max` rows, oldest first, from the
/// row buffer to the end of the displayed list, leaving the rest queued for
/// the next tick. Returns how many rows moved.
pub fn drain_rows(ui_buffer: &mut SegQueue<UiResult>, out: &mut Vec<UiResult>, max: usize) -> (n:
    usize)
    ensures
        n as int == spec_drain_count(max as int, ui_rows_in_queue(*old(ui_buffer)).len() as int),
        final(out).deep_view() == old(out).deep_view() + ui_rows_in_queue(*old(ui_buffer)).take(
            n as int,
        ),
        ui_rows_in_queue(*final(ui_buffer)) == ui_rows_in_queue(*old(ui_buffer)).skip(n as int),
{
    let ghost start = ui_rows_in_queue(*ui_buffer);
    let mut n: usize = 0;
    proof {
        assert(out.deep_view() =~= old(out).deep_view() + start.take(0));
        assert(start.skip(0) =~= start);
    }
    while n < max
        invariant
            start == ui_rows_in_queue(*old(ui_buffer)),
            n <= max,
            n <= start.len(),
            out.deep_view() == old(out).deep_view() + start.take(n as int),
            ui_rows_in_queue(*ui_buffer) == start.skip(n as int),
        decreases max - n,
    {
        match ui_queue_pop(ui_buffer) {
            Option::None => {
                proof {
                    assert(start.skip(n as int).len() == 0);
                }
                return n;
            },
            Option::Some(row) => {
                let ghost before = out.deep_view();
                proof {
                    assert(start.skip(n as int).first() == start[n as int]);
                    assert(start.skip(n as int).drop_first() =~= start.skip(n as int + 1));
                }
                out.push(row);
                proof {
                    assert(out.deep_view() =~= before.push(row@));
                    assert(out.deep_view() =~= old(out).deep_view() + start.take(n as int + 1));
                }
                n = n + 1;
            },
        }
    }
    n
}

} // verus!
