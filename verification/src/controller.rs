//! The incremental search controller: the interactive mode's cancellation
//! and restart protocol. Each query text owns one generation of background
//! work; a query change cancels the running generation and starts the next,
//! and the screen drains a bounded batch of rows per tick. The thread and
//! channel plumbing lives outside the library; every decision — when a
//! generation starts, which rows are accepted, how many rows a tick moves —
//! is verified here.

use vstd::prelude::*;

use crossbeam::queue::SegQueue;

use crate::app::{UiRec, UiResult};
use crate::queue::{spec_drain_count, drain_rows, ui_rows_in_queue};

verus! {

/// Queries shorter than this start no search: they clear the results and
/// leave the controller idle.
pub const MIN_QUERY_LEN: usize = 2;

/// How many rows one screen tick may move from the row buffer into the
/// displayed list; the rest stay queued for the next tick.
pub const DRAIN_BATCH: usize = 500;

/// What the caller must do after a query change: stop relaying the old
/// generation and clear the screen, or additionally start a walker and a
/// forwarder for the named new generation.
#[derive(Debug, Clone, Copy, PartialEq, Eq, Structural)]
pub enum SearchCommand {
    ClearResults,
    StartSearch(u64),
}

/// Whether a tick may append rows that came through a queue of generation
/// `queue_generation` while the controller is at `current` — only the
/// current generation's rows, and only while a search is running.
pub open spec fn spec_accepts(current: u64, searching: bool, queue_generation: u64) -> bool {
    searching && queue_generation == current
}

/// The lifecycle of one in-flight search per query: `Idle` (not searching)
/// or `Searching` at the current generation, together with the rows the
/// screen displays.
pub struct IncrementalSearchController {
    generation: u64,
    searching: bool,
    results: Vec<UiResult>,
}

impl IncrementalSearchController {
    /// The current generation: a monotonically increasing identifier for one
    /// "current query" epoch, distinguishing stale background work from
    /// current work.
    pub closed spec fn generation(&self) -> u64 {
        self.generation
    }

    /// Whether a search generation is running.
    pub closed spec fn is_searching(&self) -> bool {
        self.searching
    }

    /// The rows the screen displays, in arrival order.
    pub closed spec fn rows(&self) -> Seq<UiRec> {
        self.results.deep_view()
    }

    /// A controller that has never searched: idle at generation zero with
    /// nothing displayed.
    pub fn new() -> (c: Self)
        ensures
            c.generation() == 0,
            !c.is_searching(),
            c.rows() == Seq::<UiRec>::empty(),
    {
        IncrementalSearchController { generation: 0, searching: false, results: Vec::new() }
    }

    /// The current generation.
    pub fn current_generation(&self) -> (g: u64)
        ensures
            g == self.generation(),
    {
        self.generation
    }

    /// Whether a search generation is running.
    pub fn searching(&self) -> (r: bool)
        ensures
            r == self.is_searching(),
    {
        self.searching
    }

    /// The rows the screen displays, in arrival order.
    pub fn results(&self) -> (r: &Vec<UiResult>)
        ensures
            r.deep_view() == self.rows(),
    {
        &self.results
    }

    /// The query text changed. A query shorter than `MIN_QUERY_LEN` clears
    /// the displayed rows and returns the controller to idle without
    /// starting anything. A long enough query steps to the next generation,
    /// clears the displayed rows, and asks the caller to cancel the previous
    /// generation's forwarder and start a walker and forwarder for the new
    /// one, writing into a fresh queue.
    pub fn on_query_change(&mut self, query_len: usize) -> (cmd: SearchCommand)
        requires
            old(self).generation() < u64::MAX,
        ensures
            query_len < MIN_QUERY_LEN ==> (cmd == SearchCommand::ClearResults
                && final(self).generation() == old(self).generation()
                && !final(self).is_searching()),
            query_len >= MIN_QUERY_LEN ==> (cmd == SearchCommand::StartSearch(
                (old(self).generation() + 1) as u64,
            ) && final(self).generation() == old(self).generation() + 1
                && final(self).is_searching()),
            final(self).rows() == Seq::<UiRec>::empty(),
    {
        self.results = Vec::new();
        proof {
            assert(self.results.deep_view() =~= Seq::<UiRec>::empty());
        }
        if query_len < MIN_QUERY_LEN {
            self.searching = false;
            SearchCommand::ClearResults
        } else {
            self.generation = self.generation + 1;
            self.searching = true;
            SearchCommand::StartSearch(self.generation)
        }
    }

    /// One screen tick: drain up to `DRAIN_BATCH` rows from the row buffer
    /// into the displayed list — but only if the buffer belongs to the
    /// current, still running generation. Rows of any other generation are
    /// never appended: a stale buffer is left untouched and the display
    /// unchanged.
    pub fn drain_tick(&mut self, ui_buffer: &mut SegQueue<UiResult>, queue_generation: u64) -> (n:
        usize)
        ensures
            final(self).generation() == old(self).generation(),
            final(self).is_searching() == old(self).is_searching(),
            !spec_accepts(old(self).generation(), old(self).is_searching(), queue_generation) ==> (
            n == 0 && final(self).rows() == old(self).rows() && ui_rows_in_queue(*final(ui_buffer))
                == ui_rows_in_queue(*old(ui_buffer))),
            spec_accepts(old(self).generation(), old(self).is_searching(), queue_generation) ==> (n
                as int == spec_drain_count(
                DRAIN_BATCH as int,
                ui_rows_in_queue(*old(ui_buffer)).len() as int,
            ) && final(self).rows() == old(self).rows() + ui_rows_in_queue(*old(ui_buffer)).take(
                n as int,
            ) && ui_rows_in_queue(*final(ui_buffer)) == ui_rows_in_queue(*old(ui_buffer)).skip(
                n as int,
            )),
    {
        if self.searching && queue_generation == self.generation {
            drain_rows(ui_buffer, &mut self.results, DRAIN_BATCH)
        } else {
            0
        }
    }
}

/// Law: starting a new generation makes every earlier generation stale.
/// After the controller has stepped from generation `g` to `g + 1`, a tick
/// never accepts rows coming through the queue of `g` or of any generation
/// before it — combined with `drain_tick`'s contract, no such row is ever
/// appended to the display, and with `forwarder_step`'s contract, a
/// forwarder that has observed its cancellation relays nothing at all.
pub proof fn lemma_new_generation_drops_stale(generation: u64, stale: u64, searching: bool)
    requires
        stale <= generation,
        generation < u64::MAX,
    ensures
        !spec_accepts((generation + 1) as u64, searching, stale),
{
}

} // verus!
