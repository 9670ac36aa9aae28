//! The interactive front end's state: the flattened per-line result rows it
//! displays, the focused block, the result list selection and the preview
//! scroll position. Terminal rendering itself lives outside the library; the
//! state transitions here are what the key handlers drive.

use vstd::prelude::*;

use crate::search::{FileRec, FileResults, MatchRange};

verus! {

/// Which of the three blocks of the interactive screen has focus.
#[derive(Debug, Clone, Copy, PartialEq, Eq, Structural)]
pub enum CurrentBlock {
    Search,
    Results,
    Preview,
}

/// The mathematical value of one displayed result row.
pub ghost struct UiRec {
    pub path: Seq<char>,
    pub line_number: int,
    pub line: Seq<char>,
    pub matches: Seq<(int, int)>,
}

/// One displayed result row: an independently owned, flattened projection of
/// one line of a `FileResults`, decoupled from the result set's lifetime.
#[derive(Debug, Clone)]
pub struct UiResult {
    pub path: String,
    pub line_number: u64,
    pub line: String,
    pub matches: Vec<MatchRange>,
}

impl View for UiResult {
    type V = UiRec;

    open spec fn view(&self) -> UiRec {
        UiRec {
            path: self.path@,
            line_number: self.line_number as int,
            line: self.line@,
            matches: self.matches.deep_view(),
        }
    }
}

impl DeepView for UiResult {
    type V = UiRec;

    open spec fn deep_view(&self) -> UiRec {
        self.view()
    }
}

/// The rows that flattening one file's result set yields: one row per
/// matching line, in the set's order, each carrying the file's path.
pub open spec fn spec_ui_results(fr: FileRec) -> Seq<UiRec> {
    fr.results.map(
        |i: int, r: crate::search::SearchRec|
            UiRec { path: fr.path, line_number: r.line_number, line: r.line, matches: r.matches },
    )
}

/// An element-by-element copy of a span list.
pub fn copy_matches(matches: &Vec<MatchRange>) -> (r: Vec<MatchRange>)
    ensures
        r@ == matches@,
{
    let mut r: Vec<MatchRange> = Vec::new();
    let mut i: usize = 0;
    while i < matches.len()
        invariant
            i <= matches@.len(),
            r@ =~= matches@.take(i as int),
        decreases matches@.len() - i,
    {
        r.push(matches[i]);
        proof {
            assert(r@ =~= matches@.take(i + 1));
        }
        i = i + 1;
    }
    proof {
        assert(r@ =~= matches@);
    }
    r
}

/// Flatten one file's result set into independently owned display rows, one
/// per matching line, in order.
pub fn file_results_to_ui_results(file_result: FileResults) -> (rows: Vec<UiResult>)
    ensures
        rows.deep_view() == spec_ui_results(file_result@),
{
    let mut rows: Vec<UiResult> = Vec::new();
    let mut i: usize = 0;
    while i < file_result.results.len()
        invariant
            i <= file_result.results@.len(),
            rows.deep_view() =~= spec_ui_results(file_result@).take(i as int),
        decreases file_result.results@.len() - i,
    {
        let r = &file_result.results[i];
        let row = UiResult {
            path: file_result.path.clone(),
            line_number: r.line_number,
            line: r.line.clone(),
            matches: copy_matches(&r.matches),
        };
        proof {
            assert(row.deep_view().matches =~= spec_ui_results(file_result@)[i as int].matches);
            assert(row.deep_view() == spec_ui_results(file_result@)[i as int]);
        }
        let ghost before = rows.deep_view();
        rows.push(row);
        proof {
            assert(rows.deep_view() =~= before.push(row.deep_view()));
            assert(rows.deep_view() =~= spec_ui_results(file_result@).take(i + 1));
        }
        i = i + 1;
    }
    proof {
        assert(rows.deep_view() =~= spec_ui_results(file_result@));
    }
    rows
}

/// The list of displayed rows together with which row is selected.
pub struct ResultsList {
    pub results: Vec<UiResult>,
    pub selected: Option<usize>,
}

impl Default for ResultsList {
    /// An empty list with nothing selected.
    fn default() -> (r: Self)
        ensures
            r.results@.len() == 0,
            r.selected is None,
    {
        ResultsList { results: Vec::new(), selected: None }
    }
}

/// What the preview pane shows: its scroll offset, the previewed file's name
/// and how many lines the previewed file holds.
pub struct PreviewState {
    pub scroll: (u16, u16),
    pub file_name: Option<String>,
    pub line_count: usize,
}

impl Default for PreviewState {
    /// An unscrolled preview of nothing.
    fn default() -> (r: Self)
        ensures
            r.scroll == (0u16, 0u16),
            r.file_name is None,
            r.line_count == 0,
    {
        PreviewState { scroll: (0, 0), file_name: None, line_count: 0 }
    }
}

/// The block that focus moves to when cycling forward.
pub open spec fn spec_next_block(b: CurrentBlock) -> CurrentBlock {
    match b {
        CurrentBlock::Search => CurrentBlock::Results,
        CurrentBlock::Results => CurrentBlock::Preview,
        CurrentBlock::Preview => CurrentBlock::Search,
    }
}

/// The block that focus moves to when cycling backward.
pub open spec fn spec_previous_block(b: CurrentBlock) -> CurrentBlock {
    match b {
        CurrentBlock::Search => CurrentBlock::Preview,
        CurrentBlock::Results => CurrentBlock::Search,
        CurrentBlock::Preview => CurrentBlock::Results,
    }
}

/// The interactive session's state.
pub struct App {
    pub target_path: String,
    pub pattern: String,
    pub current_block: CurrentBlock,
    pub should_quit: bool,
    pub results_list: ResultsList,
    pub preview_state: PreviewState,
    pub preview_pane_height: u16,
    pub selected_result: Option<UiResult>,
}

impl App {
    /// A fresh session over `target_path` with `current_pattern` in the
    /// search box, focused on the search block.
    pub fn new(target_path: String, current_pattern: String) -> (app: Self)
        ensures
            app.target_path == target_path,
            app.pattern == current_pattern,
            app.current_block == CurrentBlock::Search,
            !app.should_quit,
            app.results_list.results@.len() == 0,
            app.results_list.selected is None,
            app.preview_state.scroll == (0u16, 0u16),
            app.selected_result is None,
    {
        App {
            target_path,
            pattern: current_pattern,
            current_block: CurrentBlock::Search,
            should_quit: false,
            results_list: ResultsList::default(),
            preview_state: PreviewState::default(),
            preview_pane_height: 0,
            selected_result: None,
        }
    }

    /// The position of the focused block in the Search, Results, Preview
    /// cycle.
    fn get_current_block_index(&self) -> (i: usize)
        ensures
            i == match self.current_block {
                CurrentBlock::Search => 0int,
                CurrentBlock::Results => 1int,
                CurrentBlock::Preview => 2int,
            },
    {
        match self.current_block {
            CurrentBlock::Search => 0,
            CurrentBlock::Results => 1,
            CurrentBlock::Preview => 2,
        }
    }

    /// Move focus to the next block in the cycle.
    pub fn next_block(&mut self)
        ensures
            *final(self) == (App {
                current_block: spec_next_block(old(self).current_block),
                ..*old(self)
            }),
    {
        let current_index = self.get_current_block_index();
        let next_index = (current_index + 1) % 3;
        self.current_block = if next_index == 0 {
            CurrentBlock::Search
        } else if next_index == 1 {
            CurrentBlock::Results
        } else {
            CurrentBlock::Preview
        };
    }

    /// Move focus to the previous block in the cycle.
    pub fn previous_block(&mut self)
        ensures
            *final(self) == (App {
                current_block: spec_previous_block(old(self).current_block),
                ..*old(self)
            }),
    {
        let current_index = self.get_current_block_index();
        let previous_index = if current_index == 0 {
            2
        } else {
            current_index - 1
        };
        self.current_block = if previous_index == 0 {
            CurrentBlock::Search
        } else if previous_index == 1 {
            CurrentBlock::Results
        } else {
            CurrentBlock::Preview
        };
    }

    /// Move focus upward: from the search box to the results list.
    pub fn move_to_block_on_top(&mut self)
        ensures
            *final(self) == (App {
                current_block: if old(self).current_block == CurrentBlock::Search {
                    CurrentBlock::Results
                } else {
                    old(self).current_block
                },
                ..*old(self)
            }),
    {
        match self.current_block {
            CurrentBlock::Search => {
                self.current_block = CurrentBlock::Results;
            },
            _ => {},
        }
    }

    /// Move focus downward: from the results list to the search box.
    pub fn move_to_block_below(&mut self)
        ensures
            *final(self) == (App {
                current_block: if old(self).current_block == CurrentBlock::Results {
                    CurrentBlock::Search
                } else {
                    old(self).current_block
                },
                ..*old(self)
            }),
    {
        match self.current_block {
            CurrentBlock::Results => {
                self.current_block = CurrentBlock::Search;
            },
            _ => {},
        }
    }

    /// Move focus rightward: from the left column to the preview.
    pub fn move_to_block_right(&mut self)
        ensures
            *final(self) == (App {
                current_block: if old(self).current_block == CurrentBlock::Results || old(
                    self,
                ).current_block == CurrentBlock::Search {
                    CurrentBlock::Preview
                } else {
                    old(self).current_block
                },
                ..*old(self)
            }),
    {
        match self.current_block {
            CurrentBlock::Results | CurrentBlock::Search => {
                self.current_block = CurrentBlock::Preview;
            },
            _ => {},
        }
    }

    /// Move focus leftward: from the preview to the results list.
    pub fn move_to_block_left(&mut self)
        ensures
            *final(self) == (App {
                current_block: if old(self).current_block == CurrentBlock::Preview {
                    CurrentBlock::Results
                } else {
                    old(self).current_block
                },
                ..*old(self)
            }),
    {
        match self.current_block {
            CurrentBlock::Preview => {
                self.current_block = CurrentBlock::Results;
            },
            _ => {},
        }
    }

    /// Remember the row at `index` as the one the preview follows.
    pub fn select_result(&mut self, index: usize)
        requires
            index < old(self).results_list.results@.len(),
        ensures
            final(self).selected_result matches Some(row) && row.deep_view() == old(
                self,
            ).results_list.results.deep_view()[index as int],
            final(self).target_path == old(self).target_path,
            final(self).pattern == old(self).pattern,
            final(self).current_block == old(self).current_block,
            final(self).should_quit == old(self).should_quit,
            final(self).results_list == old(self).results_list,
            final(self).preview_state == old(self).preview_state,
            final(self).preview_pane_height == old(self).preview_pane_height,
    {
        let r = &self.results_list.results[index];
        let row = UiResult {
            path: r.path.clone(),
            line_number: r.line_number,
            line: r.line.clone(),
            matches: copy_matches(&r.matches),
        };
        self.selected_result = Some(row);
    }
}

/// The vertical scroll offset that centers a result's line in a preview pane
/// of the given height: a third of a pane above the top, floored at zero and
/// saturating at the largest offset.
pub open spec fn spec_scroll_for_line(line_number: int, pane_height: int) -> int {
    let v = line_number - pane_height / 3 + 1;
    if v < 0 {
        0
    } else if v > u16::MAX {
        u16::MAX as int
    } else {
        v
    }
}

/// The largest downward scroll offset a preview of `line_count` lines allows
/// in a pane of the given height: two thirds of a pane short of the end,
/// floored at zero and saturating at `u16::MAX`.
pub open spec fn spec_scroll_limit(line_count: int, pane_height: int) -> int {
    let v = line_count - 2 * pane_height / 3;
    if v < 0 {
        0
    } else if v > u16::MAX {
        u16::MAX as int
    } else {
        v
    }
}

/// The state after scrolling the preview down by `offset`, stopping two
/// thirds of a pane short of the previewed file's end.
pub open spec fn spec_scroll_down_state(app: App, offset: u16) -> App {
    App {
        preview_state: PreviewState {
            scroll: (
                (if app.preview_state.scroll.0 + offset <= spec_scroll_limit(
                    app.preview_state.line_count as int,
                    app.preview_pane_height as int,
                ) {
                    (app.preview_state.scroll.0 + offset) as u16
                } else {
                    spec_scroll_limit(
                        app.preview_state.line_count as int,
                        app.preview_pane_height as int,
                    ) as u16
                }),
                app.preview_state.scroll.1,
            ),
            ..app.preview_state
        },
        ..app
    }
}

/// The state after scrolling the preview up by `offset`, stopping at the top.
pub open spec fn spec_scroll_up_state(app: App, offset: u16) -> App {
    App {
        preview_state: PreviewState {
            scroll: (
                (if app.preview_state.scroll.0 >= offset {
                    (app.preview_state.scroll.0 - offset) as u16
                } else {
                    0u16
                }),
                app.preview_state.scroll.1,
            ),
            ..app.preview_state
        },
        ..app
    }
}

impl App {
    /// Scroll the preview so that the given result's line sits a third of the
    /// pane below the top.
    pub fn set_scroll_for_result(&mut self, result: &UiResult)
        ensures
            *final(self) == (App {
                preview_state: PreviewState {
                    scroll: (
                        (spec_scroll_for_line(
                            result.line_number as int,
                            old(self).preview_pane_height as int,
                        ) as u16),
                        0u16,
                    ),
                    ..old(self).preview_state
                },
                ..*old(self)
            }),
    {
        let third = (self.preview_pane_height / 3) as u64;
        let row: u16 = if result.line_number >= third {
            let v = result.line_number - third;
            if v <= (u16::MAX as u64) - 1 {
                (v + 1) as u16
            } else {
                u16::MAX
            }
        } else {
            0
        };
        self.preview_state.scroll = (row, 0);
    }

    /// Scroll the preview down by `offset` rows, stopping two thirds of a
    /// pane short of the previewed file's end.
    pub fn scroll_preview_down(&mut self, offset: u16)
        ensures
            *final(self) == spec_scroll_down_state(*old(self), offset),
    {
        let two_thirds = 2 * (self.preview_pane_height as usize) / 3;
        let limit: u16 = if self.preview_state.line_count < two_thirds {
            0
        } else if self.preview_state.line_count - two_thirds > u16::MAX as usize {
            u16::MAX
        } else {
            (self.preview_state.line_count - two_thirds) as u16
        };
        let wanted = self.preview_state.scroll.0 as u32 + offset as u32;
        let row: u16 = if wanted <= limit as u32 {
            wanted as u16
        } else {
            limit
        };
        self.preview_state.scroll = (row, self.preview_state.scroll.1);
    }

    /// Scroll the preview up by `offset` rows, stopping at the top.
    pub fn scroll_preview_up(&mut self, offset: u16)
        ensures
            *final(self) == spec_scroll_up_state(*old(self), offset),
    {
        let row = if self.preview_state.scroll.0 >= offset {
            self.preview_state.scroll.0 - offset
        } else {
            0
        };
        self.preview_state.scroll = (row, self.preview_state.scroll.1);
    }

    /// Scroll the preview back to the top.
    pub fn reset_preview_scroll(&mut self)
        ensures
            *final(self) == (App {
                preview_state: PreviewState { scroll: (0u16, 0u16), ..old(self).preview_state },
                ..*old(self)
            }),
    {
        self.preview_state.scroll = (0, 0);
    }
}

impl Default for App {
    /// A fresh session over the current directory with an empty pattern.
    fn default() -> (app: Self)
        ensures
            app.target_path@ == "."@,
            app.pattern@.len() == 0,
            app.current_block == CurrentBlock::Search,
            !app.should_quit,
            app.results_list.results@.len() == 0,
            app.selected_result is None,
    {
        App::new(String::from_str("."), String::new())
    }
}

} // verus!
