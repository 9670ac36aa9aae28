//! Key handling for the interactive screen: which key does what, as a
//! verified transition on the session state. The terminal delivers its own
//! event values; the front end maps them onto the plain key model here and
//! performs the returned effects (opening the editor, feeding the search
//! box's input widget).

use vstd::prelude::*;

use crate::app::{
    spec_next_block, spec_previous_block, spec_scroll_down_state, spec_scroll_up_state, App,
    CurrentBlock, ResultsList,
};

verus! {

/// A key, as the key handlers see it.
#[derive(Debug, Clone, Copy, PartialEq, Eq, Structural)]
pub enum Key {
    Char(char),
    Up,
    Down,
    Left,
    Right,
    Tab,
    BackTab,
    Esc,
    Backspace,
    Delete,
    Home,
    End,
    Enter,
    Other,
}

/// One key press (or repeat/release), with its modifiers.
#[derive(Debug, Clone, Copy, PartialEq, Eq, Structural)]
pub struct KeyInput {
    pub code: Key,
    pub ctrl: bool,
    pub alt: bool,
    pub shift: bool,
    pub is_press: bool,
}

impl KeyInput {
    /// A plain press of `code`, with no modifier held.
    pub open spec fn spec_plain(code: Key) -> KeyInput {
        KeyInput { code, ctrl: false, alt: false, shift: false, is_press: true }
    }

    /// A plain press of `code`, with no modifier held.
    pub fn plain(code: Key) -> (k: KeyInput)
        ensures
            k == KeyInput::spec_plain(code),
    {
        KeyInput { code, ctrl: false, alt: false, shift: false, is_press: true }
    }

    /// No modifier is held.
    pub open spec fn no_mods(self) -> bool {
        !self.ctrl && !self.alt && !self.shift
    }

    /// Exactly the control modifier is held.
    pub open spec fn ctrl_only(self) -> bool {
        self.ctrl && !self.alt && !self.shift
    }

    /// Exactly the alt modifier is held.
    pub open spec fn alt_only(self) -> bool {
        !self.ctrl && self.alt && !self.shift
    }

    /// Exactly the shift modifier is held.
    pub open spec fn shift_only(self) -> bool {
        !self.ctrl && !self.alt && self.shift
    }
}

/// An editing request for the search box's input widget.
#[derive(Debug, Clone, Copy, PartialEq, Eq, Structural)]
pub enum EditRequest {
    DeletePrevChar,
    DeleteNextChar,
    GoToPrevChar,
    GoToNextChar,
    DeletePrevWord,
    DeleteNextWord,
    GoToStart,
    GoToEnd,
    InsertChar(char),
}

/// The editing request a key resolves to, if any: only presses count, arrows
/// and home/end move, backspace and delete erase (by words with the usual
/// modifiers), control-a/e jump, and a plain or shifted character inserts
/// itself. Tab is reserved for focus changes and edits nothing.
pub open spec fn spec_to_input_request(evt: KeyInput) -> Option<EditRequest> {
    if !evt.is_press {
        Option::None
    } else {
        match evt.code {
            Key::Backspace => if evt.no_mods() {
                Option::Some(EditRequest::DeletePrevChar)
            } else if evt.alt_only() {
                Option::Some(EditRequest::DeletePrevWord)
            } else {
                Option::None
            },
            Key::Delete => if evt.no_mods() {
                Option::Some(EditRequest::DeleteNextChar)
            } else if evt.ctrl_only() {
                Option::Some(EditRequest::DeleteNextWord)
            } else {
                Option::None
            },
            Key::Left => if evt.no_mods() {
                Option::Some(EditRequest::GoToPrevChar)
            } else {
                Option::None
            },
            Key::Right => if evt.no_mods() {
                Option::Some(EditRequest::GoToNextChar)
            } else {
                Option::None
            },
            Key::Home => if evt.no_mods() {
                Option::Some(EditRequest::GoToStart)
            } else {
                Option::None
            },
            Key::End => if evt.no_mods() {
                Option::Some(EditRequest::GoToEnd)
            } else {
                Option::None
            },
            Key::Char(c) => if evt.ctrl_only() && c == 'w' {
                Option::Some(EditRequest::DeletePrevWord)
            } else if evt.ctrl_only() && c == 'a' {
                Option::Some(EditRequest::GoToStart)
            } else if evt.ctrl_only() && c == 'e' {
                Option::Some(EditRequest::GoToEnd)
            } else if evt.no_mods() || evt.shift_only() {
                Option::Some(EditRequest::InsertChar(c))
            } else {
                Option::None
            },
            _ => Option::None,
        }
    }
}

/// Resolve one key to an editing request for the search box, if it is one.
pub fn to_input_request(evt: &KeyInput) -> (r: Option<EditRequest>)
    ensures
        r == spec_to_input_request(*evt),
{
    if !evt.is_press {
        return None;
    }
    let no_mods = !evt.ctrl && !evt.alt && !evt.shift;
    let ctrl_only = evt.ctrl && !evt.alt && !evt.shift;
    let alt_only = !evt.ctrl && evt.alt && !evt.shift;
    let shift_only = !evt.ctrl && !evt.alt && evt.shift;
    match evt.code {
        Key::Backspace => if no_mods {
            Some(EditRequest::DeletePrevChar)
        } else if alt_only {
            Some(EditRequest::DeletePrevWord)
        } else {
            None
        },
        Key::Delete => if no_mods {
            Some(EditRequest::DeleteNextChar)
        } else if ctrl_only {
            Some(EditRequest::DeleteNextWord)
        } else {
            None
        },
        Key::Left => if no_mods {
            Some(EditRequest::GoToPrevChar)
        } else {
            None
        },
        Key::Right => if no_mods {
            Some(EditRequest::GoToNextChar)
        } else {
            None
        },
        Key::Home => if no_mods {
            Some(EditRequest::GoToStart)
        } else {
            None
        },
        Key::End => if no_mods {
            Some(EditRequest::GoToEnd)
        } else {
            None
        },
        Key::Char(c) => if ctrl_only && c == 'w' {
            Some(EditRequest::DeletePrevWord)
        } else if ctrl_only && c == 'a' {
            Some(EditRequest::GoToStart)
        } else if ctrl_only && c == 'e' {
            Some(EditRequest::GoToEnd)
        } else if no_mods || shift_only {
            Some(EditRequest::InsertChar(c))
        } else {
            None
        },
        _ => None,
    }
}

/// What the front end must do after a key, beyond the state change: open the
/// selected result in the editor, or feed the key to the search box's input
/// widget.
#[derive(Debug, Clone, Copy, PartialEq, Eq, Structural)]
pub enum UiEffect {
    OpenEditor,
    ForwardToInput,
}

/// The selection after a key in the results list. With nothing yet selected
/// the first row becomes selected; moving up steps forward through the list
/// with wrap-around, moving down steps backward, stopping at the last row
/// (the list renders bottom-to-top, so up means forward).
pub open spec fn spec_selection_after(selected: Option<usize>, len: usize, key: KeyInput) -> Option<
    usize,
> {
    let moved = if key.no_mods() && (key.code == Key::Up || key.code == Key::Char('k')) {
        match selected {
            Option::Some(s) => if len > 0 {
                Option::Some((((s as int % len as int) + 1) % len as int) as usize)
            } else {
                selected
            },
            Option::None => selected,
        }
    } else if key.no_mods() && (key.code == Key::Down || key.code == Key::Char('j')) {
        match selected {
            Option::Some(s) => if len > 0 {
                if s == 0 {
                    Option::Some((len - 1) as usize)
                } else {
                    Option::Some((s - 1) as usize)
                }
            } else {
                selected
            },
            Option::None => selected,
        }
    } else {
        selected
    };
    if moved is None {
        Option::Some(0usize)
    } else {
        moved
    }
}

/// The state after a key in the results list: only the selection moves.
pub open spec fn spec_handle_results(app: App, key: KeyInput) -> App {
    App {
        results_list: ResultsList {
            selected: spec_selection_after(
                app.results_list.selected,
                app.results_list.results@.len() as usize,
                key,
            ),
            ..app.results_list
        },
        ..app
    }
}

/// Move the results selection for one key in the results list.
pub fn handle_results_key_event(key: KeyInput, app: &mut App)
    ensures
        *final(app) == spec_handle_results(*old(app), key),
{
    let len = app.results_list.results.len();
    let no_mods = !key.ctrl && !key.alt && !key.shift;
    if no_mods && (key.code == Key::Up || key.code == Key::Char('k')) {
        match app.results_list.selected {
            Some(s) => {
                if len > 0 {
                    app.results_list.selected = Some((s % len + 1) % len);
                }
            },
            None => {},
        }
    } else if no_mods && (key.code == Key::Down || key.code == Key::Char('j')) {
        match app.results_list.selected {
            Some(s) => {
                if len > 0 {
                    app.results_list.selected = Some(
                        if s == 0 {
                            len - 1
                        } else {
                            s - 1
                        },
                    );
                }
            },
            None => {},
        }
    }
    if app.results_list.selected.is_none() {
        app.results_list.selected = Some(0);
    }
}

/// The state and effect after a key in the preview pane: arrows and j/k
/// scroll by one row, d/u by twenty, and e asks the front end to open the
/// selected result in the editor.
pub open spec fn spec_handle_preview(app: App, key: KeyInput) -> (App, Option<UiEffect>) {
    if key.no_mods() {
        match key.code {
            Key::Up => (spec_scroll_up_state(app, 1), Option::None),
            Key::Down => (spec_scroll_down_state(app, 1), Option::None),
            Key::Char(c) => if c == 'k' {
                (spec_scroll_up_state(app, 1), Option::None)
            } else if c == 'j' {
                (spec_scroll_down_state(app, 1), Option::None)
            } else if c == 'd' {
                (spec_scroll_down_state(app, 20), Option::None)
            } else if c == 'u' {
                (spec_scroll_up_state(app, 20), Option::None)
            } else if c == 'e' {
                (app, Option::Some(UiEffect::OpenEditor))
            } else {
                (app, Option::None)
            },
            _ => (app, Option::None),
        }
    } else {
        (app, Option::None)
    }
}

/// Scroll the preview for one key, or ask for the editor to open.
pub fn handle_preview_key_event(key: KeyInput, app: &mut App) -> (effect: Option<UiEffect>)
    ensures
        *final(app) == spec_handle_preview(*old(app), key).0,
        effect == spec_handle_preview(*old(app), key).1,
{
    let no_mods = !key.ctrl && !key.alt && !key.shift;
    if no_mods && (key.code == Key::Up || key.code == Key::Char('k')) {
        app.scroll_preview_up(1);
        None
    } else if no_mods && (key.code == Key::Down || key.code == Key::Char('j')) {
        app.scroll_preview_down(1);
        None
    } else if no_mods && key.code == Key::Char('d') {
        app.scroll_preview_down(20);
        None
    } else if no_mods && key.code == Key::Char('u') {
        app.scroll_preview_up(20);
        None
    } else if no_mods && key.code == Key::Char('e') {
        Some(UiEffect::OpenEditor)
    } else {
        None
    }
}

/// The state and effect after a key in the search box: every key is handed
/// on to the input widget.
pub open spec fn spec_handle_search(app: App, key: KeyInput) -> (App, Option<UiEffect>) {
    (app, Option::Some(UiEffect::ForwardToInput))
}

/// Hand a key in the search box on to the input widget.
pub fn handle_search_key_event(key: KeyInput, app: &mut App) -> (effect: Option<UiEffect>)
    ensures
        *final(app) == spec_handle_search(*old(app), key).0,
        effect == spec_handle_search(*old(app), key).1,
{
    Some(UiEffect::ForwardToInput)
}

/// The state after the bindings that work everywhere: q or escape quits,
/// tab and back-tab cycle focus, control with a direction moves focus,
/// control-n/p move the results selection, and control-d/u scroll the
/// preview.
pub open spec fn spec_handle_global(app: App, key: KeyInput) -> App {
    if key.code == Key::Char('q') || key.code == Key::Esc {
        App { should_quit: true, ..app }
    } else if key.code == Key::Tab {
        App { current_block: spec_next_block(app.current_block), ..app }
    } else if key.code == Key::BackTab {
        App { current_block: spec_previous_block(app.current_block), ..app }
    } else if key.ctrl_only() && (key.code == Key::Char('k') || key.code == Key::Up) {
        App {
            current_block: if app.current_block == CurrentBlock::Search {
                CurrentBlock::Results
            } else {
                app.current_block
            },
            ..app
        }
    } else if key.ctrl_only() && (key.code == Key::Char('j') || key.code == Key::Down) {
        App {
            current_block: if app.current_block == CurrentBlock::Results {
                CurrentBlock::Search
            } else {
                app.current_block
            },
            ..app
        }
    } else if key.ctrl_only() && (key.code == Key::Char('h') || key.code == Key::Left) {
        App {
            current_block: if app.current_block == CurrentBlock::Preview {
                CurrentBlock::Results
            } else {
                app.current_block
            },
            ..app
        }
    } else if key.ctrl_only() && (key.code == Key::Char('l') || key.code == Key::Right) {
        App {
            current_block: if app.current_block == CurrentBlock::Results || app.current_block
                == CurrentBlock::Search {
                CurrentBlock::Preview
            } else {
                app.current_block
            },
            ..app
        }
    } else if key.ctrl_only() && key.code == Key::Char('n') {
        spec_handle_results(app, KeyInput::spec_plain(Key::Down))
    } else if key.ctrl_only() && key.code == Key::Char('p') {
        spec_handle_results(app, KeyInput::spec_plain(Key::Up))
    } else if key.ctrl_only() && key.code == Key::Char('d') {
        spec_handle_preview(app, KeyInput::spec_plain(Key::Char('d'))).0
    } else if key.ctrl_only() && key.code == Key::Char('u') {
        spec_handle_preview(app, KeyInput::spec_plain(Key::Char('u'))).0
    } else {
        app
    }
}

/// The state and effect after one key: the global bindings first, then the
/// focused block's own bindings on the resulting state.
pub open spec fn spec_handle_key_event(app: App, key: KeyInput) -> (App, Option<UiEffect>) {
    let moved = spec_handle_global(app, key);
    match moved.current_block {
        CurrentBlock::Search => spec_handle_search(moved, key),
        CurrentBlock::Results => (spec_handle_results(moved, key), Option::None),
        CurrentBlock::Preview => spec_handle_preview(moved, key),
    }
}

/// Apply one key to the session: the global bindings first, then the focused
/// block's own bindings. The returned effect, if any, is the front end's to
/// perform.
pub fn handle_key_event(key: KeyInput, app: &mut App) -> (effect: Option<UiEffect>)
    ensures
        *final(app) == spec_handle_key_event(*old(app), key).0,
        effect == spec_handle_key_event(*old(app), key).1,
{
    let ctrl_only = key.ctrl && !key.alt && !key.shift;
    if key.code == Key::Char('q') || key.code == Key::Esc {
        app.should_quit = true;
    } else if key.code == Key::Tab {
        app.next_block();
    } else if key.code == Key::BackTab {
        app.previous_block();
    } else if ctrl_only && (key.code == Key::Char('k') || key.code == Key::Up) {
        app.move_to_block_on_top();
    } else if ctrl_only && (key.code == Key::Char('j') || key.code == Key::Down) {
        app.move_to_block_below();
    } else if ctrl_only && (key.code == Key::Char('h') || key.code == Key::Left) {
        app.move_to_block_left();
    } else if ctrl_only && (key.code == Key::Char('l') || key.code == Key::Right) {
        app.move_to_block_right();
    } else if ctrl_only && key.code == Key::Char('n') {
        handle_results_key_event(KeyInput::plain(Key::Down), app);
    } else if ctrl_only && key.code == Key::Char('p') {
        handle_results_key_event(KeyInput::plain(Key::Up), app);
    } else if ctrl_only && key.code == Key::Char('d') {
        let _ = handle_preview_key_event(KeyInput::plain(Key::Char('d')), app);
    } else if ctrl_only && key.code == Key::Char('u') {
        let _ = handle_preview_key_event(KeyInput::plain(Key::Char('u')), app);
    }
    match app.current_block {
        CurrentBlock::Search => handle_search_key_event(key, app),
        CurrentBlock::Results => {
            handle_results_key_event(key, app);
            None
        },
        CurrentBlock::Preview => handle_preview_key_event(key, app),
    }
}

} // verus!
