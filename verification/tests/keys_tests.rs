use grip_grab::app::{App, CurrentBlock, ResultsList, UiResult};
use grip_grab::keys::{
    handle_key_event, handle_results_key_event, to_input_request, EditRequest, Key, KeyInput,
    UiEffect,
};

fn plain(code: Key) -> KeyInput {
    KeyInput { code, ctrl: false, alt: false, shift: false, is_press: true }
}

fn ctrl(code: Key) -> KeyInput {
    KeyInput { code, ctrl: true, alt: false, shift: false, is_press: true }
}

fn app_with_rows(n: u64) -> App {
    let mut app = App::new(String::from("."), String::from("pat"));
    let mut rows = Vec::new();
    for i in 0..n {
        rows.push(UiResult {
            path: String::from("p"),
            line_number: i + 1,
            line: String::from("l\n"),
            matches: vec![],
        });
    }
    app.results_list = ResultsList { results: rows, selected: None };
    app
}

#[test]
fn handle_tab() {
    let evt = plain(Key::Tab);

    let req = to_input_request(&evt);

    assert!(req.is_none());
}

#[test]
fn editing_requests() {
    assert_eq!(to_input_request(&plain(Key::Backspace)), Some(EditRequest::DeletePrevChar));
    assert_eq!(to_input_request(&plain(Key::Delete)), Some(EditRequest::DeleteNextChar));
    assert_eq!(to_input_request(&plain(Key::Left)), Some(EditRequest::GoToPrevChar));
    assert_eq!(to_input_request(&plain(Key::Right)), Some(EditRequest::GoToNextChar));
    assert_eq!(to_input_request(&ctrl(Key::Char('w'))), Some(EditRequest::DeletePrevWord));
    assert_eq!(to_input_request(&ctrl(Key::Delete)), Some(EditRequest::DeleteNextWord));
    assert_eq!(to_input_request(&ctrl(Key::Char('a'))), Some(EditRequest::GoToStart));
    assert_eq!(to_input_request(&ctrl(Key::Char('e'))), Some(EditRequest::GoToEnd));
    assert_eq!(to_input_request(&plain(Key::Home)), Some(EditRequest::GoToStart));
    assert_eq!(to_input_request(&plain(Key::End)), Some(EditRequest::GoToEnd));
    assert_eq!(to_input_request(&plain(Key::Char('x'))), Some(EditRequest::InsertChar('x')));
    let shifted = KeyInput { code: Key::Char('X'), ctrl: false, alt: false, shift: true, is_press: true };
    assert_eq!(to_input_request(&shifted), Some(EditRequest::InsertChar('X')));
    let release = KeyInput { code: Key::Char('x'), ctrl: false, alt: false, shift: false, is_press: false };
    assert_eq!(to_input_request(&release), None);
    let alt_backspace = KeyInput { code: Key::Backspace, ctrl: false, alt: true, shift: false, is_press: true };
    assert_eq!(to_input_request(&alt_backspace), Some(EditRequest::DeletePrevWord));
}

#[test]
fn quit_keys_set_the_flag() {
    let mut app = app_with_rows(0);
    let effect = handle_key_event(plain(Key::Esc), &mut app);
    assert!(app.should_quit);
    assert_eq!(effect, Some(UiEffect::ForwardToInput));
}

#[test]
fn tab_cycles_focus() {
    let mut app = app_with_rows(0);
    assert_eq!(app.current_block, CurrentBlock::Search);
    handle_key_event(plain(Key::Tab), &mut app);
    assert_eq!(app.current_block, CurrentBlock::Results);
    handle_key_event(plain(Key::Tab), &mut app);
    assert_eq!(app.current_block, CurrentBlock::Preview);
    handle_key_event(plain(Key::Tab), &mut app);
    assert_eq!(app.current_block, CurrentBlock::Search);
    handle_key_event(plain(Key::BackTab), &mut app);
    assert_eq!(app.current_block, CurrentBlock::Preview);
}

#[test]
fn directional_focus_moves() {
    let mut app = app_with_rows(0);
    handle_key_event(ctrl(Key::Up), &mut app);
    assert_eq!(app.current_block, CurrentBlock::Results);
    handle_key_event(ctrl(Key::Right), &mut app);
    assert_eq!(app.current_block, CurrentBlock::Preview);
    handle_key_event(ctrl(Key::Left), &mut app);
    assert_eq!(app.current_block, CurrentBlock::Results);
    handle_key_event(ctrl(Key::Down), &mut app);
    assert_eq!(app.current_block, CurrentBlock::Search);
}

#[test]
fn selection_wraps_forward() {
    let mut app = app_with_rows(3);
    handle_results_key_event(plain(Key::Up), &mut app);
    assert_eq!(app.results_list.selected, Some(0));
    handle_results_key_event(plain(Key::Up), &mut app);
    assert_eq!(app.results_list.selected, Some(1));
    handle_results_key_event(plain(Key::Up), &mut app);
    assert_eq!(app.results_list.selected, Some(2));
    handle_results_key_event(plain(Key::Up), &mut app);
    assert_eq!(app.results_list.selected, Some(0));
}

#[test]
fn selection_steps_backward_with_wrap_at_zero() {
    let mut app = app_with_rows(3);
    app.results_list.selected = Some(0);
    handle_results_key_event(plain(Key::Down), &mut app);
    assert_eq!(app.results_list.selected, Some(2));
    handle_results_key_event(plain(Key::Down), &mut app);
    assert_eq!(app.results_list.selected, Some(1));
}

#[test]
fn preview_keys_scroll() {
    let mut app = app_with_rows(0);
    app.current_block = CurrentBlock::Preview;
    app.preview_state.line_count = 100;
    app.preview_pane_height = 30;
    handle_key_event(plain(Key::Char('j')), &mut app);
    assert_eq!(app.preview_state.scroll.0, 1);
    handle_key_event(plain(Key::Char('d')), &mut app);
    assert_eq!(app.preview_state.scroll.0, 21);
    handle_key_event(plain(Key::Char('u')), &mut app);
    assert_eq!(app.preview_state.scroll.0, 1);
    handle_key_event(plain(Key::Char('k')), &mut app);
    assert_eq!(app.preview_state.scroll.0, 0);
    let effect = handle_key_event(plain(Key::Char('e')), &mut app);
    assert_eq!(effect, Some(UiEffect::OpenEditor));
}

#[test]
fn control_scrolls_preview_from_anywhere() {
    let mut app = app_with_rows(0);
    app.preview_state.line_count = 100;
    app.preview_pane_height = 30;
    assert_eq!(app.current_block, CurrentBlock::Search);
    let effect = handle_key_event(ctrl(Key::Char('d')), &mut app);
    assert_eq!(app.preview_state.scroll.0, 20);
    assert_eq!(effect, Some(UiEffect::ForwardToInput));
}

#[test]
fn control_n_moves_the_selection() {
    let mut app = app_with_rows(2);
    app.results_list.selected = Some(1);
    handle_key_event(ctrl(Key::Char('p')), &mut app);
    assert_eq!(app.results_list.selected, Some(0));
    handle_key_event(ctrl(Key::Char('n')), &mut app);
    assert_eq!(app.results_list.selected, Some(1));
}
