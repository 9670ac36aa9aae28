use grip_grab::app::{file_results_to_ui_results, App, CurrentBlock, UiResult};
use grip_grab::icons::{icon_for_file, File};
use grip_grab::search::{FileResults, MatchRange, SearchResult};
use grip_grab::strings::slice_at_char_boundary;

#[test]
fn flattening_copies_every_line() {
    let fr = FileResults {
        path: String::from("src/x.rs"),
        results: vec![
            SearchResult {
                line_number: 2,
                line: String::from("two\n"),
                line_start: 2,
                line_end: 2,
                matches: vec![MatchRange::new(0, 1)],
            },
            SearchResult {
                line_number: 5,
                line: String::from("five\n"),
                line_start: 5,
                line_end: 5,
                matches: vec![MatchRange::new(1, 3)],
            },
        ],
    };
    let rows = file_results_to_ui_results(fr);
    assert_eq!(rows.len(), 2);
    assert_eq!(rows[0].path, "src/x.rs");
    assert_eq!(rows[0].line_number, 2);
    assert_eq!(rows[0].line, "two\n");
    assert_eq!((rows[0].matches[0].start, rows[0].matches[0].end), (0, 1));
    assert_eq!(rows[1].path, "src/x.rs");
    assert_eq!(rows[1].line_number, 5);
}

#[test]
fn zero_matches_flatten_to_no_rows() {
    let fr = FileResults { path: String::from("src/x.rs"), results: vec![] };
    assert!(file_results_to_ui_results(fr).is_empty());
}

#[test]
fn fresh_app_state() {
    let app = App::new(String::from("/repo"), String::from("abc"));
    assert_eq!(app.target_path, "/repo");
    assert_eq!(app.pattern, "abc");
    assert_eq!(app.current_block, CurrentBlock::Search);
    assert!(!app.should_quit);
    assert!(app.results_list.results.is_empty());
    assert!(app.results_list.selected.is_none());
    assert!(app.selected_result.is_none());
    let by_default = App::default();
    assert_eq!(by_default.target_path, ".");
    assert_eq!(by_default.pattern, "");
}

#[test]
fn block_navigation_methods() {
    let mut app = App::default();
    app.next_block();
    assert_eq!(app.current_block, CurrentBlock::Results);
    app.previous_block();
    assert_eq!(app.current_block, CurrentBlock::Search);
    app.move_to_block_on_top();
    assert_eq!(app.current_block, CurrentBlock::Results);
    app.move_to_block_right();
    assert_eq!(app.current_block, CurrentBlock::Preview);
    app.move_to_block_left();
    assert_eq!(app.current_block, CurrentBlock::Results);
    app.move_to_block_below();
    assert_eq!(app.current_block, CurrentBlock::Search);
}

#[test]
fn selecting_a_result_copies_the_row() {
    let mut app = App::default();
    app.results_list.results.push(UiResult {
        path: String::from("a"),
        line_number: 4,
        line: String::from("text\n"),
        matches: vec![MatchRange::new(0, 2)],
    });
    app.select_result(0);
    let chosen = app.selected_result.as_ref().unwrap();
    assert_eq!(chosen.path, "a");
    assert_eq!(chosen.line_number, 4);
}

#[test]
fn preview_scrolling_saturates() {
    let mut app = App::default();
    app.preview_state.line_count = 25;
    app.preview_pane_height = 30;
    app.scroll_preview_down(10);
    assert_eq!(app.preview_state.scroll.0, 5);
    app.scroll_preview_down(10);
    assert_eq!(app.preview_state.scroll.0, 5);
    app.scroll_preview_up(3);
    assert_eq!(app.preview_state.scroll.0, 2);
    app.scroll_preview_up(10);
    assert_eq!(app.preview_state.scroll.0, 0);
    app.reset_preview_scroll();
    assert_eq!(app.preview_state.scroll, (0, 0));
}

#[test]
fn scroll_follows_the_selected_line() {
    let mut app = App::default();
    app.preview_pane_height = 30;
    let row = UiResult {
        path: String::from("a"),
        line_number: 50,
        line: String::from("x\n"),
        matches: vec![],
    };
    app.set_scroll_for_result(&row);
    assert_eq!(app.preview_state.scroll, (41, 0));
    let top_row = UiResult {
        path: String::from("a"),
        line_number: 3,
        line: String::from("x\n"),
        matches: vec![],
    };
    app.set_scroll_for_result(&top_row);
    assert_eq!(app.preview_state.scroll, (0, 0));
}

#[test]
fn truncation_respects_character_boundaries() {
    assert_eq!(slice_at_char_boundary("abc", 1), "a");
    assert_eq!(slice_at_char_boundary("abc", 2), "ab");
    assert_eq!(slice_at_char_boundary("abc", 9), "ab");
    assert_eq!(slice_at_char_boundary("", 4), "");
    assert_eq!(slice_at_char_boundary("a\u{e9}b", 2), "a");
    assert_eq!(slice_at_char_boundary("a\u{e9}b", 3), "a\u{e9}");
    assert_eq!(slice_at_char_boundary("abc", 0), "");
}

#[test]
fn icons_resolve_by_name_then_extension() {
    let by_name = File::new("/home/user/.bashrc");
    assert_eq!(by_name.name, ".bashrc");
    assert_eq!(by_name.ext.as_deref(), Some("bashrc"));
    let icon = icon_for_file(&by_name);
    assert_eq!(icon.color, "#89e051");

    let by_ext = File::new("src/Main.RS");
    assert_eq!(by_ext.name, "Main.RS");
    assert_eq!(by_ext.ext.as_deref(), Some("rs"));
    let icon = icon_for_file(&by_ext);
    assert_eq!(icon.color, "#dea584");

    let unknown = File::new("archive.zzz9");
    let icon = icon_for_file(&unknown);
    assert_eq!(icon.color, "#7e8e91");
    assert_eq!(icon.icon, '\u{f016}');

    let no_ext = File::new("README");
    assert!(no_ext.ext.is_none());
    let icon = icon_for_file(&no_ext);
    assert_eq!(icon.icon, '\u{f016}');

    let named = File::new("Dockerfile");
    let icon = icon_for_file(&named);
    assert_eq!(icon.color, "#458ee6");

    let deep = File::new("web/app.TS");
    assert_eq!(deep.ext.as_deref(), Some("ts"));
    let icon = icon_for_file(&deep);
    assert_eq!(icon.color, "#519aba");
}

#[test]
fn file_name_is_the_last_component() {
    let dir = File::new("src/inner/");
    assert_eq!(dir.name, "inner");
    let root = File::new("/");
    assert_eq!(root.name, "");
    let plain = File::new("a/b/c.txt");
    assert_eq!(plain.name, "c.txt");
    assert_eq!(plain.ext.as_deref(), Some("txt"));
}
