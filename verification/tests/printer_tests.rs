use grip_grab::policy::{is_excluded, TraversalPolicy};
use grip_grab::printer::{
    match_segments, parse_hex_color, Hyperlink, LineSegment, PrintMode, PrinterConfig,
};
use grip_grab::search::MatchRange;

#[test]
fn default_printer_configuration() {
    let c = PrinterConfig::default();
    assert_eq!(c.mode, PrintMode::Text);
    assert!(c.colored_output);
    assert!(!c.absolute_paths);
    assert!(!c.disable_hyperlinks);
    assert!(!c.disable_devicons);
}

#[test]
fn segments_tile_the_line_around_matches() {
    // The line "foo bar foo\n" with matches on both occurrences of "foo".
    let matches = vec![MatchRange::new(0, 3), MatchRange::new(8, 11)];
    let segments = match_segments(12, &matches);
    assert_eq!(
        segments,
        vec![
            LineSegment { start: 0, end: 3, matched: true },
            LineSegment { start: 3, end: 8, matched: false },
            LineSegment { start: 8, end: 11, matched: true },
            LineSegment { start: 11, end: 12, matched: false },
        ]
    );
}

#[test]
fn segments_of_an_unmatched_line_are_one_plain_piece() {
    let segments = match_segments(5, &vec![]);
    assert_eq!(segments, vec![LineSegment { start: 0, end: 5, matched: false }]);
}

#[test]
fn segments_without_a_tail() {
    let matches = vec![MatchRange::new(2, 5)];
    let segments = match_segments(5, &matches);
    assert_eq!(
        segments,
        vec![
            LineSegment { start: 0, end: 2, matched: false },
            LineSegment { start: 2, end: 5, matched: true },
        ]
    );
}

#[test]
fn hyperlink_escape_sequences() {
    let link = Hyperlink { uri: String::from("file:///tmp/a.txt"), id: None };
    assert_eq!(link.open_sequence(), "\u{1b}]8;;file:///tmp/a.txt\u{1b}\\");
    let tagged = Hyperlink { uri: String::from("file:///x"), id: Some(String::from("k7")) };
    assert_eq!(tagged.open_sequence(), "\u{1b}]8;id=k7;file:///x\u{1b}\\");
    assert_eq!(Hyperlink::close_sequence(), "\u{1b}]8;;\u{1b}\\");
}

#[test]
fn excluded_paths_match_exactly() {
    let excluded = vec![String::from("/repo/skip"), String::from("/repo/other")];
    assert!(is_excluded(&String::from("/repo/skip"), &excluded));
    assert!(!is_excluded(&String::from("/repo/skip/inner.txt"), &excluded));
    assert!(!is_excluded(&String::from("/repo/ski"), &excluded));
}

#[test]
fn policy_keeps_everything_but_excluded_entries() {
    let policy = TraversalPolicy::build(
        vec![String::from("/repo")],
        vec![String::from("/repo/skip")],
        true,
        4,
        vec![],
    );
    assert!(policy.keeps_entry(&String::from("/repo/src/main.rs")));
    assert!(!policy.keeps_entry(&String::from("/repo/skip")));
    assert_eq!(policy.thread_count, 4);
    assert!(policy.respect_gitignore);
}

#[test]
fn hex_colors_parse_exactly() {
    assert_eq!(parse_hex_color("#cbcb41"), Some((0xcb, 0xcb, 0x41)));
    assert_eq!(parse_hex_color("#000000"), Some((0, 0, 0)));
    assert_eq!(parse_hex_color("#FFffFF"), Some((255, 255, 255)));
    assert_eq!(parse_hex_color("cbcb41"), None);
    assert_eq!(parse_hex_color("#cbcb4"), None);
    assert_eq!(parse_hex_color("#cbcb411"), None);
    assert_eq!(parse_hex_color("#cbcb4g"), None);
    assert_eq!(parse_hex_color(""), None);
}
