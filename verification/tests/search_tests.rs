use grip_grab::search::{build_matcher, build_searcher, search_buffer, FileResults, MatchRange};

fn results_of(patterns: &[&str], multiline: bool, content: &[u8]) -> FileResults {
    let patterns: Vec<String> = patterns.iter().map(|p| p.to_string()).collect();
    let matcher = build_matcher(&patterns).expect("patterns must compile");
    let mut scanner = build_searcher(multiline);
    search_buffer(&matcher, &mut scanner, &content.to_vec(), String::from("a.txt"))
        .expect("scan must succeed")
}

#[test]
fn single_line_two_matches() {
    let fr = results_of(&["foo"], false, b"foo bar foo\n");
    assert_eq!(fr.path, "a.txt");
    assert_eq!(fr.results.len(), 1);
    let r = &fr.results[0];
    assert_eq!(r.line_number, 1);
    assert_eq!(r.line_start, 1);
    assert_eq!(r.line_end, 1);
    assert_eq!(r.line, "foo bar foo\n");
    assert_eq!(r.matches.len(), 2);
    assert_eq!((r.matches[0].start, r.matches[0].end), (0, 3));
    assert_eq!((r.matches[1].start, r.matches[1].end), (8, 11));
}

#[test]
fn alternation_matches_either_pattern() {
    let fr = results_of(&["foo", "bar"], false, b"bar\n");
    assert_eq!(fr.results.len(), 1);
    let r = &fr.results[0];
    assert_eq!(r.line_number, 1);
    assert_eq!(r.matches.len(), 1);
    assert_eq!((r.matches[0].start, r.matches[0].end), (0, 3));
}

#[test]
fn pattern_across_lines_needs_multiline() {
    let fr = results_of(&["foo\nbar"], false, b"foo\nbar\n");
    assert!(fr.is_empty());
}

#[test]
fn multiline_match_spans_two_line_numbers() {
    let fr = results_of(&["foo\nbar"], true, b"foo\nbar\n");
    assert_eq!(fr.results.len(), 1);
    let r = &fr.results[0];
    assert_eq!(r.line_number, 1);
    assert_eq!(r.line_start, 1);
    assert_eq!(r.line_end, 2);
    assert_eq!(r.matches.len(), 1);
    assert_eq!((r.matches[0].start, r.matches[0].end), (0, 7));
}

#[test]
fn results_sorted_by_line_number_without_duplicates() {
    let fr = results_of(&["a"], false, b"abc\nxyz\na a a\nnothing here\nlast a\n");
    assert_eq!(fr.results.len(), 3);
    for pair in fr.results.windows(2) {
        assert!(pair[0].line_number < pair[1].line_number);
    }
    let third = &fr.results[1];
    assert_eq!(third.line_number, 3);
    assert_eq!(third.matches.len(), 3);
    for pair in third.matches.windows(2) {
        assert!(pair[0].start < pair[1].start);
        assert!(pair[0].end <= pair[1].start);
    }
}

#[test]
fn same_search_twice_gives_same_results() {
    let content = b"alpha\nbeta alpha\ngamma\n";
    let first = results_of(&["alpha"], false, content);
    let second = results_of(&["alpha"], false, content);
    assert_eq!(first.results.len(), second.results.len());
    for (a, b) in first.results.iter().zip(second.results.iter()) {
        assert_eq!(a.line_number, b.line_number);
        assert_eq!(a.line, b.line);
        assert_eq!(a.line_start, b.line_start);
        assert_eq!(a.line_end, b.line_end);
        assert_eq!(a.matches.len(), b.matches.len());
        for (x, y) in a.matches.iter().zip(b.matches.iter()) {
            assert_eq!(x.start, y.start);
            assert_eq!(x.end, y.end);
        }
    }
}

#[test]
fn no_match_yields_empty_results() {
    let fr = results_of(&["zzz"], false, b"nothing of the kind\n");
    assert!(fr.is_empty());
    assert_eq!(fr.len(), 0);
}

#[test]
fn invalid_pattern_is_a_pattern_error() {
    let patterns: Vec<String> = vec!["(".to_string()];
    assert!(build_matcher(&patterns).is_err());
}

#[test]
fn invalid_utf8_is_a_scan_error() {
    let patterns: Vec<String> = vec!["foo".to_string()];
    let matcher = build_matcher(&patterns).unwrap();
    let mut scanner = build_searcher(false);
    let produced = search_buffer(
        &matcher,
        &mut scanner,
        &vec![b'f', b'o', b'o', 0xff, b'\n'],
        String::from("bin"),
    );
    assert!(produced.is_err());
}

#[test]
fn match_range_operations() {
    let m = MatchRange::new(2, 5);
    assert_eq!(m.start(), 2);
    assert_eq!(m.end(), 5);
    assert_eq!(m.len(), 3);
    assert!(!m.is_empty());
    let z = MatchRange::zero(4);
    assert_eq!((z.start(), z.end()), (4, 4));
    assert!(z.is_empty());
    let widened = m.with_start(1);
    assert_eq!((widened.start(), widened.end()), (1, 5));
    let narrowed = m.with_end(3);
    assert_eq!((narrowed.start(), narrowed.end()), (2, 3));
    let shifted = m.offset(10);
    assert_eq!((shifted.start(), shifted.end()), (12, 15));
}

#[test]
fn scanner_keeps_its_mode() {
    let scanner = build_searcher(true);
    assert!(scanner.multiline());
    let scanner = build_searcher(false);
    assert!(!scanner.multiline());
}
