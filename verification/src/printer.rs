//! What the batch consumer needs to render results: the output mode, the
//! printer's configuration, the hyperlink escape sequences around a path,
//! the split of a matched line into plain and highlighted segments, and the
//! color parsing for file icons. Writing to the terminal itself happens
//! outside the library.

use vstd::prelude::*;
use vstd::string::StrSliceExecFns;

use crate::search::{spans_wf, MatchRange};

verus! {

/// How results are written: colored text, JSON, or bare file paths.
#[derive(Debug, Clone, Copy, PartialEq, Eq, Structural)]
pub enum PrintMode {
    Text,
    Json,
    Files,
}

/// The batch printer's configuration. Color choices for the individual
/// pieces belong to the printer itself.
#[derive(Debug, Clone, Copy, PartialEq, Eq, Structural)]
pub struct PrinterConfig {
    pub mode: PrintMode,
    pub colored_output: bool,
    pub absolute_paths: bool,
    pub disable_hyperlinks: bool,
    pub disable_devicons: bool,
}

impl Default for PrinterConfig {
    /// Colored text output with hyperlinks and icons, relative paths.
    fn default() -> (c: PrinterConfig)
        ensures
            c == (PrinterConfig {
                mode: PrintMode::Text,
                colored_output: true,
                absolute_paths: false,
                disable_hyperlinks: false,
                disable_devicons: false,
            }),
    {
        PrinterConfig {
            mode: PrintMode::Text,
            colored_output: true,
            absolute_paths: false,
            disable_hyperlinks: false,
            disable_devicons: false,
        }
    }
}

/// The escape sequence that opens a terminal hyperlink to `uri`, with an
/// optional link id.
pub open spec fn spec_hyperlink_open(uri: Seq<char>, id: Option<Seq<char>>) -> Seq<char> {
    match id {
        Option::Some(id) => "\u{1b}]8;id="@ + id + ";"@ + uri + "\u{1b}\\"@,
        Option::None => "\u{1b}]8;;"@ + uri + "\u{1b}\\"@,
    }
}

/// A terminal hyperlink: the escape sequences that make a printed path
/// clickable.
#[derive(Debug, Clone)]
pub struct Hyperlink {
    pub uri: String,
    pub id: Option<String>,
}

impl Hyperlink {
    /// The sequence that starts the link.
    pub fn open_sequence(&self) -> (r: String)
        ensures
            r@ == spec_hyperlink_open(
                self.uri@,
                match self.id {
                    Option::Some(id) => Option::Some(id@),
                    Option::None => Option::None,
                },
            ),
    {
        match &self.id {
            Option::Some(id) => {
                let mut r = String::from_str("\u{1b}]8;id=");
                r.append(id.as_str());
                r.append(";");
                r.append(self.uri.as_str());
                r.append("\u{1b}\\");
                r
            },
            Option::None => {
                let mut r = String::from_str("\u{1b}]8;;");
                r.append(self.uri.as_str());
                r.append("\u{1b}\\");
                r
            },
        }
    }

    /// The sequence that ends the link.
    pub fn close_sequence() -> (r: String)
        ensures
            r@ == "\u{1b}]8;;\u{1b}\\"@,
    {
        String::from_str("\u{1b}]8;;\u{1b}\\")
    }
}

/// One piece of a printed line: the bytes `[start, end)` of the line, either
/// part of a match (to be highlighted) or plain text between matches.
#[derive(Debug, Clone, Copy, PartialEq, Eq, Structural)]
pub struct LineSegment {
    pub start: usize,
    pub end: usize,
    pub matched: bool,
}

impl View for LineSegment {
    type V = (int, int, bool);

    open spec fn view(&self) -> (int, int, bool) {
        (self.start as int, self.end as int, self.matched)
    }
}

impl DeepView for LineSegment {
    type V = (int, int, bool);

    open spec fn deep_view(&self) -> (int, int, bool) {
        self.view()
    }
}

/// The segments that tile `[cursor, line_len)` around the given spans: one
/// plain segment before each span that starts past the cursor, one matched
/// segment per span, and one plain tail after the last span.
pub open spec fn spec_segments_from(spans: Seq<(int, int)>, cursor: int, line_len: int) -> Seq<
    (int, int, bool),
>
    decreases spans.len(),
{
    if spans.len() == 0 {
        if cursor < line_len {
            seq![(cursor, line_len, false)]
        } else {
            Seq::empty()
        }
    } else {
        let s = spans.first();
        let head = if cursor < s.0 {
            seq![(cursor, s.0, false), (s.0, s.1, true)]
        } else {
            seq![(s.0, s.1, true)]
        };
        head + spec_segments_from(spans.drop_first(), s.1, line_len)
    }
}

/// How a line of `line_len` bytes is split for printing around its matches.
pub open spec fn spec_line_segments(line_len: int, spans: Seq<(int, int)>) -> Seq<(int, int, bool)> {
    spec_segments_from(spans, 0, line_len)
}

/// Split a line of `line_len` bytes into print segments around its matches:
/// plain text up to each match, the match itself marked for highlighting,
/// and the plain tail after the last match.
pub fn match_segments(line_len: usize, matches: &Vec<MatchRange>) -> (segments: Vec<LineSegment>)
    requires
        spans_wf(matches.deep_view(), line_len as int),
    ensures
        segments.deep_view() == spec_line_segments(line_len as int, matches.deep_view()),
{
    let ghost all = matches.deep_view();
    let mut segments: Vec<LineSegment> = Vec::new();
    let mut cursor: usize = 0;
    let mut i: usize = 0;
    proof {
        assert(all.skip(0) =~= all);
        assert(segments.deep_view() + spec_segments_from(all, 0, line_len as int)
            =~= spec_segments_from(all, 0, line_len as int));
    }
    while i < matches.len()
        invariant
            spans_wf(all, line_len as int),
            all == matches.deep_view(),
            all.len() == matches@.len(),
            i <= matches@.len(),
            i > 0 ==> cursor == all[i - 1].1,
            i == 0 ==> cursor == 0,
            cursor <= line_len,
            i < matches@.len() ==> cursor <= all[i as int].0,
            spec_line_segments(line_len as int, all) == segments.deep_view()
                + spec_segments_from(all.skip(i as int), cursor as int, line_len as int),
        decreases matches@.len() - i,
    {
        let m = matches[i];
        let ghost before = segments.deep_view();
        let ghost rest = all.skip(i as int);
        proof {
            assert(rest.first() == all[i as int]);
            assert(rest.drop_first() =~= all.skip(i + 1));
        }
        if cursor < m.start {
            segments.push(LineSegment { start: cursor, end: m.start, matched: false });
            segments.push(LineSegment { start: m.start, end: m.end, matched: true });
            proof {
                assert(segments.deep_view() =~= before + seq![
                    (cursor as int, m.start as int, false),
                    (m.start as int, m.end as int, true),
                ]);
            }
        } else {
            segments.push(LineSegment { start: m.start, end: m.end, matched: true });
            proof {
                assert(segments.deep_view() =~= before + seq![
                    (m.start as int, m.end as int, true),
                ]);
            }
        }
        cursor = m.end;
        i = i + 1;
    }
    proof {
        assert(all.skip(i as int) =~= Seq::<(int, int)>::empty());
    }
    if cursor < line_len {
        let ghost before = segments.deep_view();
        segments.push(LineSegment { start: cursor, end: line_len, matched: false });
        proof {
            assert(segments.deep_view() =~= before + seq![
                (cursor as int, line_len as int, false),
            ]);
            assert(segments.deep_view() =~= spec_line_segments(line_len as int, all));
        }
    } else {
        proof {
            assert(segments.deep_view() =~= spec_line_segments(line_len as int, all));
        }
    }
    segments
}

/// The value of one hexadecimal digit, or 16 for anything else.
pub open spec fn spec_hex_digit(c: char) -> int {
    match c {
        '0' => 0,
        '1' => 1,
        '2' => 2,
        '3' => 3,
        '4' => 4,
        '5' => 5,
        '6' => 6,
        '7' => 7,
        '8' => 8,
        '9' => 9,
        'a' => 10,
        'b' => 11,
        'c' => 12,
        'd' => 13,
        'e' => 14,
        'f' => 15,
        'A' => 10,
        'B' => 11,
        'C' => 12,
        'D' => 13,
        'E' => 14,
        'F' => 15,
        _ => 16,
    }
}

fn hex_digit(c: char) -> (d: u8)
    ensures
        d as int == spec_hex_digit(c),
{
    match c {
        '0' => 0,
        '1' => 1,
        '2' => 2,
        '3' => 3,
        '4' => 4,
        '5' => 5,
        '6' => 6,
        '7' => 7,
        '8' => 8,
        '9' => 9,
        'a' => 10,
        'b' => 11,
        'c' => 12,
        'd' => 13,
        'e' => 14,
        'f' => 15,
        'A' => 10,
        'B' => 11,
        'C' => 12,
        'D' => 13,
        'E' => 14,
        'F' => 15,
        _ => 16,
    }
}

/// The three channels of a `#rrggbb` color — exactly a hash sign and six
/// hexadecimal digits; anything else has none.
pub open spec fn spec_parse_hex_color(s: Seq<char>) -> Option<(u8, u8, u8)> {
    if s.len() == 7 && s[0] == '#' && (forall|i: int|
        1 <= i < 7 ==> spec_hex_digit(#[trigger] s[i]) < 16) {
        Option::Some(
            (
                (16 * spec_hex_digit(s[1]) + spec_hex_digit(s[2])) as u8,
                (16 * spec_hex_digit(s[3]) + spec_hex_digit(s[4])) as u8,
                (16 * spec_hex_digit(s[5]) + spec_hex_digit(s[6])) as u8,
            ),
        )
    } else {
        Option::None
    }
}

/// Parse an icon's `#rrggbb` color into its red, green and blue channels,
/// for the consumer that turns it into a terminal color.
pub fn parse_hex_color(s: &str) -> (r: Option<(u8, u8, u8)>)
    ensures
        r == spec_parse_hex_color(s@),
{
    if s.unicode_len() != 7 {
        return None;
    }
    if s.get_char(0) != '#' {
        return None;
    }
    let d1 = hex_digit(s.get_char(1));
    let d2 = hex_digit(s.get_char(2));
    let d3 = hex_digit(s.get_char(3));
    let d4 = hex_digit(s.get_char(4));
    let d5 = hex_digit(s.get_char(5));
    let d6 = hex_digit(s.get_char(6));
    if d1 > 15 || d2 > 15 || d3 > 15 || d4 > 15 || d5 > 15 || d6 > 15 {
        return None;
    }
    proof {
        assert forall|i: int| 1 <= i < 7 implies spec_hex_digit(#[trigger] s@[i]) < 16 by {
            if i == 1 {
            } else if i == 2 {
            } else if i == 3 {
            } else if i == 4 {
            } else if i == 5 {
            } else {
                assert(i == 6);
            }
        }
    }
    Some((16 * d1 + d2, 16 * d3 + d4, 16 * d5 + d6))
}

} // verus!
