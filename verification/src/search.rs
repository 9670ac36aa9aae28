//! The per-file search engine: match spans, per-line results, per-file
//! result sets, and the verified grouping of raw matcher output into them.
//!
//! The regex work itself is done by the `grep` crates behind a small set of
//! trusted wrappers; everything that turns their raw output into structured
//! results is verified here.

use vstd::prelude::*;

use grep::matcher::Matcher as _;

verus! {

/// A half-open byte-offset range `[start, end)` within a line's text,
/// identifying one regex match. Zero-width spans are permitted.
#[derive(Debug, Clone, Copy)]
pub struct MatchRange {
    pub start: usize,
    pub end: usize,
}

impl View for MatchRange {
    type V = (int, int);

    open spec fn view(&self) -> (int, int) {
        (self.start as int, self.end as int)
    }
}

impl DeepView for MatchRange {
    type V = (int, int);

    open spec fn deep_view(&self) -> (int, int) {
        self.view()
    }
}

impl MatchRange {
    /// The invariant every match range satisfies: `start <= end`.
    pub open spec fn wf(self) -> bool {
        self.start <= self.end
    }

    /// Create a new match.
    #[inline]
    pub fn new(start: usize, end: usize) -> (m: MatchRange)
        requires
            start <= end,
        ensures
            m.start == start,
            m.end == end,
    {
        MatchRange { start, end }
    }

    /// Creates a zero width match at the given offset.
    #[inline]
    pub fn zero(offset: usize) -> (m: MatchRange)
        ensures
            m.start == offset,
            m.end == offset,
    {
        MatchRange { start: offset, end: offset }
    }

    /// Return the start offset of this match.
    #[inline]
    pub fn start(&self) -> (r: usize)
        ensures
            r == self.start,
    {
        self.start
    }

    /// Return the end offset of this match.
    #[inline]
    pub fn end(&self) -> (r: usize)
        ensures
            r == self.end,
    {
        self.end
    }

    /// Return a new match with the start offset replaced with the given
    /// value.
    #[inline]
    pub fn with_start(&self, start: usize) -> (m: MatchRange)
        requires
            start <= self.end,
        ensures
            m.start == start,
            m.end == self.end,
    {
        MatchRange { start, ..*self }
    }

    /// Return a new match with the end offset replaced with the given
    /// value.
    #[inline]
    pub fn with_end(&self, end: usize) -> (m: MatchRange)
        requires
            self.start <= end,
        ensures
            m.start == self.start,
            m.end == end,
    {
        MatchRange { end, ..*self }
    }

    /// Offset this match by the given amount and return a new match.
    ///
    /// This adds the given offset to the start and end of this match, and
    /// returns the resulting match.
    #[inline]
    pub fn offset(&self, amount: usize) -> (m: MatchRange)
        requires
            self.start + amount <= usize::MAX,
            self.end + amount <= usize::MAX,
        ensures
            m.start == self.start + amount,
            m.end == self.end + amount,
    {
        MatchRange { start: self.start + amount, end: self.end + amount }
    }

    /// Returns the number of bytes in this match.
    #[inline]
    pub fn len(&self) -> (n: usize)
        requires
            self.wf(),
        ensures
            n == self.end - self.start,
    {
        self.end - self.start
    }

    /// Returns true if and only if this match is empty.
    #[inline]
    pub fn is_empty(&self) -> (r: bool)
        requires
            self.wf(),
        ensures
            r == (self.start == self.end),
    {
        self.len() == 0
    }
}

/// The mathematical value of one per-line result.
pub ghost struct SearchRec {
    pub line_number: int,
    pub line: Seq<char>,
    pub line_start: int,
    pub line_end: int,
    pub matches: Seq<(int, int)>,
}

/// All matches found on one logical line (in multi-line mode: on one maximal
/// run of lines containing a match), with the 1-based physical line number of
/// its first line.
#[derive(Debug, Clone)]
pub struct SearchResult {
    pub line_number: u64,
    pub line: String,
    pub line_start: u64,
    pub line_end: u64,
    pub matches: Vec<MatchRange>,
}

impl View for SearchResult {
    type V = SearchRec;

    open spec fn view(&self) -> SearchRec {
        SearchRec {
            line_number: self.line_number as int,
            line: self.line@,
            line_start: self.line_start as int,
            line_end: self.line_end as int,
            matches: self.matches.deep_view(),
        }
    }
}

impl DeepView for SearchResult {
    type V = SearchRec;

    open spec fn deep_view(&self) -> SearchRec {
        self.view()
    }
}

/// The mathematical value of a per-file result set.
pub ghost struct FileRec {
    pub path: Seq<char>,
    pub results: Seq<SearchRec>,
}

/// Every match found in one file, grouped by line, ordered by ascending
/// line number.
#[derive(Debug, Clone)]
pub struct FileResults {
    pub path: String,
    pub results: Vec<SearchResult>,
}

impl View for FileResults {
    type V = FileRec;

    open spec fn view(&self) -> FileRec {
        FileRec { path: self.path@, results: self.results.deep_view() }
    }
}

impl DeepView for FileResults {
    type V = FileRec;

    open spec fn deep_view(&self) -> FileRec {
        self.view()
    }
}

impl FileResults {
    /// True iff the file had no matching line.
    pub fn is_empty(&self) -> (r: bool)
        ensures
            r == (self@.results.len() == 0),
    {
        self.results.is_empty()
    }

    /// The number of matching lines in the file.
    pub fn len(&self) -> (n: usize)
        ensures
            n == self@.results.len(),
    {
        self.results.len()
    }
}

/// The mathematical value of one reported line.
pub ghost struct MatchedLineRec {
    pub line_number: int,
    pub text: Seq<char>,
    pub bytes: Seq<u8>,
}

/// One line (in multi-line mode: one maximal run of lines) that the searcher
/// reported as containing a match: its 1-based first line number, its text,
/// and the same text as raw bytes for offset arithmetic.
#[derive(Debug, Clone)]
pub struct MatchedLine {
    pub line_number: u64,
    pub text: String,
    pub bytes: Vec<u8>,
}

impl View for MatchedLine {
    type V = MatchedLineRec;

    open spec fn view(&self) -> MatchedLineRec {
        MatchedLineRec { line_number: self.line_number as int, text: self.text@, bytes: self.bytes@ }
    }
}

impl DeepView for MatchedLine {
    type V = MatchedLineRec;

    open spec fn deep_view(&self) -> MatchedLineRec {
        self.view()
    }
}

/// grep's compiled multi-pattern regex matcher, declared so that it can be
/// held and passed around; its behavior enters only through the wrappers
/// below.
#[verifier::external_type_specification]
#[verifier::external_body]
pub struct ExRegexMatcher(grep::regex::RegexMatcher);

/// grep's line-oriented searcher, declared so that it can be held and
/// passed around; it carries mutable scan-buffer state, so each worker owns
/// its own.
#[verifier::external_type_specification]
#[verifier::external_body]
pub struct ExSearcher(grep::searcher::Searcher);

/// Whether every pattern of a pattern set is valid regex syntax, so that the
/// set compiles into one alternation. Compilation is a function of the
/// pattern list alone.
pub uninterp spec fn patterns_compile(patterns: Seq<Seq<char>>) -> bool;

/// The spans that the compiled alternation of `patterns` matches in
/// `haystack`: successive non-overlapping matches, in scan order, as
/// half-open byte ranges. A function of the patterns and the haystack alone.
pub uninterp spec fn found_matches(patterns: Seq<Seq<char>>, haystack: Seq<u8>) -> Seq<(int, int)>;

/// The lines of `haystack` on which the alternation of `patterns` matches
/// (with `multiline` set: the maximal runs of lines containing a match),
/// in order. A function of the three arguments alone.
pub uninterp spec fn matched_lines(
    multiline: bool,
    patterns: Seq<Seq<char>>,
    haystack: Seq<u8>,
) -> Seq<MatchedLineRec>;

/// Whether the scan of `haystack` decodes: every line it reports is valid
/// UTF-8 (text opening with a byte-order mark is transcoded first). Like the
/// reported lines themselves, this is a function of the three arguments
/// alone, so the scan's outcome — not only its value — is deterministic.
pub uninterp spec fn scan_decodes(
    multiline: bool,
    patterns: Seq<Seq<char>>,
    haystack: Seq<u8>,
) -> bool;

/// Spans in scan order: `start <= end` for each, non-overlapping, with
/// strictly increasing starts.
pub open spec fn spans_ordered(spans: Seq<(int, int)>) -> bool {
    &&& (forall|i: int| 0 <= i < spans.len() ==> 0 <= #[trigger] spans[i].0 <= spans[i].1)
    &&& (forall|i: int, j: int|
        0 <= i < j < spans.len() ==> (#[trigger] spans[i].1 <= #[trigger] spans[j].0 && spans[i].0
            < spans[j].0))
}

/// What every span list handed back by the matcher satisfies: ordered as
/// above, and each span lies within the haystack.
pub open spec fn spans_wf(spans: Seq<(int, int)>, len: int) -> bool {
    &&& spans_ordered(spans)
    &&& (forall|i: int| 0 <= i < spans.len() ==> #[trigger] spans[i].1 <= len)
}

/// What every line list handed back by the searcher satisfies: 1-based line
/// numbers, strictly increasing, and each line's bytes are exactly its text,
/// UTF-8 encoded.
pub open spec fn lines_wf(lines: Seq<MatchedLineRec>) -> bool {
    &&& (forall|i: int| 0 <= i < lines.len() ==> 1 <= #[trigger] lines[i].line_number)
    &&& (forall|i: int, j: int|
        0 <= i < j < lines.len() ==> #[trigger] lines[i].line_number < #[trigger] lines[j].line_number)
    &&& (forall|i: int|
        0 <= i < lines.len() ==> #[trigger] lines[i].bytes == vstd::utf8::encode_utf8(
            lines[i].text,
        ))
}

/// The error raised when a pattern set fails to compile.
#[derive(Debug, Clone)]
pub struct PatternError {
    pub message: String,
}

/// The error raised when one file's scan fails (for instance on text that is
/// not valid UTF-8); the whole file's result is discarded, nothing partial
/// is reported.
#[derive(Debug, Clone)]
pub struct FileScanError {
    pub message: String,
}

/// A compiled multi-pattern matcher. The pattern set it was built from is
/// carried as a ghost value, so that contracts can speak of what the matcher
/// matches; `build_matcher` is the one constructor, and it ties the ghost
/// set to the patterns the matcher was actually compiled from.
pub struct PatternMatcher {
    inner: grep::regex::RegexMatcher,
    patterns: Ghost<Seq<Seq<char>>>,
}

impl PatternMatcher {
    /// The pattern set this matcher was built from.
    pub closed spec fn patterns(&self) -> Seq<Seq<char>> {
        self.patterns@
    }
}

/// Relies on grep's `RegexMatcherBuilder::build_many`: the patterns are
/// combined into a single alternation, and building succeeds exactly when
/// every pattern is valid regex syntax, a deterministic property of the
/// pattern list.
#[verifier::external_body]
fn regex_build_many(patterns: &Vec<String>) -> (r: Result<grep::regex::RegexMatcher, String>)
    ensures
        r is Ok <==> patterns_compile(patterns.deep_view()),
{
    grep::regex::RegexMatcherBuilder::new().build_many(patterns).map_err(|e| e.to_string())
}

/// Build one matcher from a pattern set, combined as an alternation: a line
/// matches if any pattern matches. Fails with `PatternError` exactly when
/// some pattern is invalid regex syntax.
pub fn build_matcher(patterns: &Vec<String>) -> (r: Result<PatternMatcher, PatternError>)
    ensures
        r is Ok <==> patterns_compile(patterns.deep_view()),
        r matches Ok(m) ==> m.patterns() == patterns.deep_view(),
{
    match regex_build_many(patterns) {
        Ok(inner) => Ok(
            PatternMatcher { inner, patterns: Ghost(patterns.deep_view()) },
        ),
        Err(message) => Err(PatternError { message }),
    }
}

/// A line-oriented searcher paired with the multi-line flag it was built
/// with. Searchers carry mutable scan state, so each thread owns its own.
pub struct LineScanner {
    inner: grep::searcher::Searcher,
    multiline: bool,
}

impl LineScanner {
    /// Whether this scanner searches across line boundaries.
    pub closed spec fn is_multiline(&self) -> bool {
        self.multiline
    }

    /// Whether this scanner searches across line boundaries.
    pub fn multiline(&self) -> (r: bool)
        ensures
            r == self.is_multiline(),
    {
        self.multiline
    }
}

/// Relies on grep's `SearcherBuilder`: builds a searcher that reports
/// 1-based line numbers (the builder's default) and searches across line
/// boundaries exactly when `multiline` is set.
#[verifier::external_body]
fn searcher_with_multiline(multiline: bool) -> grep::searcher::Searcher {
    let mut builder = grep::searcher::SearcherBuilder::new();
    builder.multi_line(multiline);
    builder.build()
}

/// Build a line scanner. Each worker thread constructs its own: the scanner
/// carries mutable buffer state and is never shared.
pub fn build_searcher(multiline: bool) -> (s: LineScanner)
    ensures
        s.is_multiline() == multiline,
{
    LineScanner { inner: searcher_with_multiline(multiline), multiline }
}

/// Relies on grep's `Searcher::search_slice` with the `UTF8` sink: it hands
/// the closure, in order of strictly increasing 1-based line number, every
/// line (in multi-line mode: every maximal run of lines) on which the
/// matcher matches, and fails exactly when a reported line is not valid
/// UTF-8 (a slice opening with a byte-order mark is transcoded instead) —
/// deterministically, since what is reported and whether it decodes are
/// functions of the multi-line flag, the patterns and the haystack alone.
/// The scanner's own flag is untouched.
#[verifier::external_body]
fn scan_slice(scanner: &mut LineScanner, matcher: &PatternMatcher, haystack: &Vec<u8>) -> (r:
    Result<Vec<MatchedLine>, String>)
    ensures
        final(scanner).is_multiline() == old(scanner).is_multiline(),
        r is Ok <==> scan_decodes(old(scanner).is_multiline(), matcher.patterns(), haystack@),
        r matches Ok(lines) ==> lines.deep_view() == matched_lines(
            old(scanner).is_multiline(),
            matcher.patterns(),
            haystack@,
        ) && lines_wf(lines.deep_view()),
{
    let mut out: Vec<MatchedLine> = Vec::new();
    let sink = grep::searcher::sinks::UTF8(|line_number, text| {
        let bytes = text.as_bytes().to_vec();
        out.push(MatchedLine { line_number, text: text.to_string(), bytes });
        Ok(true)
    });
    match scanner.inner.search_slice(&matcher.inner, haystack.as_slice(), sink) {
        Ok(()) => Ok(out),
        Err(e) => Err(e.to_string()),
    }
}

/// Relies on grep's `Matcher::find_iter`: it hands the closure successive
/// non-overlapping matches in scan order, each within the haystack and with
/// `start <= end`; which spans match is a function of the patterns and the
/// haystack alone. The regex matcher's error type has no values, so the
/// iteration cannot fail.
#[verifier::external_body]
fn find_matches(matcher: &PatternMatcher, haystack: &Vec<u8>) -> (r: Vec<MatchRange>)
    ensures
        r.deep_view() == found_matches(matcher.patterns(), haystack@),
        spans_wf(r.deep_view(), haystack@.len() as int),
{
    let mut out: Vec<MatchRange> = Vec::new();
    let _ = matcher.inner.find_iter(haystack.as_slice(), |m| {
        out.push(MatchRange { start: m.start(), end: m.end() });
        true
    });
    out
}

/// The number of newline bytes in `bytes`.
pub open spec fn count_newlines(bytes: Seq<u8>) -> int
    decreases bytes.len(),
{
    if bytes.len() == 0 {
        0
    } else {
        count_newlines(bytes.drop_last()) + if bytes.last() == 10u8 {
            1int
        } else {
            0int
        }
    }
}

pub proof fn lemma_count_newlines_bounds(bytes: Seq<u8>)
    ensures
        0 <= count_newlines(bytes) <= bytes.len(),
    decreases bytes.len(),
{
    if bytes.len() > 0 {
        lemma_count_newlines_bounds(bytes.drop_last());
    }
}

/// The number of newline bytes among the first `end` bytes.
fn count_newlines_upto(bytes: &Vec<u8>, end: usize) -> (n: usize)
    requires
        end <= bytes@.len(),
    ensures
        n as int == count_newlines(bytes@.take(end as int)),
{
    let mut n: usize = 0;
    let mut i: usize = 0;
    proof {
        assert(bytes@.take(0) =~= Seq::<u8>::empty());
    }
    while i < end
        invariant
            i <= end <= bytes@.len(),
            n <= i,
            n as int == count_newlines(bytes@.take(i as int)),
        decreases end - i,
    {
        proof {
            assert(bytes@.take(i + 1).drop_last() =~= bytes@.take(i as int));
            assert(bytes@.take(i + 1).last() == bytes@[i as int]);
        }
        if bytes[i] == 10u8 {
            n = n + 1;
        }
        i = i + 1;
    }
    n
}

/// The 1-based number of the last line that a result's matches reach:
/// its first line number plus every newline up to the end of its last match.
/// In single-line mode the two coincide; a match that spans lines (multi-line
/// mode) makes `line_end` exceed `line_start`. Saturates at `u64::MAX`.
pub open spec fn spec_line_end(line_number: int, bytes: Seq<u8>, ms: Seq<(int, int)>) -> int {
    if ms.len() == 0 {
        line_number
    } else {
        let c = line_number + count_newlines(bytes.take(ms.last().1));
        if c <= u64::MAX {
            c
        } else {
            u64::MAX as int
        }
    }
}

/// The one result record built from a reported line and the matches found on
/// it.
pub open spec fn spec_result_of(l: MatchedLineRec, ms: Seq<(int, int)>) -> SearchRec {
    SearchRec {
        line_number: l.line_number,
        line: l.text,
        line_start: l.line_number,
        line_end: spec_line_end(l.line_number, l.bytes, ms),
        matches: ms,
    }
}

/// The result set built from the reported lines: one record for every line
/// on which the matcher finds at least one span, in the order the lines were
/// reported; lines without a span are suppressed.
pub open spec fn spec_search_lines(patterns: Seq<Seq<char>>, lines: Seq<MatchedLineRec>) -> Seq<
    SearchRec,
>
    decreases lines.len(),
{
    if lines.len() == 0 {
        Seq::empty()
    } else {
        let rest = spec_search_lines(patterns, lines.drop_last());
        let l = lines.last();
        let ms = found_matches(patterns, l.bytes);
        if ms.len() == 0 {
            rest
        } else {
            rest.push(spec_result_of(l, ms))
        }
    }
}

/// Group the matcher's raw output into per-line results: for each reported
/// line, find every non-overlapping match on it and build one `SearchResult`;
/// a line on which the matcher finds nothing is dropped.
pub fn search_lines(matcher: &PatternMatcher, lines: &Vec<MatchedLine>) -> (r: Vec<SearchResult>)
    requires
        lines_wf(lines.deep_view()),
    ensures
        r.deep_view() == spec_search_lines(matcher.patterns(), lines.deep_view()),
        forall|k: int|
            0 <= k < r.deep_view().len() ==> spans_wf(
                (#[trigger] r.deep_view()[k]).matches,
                vstd::utf8::encode_utf8(r.deep_view()[k].line).len() as int,
            ),
{
    let mut out: Vec<SearchResult> = Vec::new();
    let mut i: usize = 0;
    proof {
        assert(lines.deep_view().take(0) =~= Seq::<MatchedLineRec>::empty());
    }
    while i < lines.len()
        invariant
            i <= lines@.len(),
            lines.deep_view().len() == lines@.len(),
            lines_wf(lines.deep_view()),
            out.deep_view() == spec_search_lines(matcher.patterns(), lines.deep_view().take(i as int)),
            forall|k: int|
                0 <= k < out.deep_view().len() ==> spans_wf(
                    (#[trigger] out.deep_view()[k]).matches,
                    vstd::utf8::encode_utf8(out.deep_view()[k].line).len() as int,
                ),
        decreases lines@.len() - i,
    {
        let ghost prefix = lines.deep_view().take(i as int);
        let ghost extended = lines.deep_view().take(i + 1);
        proof {
            assert(extended.drop_last() =~= prefix);
            assert(extended.last() == lines.deep_view()[i as int]);
        }
        let line = &lines[i];
        let ms = find_matches(matcher, &line.bytes);
        if ms.len() > 0 {
            let last_end = ms[ms.len() - 1].end;
            assert(ms.deep_view()[ms@.len() - 1].1 <= line.bytes@.len());
            let newline_count = count_newlines_upto(&line.bytes, last_end);
            proof {
                lemma_count_newlines_bounds(line.bytes@.take(last_end as int));
            }
            let line_end: u64 = if (newline_count as u64) <= u64::MAX - line.line_number {
                line.line_number + (newline_count as u64)
            } else {
                u64::MAX
            };
            let ghost before = out.deep_view();
            let result = SearchResult {
                line_number: line.line_number,
                line: line.text.clone(),
                line_start: line.line_number,
                line_end,
                matches: ms,
            };
            proof {
                assert(result.deep_view() == spec_result_of(
                    lines.deep_view()[i as int],
                    found_matches(matcher.patterns(), line.bytes@),
                ));
                assert(lines.deep_view()[i as int].bytes == vstd::utf8::encode_utf8(
                    lines.deep_view()[i as int].text,
                ));
                assert(spans_wf(
                    result.deep_view().matches,
                    vstd::utf8::encode_utf8(result.deep_view().line).len() as int,
                ));
            }
            out.push(result);
            proof {
                assert(out.deep_view() =~= before.push(
                    spec_result_of(
                        lines.deep_view()[i as int],
                        found_matches(matcher.patterns(), line.bytes@),
                    ),
                ));
            }
        }
        i = i + 1;
    }
    proof {
        assert(lines.deep_view().take(lines@.len() as int) =~= lines.deep_view());
    }
    out
}

/// The complete result set that one scan of one in-memory text produces.
pub open spec fn spec_file_results(
    path: Seq<char>,
    multiline: bool,
    patterns: Seq<Seq<char>>,
    haystack: Seq<u8>,
) -> FileRec {
    FileRec {
        path,
        results: spec_search_lines(patterns, matched_lines(multiline, patterns, haystack)),
    }
}

/// Search one in-memory text: scan it line by line (or across lines when the
/// scanner is multi-line), find every non-overlapping match on each reported
/// line, and group the matches into one result per line. The search succeeds
/// exactly when the scan decodes; text that does not fails with
/// `FileScanError` and nothing partial is reported.
pub fn search_buffer(
    matcher: &PatternMatcher,
    scanner: &mut LineScanner,
    haystack: &Vec<u8>,
    path: String,
) -> (r: Result<FileResults, FileScanError>)
    ensures
        final(scanner).is_multiline() == old(scanner).is_multiline(),
        r is Ok <==> scan_decodes(old(scanner).is_multiline(), matcher.patterns(), haystack@),
        r matches Ok(fr) ==> fr@ == spec_file_results(
            path@,
            old(scanner).is_multiline(),
            matcher.patterns(),
            haystack@,
        ),
        r matches Ok(fr) ==> forall|k: int|
            0 <= k < fr@.results.len() ==> spans_wf(
                (#[trigger] fr@.results[k]).matches,
                vstd::utf8::encode_utf8(fr@.results[k].line).len() as int,
            ),
        r matches Ok(fr) ==> forall|i: int, j: int|
            0 <= i < j < fr@.results.len() ==> #[trigger] fr@.results[i].line_number
                < #[trigger] fr@.results[j].line_number,
{
    match scan_slice(scanner, matcher, haystack) {
        Ok(lines) => {
            proof {
                lemma_results_sorted(matcher.patterns(), lines.deep_view());
            }
            let results = search_lines(matcher, &lines);
            Ok(FileResults { path, results })
        },
        Err(message) => Err(FileScanError { message }),
    }
}

/// Law: the engine produces exactly one result for each reported line on
/// which the matcher finds at least one span, and that result carries that
/// line's number, its text and exactly the spans found on it, in scan order.
/// (Uniqueness is `lemma_results_sorted`: line numbers are strictly
/// increasing, so no line number appears twice.)
pub proof fn lemma_one_result_per_matching_line(patterns: Seq<Seq<char>>, lines: Seq<MatchedLineRec>)
    ensures
        forall|i: int|
            0 <= i < lines.len() && found_matches(patterns, (#[trigger] lines[i]).bytes).len() > 0
                ==> spec_search_lines(patterns, lines).contains(
                spec_result_of(lines[i], found_matches(patterns, lines[i].bytes)),
            ),
    decreases lines.len(),
{
    if lines.len() > 0 {
        lemma_one_result_per_matching_line(patterns, lines.drop_last());
        let rest = spec_search_lines(patterns, lines.drop_last());
        let r = spec_search_lines(patterns, lines);
        assert forall|i: int|
            0 <= i < lines.len() && found_matches(patterns, (#[trigger] lines[i]).bytes).len()
                > 0 implies r.contains(
            spec_result_of(lines[i], found_matches(patterns, lines[i].bytes)),
        ) by {
            let target = spec_result_of(lines[i], found_matches(patterns, lines[i].bytes));
            if i < lines.len() - 1 {
                assert(lines.drop_last()[i] == lines[i]);
                assert(rest.contains(target));
                let k = choose|k: int| 0 <= k < rest.len() && rest[k] == target;
                if found_matches(patterns, lines.last().bytes).len() == 0 {
                    assert(r == rest);
                } else {
                    assert(r[k] == target);
                }
            } else {
                assert(r.last() == target);
            }
        }
    }
}

/// Law: the engine invents nothing — every record in the result set is the
/// record of one reported line, carrying exactly the spans found on that
/// line.
pub proof fn lemma_every_result_from_a_line(patterns: Seq<Seq<char>>, lines: Seq<MatchedLineRec>)
    ensures
        forall|k: int|
            0 <= k < spec_search_lines(patterns, lines).len() ==> exists|i: int|
                0 <= i < lines.len() && found_matches(patterns, (#[trigger] lines[i]).bytes).len()
                    > 0 && #[trigger] spec_search_lines(patterns, lines)[k] == spec_result_of(
                    lines[i],
                    found_matches(patterns, lines[i].bytes),
                ),
    decreases lines.len(),
{
    if lines.len() > 0 {
        let prev = lines.drop_last();
        lemma_every_result_from_a_line(patterns, prev);
        let rest = spec_search_lines(patterns, prev);
        let r = spec_search_lines(patterns, lines);
        let ms = found_matches(patterns, lines.last().bytes);
        assert(forall|i: int| 0 <= i < prev.len() ==> prev[i] == lines[i]);
        assert forall|k: int| 0 <= k < r.len() implies exists|i: int|
            0 <= i < lines.len() && found_matches(patterns, (#[trigger] lines[i]).bytes).len() > 0
                && #[trigger] r[k] == spec_result_of(
                lines[i],
                found_matches(patterns, lines[i].bytes),
            ) by {
            if k < rest.len() {
                let i = choose|i: int|
                    0 <= i < prev.len() && found_matches(patterns, (#[trigger] prev[i]).bytes).len()
                        > 0 && #[trigger] rest[k] == spec_result_of(
                        prev[i],
                        found_matches(patterns, prev[i].bytes),
                    );
                assert(r[k] == rest[k]);
                assert(lines[i] == prev[i]);
            } else {
                assert(ms.len() > 0 && k == rest.len());
                let i = lines.len() - 1;
                assert(r[k] == spec_result_of(lines[i], found_matches(patterns, lines[i].bytes)));
            }
        }
    }
}

/// Law: with strictly increasing input line numbers (which the searcher
/// guarantees), the engine's results are sorted by strictly ascending
/// `line_number` — in particular no two results share a line number.
pub proof fn lemma_results_sorted(patterns: Seq<Seq<char>>, lines: Seq<MatchedLineRec>)
    requires
        lines_wf(lines),
    ensures
        forall|i: int, j: int|
            0 <= i < j < spec_search_lines(patterns, lines).len()
                ==> #[trigger] spec_search_lines(patterns, lines)[i].line_number
                < #[trigger] spec_search_lines(patterns, lines)[j].line_number,
        spec_search_lines(patterns, lines).len() > 0 && lines.len() > 0
            ==> spec_search_lines(patterns, lines).last().line_number
            <= lines.last().line_number,
    decreases lines.len(),
{
    if lines.len() > 0 {
        let prev = lines.drop_last();
        assert(forall|i: int| 0 <= i < prev.len() ==> prev[i] == lines[i]);
        lemma_results_sorted(patterns, prev);
        let rest = spec_search_lines(patterns, prev);
        let r = spec_search_lines(patterns, lines);
        let ms = found_matches(patterns, lines.last().bytes);
        if ms.len() > 0 {
            assert(r == rest.push(spec_result_of(lines.last(), ms)));
            if rest.len() > 0 {
                assert(rest.last().line_number <= prev.last().line_number);
                assert(prev.last() == lines[lines.len() - 2]);
                assert(prev.last().line_number < lines.last().line_number);
            }
            assert forall|i: int, j: int| 0 <= i < j < r.len() implies #[trigger] r[i].line_number
                < #[trigger] r[j].line_number by {
                if j < rest.len() {
                    assert(r[i] == rest[i] && r[j] == rest[j]);
                } else {
                    assert(r[j] == spec_result_of(lines.last(), ms));
                    assert(r[i] == rest[i]);
                    if i < rest.len() - 1 {
                        assert(rest[i].line_number < rest.last().line_number);
                    }
                }
            }
        }
    }
}

/// Law: what a search returns is a function of the scanner's mode, the
/// pattern set, the text and the path alone — running the same search twice
/// against unmodified content yields the same result set. The outcome is a
/// function of the same arguments: by `search_buffer`'s contract both runs
/// succeed, or both fail, as `scan_decodes` says.
pub proof fn lemma_search_deterministic(
    path: Seq<char>,
    multiline: bool,
    patterns: Seq<Seq<char>>,
    haystack: Seq<u8>,
    first: FileRec,
    second: FileRec,
)
    requires
        first == spec_file_results(path, multiline, patterns, haystack),
        second == spec_file_results(path, multiline, patterns, haystack),
    ensures
        first == second,
{
}

} // verus!

