//! The preview pane of the log view: a compact summary of the selected
//! change (author, bookmarks, description, change statistics and the list of
//! changed files) fitted into a number of lines and a width.
//!
//! Lines are built as styled spans; the application draws them.
use vstd::prelude::*;

use crate::text::{
    chars_of, decimal, decimal_string, find_char, first_index_of, join, join_strings, push_char,
    push_str, slice_chars, string_from, string_of, string_views,
};

verus! {

// ===========================================================================
// Input: the diff of a change
// ===========================================================================

/// Kind of a line of a diff.
#[derive(Debug, Clone, Copy, PartialEq, Eq, Structural)]
pub enum DiffLineKind {
    /// Starts a file; its content is the path.
    FileHeader,
    Added,
    Deleted,
    Context,
    /// Any other line (hunk headers, separators, notes).
    Other,
}

/// What happened to a file.
#[derive(Debug, Clone, Copy, PartialEq, Eq, Structural)]
pub enum FileOperation {
    Added,
    Modified,
    Deleted,
}

/// One line of a diff.
#[derive(Debug, Clone)]
pub struct DiffLine {
    pub kind: DiffLineKind,
    pub content: String,
    /// The file's operation, when the diff format states it (on headers).
    pub file_op: Option<FileOperation>,
}

/// The diff of a change with its metadata.
#[derive(Debug, Clone)]
pub struct DiffContent {
    pub author: String,
    pub timestamp: String,
    pub description: String,
    pub lines: Vec<DiffLine>,
}

impl DiffLine {
    /// The header line of a file whose operation the diff does not state.
    pub fn file_header(path: &str) -> (r: Self)
        ensures
            r.kind == DiffLineKind::FileHeader,
            r.content@ == path@,
            r.file_op is None,
    {
        DiffLine { kind: DiffLineKind::FileHeader, content: string_from(path), file_op: None }
    }

    /// The header line of a file with its operation.
    pub fn file_header_with_op(path: &str, op: FileOperation) -> (r: Self)
        ensures
            r.kind == DiffLineKind::FileHeader,
            r.content@ == path@,
            r.file_op == Some(op),
    {
        DiffLine { kind: DiffLineKind::FileHeader, content: string_from(path), file_op: Some(op) }
    }

    /// The empty line between files.
    pub fn separator() -> (r: Self)
        ensures
            r.kind == DiffLineKind::Other,
            r.content@.len() == 0,
            r.file_op is None,
    {
        DiffLine { kind: DiffLineKind::Other, content: String::new(), file_op: None }
    }
}

impl Default for DiffContent {
    /// No metadata and no lines.
    fn default() -> (r: Self)
        ensures
            r.author@.len() == 0,
            r.timestamp@.len() == 0,
            r.description@.len() == 0,
            r.lines@.len() == 0,
    {
        DiffContent {
            author: String::new(),
            timestamp: String::new(),
            description: String::new(),
            lines: Vec::new(),
        }
    }
}

/// The operation a status letter of `jj diff --summary` stands for.
pub open spec fn summary_op(letter: Seq<char>) -> FileOperation {
    if letter == "A"@ {
        FileOperation::Added
    } else if letter == "D"@ {
        FileOperation::Deleted
    } else {
        FileOperation::Modified
    }
}

/// One line of `jj diff --summary` ("M path"): the header line of the file
/// with its operation; `None` for a line without a space.
pub fn parse_summary_line(line: &str) -> (r: Option<DiffLine>)
    ensures
        match first_index_of(line@, ' ') {
            Some(i) => r matches Some(d) && d.kind == DiffLineKind::FileHeader && d.content@ == line@.subrange(
                i + 1,
                line@.len() as int,
            ) && d.file_op == Some(summary_op(line@.subrange(0, i))),
            None => r is None,
        },
{
    let v = chars_of(line);
    assert(v@.subrange(0, v@.len() as int) =~= v@);
    let found = find_char(&v, ' ', 0);
    proof {
        crate::text::lemma_first_index_of(line@, ' ');
    }
    match found {
        Some(i) => {
            assert(i < v.len());
            let letter = slice_chars(&v, 0, i);
            let op = if letter.len() == 1 && letter[0] == 'A' {
                FileOperation::Added
            } else if letter.len() == 1 && letter[0] == 'D' {
                FileOperation::Deleted
            } else {
                FileOperation::Modified
            };
            proof {
                reveal_strlit("A");
                reveal_strlit("D");
                if letter@.len() == 1 && letter@[0] == 'A' {
                    assert(letter@ =~= "A"@);
                }
                if letter@.len() == 1 && letter@[0] == 'D' {
                    assert(letter@ =~= "D"@);
                }
            }
            let path = string_of(slice_chars(&v, i + 1, v.len()).as_slice());
            Some(DiffLine::file_header_with_op(path.as_str(), op))
        },
        None => None,
    }
}

// ===========================================================================
// Output: styled lines
// ===========================================================================

/// How a span is drawn.
#[derive(Debug, Clone, Copy, PartialEq, Eq, Structural)]
pub enum SpanStyle {
    Plain,
    Bold,
    DarkGray,
    Magenta,
    Green,
    Red,
    Yellow,
}

/// A run of text in one style.
#[derive(Debug, Clone)]
pub struct PreviewSpan {
    pub text: String,
    pub style: SpanStyle,
}

/// One line of the pane; no spans is a blank line.
#[derive(Debug, Clone)]
pub struct PreviewLine {
    pub spans: Vec<PreviewSpan>,
}

/// A span as text and style.
pub open spec fn span_view(s: PreviewSpan) -> (Seq<char>, SpanStyle) {
    (s.text@, s.style)
}

/// A line as its spans.
pub open spec fn line_view(l: PreviewLine) -> Seq<(Seq<char>, SpanStyle)> {
    l.spans@.map_values(|s: PreviewSpan| span_view(s))
}

/// Lines as their spans.
pub open spec fn lines_view(ls: Seq<PreviewLine>) -> Seq<Seq<(Seq<char>, SpanStyle)>> {
    ls.map_values(|l: PreviewLine| line_view(l))
}

fn span(text: String, style: SpanStyle) -> (r: PreviewSpan)
    ensures
        span_view(r) == (text@, style),
{
    PreviewSpan { text, style }
}

fn line1(a: PreviewSpan) -> (r: PreviewLine)
    ensures
        line_view(r) == seq![span_view(a)],
{
    let mut v = Vec::new();
    v.push(a);
    let r = PreviewLine { spans: v };
    assert(line_view(r) =~= seq![span_view(a)]);
    r
}

fn line2(a: PreviewSpan, b: PreviewSpan) -> (r: PreviewLine)
    ensures
        line_view(r) == seq![span_view(a), span_view(b)],
{
    let mut v = Vec::new();
    v.push(a);
    v.push(b);
    let r = PreviewLine { spans: v };
    assert(line_view(r) =~= seq![span_view(a), span_view(b)]);
    r
}

// ===========================================================================
// Per-file summaries
// ===========================================================================

/// The operation guessed from line counts when the diff does not state it:
/// only additions is an added file, only deletions a deleted one.
pub open spec fn inferred_op(insertions: nat, deletions: nat) -> FileOperation {
    if deletions == 0 && insertions > 0 {
        FileOperation::Added
    } else if insertions == 0 && deletions > 0 {
        FileOperation::Deleted
    } else {
        FileOperation::Modified
    }
}

/// Guess a file's operation from its line counts.
pub fn infer_file_op(insertions: usize, deletions: usize) -> (r: FileOperation)
    ensures
        r == inferred_op(insertions as nat, deletions as nat),
{
    if deletions == 0 && insertions > 0 {
        FileOperation::Added
    } else if insertions == 0 && deletions > 0 {
        FileOperation::Deleted
    } else {
        FileOperation::Modified
    }
}

/// Changes to one file.
#[derive(Debug, Clone)]
pub struct FileSummaryEntry {
    pub path: String,
    pub op: FileOperation,
    pub insertions: usize,
    pub deletions: usize,
}

// ===========================================================================
// Path truncation
// ===========================================================================

/// `path` cut to at most `budget` characters, ending in ".." when cut.
pub open spec fn truncated_path(path: Seq<char>, budget: nat) -> Seq<char> {
    if budget == 0 {
        Seq::empty()
    } else if path.len() <= budget {
        path
    } else if budget <= 2 {
        ".."@.take(budget as int)
    } else {
        path.take(budget - 2) + ".."@
    }
}

/// Fit `path` into `budget` characters: unchanged when it fits, else its
/// first `budget - 2` characters and "..".
pub fn truncate_path(path: &str, budget: usize) -> (r: String)
    ensures
        r@ == truncated_path(path@, budget as nat),
        r@.len() <= budget,
{
    proof {
        reveal_strlit("..");
    }
    if budget == 0 {
        return String::new();
    }
    let v = chars_of(path);
    if v.len() <= budget {
        return string_from(path);
    }
    if budget <= 2 {
        let mut s = String::new();
        let mut i: usize = 0;
        while i < budget
            invariant
                i <= budget <= 2,
                ".."@ == seq!['.', '.'],
                s@ == ".."@.take(i as int),
            decreases budget - i,
        {
            push_char(&mut s, '.');
            i = i + 1;
            assert(s@ =~= ".."@.take(i as int));
        }
        return s;
    }
    let keep = slice_chars(&v, 0, budget - 2);
    let mut s = string_of(keep.as_slice());
    push_str(&mut s, "..");
    assert(s@ =~= path@.take(budget - 2) + ".."@);
    s
}

// ===========================================================================
// One file's line
// ===========================================================================

/// `a - b`, or 0 when `b` is larger.
pub open spec fn sat_sub(a: nat, b: nat) -> nat {
    if a > b {
        (a - b) as nat
    } else {
        0
    }
}

/// The letter shown for an operation.
pub open spec fn op_letter(op: FileOperation) -> char {
    match op {
        FileOperation::Added => 'A',
        FileOperation::Deleted => 'D',
        FileOperation::Modified => 'M',
    }
}

/// The colour of an operation.
pub open spec fn op_style(op: FileOperation) -> SpanStyle {
    match op {
        FileOperation::Added => SpanStyle::Green,
        FileOperation::Deleted => SpanStyle::Red,
        FileOperation::Modified => SpanStyle::Yellow,
    }
}

/// "+N -N", leaving out a zero side ("" when both are zero).
pub open spec fn stats_text(insertions: nat, deletions: nat) -> Seq<char> {
    if insertions == 0 && deletions == 0 {
        Seq::empty()
    } else if deletions == 0 {
        seq!['+'] + decimal(insertions)
    } else if insertions == 0 {
        seq!['-'] + decimal(deletions)
    } else {
        seq!['+'] + decimal(insertions) + seq![' ', '-'] + decimal(deletions)
    }
}

/// `n` spaces.
pub open spec fn spaces(n: nat) -> Seq<char> {
    Seq::new(n, |_i: int| ' ')
}

/// Columns given to the statistics (with their leading space); none when
/// there are none or the pane is narrower than 20 columns.
pub open spec fn stats_columns(stats: Seq<char>, max_width: nat) -> nat {
    if stats.len() > 0 && max_width >= 20 {
        stats.len() + 1
    } else {
        0
    }
}

/// The line of one file: " X " and the path in the operation's colour, then
/// the statistics right-aligned to `max_width` columns.
pub open spec fn summary_line(
    path: Seq<char>,
    op: FileOperation,
    insertions: nat,
    deletions: nat,
    max_width: nat,
) -> Seq<(Seq<char>, SpanStyle)> {
    let stats = stats_text(insertions, deletions);
    let stats_width = stats_columns(stats, max_width);
    let shown = truncated_path(path, sat_sub(sat_sub(max_width, 3), stats_width));
    let head = seq![(seq![' ', op_letter(op), ' '], op_style(op)), (shown, op_style(op))];
    if stats_width > 0 {
        head.push((spaces(sat_sub(max_width, 3 + shown.len() + stats_width)) + stats, SpanStyle::DarkGray))
    } else {
        head
    }
}

/// The line of a summary entry.
pub open spec fn entry_line(e: FileSummaryEntry, max_width: nat) -> Seq<(Seq<char>, SpanStyle)> {
    summary_line(e.path@, e.op, e.insertions as nat, e.deletions as nat, max_width)
}

fn push_repeated(s: &mut String, c: char, n: usize)
    ensures
        final(s)@ == old(s)@ + Seq::new(n as nat, |_i: int| c),
{
    let mut i: usize = 0;
    while i < n
        invariant
            i <= n,
            s@ == old(s)@ + Seq::new(i as nat, |_k: int| c),
        decreases n - i,
    {
        push_char(s, c);
        i = i + 1;
        assert(s@ =~= old(s)@ + Seq::new(i as nat, |_k: int| c));
    }
}

fn stats_string(insertions: usize, deletions: usize) -> (r: String)
    ensures
        r@ == stats_text(insertions as nat, deletions as nat),
{
    let mut s = String::new();
    if insertions == 0 && deletions == 0 {
        assert(s@ =~= Seq::<char>::empty());
        return s;
    }
    if insertions > 0 {
        push_char(&mut s, '+');
        let d = decimal_string(insertions as u64);
        push_str(&mut s, d.as_str());
        if deletions > 0 {
            push_char(&mut s, ' ');
        }
    }
    if deletions > 0 {
        push_char(&mut s, '-');
        let d = decimal_string(deletions as u64);
        push_str(&mut s, d.as_str());
    }
    assert(s@ =~= stats_text(insertions as nat, deletions as nat));
    s
}

/// The line of one file in the pane: operation letter, path cut to fit, and
/// the statistics right-aligned to `max_width` columns.
pub fn format_file_summary_line(entry: &FileSummaryEntry, max_width: usize) -> (r: PreviewLine)
    ensures
        line_view(r) == entry_line(*entry, max_width as nat),
{
    let style = match entry.op {
        FileOperation::Added => SpanStyle::Green,
        FileOperation::Deleted => SpanStyle::Red,
        FileOperation::Modified => SpanStyle::Yellow,
    };
    let letter = match entry.op {
        FileOperation::Added => 'A',
        FileOperation::Deleted => 'D',
        FileOperation::Modified => 'M',
    };
    let stats = stats_string(entry.insertions, entry.deletions);
    let stats_len = chars_of(stats.as_str()).len();
    assert(stats_len <= 45) by {
        crate::text::lemma_decimal_len(entry.insertions as nat);
        crate::text::lemma_decimal_len(entry.deletions as nat);
    }
    let stats_width: usize = if stats_len > 0 && max_width >= 20 {
        stats_len + 1
    } else {
        0
    };
    assert(stats_width == stats_columns(stats@, max_width as nat));
    let budget = max_width.saturating_sub(3).saturating_sub(stats_width);
    assert(budget == sat_sub(sat_sub(max_width as nat, 3), stats_width as nat));
    let shown = truncate_path(entry.path.as_str(), budget);
    let shown_len = chars_of(shown.as_str()).len();
    let mut prefix = String::new();
    push_char(&mut prefix, ' ');
    push_char(&mut prefix, letter);
    push_char(&mut prefix, ' ');
    assert(prefix@ =~= seq![' ', op_letter(entry.op), ' ']);
    assert(style == op_style(entry.op));
    let ghost head = seq![(seq![' ', op_letter(entry.op), ' '], op_style(entry.op)), (shown@, op_style(entry.op))];
    let mut spans = Vec::new();
    spans.push(span(prefix, style));
    spans.push(span(shown, style));
    assert(spans@.map_values(|s: PreviewSpan| span_view(s)) =~= head);
    if stats_width > 0 {
        let used = 3 + shown_len + stats_width;
        let pad = max_width.saturating_sub(used);
        let mut padded = String::new();
        push_repeated(&mut padded, ' ', pad);
        push_str(&mut padded, stats.as_str());
        assert(padded@ =~= spaces(sat_sub(max_width as nat, (3 + shown@.len() + stats_width) as nat)) + stats@);
        spans.push(span(padded, SpanStyle::DarkGray));
        assert(spans@.map_values(|s: PreviewSpan| span_view(s)) =~= head.push(
            (spaces(sat_sub(max_width as nat, (3 + shown@.len() + stats_width) as nat)) + stats@, SpanStyle::DarkGray),
        ));
    }
    let r = PreviewLine { spans };
    assert(line_view(r) =~= entry_line(*entry, max_width as nat));
    r
}

// ===========================================================================
// Summaries of a diff
// ===========================================================================

/// A file summary as plain values.
pub struct FileSummaryView {
    pub path: Seq<char>,
    pub op: FileOperation,
    pub insertions: nat,
    pub deletions: nat,
}

/// A summary entry as plain values.
pub open spec fn summary_view(e: FileSummaryEntry) -> FileSummaryView {
    FileSummaryView {
        path: e.path@,
        op: e.op,
        insertions: e.insertions as nat,
        deletions: e.deletions as nat,
    }
}

/// Summary entries as plain values.
pub open spec fn summary_views(v: Seq<FileSummaryEntry>) -> Seq<FileSummaryView> {
    v.map_values(|e: FileSummaryEntry| summary_view(e))
}

/// The state of a pass over diff lines: the files finished so far, the file
/// being counted (its path and stated operation), and the counts since the
/// last file header.
pub struct SummaryScan {
    pub done: Seq<FileSummaryView>,
    pub path: Option<Seq<char>>,
    pub op: Option<FileOperation>,
    pub insertions: nat,
    pub deletions: nat,
}

/// The files finished, with the file being counted closed: its stated
/// operation, else the one inferred from its counts.
pub open spec fn flushed(st: SummaryScan) -> Seq<FileSummaryView> {
    match st.path {
        Some(p) => st.done.push(
            FileSummaryView {
                path: p,
                op: match st.op {
                    Some(o) => o,
                    None => inferred_op(st.insertions, st.deletions),
                },
                insertions: st.insertions,
                deletions: st.deletions,
            },
        ),
        None => st.done,
    }
}

/// One line of the pass: a header closes the current file and opens the
/// next; added and deleted lines are counted.
pub open spec fn scan_step(st: SummaryScan, l: DiffLine) -> SummaryScan {
    match l.kind {
        DiffLineKind::FileHeader => SummaryScan {
            done: flushed(st),
            path: Some(l.content@),
            op: l.file_op,
            insertions: 0,
            deletions: 0,
        },
        DiffLineKind::Added => SummaryScan { insertions: st.insertions + 1, ..st },
        DiffLineKind::Deleted => SummaryScan { deletions: st.deletions + 1, ..st },
        _ => st,
    }
}

/// The pass over `lines`, in order.
pub open spec fn scan_lines(lines: Seq<DiffLine>) -> SummaryScan
    decreases lines.len(),
{
    if lines.len() == 0 {
        SummaryScan { done: Seq::empty(), path: None, op: None, insertions: 0, deletions: 0 }
    } else {
        scan_step(scan_lines(lines.drop_last()), lines.last())
    }
}

/// The per-file summaries of a diff, in file order.
pub open spec fn file_summaries(lines: Seq<DiffLine>) -> Seq<FileSummaryView> {
    flushed(scan_lines(lines))
}

/// Added lines over all summaries.
pub open spec fn total_insertions(s: Seq<FileSummaryView>) -> nat
    decreases s.len(),
{
    if s.len() == 0 {
        0
    } else {
        total_insertions(s.drop_last()) + s.last().insertions
    }
}

/// Deleted lines over all summaries.
pub open spec fn total_deletions(s: Seq<FileSummaryView>) -> nat
    decreases s.len(),
{
    if s.len() == 0 {
        0
    } else {
        total_deletions(s.drop_last()) + s.last().deletions
    }
}

/// Counted lines never exceed the lines read.
proof fn lemma_scan_bound(lines: Seq<DiffLine>)
    ensures
        total_insertions(flushed(scan_lines(lines))) + total_deletions(flushed(scan_lines(lines)))
            <= lines.len(),
        total_insertions(scan_lines(lines).done) + total_deletions(scan_lines(lines).done)
            + scan_lines(lines).insertions + scan_lines(lines).deletions <= lines.len(),
        flushed(scan_lines(lines)).len() <= lines.len(),
    decreases lines.len(),
{
    if lines.len() > 0 {
        lemma_scan_bound(lines.drop_last());
        let st = scan_lines(lines.drop_last());
        assert(flushed(st).drop_last() =~= st.done || st.path is None);
    }
    let st = scan_lines(lines);
    if st.path is Some {
        assert(flushed(st).drop_last() =~= st.done);
    }
}

/// Summarize a diff file by file: for each header, the path, the stated
/// operation (else one inferred from the counts), and the added and deleted
/// lines up to the next header.
pub fn extract_file_summaries(lines: &[DiffLine]) -> (r: Vec<FileSummaryEntry>)
    ensures
        summary_views(r@) == file_summaries(lines@),
{
    let mut summaries: Vec<FileSummaryEntry> = Vec::new();
    let mut current_path: Option<String> = None;
    let mut current_op: Option<FileOperation> = None;
    let mut insertions: usize = 0;
    let mut deletions: usize = 0;
    let mut i: usize = 0;
    while i < lines.len()
        invariant
            i <= lines@.len(),
            ({
                let st = scan_lines(lines@.take(i as int));
                &&& summary_views(summaries@) == st.done
                &&& match current_path {
                    Some(p) => st.path == Some(p@),
                    None => st.path is None,
                }
                &&& current_op == st.op
                &&& insertions == st.insertions
                &&& deletions == st.deletions
            }),
        decreases lines.len() - i,
    {
        let ghost before = lines@.take(i as int);
        proof {
            lemma_scan_bound(before);
            assert(lines@.take(i + 1).drop_last() =~= before);
        }
        let line = &lines[i];
        match line.kind {
            DiffLineKind::FileHeader => {
                match current_path {
                    Some(path) => {
                        let op = match current_op {
                            Some(o) => o,
                            None => infer_file_op(insertions, deletions),
                        };
                        let ghost old_views = summary_views(summaries@);
                        summaries.push(FileSummaryEntry { path, op, insertions, deletions });
                        assert(summary_views(summaries@) =~= old_views.push(
                            summary_view(summaries@.last()),
                        ));
                    },
                    None => {},
                }
                current_path = Some(line.content.clone());
                current_op = line.file_op;
                insertions = 0;
                deletions = 0;
            },
            DiffLineKind::Added => {
                insertions = insertions + 1;
            },
            DiffLineKind::Deleted => {
                deletions = deletions + 1;
            },
            _ => {},
        }
        i = i + 1;
    }
    assert(lines@.take(lines@.len() as int) =~= lines@);
    match current_path {
        Some(path) => {
            let op = match current_op {
                Some(o) => o,
                None => infer_file_op(insertions, deletions),
            };
            let ghost old_views = summary_views(summaries@);
            summaries.push(FileSummaryEntry { path, op, insertions, deletions });
            assert(summary_views(summaries@) =~= old_views.push(summary_view(summaries@.last())));
        },
        None => {},
    }
    summaries
}

// ===========================================================================
// The pane
// ===========================================================================

/// A styled line as plain values.
pub type LineView = Seq<(Seq<char>, SpanStyle)>;

/// "s" unless `n` is one.
pub open spec fn plural(n: nat) -> Seq<char> {
    if n == 1 {
        Seq::empty()
    } else {
        seq!['s']
    }
}

/// "N file(s) changed, +I, -D".
pub open spec fn stats_line_text(files: nat, insertions: nat, deletions: nat) -> Seq<char> {
    decimal(files) + " file"@ + plural(files) + " changed, +"@ + decimal(insertions) + ", -"@ + decimal(
        deletions,
    )
}

/// "… and N more file(s)".
pub open spec fn more_files_text(more: nat) -> Seq<char> {
    "\u{2026} and "@ + decimal(more) + " more file"@ + plural(more)
}

/// `s` cut to at most `n` elements.
pub open spec fn at_most<A>(s: Seq<A>, n: nat) -> Seq<A> {
    if s.len() <= n {
        s
    } else {
        s.take(n as int)
    }
}

/// The lines above the file list: author and time, bookmarks, description,
/// and the change statistics, each only when there is something to show.
pub open spec fn header_lines(content: DiffContent, bookmarks: Seq<String>) -> Seq<LineView> {
    let files = file_summaries(content.lines@);
    let a: Seq<LineView> = if content.author@.len() > 0 {
        seq![
            seq![
                ("Author: "@, SpanStyle::DarkGray),
                (content.author@ + "  "@ + content.timestamp@, SpanStyle::Plain),
            ],
        ]
    } else {
        Seq::empty()
    };
    let b: Seq<LineView> = if bookmarks.len() > 0 {
        seq![
            seq![
                ("Bookmarks: "@, SpanStyle::DarkGray),
                (join(string_views(bookmarks), ", "@), SpanStyle::Magenta),
            ],
        ]
    } else {
        Seq::empty()
    };
    let d: Seq<LineView> = if content.description@.len() > 0 {
        seq![seq![(content.description@, SpanStyle::Bold)]]
    } else {
        Seq::empty()
    };
    let t: Seq<LineView> = if files.len() > 0 {
        seq![
            seq![
                (
                    stats_line_text(files.len(), total_insertions(files), total_deletions(files)),
                    SpanStyle::DarkGray,
                ),
            ],
        ]
    } else {
        Seq::empty()
    };
    a + b + d + t
}

/// The file lines of `files` at width `max_width`.
pub open spec fn file_lines(files: Seq<FileSummaryView>, max_width: nat) -> Seq<LineView> {
    files.map_values(
        |f: FileSummaryView| summary_line(f.path, f.op, f.insertions, f.deletions, max_width),
    )
}

/// The preview pane for a change with diff `content` and `bookmarks`, in at
/// most `max_lines` lines of `max_width` columns.
///
/// The header lines and a blank line come first, cut to `max_lines`. With no
/// files, no description and no author the pane stops there. Otherwise "(no changes)"
/// or the files follow; when the files do not fit, the last line says how
/// many more there are, and when no line is left for the files the blank
/// line gives way to that notice.
pub open spec fn preview_lines(
    content: DiffContent,
    bookmarks: Seq<String>,
    max_lines: nat,
    max_width: nat,
) -> Seq<LineView> {
    let files = file_summaries(content.lines@);
    let head = header_lines(content, bookmarks);
    let base = if head.len() > 0 {
        head.push(Seq::empty())
    } else {
        head
    };
    if files.len() == 0 && content.description@.len() == 0 && content.author@.len() == 0 {
        at_most(base, max_lines)
    } else if files.len() == 0 {
        at_most(base.push(seq![("(no changes)"@, SpanStyle::DarkGray)]), max_lines)
    } else {
        let rem0 = sat_sub(max_lines, base.len());
        let base2 = if rem0 == 0 && base.len() > 0 {
            base.drop_last()
        } else {
            base
        };
        let rem: nat = if rem0 == 0 && base.len() > 0 {
            1
        } else {
            rem0
        };
        let overflow = files.len() > rem && rem > 0;
        let shown: nat = if overflow {
            (rem - 1) as nat
        } else if files.len() < rem {
            files.len()
        } else {
            rem
        };
        let listed = base2 + file_lines(files.take(shown as int), max_width);
        let all = if overflow {
            listed.push(seq![(more_files_text((files.len() - shown) as nat), SpanStyle::DarkGray)])
        } else {
            listed
        };
        at_most(all, max_lines)
    }
}

proof fn lemma_totals_prefix(s: Seq<FileSummaryView>, k: int)
    requires
        0 <= k <= s.len(),
    ensures
        total_insertions(s.take(k)) <= total_insertions(s),
        total_deletions(s.take(k)) <= total_deletions(s),
    decreases s.len(),
{
    if k < s.len() {
        assert(s.drop_last().take(k) =~= s.take(k));
        lemma_totals_prefix(s.drop_last(), k);
    } else {
        assert(s.take(k) =~= s);
    }
}

/// Added and deleted lines over all summaries.
fn summary_totals(summaries: &Vec<FileSummaryEntry>, Ghost(bound): Ghost<nat>) -> (r: (usize, usize))
    requires
        total_insertions(summary_views(summaries@)) + total_deletions(summary_views(summaries@))
            <= bound,
        bound <= usize::MAX,
    ensures
        r.0 == total_insertions(summary_views(summaries@)),
        r.1 == total_deletions(summary_views(summaries@)),
{
    let ghost views = summary_views(summaries@);
    let mut ins: usize = 0;
    let mut del: usize = 0;
    let mut k: usize = 0;
    while k < summaries.len()
        invariant
            views == summary_views(summaries@),
            total_insertions(views) + total_deletions(views) <= bound <= usize::MAX,
            k <= summaries@.len(),
            ins == total_insertions(views.take(k as int)),
            del == total_deletions(views.take(k as int)),
        decreases summaries.len() - k,
    {
        proof {
            assert(views.take(k + 1).drop_last() =~= views.take(k as int));
            lemma_totals_prefix(views, k + 1);
        }
        ins = ins + summaries[k].insertions;
        del = del + summaries[k].deletions;
        k = k + 1;
    }
    assert(views.take(summaries@.len() as int) =~= views);
    (ins, del)
}

fn stats_line_string(files: usize, insertions: usize, deletions: usize) -> (r: String)
    ensures
        r@ == stats_line_text(files as nat, insertions as nat, deletions as nat),
{
    let mut s = decimal_string(files as u64);
    push_str(&mut s, " file");
    if files != 1 {
        push_char(&mut s, 's');
    }
    push_str(&mut s, " changed, +");
    let d = decimal_string(insertions as u64);
    push_str(&mut s, d.as_str());
    push_str(&mut s, ", -");
    let d = decimal_string(deletions as u64);
    push_str(&mut s, d.as_str());
    assert(s@ =~= stats_line_text(files as nat, insertions as nat, deletions as nat));
    s
}

fn more_files_string(more: usize) -> (r: String)
    ensures
        r@ == more_files_text(more as nat),
{
    let mut s = string_from("\u{2026} and ");
    let d = decimal_string(more as u64);
    push_str(&mut s, d.as_str());
    push_str(&mut s, " more file");
    if more != 1 {
        push_char(&mut s, 's');
    }
    assert(s@ =~= more_files_text(more as nat));
    s
}

/// The header lines, given the file count and totals of the diff.
fn preview_header(
    content: &DiffContent,
    bookmarks: &[String],
    total_files: usize,
    total_ins: usize,
    total_del: usize,
) -> (r: Vec<PreviewLine>)
    requires
        total_files == file_summaries(content.lines@).len(),
        total_ins == total_insertions(file_summaries(content.lines@)),
        total_del == total_deletions(file_summaries(content.lines@)),
    ensures
        lines_view(r@) == header_lines(*content, bookmarks@),
{
    let mut lines: Vec<PreviewLine> = Vec::new();
    if chars_of(content.author.as_str()).len() > 0 {
        let mut t = string_from(content.author.as_str());
        push_str(&mut t, "  ");
        push_str(&mut t, content.timestamp.as_str());
        lines.push(line2(span(string_from("Author: "), SpanStyle::DarkGray), span(t, SpanStyle::Plain)));
    }
    if bookmarks.len() > 0 {
        let joined = join_strings(bookmarks, ", ");
        lines.push(
            line2(span(string_from("Bookmarks: "), SpanStyle::DarkGray), span(joined, SpanStyle::Magenta)),
        );
    }
    if chars_of(content.description.as_str()).len() > 0 {
        lines.push(line1(span(content.description.clone(), SpanStyle::Bold)));
    }
    if total_files > 0 {
        let t = stats_line_string(total_files, total_ins, total_del);
        lines.push(line1(span(t, SpanStyle::DarkGray)));
    }
    assert(lines_view(lines@) =~= header_lines(*content, bookmarks@));
    lines
}

/// Append the lines of the first `count` summaries.
fn push_file_lines(
    lines: &mut Vec<PreviewLine>,
    summaries: &Vec<FileSummaryEntry>,
    count: usize,
    max_width: usize,
)
    requires
        count <= summaries@.len(),
    ensures
        lines_view(final(lines)@) == lines_view(old(lines)@) + file_lines(
            summary_views(summaries@).take(count as int),
            max_width as nat,
        ),
{
    let ghost files = summary_views(summaries@);
    let mut k: usize = 0;
    assert(file_lines(files.take(0), max_width as nat) =~= Seq::empty());
    assert(lines_view(lines@) =~= lines_view(old(lines)@) + Seq::empty());
    while k < count
        invariant
            k <= count <= summaries@.len(),
            files == summary_views(summaries@),
            lines_view(lines@) == lines_view(old(lines)@) + file_lines(files.take(k as int), max_width as nat),
        decreases count - k,
    {
        let l = format_file_summary_line(&summaries[k], max_width);
        assert(files[k as int] == summary_view(summaries@[k as int]));
        let ghost prev = lines_view(lines@);
        lines.push(l);
        k = k + 1;
        assert(files.take(k as int) =~= files.take(k - 1).push(files[k - 1]));
        assert(file_lines(files.take(k as int), max_width as nat) =~= file_lines(
            files.take(k - 1),
            max_width as nat,
        ).push(line_view(l)));
        assert(lines_view(lines@) =~= prev.push(line_view(l)));
    }
}

/// Build the preview pane for a change: see [`preview_lines`].
pub fn build_preview_lines(
    content: &DiffContent,
    bookmarks: &[String],
    max_lines: usize,
    max_width: usize,
) -> (r: Vec<PreviewLine>)
    ensures
        lines_view(r@) == preview_lines(*content, bookmarks@, max_lines as nat, max_width as nat),
{
    let ghost files = file_summaries(content.lines@);
    let ghost head = header_lines(*content, bookmarks@);
    let has_author = chars_of(content.author.as_str()).len() > 0;
    let has_description = chars_of(content.description.as_str()).len() > 0;
    let summaries = extract_file_summaries(content.lines.as_slice());
    let total_files = summaries.len();
    proof {
        lemma_scan_bound(content.lines@);
    }
    let n_lines = content.lines.len();
    let (total_ins, total_del) = summary_totals(&summaries, Ghost(n_lines as nat));
    let mut lines = preview_header(content, bookmarks, total_files, total_ins, total_del);
    if lines.len() > 0 {
        let blank = PreviewLine { spans: Vec::new() };
        assert(line_view(blank) =~= Seq::empty());
        lines.push(blank);
    }
    let ghost base = lines_view(lines@);
    assert(base =~= if head.len() > 0 {
        head.push(Seq::empty())
    } else {
        head
    });
    if total_files == 0 && !has_description && !has_author {
        lines.truncate(max_lines);
        assert(lines_view(lines@) =~= at_most(base, max_lines as nat));
        return lines;
    }
    if total_files == 0 {
        lines.push(line1(span(string_from("(no changes)"), SpanStyle::DarkGray)));
        assert(lines_view(lines@) =~= base.push(seq![("(no changes)"@, SpanStyle::DarkGray)]));
    } else {
        let mut remaining = max_lines.saturating_sub(lines.len());
        if remaining == 0 && lines.len() > 0 {
            lines.pop();
            remaining = 1;
        }
        let ghost base2 = lines_view(lines@);
        assert(base2 =~= if sat_sub(max_lines as nat, base.len()) == 0 && base.len() > 0 {
            base.drop_last()
        } else {
            base
        });
        let need_overflow = total_files > remaining && remaining > 0;
        let display_count = if need_overflow {
            remaining - 1
        } else if total_files < remaining {
            total_files
        } else {
            remaining
        };
        push_file_lines(&mut lines, &summaries, display_count, max_width);
        if need_overflow {
            let more = total_files - display_count;
            let ghost listed = lines_view(lines@);
            lines.push(line1(span(more_files_string(more), SpanStyle::DarkGray)));
            assert(lines_view(lines@) =~= listed.push(
                seq![(more_files_text(more as nat), SpanStyle::DarkGray)],
            ));
        }
    }
    let ghost all = lines_view(lines@);
    lines.truncate(max_lines);
    assert(lines_view(lines@) =~= at_most(all, max_lines as nat));
    lines
}

/// The pane never takes more than `max_lines` lines, and an empty change
/// without bookmarks shows nothing.
pub proof fn law_preview_fits(
    content: DiffContent,
    bookmarks: Seq<String>,
    max_lines: nat,
    max_width: nat,
)
    ensures
        preview_lines(content, bookmarks, max_lines, max_width).len() <= max_lines,
        content.author@.len() == 0 && content.description@.len() == 0 && file_summaries(content.lines@).len() == 0
            && bookmarks.len() == 0 ==> preview_lines(content, bookmarks, max_lines, max_width).len() == 0,
{
}

/// A cut path fits its budget, and a path that fits is shown whole.
pub proof fn law_truncated_path_fits(path: Seq<char>, budget: nat)
    ensures
        truncated_path(path, budget).len() <= budget,
        path.len() <= budget ==> truncated_path(path, budget) == path,
{
    reveal_strlit("..");
}

} // verus!
