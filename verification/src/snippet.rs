use vstd::prelude::*;

use crate::error::{AnnotationView, Error, ErrorView, Severity};
use crate::position::{cell_of, lemma_line_of, line_of, lines_before};
use crate::report::TextRange;
use crate::source::{
    cut, ends_line, fits, has_next_line, lemma_cut_order, lemma_line_end, line_end, line_start,
    ModuleView,
};
use crate::stub::opt_text;
use crate::words::byte_len;

verus! {

/// How a span is marked.
#[derive(Clone, Copy, Debug, PartialEq, Eq, Structural)]
pub enum MarkLevel {
    Error,
    Warning,
    Info,
    Silent,
}

/// A span of a piece of source that is marked.
pub struct Mark {
    pub level: MarkLevel,
    pub start: usize,
    pub end: usize,
    pub label: Option<String>,
}

/// A mark as plain text.
pub struct MarkView {
    pub level: MarkLevel,
    pub start: int,
    pub end: int,
    pub label: Option<Seq<char>>,
}

impl View for Mark {
    type V = MarkView;

    open spec fn view(&self) -> MarkView {
        MarkView {
            level: self.level,
            start: self.start as int,
            end: self.end as int,
            label: opt_text(self.label),
        }
    }
}

/// A piece of source that is shown with marks.
pub struct SnippetData {
    pub source: String,
    /// The number of its first line.
    pub line_start: usize,
    pub origin: String,
    pub marks: Vec<Mark>,
}

/// A piece of source as plain text.
pub struct SnippetView {
    pub source: Seq<char>,
    pub line_start: int,
    pub origin: Seq<char>,
    pub marks: Seq<MarkView>,
}

/// Marks as plain text.
pub open spec fn mark_views(marks: Seq<Mark>) -> Seq<MarkView> {
    marks.map_values(|m: Mark| m@)
}

impl View for SnippetData {
    type V = SnippetView;

    open spec fn view(&self) -> SnippetView {
        SnippetView {
            source: self.source@,
            line_start: self.line_start as int,
            origin: self.origin@,
            marks: mark_views(self.marks@),
        }
    }
}

/// Pieces of source as plain text.
pub open spec fn snippet_views(snippets: Seq<SnippetData>) -> Seq<SnippetView> {
    snippets.map_values(|s: SnippetData| s@)
}

/// How many lines a piece of source has at most, and how far labels may be from an error to be
/// shown together with it.
pub const MAX_LINES: u32 = 10;

/// The lines that a range begins and ends on, counted from 0.
pub open spec fn lines_of(s: Seq<char>, range: TextRange) -> (int, int) {
    (
        lines_before(s, cut(s, range.start as nat)) as int,
        lines_before(s, cut(s, range.end as nat)) as int,
    )
}

/// Whether lines are at most `MAX_LINES` apart.
pub open spec fn close_by(a: int, b: int) -> bool {
    -MAX_LINES <= a - b <= MAX_LINES
}

/// Whether a label is near an error: it begins near the end of the error, and ends near its
/// beginning.
pub open spec fn is_near(s: Seq<char>, range: TextRange, label: TextRange) -> bool {
    let (p, q) = lines_of(s, range);
    let (a, b) = lines_of(s, label);
    close_by(a, q) && close_by(b, p)
}

/// The labels that are near an error, or those that are not.
pub open spec fn labels_where(
    s: Seq<char>,
    range: TextRange,
    labels: Seq<AnnotationView>,
    near: bool,
) -> Seq<AnnotationView>
    decreases labels.len(),
{
    if labels.len() == 0 {
        Seq::empty()
    } else if is_near(s, range, labels.last().range) == near {
        labels_where(s, range, labels.drop_last(), near).push(labels.last())
    } else {
        labels_where(s, range, labels.drop_last(), near)
    }
}

/// The lines that an error is shown with: its own, cut off after `MAX_LINES`, and those of the
/// labels near it.
pub open spec fn shown_lines(s: Seq<char>, range: TextRange, labels: Seq<AnnotationView>) -> (
    int,
    int,
)
    decreases labels.len(),
{
    let (p, q) = lines_of(s, range);
    if labels.len() == 0 {
        (
            p,
            if p + MAX_LINES < q {
                p + MAX_LINES
            } else {
                q
            },
        )
    } else {
        let (from, to) = shown_lines(s, range, labels.drop_last());
        let (a, b) = lines_of(s, labels.last().range);
        if is_near(s, range, labels.last().range) {
            (
                if a < from {
                    a
                } else {
                    from
                },
                if b > to {
                    b
                } else {
                    to
                },
            )
        } else {
            (from, to)
        }
    }
}

/// How an error is marked.
pub open spec fn level_of(severity: Severity) -> MarkLevel {
    match severity {
        Severity::Error => MarkLevel::Error,
        Severity::Warn => MarkLevel::Warning,
        Severity::Info => MarkLevel::Info,
        Severity::Ignore => MarkLevel::Silent,
    }
}

/// The lesser of two numbers.
pub open spec fn lesser(a: int, b: int) -> int {
    if a < b {
        a
    } else {
        b
    }
}

/// The marks of labels on a piece of source that takes `len` bytes from `offset` on.
pub open spec fn label_marks(labels: Seq<AnnotationView>, offset: int, len: int) -> Seq<MarkView>
    decreases labels.len(),
{
    if labels.len() == 0 {
        Seq::empty()
    } else {
        let before = label_marks(labels.drop_last(), offset, len);
        let a = labels.last();
        let start = if a.range.start > offset {
            a.range.start - offset
        } else {
            0
        };
        let end = lesser(start + (a.range.end - a.range.start), len);
        if start <= end {
            before.push(
                MarkView { level: MarkLevel::Warning, start, end, label: Some(a.label) },
            )
        } else {
            before
        }
    }
}

/// The text of lines, with the last line break.
pub open spec fn text_of_lines(s: Seq<char>, from: int, to: int) -> Seq<char> {
    s.subrange(line_start(s, from as nat)->0, line_end(s, line_start(s, to as nat)->0))
}

/// The number of a line, counted from 1, in a notebook within its cell.
pub open spec fn line_number(cells: Seq<u32>, line: int) -> int {
    match cell_of(cells, line) {
        Some(c) => line - cells[c] + 1,
        None => line + 1,
    }
}

/// Lines of a module with the marks of an error and of labels.
pub open spec fn piece(
    module: ModuleView,
    origin: Seq<char>,
    from: int,
    to: int,
    primary: Option<(TextRange, MarkLevel)>,
    labels: Seq<AnnotationView>,
) -> SnippetView {
    let s = module.contents;
    let source = text_of_lines(s, from, to);
    let len = byte_len(source) as int;
    let offset = byte_len(s.take(line_start(s, from as nat)->0)) as int;
    let first = match primary {
        Some((range, level)) => {
            let start = range.start - offset;
            seq![
                MarkView {
                    level,
                    start,
                    end: lesser(start + (range.end - range.start), len),
                    label: None,
                },
            ]
        },
        None => Seq::empty(),
    };
    SnippetView {
        source,
        line_start: line_number(module.cells, from),
        origin,
        marks: first + label_marks(labels, offset, len),
    }
}

/// The pieces of source for labels that are shown by themselves.
pub open spec fn far_pieces(module: ModuleView, origin: Seq<char>, labels: Seq<AnnotationView>) -> Seq<
    SnippetView,
>
    decreases labels.len(),
{
    if labels.len() == 0 {
        Seq::empty()
    } else {
        let (a, b) = lines_of(module.contents, labels.last().range);
        far_pieces(module, origin, labels.drop_last()).push(
            piece(module, origin, a, b, None, seq![labels.last()]),
        )
    }
}

/// What is shown of the source of an error: the error with the labels near it, and each other
/// label by itself.
pub open spec fn pieces_of(error: ErrorView, origin: Seq<char>) -> Seq<SnippetView> {
    let s = error.module.contents;
    let (from, to) = shown_lines(s, error.range, error.secondary_annotations);
    seq![
        piece(
            error.module,
            origin,
            from,
            to,
            Some((error.range, level_of(error.severity))),
            labels_where(s, error.range, error.secondary_annotations, true),
        ),
    ] + far_pieces(
        error.module,
        origin,
        labels_where(s, error.range, error.secondary_annotations, false),
    )
}

/// A position is on the line that it is counted to be on.
pub proof fn lemma_line_of_position(s: Seq<char>, k: int)
    requires
        0 <= k <= s.len(),
    ensures
        line_start(s, lines_before(s, k)) == Some(line_of(s, k)),
        0 <= line_of(s, k) <= k,
        forall|i: int| line_of(s, k) <= i < k ==> !ends_line(s, i),
    decreases k,
{
    lemma_line_of(s, k);
    if k > 0 {
        lemma_line_of_position(s, k - 1);
        if ends_line(s, k - 1) {
            let p = line_of(s, k - 1);
            lemma_no_break(s, p, k - 1);
            assert(line_end(s, k - 1) == k);
            assert(has_next_line(s, k - 1));
        }
    }
}

/// Where no line ends in between, positions are on one line.
pub proof fn lemma_no_break(s: Seq<char>, from: int, to: int)
    requires
        0 <= from <= to <= s.len(),
        forall|i: int| from <= i < to ==> !ends_line(s, i),
    ensures
        line_end(s, from) == line_end(s, to),
        has_next_line(s, from) == has_next_line(s, to),
    decreases to - from,
{
    if from < to {
        lemma_no_break(s, from + 1, to);
    }
}

proof fn lemma_lines_in_order(s: Seq<char>, a: int, b: int)
    requires
        0 <= a <= b,
    ensures
        lines_before(s, a) <= lines_before(s, b),
    decreases b - a,
{
    if a < b {
        lemma_lines_in_order(s, a, b - 1);
    }
}

/// Lines that come earlier begin earlier.
pub proof fn lemma_starts_in_order(s: Seq<char>, a: nat, b: nat)
    requires
        a <= b,
        line_start(s, b) is Some,
    ensures
        line_start(s, a) is Some,
        0 <= line_start(s, a)->0 <= line_start(s, b)->0 <= s.len(),
    decreases b - a,
{
    crate::source::lemma_line_start(s, b);
    if a < b {
        lemma_starts_in_order(s, a, (b - 1) as nat);
        lemma_line_end(s, line_start(s, (b - 1) as nat)->0);
    }
}

/// The lines of a range are there, and come in order.
pub proof fn lemma_lines_of(s: Seq<char>, range: TextRange)
    requires
        fits(s, range),
    ensures
        ({
            let (a, b) = lines_of(s, range);
            &&& 0 <= a <= b <= s.len()
            &&& line_start(s, a as nat) is Some
            &&& line_start(s, b as nat) is Some
            &&& line_start(s, a as nat)->0 <= cut(s, range.start as nat)
        }),
{
    lemma_cut_order(s, range.start as nat, range.end as nat);
    let x = cut(s, range.start as nat);
    let y = cut(s, range.end as nat);
    lemma_line_of_position(s, x);
    lemma_line_of_position(s, y);
    lemma_lines_in_order(s, x, y);
    lemma_line_of(s, y);
}

/// What is shown begins where the error begins or earlier, and its lines are there.
pub proof fn lemma_shown_lines(s: Seq<char>, range: TextRange, labels: Seq<AnnotationView>)
    requires
        fits(s, range),
        forall|i: int| 0 <= i < labels.len() ==> fits(s, (#[trigger] labels[i]).range),
    ensures
        ({
            let (from, to) = shown_lines(s, range, labels);
            &&& 0 <= from <= lines_of(s, range).0
            &&& from <= to <= s.len()
            &&& line_start(s, from as nat) is Some
            &&& line_start(s, to as nat) is Some
        }),
    decreases labels.len(),
{
    lemma_lines_of(s, range);
    let (p, q) = lines_of(s, range);
    if labels.len() == 0 {
        lemma_starts_in_order(s, shown_lines(s, range, labels).1 as nat, q as nat);
    } else {
        assert(labels.last() == labels[labels.len() - 1]);
        lemma_lines_of(s, labels.last().range);
        assert forall|i: int| 0 <= i < labels.drop_last().len() implies fits(
            s,
            (#[trigger] labels.drop_last()[i]).range,
        ) by {
            assert(labels.drop_last()[i] == labels[i]);
        }
        lemma_shown_lines(s, range, labels.drop_last());
    }
}

} // verus!
