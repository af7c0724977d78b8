use ruff_annotate_snippets::{Level, Renderer, Snippet};
use vstd::prelude::*;

use crate::error::{Error, ErrorView, Severity};
use crate::paths::{FilePath, PathView};
use crate::position::{lemma_byte_len_at_least, lemma_part_bytes, DisplayRange};
use crate::prune::lemma_byte_len_concat;
use crate::rendering::get_source_snippet;
use crate::snippet::{
    labels_where, lemma_line_of_position, lemma_lines_of, lemma_no_break, lemma_starts_in_order,
    lines_of, pieces_of, shown_lines, snippet_views, MarkLevel, MarkView, SnippetData, SnippetView,
};
use crate::source::{
    at_boundary, cut, lemma_cut, lemma_cut_order, lemma_line_end, line_end, line_start,
};
use crate::text::{cat2, cat3, cat5, cat9, decimal, decimal_text};
use crate::words::byte_len;

verus! {

/// Whether output is painted.
#[derive(Clone, Copy, Debug, PartialEq, Eq, Structural)]
pub enum ErrorRenderMode {
    Plain,
    Color,
}

/// Whether a mark covers whole characters of a text.
pub open spec fn mark_fits(source: Seq<char>, mark: MarkView) -> bool {
    &&& 0 <= mark.start <= mark.end
    &&& at_boundary(source, mark.start as nat)
    &&& at_boundary(source, mark.end as nat)
}

/// Whether a line ends within the marked text, before its last character.
pub open spec fn spans_lines(source: Seq<char>, mark: MarkView) -> bool {
    exists|i: int|
        cut(source, mark.start as nat) <= i < cut(source, mark.end as nat) - 1 && source[i] == '\n'
}

/// Whether a piece of source can be rendered: its lines can be numbered, marks cover whole
/// characters, and where two marks cover the same lines, these end with a character of one byte.
pub open spec fn renderable(snippet: SnippetView) -> bool {
    &&& snippet.line_start + snippet.source.len() <= usize::MAX
    &&& forall|i: int|
        0 <= i < snippet.marks.len() ==> mark_fits(snippet.source, #[trigger] snippet.marks[i])
    &&& forall|i: int, j: int|
        0 <= i < j < snippet.marks.len() && #[trigger] snippet.marks[i].start
            == #[trigger] snippet.marks[j].start && snippet.marks[i].end == snippet.marks[j].end
            && spans_lines(snippet.source, snippet.marks[i]) ==> at_boundary(
            snippet.source,
            (snippet.marks[i].end - 1) as nat,
        )
}

/// What `Renderer::render` of `ruff_annotate_snippets` makes, for plain output, of pieces of source
/// in a message of level `None` without a title.
pub uninterp spec fn rendered(snippets: Seq<SnippetView>) -> Seq<char>;

/// Calls `Renderer::render` of `ruff_annotate_snippets` on a message of level `None` without a
/// title that holds the pieces of source with their marks, for plain or for styled output. Plain
/// output depends on the message alone; what it looks like is not stated: how source and marks are
/// drawn takes pages. Of styled output nothing is stated: the colours are not the same on all
/// platforms. Each line takes a character at least, so line numbers go no further than the number
/// of the first line and the length of the source together.
#[verifier::external_body]
fn render_message(snippets: &Vec<SnippetData>, mode: ErrorRenderMode) -> (r: String)
    requires
        forall|i: int| 0 <= i < snippets@.len() ==> renderable((#[trigger] snippets@[i])@),
    ensures
        mode == ErrorRenderMode::Plain ==> r@ == rendered(snippet_views(snippets@)),
{
    let mut message = Level::None.title("");
    for s in snippets {
        let mut snippet = Snippet::source(&s.source).line_start(s.line_start).origin(&s.origin);
        for m in &s.marks {
            let level = match m.level { MarkLevel::Error => Level::Error, MarkLevel::Warning => Level::Warning, MarkLevel::Info => Level::Info, MarkLevel::Silent => Level::None };
            let span = level.span(m.start..m.end);
            snippet = snippet.annotation(match &m.label { Some(label) => span.label(label), None => span });
        }
        message = message.snippet(snippet);
    }
    let renderer = match mode { ErrorRenderMode::Plain => Renderer::plain(), ErrorRenderMode::Color => Renderer::styled() };
    let text = renderer.render(message).to_string();
    text
}

/// How a severity is labelled.
pub open spec fn severity_label(severity: Severity) -> Seq<char> {
    match severity {
        Severity::Error => "ERROR"@,
        Severity::Warn => " WARN"@,
        Severity::Info => " INFO"@,
        Severity::Ignore => ""@,
    }
}

/// The label of a severity.
pub fn get_label(severity: Severity) -> (r: String)
    ensures
        r@ == severity_label(severity),
{
    match severity {
        Severity::Error => "ERROR".to_owned(),
        Severity::Warn => " WARN".to_owned(),
        Severity::Info => " INFO".to_owned(),
        Severity::Ignore => "".to_owned(),
    }
}

/// A range as it is written: `line:column`, where it is not empty with its end, and where it goes
/// over lines with the line of its end.
pub open spec fn range_text(d: DisplayRange) -> Seq<char> {
    let begin = decimal(d.start.line_within_cell as nat) + ":"@ + decimal(d.start.column as nat);
    if d.start.line_within_file == d.end.line_within_file {
        if d.start.column == d.end.column {
            begin
        } else {
            begin + "-"@ + decimal(d.end.column as nat)
        }
    } else {
        begin + "-"@ + decimal(d.end.line_within_cell as nat) + ":"@ + decimal(
            d.end.column as nat,
        )
    }
}

/// Writes a range.
pub fn write_range(d: &DisplayRange) -> (r: String)
    ensures
        r@ == range_text(*d),
{
    let line = decimal_text(d.start.line_within_cell as u64);
    let column = decimal_text(d.start.column as u64);
    let begin = cat3(line.as_str(), ":", column.as_str());
    let end_column = decimal_text(d.end.column as u64);
    if d.start.line_within_file == d.end.line_within_file {
        if d.start.column == d.end.column {
            begin
        } else {
            cat3(begin.as_str(), "-", end_column.as_str())
        }
    } else {
        let end_line = decimal_text(d.end.line_within_cell as u64);
        cat5(begin.as_str(), "-", end_line.as_str(), ":", end_column.as_str())
    }
}

/// Where an error is: the path from the root of the project, and the cell of a notebook.
pub open spec fn origin_text(error: ErrorView, root: PathView) -> Seq<char> {
    let path = error.module.path;
    let shown = match path.stripped(root) {
        Some(p) => p.text(),
        None => path.text(),
    };
    match error.display_range.start.cell {
        Some(cell) => shown + "#"@ + decimal(cell as nat),
        None => shown,
    }
}

/// The path of an error, with the cell of a notebook.
pub fn path_string_with_fragment(error: &Error, root: &FilePath) -> (r: String)
    ensures
        r@ == origin_text(error@, root@),
{
    let shown = match error.module.path.strip_prefix(root) {
        Some(p) => p.to_text(),
        None => error.module.path.to_text(),
    };
    match error.display_range.start.cell {
        Some(cell) => {
            let number = decimal_text(cell as u64);
            cat3(shown.as_str(), "#", number.as_str())
        },
        None => shown,
    }
}

/// The first line of an error that is shown with its source.
pub open spec fn header_text(error: ErrorView) -> Seq<char> {
    severity_label(error.severity) + " "@ + error.msg_header + " ["@ + error.error_kind.name + "]\n"@
}

/// The line of an error that is shown without its source.
pub open spec fn concise_text(error: ErrorView, origin: Seq<char>) -> Seq<char> {
    severity_label(error.severity) + " "@ + origin + ":"@ + range_text(error.display_range) + ": "@
        + error.msg_header + " ["@ + error.error_kind.name + "]\n"@
}

/// An error as it is shown without paint.
pub open spec fn error_text(error: ErrorView, root: PathView, verbose: bool) -> Seq<char> {
    let origin = origin_text(error, root);
    if error.severity == Severity::Ignore {
        Seq::empty()
    } else if verbose {
        let body = header_text(error) + rendered(pieces_of(error, origin)) + "\n"@;
        match error.msg_details {
            Some(details) => body + details + "\n"@,
            None => body,
        }
    } else {
        concise_text(error, origin)
    }
}

/// Whether what is shown of the source of an error can be rendered.
pub open spec fn shows(error: ErrorView, origin: Seq<char>) -> bool {
    forall|i: int|
        0 <= i < pieces_of(error, origin).len() ==> renderable(#[trigger] pieces_of(error, origin)[i])
}

fn write_header(error: &Error) -> (r: String)
    ensures
        r@ == header_text(error@),
{
    let label = get_label(error.severity);
    let head = cat5(
        label.as_str(),
        " ",
        error.msg_header.as_str(),
        " [",
        error.error_kind.name.as_str(),
    );
    cat2(head.as_str(), "]\n")
}

fn write_concise(error: &Error, origin: &str) -> (r: String)
    ensures
        r@ == concise_text(error@, origin@),
{
    let label = get_label(error.severity);
    let range = write_range(&error.display_range);
    let head = cat9(
        label.as_str(),
        " ",
        origin,
        ":",
        range.as_str(),
        ": ",
        error.msg_header.as_str(),
        " [",
        error.error_kind.name.as_str(),
    );
    cat2(head.as_str(), "]\n")
}

/// Renders the source of an error with its marks. What it looks like in colour depends on the
/// platform.
pub fn render_source(error: &Error, root: &FilePath, mode: ErrorRenderMode) -> (r: String)
    requires
        error@.wf(),
        error@.labels_fit(),
        shows(error@, origin_text(error@, root@)),
    ensures
        mode == ErrorRenderMode::Plain ==> r@ == rendered(
            pieces_of(error@, origin_text(error@, root@)),
        ),
{
    let origin = path_string_with_fragment(error, root);
    let snippets = get_source_snippet(error, origin.as_str());
    assert forall|i: int| 0 <= i < snippets@.len() implies renderable(
        (#[trigger] snippets@[i])@,
    ) by {
        assert(snippet_views(snippets@)[i] == snippets@[i]@);
        assert(renderable(pieces_of(error@, origin@)[i]));
    }
    render_message(&snippets, mode)
}

/// Renders an error without paint. An error that is ignored gives nothing.
pub fn render_plain(error: &Error, root: &FilePath, verbose: bool) -> (r: String)
    requires
        error@.wf(),
        error@.labels_fit(),
        verbose && error@.severity != Severity::Ignore ==> shows(
            error@,
            origin_text(error@, root@),
        ),
    ensures
        r@ == error_text(error@, root@, verbose),
{
    if !error.severity.is_enabled() {
        return String::new();
    }
    if !verbose {
        let origin = path_string_with_fragment(error, root);
        return write_concise(error, origin.as_str());
    }
    let header = write_header(error);
    let source = render_source(error, root, ErrorRenderMode::Plain);
    let body = cat3(header.as_str(), source.as_str(), "\n");
    match &error.msg_details {
        Some(details) => cat3(body.as_str(), details.as_str(), "\n"),
        None => body,
    }
}

proof fn lemma_boundary_in_part(s: Seq<char>, a: int, b: int, k: int)
    requires
        0 <= a <= k <= b <= s.len(),
    ensures
        byte_len(s.take(k)) >= byte_len(s.take(a)),
        at_boundary(s.subrange(a, b), (byte_len(s.take(k)) - byte_len(s.take(a))) as nat),
        byte_len(s.take(b)) - byte_len(s.take(a)) == byte_len(s.subrange(a, b)),
        byte_len(s.take(k)) <= byte_len(s.take(b)),
{
    let part = s.subrange(a, b);
    lemma_byte_len_concat(s.take(a), part.take(k - a));
    assert(s.take(a) + part.take(k - a) =~= s.take(k));
    lemma_byte_len_concat(s.take(a), part);
    assert(s.take(a) + part =~= s.take(b));
    lemma_part_bytes(part, 0, k - a);
    assert(part.take(k - a) =~= part.subrange(0, k - a));
    lemma_cut(part, byte_len(part.take(k - a)), k - a);
}

/// An error without labels can always be shown with its source.
pub proof fn law_errors_without_labels_show(error: ErrorView, origin: Seq<char>)
    requires
        error.wf(),
        error.secondary_annotations.len() == 0,
    ensures
        shows(error, origin),
{
    let s = error.module.contents;
    let labels = error.secondary_annotations;
    let range = error.range;
    lemma_lines_of(s, range);
    let (p, q) = lines_of(s, range);
    let (from, to) = shown_lines(s, range, labels);
    lemma_starts_in_order(s, to as nat, q as nat);
    lemma_starts_in_order(s, p as nat, to as nat);
    lemma_cut_order(s, range.start as nat, range.end as nat);
    let x = cut(s, range.start as nat);
    let y = cut(s, range.end as nat);
    let a = line_start(s, p as nat)->0;
    let t = line_start(s, to as nat)->0;
    let b = line_end(s, t);
    lemma_line_end(s, t);
    lemma_line_of_position(s, x);
    lemma_no_break(s, a, x);
    lemma_line_end(s, x);
    lemma_ends_in_order(s, p as nat, to as nat);
    lemma_boundary_in_part(s, a, b, x);
    lemma_boundary_in_part(s, a, b, b);
    let source = s.subrange(a, b);
    if y <= b {
        lemma_boundary_in_part(s, a, b, y);
    } else {
        lemma_boundary_in_part(s, a, y, b);
    }
    let pieces = pieces_of(error, origin);
    assert(labels_where(s, range, labels, false) =~= Seq::empty());
    assert(labels_where(s, range, labels, true) =~= Seq::empty());
    assert(pieces.len() == 1);
    assert(pieces[0].source == source);
    assert(pieces[0].marks.len() == 1);
    let mark = pieces[0].marks[0];
    assert(mark.start == range.start - byte_len(s.take(a)));
    assert(mark_fits(source, mark));
    lemma_lines_take_characters(s, p as nat);
    lemma_byte_len_at_least(s);
    assert(from == p);
    assert(renderable(pieces[0]));
}

/// Each line takes a character at least.
proof fn lemma_lines_take_characters(s: Seq<char>, n: nat)
    requires
        line_start(s, n) is Some,
    ensures
        n <= line_start(s, n)->0,
    decreases n,
{
    if n > 0 {
        let before = (n - 1) as nat;
        lemma_starts_in_order(s, before, n);
        lemma_lines_take_characters(s, before);
        lemma_line_end(s, line_start(s, before)->0);
    }
}

/// Lines that come later end later.
proof fn lemma_ends_in_order(s: Seq<char>, a: nat, b: nat)
    requires
        a <= b,
        line_start(s, b) is Some,
    ensures
        line_start(s, a) is Some,
        line_end(s, line_start(s, a)->0) <= line_end(s, line_start(s, b)->0),
    decreases b - a,
{
    lemma_starts_in_order(s, a, b);
    if a < b {
        lemma_starts_in_order(s, (b - 1) as nat, b);
        lemma_ends_in_order(s, a, (b - 1) as nat);
        lemma_line_end(s, line_start(s, b)->0);
    }
}

} // verus!
