use vstd::prelude::*;

use crate::error::{AnnotationView, ErrorView};
use crate::prune::{
    items_content, kept_names, line_indent, pruned_item, pruned_items, pruned_line,
    without_computed_field,
};
use crate::report::TextRange;
use crate::snippet::{
    far_pieces, is_near, label_marks, labels_where, line_number, lines_of, pieces_of,
    shown_lines, text_of_lines, MarkLevel, MarkView,
};
use crate::source::{line_start, ModuleView};
use crate::stub::{ClassStubView, FunctionView, ItemView, VariableView};
use crate::text::{begins_with, joined};
use crate::words::{byte_len, has_word, pieces, trimmed};

verus! {

/// An error is shown first, with a mark of its severity that has no label. The mark stands on the
/// text that the error is about, as far as it is shown.
pub proof fn law_errors_are_marked_by_severity(error: ErrorView, origin: Seq<char>)
    ensures
        ({
            let shown = pieces_of(error, origin);
            let s = error.module.contents;
            let from = shown_lines(s, error.range, error.secondary_annotations).0;
            let offset = byte_len(s.take(line_start(s, from as nat)->0)) as int;
            let mark = shown[0].marks[0];
            &&& shown.len() >= 1
            &&& shown[0].origin == origin
            &&& shown[0].marks.len() >= 1
            &&& mark.label is None
            &&& error.severity is Error ==> mark.level == MarkLevel::Error
            &&& error.severity is Warn ==> mark.level == MarkLevel::Warning
            &&& error.severity is Info ==> mark.level == MarkLevel::Info
            &&& error.severity is Ignore ==> mark.level == MarkLevel::Silent
            &&& mark.start + offset == error.range.start
            &&& mark.end <= byte_len(shown[0].source)
            &&& mark.end + offset <= error.range.end
            &&& mark.end + offset < error.range.end ==> mark.end == byte_len(shown[0].source)
        }),
{
}

/// An error without labels is shown in one piece, with nothing but its own mark: its lines, but no
/// more than eleven.
pub proof fn law_errors_without_labels_stand_alone(error: ErrorView, origin: Seq<char>)
    requires
        error.secondary_annotations.len() == 0,
    ensures
        pieces_of(error, origin).len() == 1,
        pieces_of(error, origin)[0].marks.len() == 1,
        ({
            let (p, q) = lines_of(error.module.contents, error.range);
            let (from, to) = shown_lines(
                error.module.contents,
                error.range,
                error.secondary_annotations,
            );
            &&& from == p
            &&& q - p <= 10 ==> to == q
            &&& q - p > 10 ==> to == p + 10
            &&& pieces_of(error, origin)[0].source == text_of_lines(
                error.module.contents,
                from,
                to,
            )
        }),
{
}

/// A label is near where it ends at most ten lines from where the error begins, and begins at most
/// ten lines from where the error ends.
pub proof fn law_labels_are_near_within_ten_lines(s: Seq<char>, range: TextRange, label: TextRange)
    ensures
        ({
            let (p, q) = lines_of(s, range);
            let (a, b) = lines_of(s, label);
            is_near(s, range, label) == (q - 10 <= a <= q + 10 && p - 10 <= b <= p + 10)
        }),
{
}

/// Each label is near or far, and keeps its place among its kind.
pub proof fn law_labels_are_near_or_far(
    s: Seq<char>,
    range: TextRange,
    labels: Seq<AnnotationView>,
    label: AnnotationView,
)
    ensures
        labels_where(s, range, Seq::empty(), true).len() == 0,
        labels_where(s, range, Seq::empty(), false).len() == 0,
        is_near(s, range, label.range) ==> labels_where(s, range, labels.push(label), true)
            == labels_where(s, range, labels, true).push(label) && labels_where(
            s,
            range,
            labels.push(label),
            false,
        ) == labels_where(s, range, labels, false),
        !is_near(s, range, label.range) ==> labels_where(s, range, labels.push(label), false)
            == labels_where(s, range, labels, false).push(label) && labels_where(
            s,
            range,
            labels.push(label),
            true,
        ) == labels_where(s, range, labels, true),
{
    assert(labels.push(label).drop_last() =~= labels);
    assert(labels.push(label).last() == label);
}

/// The lines that are shown with an error hold those of all labels that are near.
pub proof fn law_near_labels_are_shown(
    s: Seq<char>,
    range: TextRange,
    labels: Seq<AnnotationView>,
    i: int,
)
    requires
        0 <= i < labels.len(),
        is_near(s, range, labels[i].range),
    ensures
        ({
            let (from, to) = shown_lines(s, range, labels);
            let (a, b) = lines_of(s, labels[i].range);
            from <= a && b <= to
        }),
    decreases labels.len(),
{
    if i < labels.len() - 1 {
        assert(labels.drop_last()[i] == labels[i]);
        law_near_labels_are_shown(s, range, labels.drop_last(), i);
    }
}

/// Labels that are far do not change which lines are shown with the error; each gets a piece of its
/// own, with its own lines and its own mark.
pub proof fn law_far_labels_stand_alone(
    module: ModuleView,
    origin: Seq<char>,
    range: TextRange,
    labels: Seq<AnnotationView>,
    label: AnnotationView,
)
    ensures
        !is_near(module.contents, range, label.range) ==> shown_lines(
            module.contents,
            range,
            labels.push(label),
        ) == shown_lines(module.contents, range, labels),
        far_pieces(module, origin, Seq::empty()).len() == 0,
        ({
            let shown = far_pieces(module, origin, labels.push(label));
            let (a, b) = lines_of(module.contents, label.range);
            &&& shown.len() == far_pieces(module, origin, labels).len() + 1
            &&& shown.drop_last() == far_pieces(module, origin, labels)
            &&& shown.last().origin == origin
            &&& shown.last().source == text_of_lines(module.contents, a, b)
            &&& forall|i: int|
                0 <= i < shown.last().marks.len() ==> (#[trigger] shown.last().marks[i]).label
                    == Some(label.label)
        }),
{
    assert(labels.push(label).drop_last() =~= labels);
    assert(labels.push(label).last() == label);
    let shown = far_pieces(module, origin, labels.push(label));
    assert(shown.drop_last() =~= far_pieces(module, origin, labels));
    let s = module.contents;
    let (a, b) = lines_of(s, label.range);
    let offset = byte_len(s.take(line_start(s, a as nat)->0)) as int;
    let len = byte_len(text_of_lines(s, a, b)) as int;
    assert(seq![label].drop_last() =~= Seq::empty());
    assert(seq![label].last() == label);
    assert(label_marks(seq![label].drop_last(), offset, len) =~= Seq::empty());
    assert(shown.last().marks =~= label_marks(seq![label], offset, len));
}

/// A label is marked as a warning where it stands in the shown text, with its own words.
pub proof fn law_labels_are_marked_with_their_words(
    labels: Seq<AnnotationView>,
    label: AnnotationView,
    offset: int,
    len: int,
)
    requires
        offset <= label.range.start,
        label.range.start <= label.range.end,
        label.range.end - offset <= len,
    ensures
        label_marks(Seq::empty(), offset, len).len() == 0,
        label_marks(labels.push(label), offset, len) == label_marks(labels, offset, len).push(
            MarkView {
                level: MarkLevel::Warning,
                start: label.range.start - offset,
                end: label.range.end - offset,
                label: Some(label.label),
            },
        ),
{
    assert(labels.push(label).drop_last() =~= labels);
}

/// Lines are counted from 1, in a notebook within their cell.
pub proof fn law_shown_lines_are_counted_from_one(cells: Seq<u32>, cell: u32, line: int)
    ensures
        line_number(Seq::empty(), line) == line + 1,
        cell <= line ==> line_number(cells.push(cell), line) == line - cell + 1,
        cell > line ==> line_number(cells.push(cell), line) == line_number(cells, line),
{
    assert(cells.push(cell).drop_last() =~= cells);
    assert(cells.push(cell).last() == cell);
    if cell > line {
        lemma_earlier_cell(cells, line);
        lemma_earlier_cell(cells.push(cell), line);
        if let Some(c) = crate::position::cell_of(cells, line) {
            assert(cells.push(cell)[c] == cells[c]);
        }
    }
}

proof fn lemma_earlier_cell(cells: Seq<u32>, line: int)
    ensures
        crate::position::cell_of(cells, line) matches Some(c) ==> 0 <= c < cells.len(),
    decreases cells.len(),
{
    if cells.len() > 0 {
        lemma_earlier_cell(cells.drop_last(), line);
    }
}

/// Names in an import are kept in order, without white space around them. Left out are empty names,
/// and the given one where it is not used.
pub proof fn law_used_names_stay_imported(
    raw: Seq<Seq<char>>,
    name: Seq<char>,
    symbol: Seq<char>,
    used: bool,
)
    ensures
        kept_names(Seq::empty(), symbol, used).len() == 0,
        trimmed(name).len() > 0 && (used || trimmed(name) != symbol) ==> kept_names(
            raw.push(name),
            symbol,
            used,
        ) == kept_names(raw, symbol, used).push(trimmed(name)),
        trimmed(name).len() == 0 || (!used && trimmed(name) == symbol) ==> kept_names(
            raw.push(name),
            symbol,
            used,
        ) == kept_names(raw, symbol, used),
{
    assert(raw.push(name).drop_last() =~= raw);
    assert(raw.push(name).last() == name);
}

/// Only imports of `functools` and from `dataclasses` and `pydantic` are pruned. `import functools`
/// goes exactly where it is not used.
pub proof fn law_only_known_imports_are_pruned(line: Seq<char>, body: Seq<char>)
    ensures
        trimmed(line) != "import functools"@ && !begins_with(
            trimmed(line),
            "from dataclasses import"@,
        ) && !begins_with(trimmed(line), "from pydantic import"@) ==> pruned_line(line, body)
            == line,
        trimmed(line) == "import functools"@ && !has_word(body, "functools"@) ==> pruned_line(
            line,
            body,
        ).len() == 0,
        trimmed(line) == "import functools"@ && has_word(body, "functools"@) ==> pruned_line(
            line,
            body,
        ) == line,
{
    reveal_strlit("import functools");
    reveal_strlit("from dataclasses import");
    reveal_strlit("from pydantic import");
    let t = "import functools"@;
    assert(t[0] == 'i');
    assert("from dataclasses import"@[0] == 'f');
    assert("from pydantic import"@[0] == 'f');
    if t.len() >= "from dataclasses import"@.len() {
        assert(t.take("from dataclasses import"@.len() as int)[0] == 'i');
    }
    if t.len() >= "from pydantic import"@.len() {
        assert(t.take("from pydantic import"@.len() as int)[0] == 'i');
    }
}

/// From `dataclasses` is imported what was, but for `field` where it is not used; the line goes
/// where nothing is left.
pub proof fn law_dataclass_imports_lose_unused_field(
    line: Seq<char>,
    body: Seq<char>,
    names: Seq<char>,
)
    requires
        trimmed(line) == "from dataclasses import"@ + names,
    ensures
        ({
            let kept = kept_names(pieces(names, ','), "field"@, has_word(body, "field"@));
            &&& kept.len() == 0 ==> pruned_line(line, body).len() == 0
            &&& kept.len() > 0 ==> pruned_line(line, body) == line_indent(line) + "from "@
                + "dataclasses"@ + " import "@ + joined(kept, ", "@)
        }),
{
    reveal_strlit("import functools");
    reveal_strlit("from dataclasses import");
    let head = "from dataclasses import"@;
    let t = head + names;
    assert(t[0] == 'f');
    assert("import functools"@[0] == 'i');
    assert(t.take(head.len() as int) =~= head);
    assert(t.skip(head.len() as int) =~= names);
}

/// From `pydantic` is imported what was, but for `Field` and `computed_field` where they are not used.
pub proof fn law_pydantic_imports_lose_unused_names(
    line: Seq<char>,
    indent: Seq<char>,
    body: Seq<char>,
    names: Seq<char>,
)
    ensures
        !begins_with(trimmed(line), "from pydantic import"@) ==> without_computed_field(
            line,
            indent,
            body,
        ) == line,
        trimmed(line) == "from pydantic import"@ + names ==> ({
            let fields = kept_names(pieces(names, ','), "Field"@, has_word(body, "Field"@));
            let kept = kept_names(
                pieces(names, ','),
                "computed_field"@,
                has_word(body, "computed_field"@),
            );
            let first = if fields.len() == 0 {
                Seq::empty()
            } else {
                line_indent(line) + "from "@ + "pydantic"@ + " import "@ + joined(fields, ", "@)
            };
            &&& pruned_line(line, body) == without_computed_field(first, line_indent(line), body)
            &&& kept.len() == 0 ==> without_computed_field(line, indent, body).len() == 0
            &&& kept.len() > 0 ==> without_computed_field(line, indent, body) == indent + "from "@
                + "pydantic"@ + " import "@ + joined(kept, ", "@)
        }),
{
    reveal_strlit("import functools");
    reveal_strlit("from dataclasses import");
    reveal_strlit("from pydantic import");
    let head = "from pydantic import"@;
    let other = "from dataclasses import"@;
    let t = head + names;
    assert(t[0] == 'f');
    assert(t[5] == 'p');
    assert("import functools"@[0] == 'i');
    assert(other[5] == 'd');
    if t.len() >= other.len() {
        assert(t.take(other.len() as int)[5] == 'p');
    }
    assert(t.take(head.len() as int) =~= head);
    assert(t.skip(head.len() as int) =~= names);
}

/// Everything but imports stays; in a class what its own body uses decides.
pub proof fn law_other_items_are_not_pruned(
    items: Seq<ItemView>,
    item: ItemView,
    f: FunctionView,
    v: VariableView,
    c: ClassStubView,
    text: Seq<char>,
    body: Seq<char>,
)
    ensures
        pruned_item(ItemView::Function(f), body) == Some(ItemView::Function(f)),
        pruned_item(ItemView::Variable(v), body) == Some(ItemView::Variable(v)),
        pruned_item(ItemView::TypeAlias(text), body) == Some(ItemView::TypeAlias(text)),
        pruned_item(ItemView::Class(c), body) matches Some(ItemView::Class(d)) && d.name == c.name
            && d.bases == c.bases && d.decorators == c.decorators && d.docstring == c.docstring
            && d.body == pruned_items(c.body, items_content(c.body)),
        pruned_line(text, body).len() == 0 ==> pruned_item(ItemView::Import(text), body) is None,
        pruned_line(text, body).len() > 0 ==> pruned_item(ItemView::Import(text), body) == Some(
            ItemView::Import(pruned_line(text, body)),
        ),
        pruned_items(Seq::empty(), body).len() == 0,
        pruned_items(items.push(item), body) == match pruned_item(item, body) {
            Some(kept) => pruned_items(items, body).push(kept),
            None => pruned_items(items, body),
        },
{
    assert(items.push(item).drop_last() =~= items);
}

} // verus!
