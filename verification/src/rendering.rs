use vstd::prelude::*;

use crate::error::{annotation_views, AnnotationView, Error, ErrorView, SecondaryAnnotation, Severity};
use crate::position::{countable, find_cell, lemma_part_bytes};
use crate::quick_fixes::offset_of;
use crate::report::TextRange;
use crate::snippet::{
    far_pieces, label_marks, labels_where, lemma_lines_of, lemma_shown_lines, lemma_starts_in_order,
    level_of, lines_of, mark_views, piece, pieces_of, shown_lines, snippet_views, Mark, MarkLevel,
    SnippetData, MAX_LINES,
};
use crate::source::{cut, find_line, fits, lemma_line_end, line_start, ModuleInfo};
use crate::text::{chars_of, string_of};
use crate::words::{byte_len, count_bytes};

verus! {

fn get_level(severity: Severity) -> (r: MarkLevel)
    ensures
        r == level_of(severity),
{
    match severity {
        Severity::Error => MarkLevel::Error,
        Severity::Warn => MarkLevel::Warning,
        Severity::Info => MarkLevel::Info,
        Severity::Ignore => MarkLevel::Silent,
    }
}

fn push_label_marks(
    marks: &mut Vec<Mark>,
    labels: &Vec<&SecondaryAnnotation>,
    offset: u32,
    len: u32,
)
    requires
        forall|i: int|
            0 <= i < labels@.len() ==> (#[trigger] labels@[i]).range.start <= labels@[i].range.end,
    ensures
        mark_views(final(marks)@) == mark_views(old(marks)@) + label_marks(
            ref_views(labels@),
            offset as int,
            len as int,
        ),
{
    let mut i: usize = 0;
    let ghost all = ref_views(labels@);
    assert(all.take(0) =~= Seq::empty());
    assert(mark_views(marks@) =~= mark_views(old(marks)@) + label_marks(
        all.take(0),
        offset as int,
        len as int,
    ));
    while i < labels.len()
        invariant
            i <= labels@.len(),
            all == ref_views(labels@),
            forall|k: int|
                0 <= k < labels@.len() ==> (#[trigger] labels@[k]).range.start
                    <= labels@[k].range.end,
            mark_views(marks@) == mark_views(old(marks)@) + label_marks(
                all.take(i as int),
                offset as int,
                len as int,
            ),
        decreases labels@.len() - i,
    {
        let a = labels[i];
        assert(labels@[i as int].range.start <= labels@[i as int].range.end);
        proof {
            assert(all.take(i + 1).drop_last() =~= all.take(i as int));
            assert(all.take(i + 1).last() == a@);
        }
        let start: u32 = if a.range.start > offset {
            a.range.start - offset
        } else {
            0
        };
        let reach: u64 = start as u64 + (a.range.end - a.range.start) as u64;
        let end: u32 = if reach < len as u64 {
            reach as u32
        } else {
            len
        };
        let ghost before = marks@;
        if start <= end {
            let mark = Mark {
                level: MarkLevel::Warning,
                start: start as usize,
                end: end as usize,
                label: Some(a.label.clone()),
            };
            marks.push(mark);
            assert(mark_views(marks@) =~= mark_views(before).push(mark@));
        }
        assert(mark_views(marks@) =~= mark_views(old(marks)@) + label_marks(
            all.take(i + 1),
            offset as int,
            len as int,
        ));
        i = i + 1;
    }
    assert(all.take(i as int) =~= all);
}

/// Labels as plain text.
pub open spec fn ref_views(labels: Seq<&SecondaryAnnotation>) -> Seq<AnnotationView> {
    labels.map_values(|a: &SecondaryAnnotation| a@)
}

/// Shows lines of a module with the marks of an error and of labels.
fn make_snippet(
    module: &ModuleInfo,
    chars: &Vec<char>,
    origin: &str,
    from: u32,
    to: u32,
    primary: Option<(TextRange, MarkLevel)>,
    labels: &Vec<&SecondaryAnnotation>,
) -> (r: SnippetData)
    requires
        chars@ == module.contents@,
        countable(chars@),
        from <= to < u32::MAX,
        line_start(chars@, from as nat) is Some,
        line_start(chars@, to as nat) is Some,
        primary matches Some((range, level)) ==> range.start <= range.end && byte_len(
            chars@.take(line_start(chars@, from as nat)->0),
        ) <= range.start,
        forall|i: int|
            0 <= i < labels@.len() ==> (#[trigger] labels@[i]).range.start <= labels@[i].range.end,
    ensures
        r@ == piece(module@, origin@, from as int, to as int, primary, ref_views(labels@)),
{
    proof {
        lemma_starts_in_order(chars@, from as nat, to as nat);
        lemma_line_end(chars@, line_start(chars@, to as nat)->0);
    }
    let a: usize = match find_line(chars, from) {
        Some((a, _)) => a,
        None => 0,
    };
    let b: usize = match find_line(chars, to) {
        Some((_, b)) => b,
        None => 0,
    };
    let source = string_of(chars, a, b);
    proof {
        lemma_part_bytes(chars@, a as int, b as int);
    }
    let len: u32 = count_bytes(chars, a, b) as u32;
    let offset = offset_of(chars, a);
    let known: usize = module.cells.len();
    let line: u32 = match find_cell(&module.cells, from) {
        Some(c) => from - module.cells[c] + 1,
        None => from + 1,
    };
    let mut marks: Vec<Mark> = Vec::new();
    if let Some((range, level)) = primary {
        let start: u32 = range.start - offset;
        let reach: u64 = start as u64 + (range.end - range.start) as u64;
        let end: u32 = if reach < len as u64 {
            reach as u32
        } else {
            len
        };
        let mark = Mark { level, start: start as usize, end: end as usize, label: None };
        marks.push(mark);
        assert(mark_views(marks@) =~= seq![mark@]);
    } else {
        assert(mark_views(marks@) =~= Seq::empty());
    }
    push_label_marks(&mut marks, labels, offset, len);
    SnippetData { source, line_start: line as usize, origin: origin.to_owned(), marks }
}

/// Whether two numbers are at most `MAX_LINES` apart.
fn check_close(a: u32, b: u32) -> (r: bool)
    ensures
        r == crate::snippet::close_by(a as int, b as int),
{
    let d: u32 = if a < b {
        b - a
    } else {
        a - b
    };
    d <= MAX_LINES
}

fn get_lines(module: &ModuleInfo, range: TextRange) -> (r: (u32, u32))
    requires
        countable(module.contents@),
        fits(module.contents@, range),
    ensures
        (r.0 as int, r.1 as int) == lines_of(module.contents@, range),
        r.0 < u32::MAX,
        r.1 < u32::MAX,
{
    let d = module.display_range(range);
    (d.start.line_within_file - 1, d.end.line_within_file - 1)
}

impl ErrorView {
    /// Whether all labels lie in the module of the error.
    pub open spec fn labels_fit(self) -> bool {
        forall|i: int|
            0 <= i < self.secondary_annotations.len() ==> fits(
                self.module.contents,
                (#[trigger] self.secondary_annotations[i]).range,
            )
    }
}

/// Picks what is shown of the source of an error.
pub fn get_source_snippet(error: &Error, origin: &str) -> (r: Vec<SnippetData>)
    requires
        error@.wf(),
        error@.labels_fit(),
    ensures
        snippet_views(r@) == pieces_of(error@, origin@),
{
    let module = &error.module;
    let labels = &error.secondary_annotations;
    let chars = chars_of(module.contents.as_str());
    let ghost s = module.contents@;
    let ghost all = annotation_views(labels@);
    let (p, q) = get_lines(module, error.range);
    let mut from: u32 = p;
    let mut to: u32 = if (p as u64) + (MAX_LINES as u64) < q as u64 {
        p + MAX_LINES
    } else {
        q
    };
    let mut near: Vec<&SecondaryAnnotation> = Vec::new();
    let mut far: Vec<&SecondaryAnnotation> = Vec::new();
    let mut i: usize = 0;
    assert(all.take(0) =~= Seq::empty());
    assert(ref_views(near@) =~= labels_where(s, error.range, all.take(0), true));
    assert(ref_views(far@) =~= labels_where(s, error.range, all.take(0), false));
    while i < labels.len()
        invariant
            i <= labels@.len(),
            s == module.contents@,
            module == error.module,
            labels == error.secondary_annotations,
            all == annotation_views(labels@),
            error@.wf(),
            error@.labels_fit(),
            p < u32::MAX,
            q < u32::MAX,
            to < u32::MAX,
            (p as int, q as int) == lines_of(s, error.range),
            (from as int, to as int) == shown_lines(s, error.range, all.take(i as int)),
            ref_views(near@) == labels_where(s, error.range, all.take(i as int), true),
            ref_views(far@) == labels_where(s, error.range, all.take(i as int), false),
            forall|k: int|
                0 <= k < near@.len() ==> fits(s, (#[trigger] near@[k]).range),
            forall|k: int| 0 <= k < far@.len() ==> fits(s, (#[trigger] far@[k]).range),
        decreases labels@.len() - i,
    {
        let ann = &labels[i];
        proof {
            assert(all.take(i + 1).drop_last() =~= all.take(i as int));
            assert(all.take(i + 1).last() == ann@);
            assert(error@.secondary_annotations[i as int] == ann@);
        }
        let (a, b) = get_lines(module, ann.range);
        let ghost before_near = near@;
        let ghost before_far = far@;
        if check_close(a, q) && check_close(b, p) {
            if a < from {
                from = a;
            }
            if b > to {
                to = b;
            }
            near.push(ann);
            assert(ref_views(near@) =~= ref_views(before_near).push(ann@));
        } else {
            far.push(ann);
            assert(ref_views(far@) =~= ref_views(before_far).push(ann@));
        }
        i = i + 1;
    }
    assert(all.take(i as int) =~= all);
    proof {
        assert forall|j: int| 0 <= j < all.len() implies fits(s, (#[trigger] all[j]).range) by {
            assert(error@.secondary_annotations[j] == all[j]);
        }
        lemma_shown_lines(s, error.range, all);
        lemma_lines_of(s, error.range);
        lemma_starts_in_order(s, from as nat, p as nat);
        lemma_prefix_bytes(
            s,
            line_start(s, from as nat)->0,
            cut(s, error.range.start as nat),
        );
    }
    let mut out: Vec<SnippetData> = Vec::new();
    let level = get_level(error.severity);
    let first = make_snippet(module, &chars, origin, from, to, Some((error.range, level)), &near);
    out.push(first);
    assert(snippet_views(out@) =~= seq![first@] + far_pieces(
        module@,
        origin@,
        ref_views(far@).take(0),
    ));
    let mut k: usize = 0;
    while k < far.len()
        invariant
            k <= far@.len(),
            s == module.contents@,
            chars@ == s,
            countable(s),
            forall|j: int| 0 <= j < far@.len() ==> fits(s, (#[trigger] far@[j]).range),
            snippet_views(out@) == seq![first@] + far_pieces(
                module@,
                origin@,
                ref_views(far@).take(k as int),
            ),
        decreases far@.len() - k,
    {
        let ann = far[k];
        let ghost known = ref_views(far@);
        proof {
            assert(known.take(k + 1).drop_last() =~= known.take(k as int));
            assert(known.take(k + 1).last() == ann@);
            lemma_lines_of(s, ann.range);
        }
        let (a, b) = get_lines(module, ann.range);
        let alone = vec![ann];
        assert(ref_views(alone@) =~= seq![ann@]);
        let more = make_snippet(module, &chars, origin, a, b, None, &alone);
        let ghost before = out@;
        out.push(more);
        assert(snippet_views(out@) =~= snippet_views(before).push(more@));
        assert(snippet_views(out@) =~= seq![first@] + far_pieces(
            module@,
            origin@,
            known.take(k + 1),
        ));
        k = k + 1;
    }
    assert(ref_views(far@).take(k as int) =~= ref_views(far@));
    assert(snippet_views(out@) =~= pieces_of(error@, origin@));
    out
}

/// A shorter beginning takes no more bytes.
proof fn lemma_prefix_bytes(s: Seq<char>, a: int, b: int)
    requires
        0 <= a <= b <= s.len(),
    ensures
        byte_len(s.take(a)) <= byte_len(s.take(b)),
{
    assert(s.take(a) =~= s.take(b).subrange(0, a));
    lemma_part_bytes(s.take(b), 0, a);
}

} // verus!
