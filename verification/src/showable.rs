use vstd::prelude::*;

use crate::error::Error;
use crate::paths::FilePath;
use crate::position::{countable, lemma_byte_len_at_least, lemma_part_bytes, DisplayPos};
use crate::renderer::{
    mark_fits, origin_text, path_string_with_fragment, renderable, shows, spans_lines,
};
use crate::rendering::get_source_snippet;
use crate::report::TextRange;
use crate::snippet::{mark_views, pieces_of, snippet_views, Mark, SnippetData};
use crate::source::{at_boundary, cut, fits, lemma_cut};
use crate::text::chars_of;
use crate::words::{byte_len, get_char_bytes, lemma_cut_unique};

verus! {

/// How many characters take the first `n` bytes, where a boundary is there. In contrast to
/// `find_boundary`, the text may be of any length.
fn cut_at(chars: &Vec<char>, n: usize) -> (r: Option<usize>)
    ensures
        r is Some == at_boundary(chars@, n as nat),
        r matches Some(k) ==> k == cut(chars@, n as nat) && k <= chars@.len(),
{
    let mut rest: usize = n;
    let mut i: usize = 0;
    assert(chars@.take(0) =~= Seq::empty());
    while i < chars.len() && rest > 0
        invariant
            i <= chars@.len(),
            rest <= n,
            rest + byte_len(chars@.take(i as int)) == n,
        decreases chars@.len() - i,
    {
        assert(chars@.take(i + 1).drop_last() =~= chars@.take(i as int));
        let size = get_char_bytes(chars[i]);
        if size > rest as u64 {
            proof {
                if at_boundary(chars@, n as nat) {
                    let k = cut(chars@, n as nat);
                    if k > i + 1 {
                        lemma_cut_unique(chars@, i + 1, k);
                    }
                    if k < i {
                        lemma_cut_unique(chars@, k, i as int);
                    }
                }
            }
            return None;
        }
        rest = rest - size as usize;
        i = i + 1;
    }
    if rest == 0 {
        proof {
            lemma_cut(chars@, n as nat, i as int);
        }
        Some(i)
    } else {
        proof {
            if at_boundary(chars@, n as nat) {
                let k = cut(chars@, n as nat);
                if k < i {
                    lemma_cut_unique(chars@, k, i as int);
                }
            }
        }
        None
    }
}

fn check_mark(chars: &Vec<char>, mark: &Mark) -> (r: bool)
    ensures
        r == mark_fits(chars@, mark@),
{
    mark.start <= mark.end && cut_at(chars, mark.start).is_some() && cut_at(
        chars,
        mark.end,
    ).is_some()
}

fn check_spans_lines(chars: &Vec<char>, mark: &Mark) -> (r: bool)
    requires
        mark_fits(chars@, mark@),
    ensures
        r == spans_lines(chars@, mark@),
{
    let (from, to) = match (cut_at(chars, mark.start), cut_at(chars, mark.end)) {
        (Some(from), Some(to)) => (from, to),
        _ => {
            return false;
        },
    };
    let mut i: usize = from;
    while i < to && to - i > 1
        invariant
            from <= i,
            to <= chars@.len(),
            from == cut(chars@, mark@.start as nat),
            to == cut(chars@, mark@.end as nat),
            forall|k: int| from <= k < i ==> chars@[k] != '\n',
        decreases to - i,
    {
        if chars[i] == '\n' {
            assert(cut(chars@, mark@.start as nat) <= i < cut(chars@, mark@.end as nat) - 1
                && chars@[i as int] == '\n');
            return true;
        }
        i = i + 1;
    }
    false
}

/// Whether two marks of the same text can be drawn together.
spec fn pair_fits(source: Seq<char>, a: Mark, b: Mark) -> bool {
    a.start == b.start && a.end == b.end && spans_lines(source, a@) ==> at_boundary(
        source,
        (a.end - 1) as nat,
    )
}

fn check_pair(chars: &Vec<char>, a: &Mark, b: &Mark) -> (r: bool)
    requires
        mark_fits(chars@, a@),
    ensures
        r == pair_fits(chars@, *a, *b),
{
    if a.start == b.start && a.end == b.end && check_spans_lines(chars, a) {
        proof {
            if a.end == 0 {
                assert(chars@.take(0) =~= Seq::empty());
                lemma_cut(chars@, 0, 0);
            }
        }
        cut_at(chars, a.end - 1).is_some()
    } else {
        true
    }
}

fn check_renderable(snippet: &SnippetData) -> (r: bool)
    ensures
        r == renderable(snippet@),
{
    let chars = chars_of(snippet.source.as_str());
    if snippet.line_start > usize::MAX - chars.len() {
        return false;
    }
    let marks = &snippet.marks;
    let ghost views = mark_views(marks@);
    let mut i: usize = 0;
    while i < marks.len()
        invariant
            i <= marks@.len(),
            chars@ == snippet@.source,
            views == mark_views(marks@),
            views == snippet@.marks,
            forall|k: int| 0 <= k < i ==> mark_fits(chars@, #[trigger] views[k]),
        decreases marks@.len() - i,
    {
        assert(views[i as int] == marks@[i as int]@);
        if !check_mark(&chars, &marks[i]) {
            return false;
        }
        i = i + 1;
    }
    let mut a: usize = 0;
    while a < marks.len()
        invariant
            a <= marks@.len(),
            chars@ == snippet@.source,
            views == mark_views(marks@),
            views == snippet@.marks,
            forall|k: int| 0 <= k < marks@.len() ==> mark_fits(chars@, #[trigger] views[k]),
            forall|k: int, l: int|
                0 <= k < a && k < l < marks@.len() ==> pair_fits(
                    chars@,
                    #[trigger] marks@[k],
                    #[trigger] marks@[l],
                ),
        decreases marks@.len() - a,
    {
        let mut b: usize = a + 1;
        assert(views[a as int] == marks@[a as int]@);
        while b < marks.len()
            invariant
                a < b <= marks@.len(),
                chars@ == snippet@.source,
                views == mark_views(marks@),
                views == snippet@.marks,
                mark_fits(chars@, marks@[a as int]@),
                forall|l: int|
                    a < l < b ==> pair_fits(chars@, marks@[a as int], #[trigger] marks@[l]),
            decreases marks@.len() - b,
        {
            if !check_pair(&chars, &marks[a], &marks[b]) {
                proof {
                    assert(views[a as int] == marks@[a as int]@);
                    assert(views[b as int] == marks@[b as int]@);
                    assert(views[a as int].start == views[b as int].start);
                }
                return false;
            }
            b = b + 1;
        }
        a = a + 1;
    }
    proof {
        assert forall|k: int, l: int|
            0 <= k < l < views.len() && #[trigger] views[k].start == #[trigger] views[l].start
                && views[k].end == views[l].end && spans_lines(
                snippet@.source,
                views[k],
            ) implies at_boundary(snippet@.source, (views[k].end - 1) as nat) by {
            assert(views[k] == marks@[k]@);
            assert(views[l] == marks@[l]@);
            assert(pair_fits(chars@, marks@[k], marks@[l]));
        }
    }
    true
}

fn check_countable(chars: &Vec<char>) -> (r: bool)
    ensures
        r == countable(chars@),
{
    let mut n: u64 = 0;
    let mut i: usize = 0;
    assert(chars@.take(0) =~= Seq::empty());
    while i < chars.len()
        invariant
            i <= chars@.len(),
            n < u32::MAX,
            n == byte_len(chars@.take(i as int)),
        decreases chars@.len() - i,
    {
        assert(chars@.take(i + 1).drop_last() =~= chars@.take(i as int));
        n = n + get_char_bytes(chars[i]);
        i = i + 1;
        if n >= u32::MAX as u64 {
            proof {
                assert(chars@.take(i as int) =~= chars@.subrange(0, i as int));
                lemma_part_bytes(chars@, 0, i as int);
            }
            return false;
        }
    }
    assert(chars@.take(i as int) =~= chars@);
    proof {
        lemma_byte_len_at_least(chars@);
    }
    true
}

fn check_fits(chars: &Vec<char>, range: TextRange) -> (r: bool)
    ensures
        r == fits(chars@, range),
{
    range.start <= range.end && cut_at(chars, range.start as usize).is_some() && cut_at(
        chars,
        range.end as usize,
    ).is_some()
}

fn same_pos(a: DisplayPos, b: DisplayPos) -> (r: bool)
    ensures
        r == (a == b),
{
    let same_cell = match (a.cell, b.cell) {
        (Some(c), Some(d)) => c == d,
        (None, None) => true,
        _ => false,
    };
    same_cell && a.line_within_cell == b.line_within_cell && a.line_within_file
        == b.line_within_file && a.column == b.column
}

/// Whether an error and its labels lie in its module, and the error is shown where it lies.
pub fn is_placed(error: &Error) -> (r: bool)
    ensures
        r == (error@.wf() && error@.labels_fit()),
{
    let chars = chars_of(error.module.contents.as_str());
    if !check_countable(&chars) || !check_fits(&chars, error.range) {
        return false;
    }
    let place = error.module.display_range(error.range);
    if !same_pos(place.start, error.display_range.start) || !same_pos(
        place.end,
        error.display_range.end,
    ) {
        return false;
    }
    let labels = &error.secondary_annotations;
    let mut i: usize = 0;
    while i < labels.len()
        invariant
            i <= labels@.len(),
            labels@ == error.secondary_annotations@,
            chars@ == error@.module.contents,
            forall|k: int|
                0 <= k < i ==> fits(
                    chars@,
                    (#[trigger] error@.secondary_annotations[k]).range,
                ),
        decreases labels@.len() - i,
    {
        assert(error@.secondary_annotations[i as int].range == labels@[i as int].range);
        if !check_fits(&chars, labels[i].range) {
            return false;
        }
        i = i + 1;
    }
    true
}

/// Whether an error can be shown with its source: lines could otherwise not be numbered, or marks
/// that cover the same lines not be drawn.
pub fn can_show(error: &Error, root: &FilePath) -> (r: bool)
    requires
        error@.wf(),
        error@.labels_fit(),
    ensures
        r == shows(error@, origin_text(error@, root@)),
{
    let origin = path_string_with_fragment(error, root);
    let snippets = get_source_snippet(error, origin.as_str());
    let ghost pieces = pieces_of(error@, origin@);
    let mut i: usize = 0;
    while i < snippets.len()
        invariant
            i <= snippets@.len(),
            origin@ == origin_text(error@, root@),
            pieces == pieces_of(error@, origin@),
            pieces == snippet_views(snippets@),
            forall|k: int| 0 <= k < i ==> renderable(#[trigger] pieces[k]),
        decreases snippets@.len() - i,
    {
        assert(pieces[i as int] == snippets@[i as int]@);
        if !check_renderable(&snippets[i]) {
            assert(!renderable(pieces_of(error@, origin@)[i as int]));
            return false;
        }
        i = i + 1;
    }
    true
}

} // verus!
