use vstd::prelude::*;

use crate::error::{Error, ErrorView};
use crate::paths::{FilePath, PathView};
use crate::text::{chars_of, is_text, texts};
use crate::xml::error_views;

verus! {

/// How two things stand to each other.
#[derive(Clone, Copy, Debug, PartialEq, Eq, Structural)]
pub enum Standing {
    Before,
    Same,
    Behind,
}

/// Whether a text stands before another one, by its characters from the first on.
pub open spec fn text_before(a: Seq<char>, b: Seq<char>) -> bool
    decreases a.len(),
{
    if b.len() == 0 {
        false
    } else if a.len() == 0 {
        true
    } else if a[0] != b[0] {
        a[0] < b[0]
    } else {
        text_before(a.drop_first(), b.drop_first())
    }
}

proof fn lemma_text_before(a: Seq<char>, b: Seq<char>)
    ensures
        text_before(a, b) ==> !text_before(b, a) && a != b,
        a == b || text_before(a, b) || text_before(b, a),
    decreases a.len(),
{
    if a.len() > 0 && b.len() > 0 && a[0] == b[0] {
        lemma_text_before(a.drop_first(), b.drop_first());
        if a.drop_first() == b.drop_first() {
            assert(a =~= seq![a[0]] + a.drop_first());
            assert(b =~= seq![b[0]] + b.drop_first());
        }
    } else if a.len() == 0 && b.len() == 0 {
        assert(a =~= b);
    }
}

proof fn lemma_text_chain(a: Seq<char>, b: Seq<char>, c: Seq<char>)
    requires
        text_before(a, b),
        text_before(b, c),
    ensures
        text_before(a, c),
    decreases a.len(),
{
    if a.len() > 0 && a[0] == b[0] && b[0] == c[0] {
        lemma_text_chain(a.drop_first(), b.drop_first(), c.drop_first());
    }
}

/// Whether a name stands before another one in a path: the way up comes first.
pub open spec fn part_before(a: Seq<char>, b: Seq<char>) -> bool {
    if a == ".."@ {
        b != ".."@
    } else {
        b != ".."@ && text_before(a, b)
    }
}

proof fn lemma_part_before(a: Seq<char>, b: Seq<char>)
    ensures
        part_before(a, b) ==> !part_before(b, a) && a != b,
        a == b || part_before(a, b) || part_before(b, a),
{
    lemma_text_before(a, b);
}

proof fn lemma_part_chain(a: Seq<char>, b: Seq<char>, c: Seq<char>)
    requires
        part_before(a, b),
        part_before(b, c),
    ensures
        part_before(a, c),
{
    if a != ".."@ {
        lemma_text_chain(a, b, c);
    }
}

/// Whether names stand before others, by the first in which they differ.
pub open spec fn parts_before(a: Seq<Seq<char>>, b: Seq<Seq<char>>) -> bool
    decreases a.len(),
{
    if b.len() == 0 {
        false
    } else if a.len() == 0 {
        true
    } else if a[0] != b[0] {
        part_before(a[0], b[0])
    } else {
        parts_before(a.drop_first(), b.drop_first())
    }
}

proof fn lemma_parts_before(a: Seq<Seq<char>>, b: Seq<Seq<char>>)
    ensures
        parts_before(a, b) ==> !parts_before(b, a) && a != b,
        a == b || parts_before(a, b) || parts_before(b, a),
    decreases a.len(),
{
    if a.len() > 0 && b.len() > 0 {
        lemma_part_before(a[0], b[0]);
        if a[0] == b[0] {
            lemma_parts_before(a.drop_first(), b.drop_first());
            if a.drop_first() == b.drop_first() {
                assert(a =~= seq![a[0]] + a.drop_first());
                assert(b =~= seq![b[0]] + b.drop_first());
            }
        }
    } else if a.len() == 0 && b.len() == 0 {
        assert(a =~= b);
    }
}

proof fn lemma_parts_chain(a: Seq<Seq<char>>, b: Seq<Seq<char>>, c: Seq<Seq<char>>)
    requires
        parts_before(a, b),
        parts_before(b, c),
    ensures
        parts_before(a, c),
    decreases a.len(),
{
    if a.len() > 0 {
        if a[0] == b[0] && b[0] == c[0] {
            lemma_parts_chain(a.drop_first(), b.drop_first(), c.drop_first());
        } else if a[0] != b[0] && b[0] != c[0] {
            lemma_part_chain(a[0], b[0], c[0]);
            lemma_part_before(a[0], c[0]);
        }
    }
}

/// Whether a path stands before another one: absolute paths come first.
pub open spec fn path_before(a: PathView, b: PathView) -> bool {
    if a.absolute != b.absolute {
        a.absolute
    } else {
        parts_before(a.parts, b.parts)
    }
}

/// What errors are put in order by.
#[derive(Clone, Copy, Debug, PartialEq, Eq, Structural)]
pub enum SortBy {
    /// By module, path and range: as they are shown.
    Place,
    /// By path, range and kind: as they are recorded in a baseline.
    Record,
}

/// Whether a range stands before another one.
pub open spec fn range_before(a: ErrorView, b: ErrorView) -> bool {
    a.range.start < b.range.start || (a.range.start == b.range.start && a.range.end < b.range.end)
}

/// Whether an error stands before another one.
pub open spec fn error_before(a: ErrorView, b: ErrorView, by: SortBy) -> bool {
    match by {
        SortBy::Place => if a.module.name != b.module.name {
            text_before(a.module.name, b.module.name)
        } else if a.module.path != b.module.path {
            path_before(a.module.path, b.module.path)
        } else {
            range_before(a, b)
        },
        SortBy::Record => if a.module.path.text() != b.module.path.text() {
            text_before(a.module.path.text(), b.module.path.text())
        } else if a.range != b.range {
            range_before(a, b)
        } else {
            a.error_kind.rank < b.error_kind.rank
        },
    }
}

proof fn lemma_error_before(a: ErrorView, b: ErrorView, by: SortBy)
    ensures
        error_before(a, b, by) ==> !error_before(b, a, by),
{
    lemma_text_before(a.module.name, b.module.name);
    lemma_text_before(a.module.path.text(), b.module.path.text());
    lemma_parts_before(a.module.path.parts, b.module.path.parts);
}

proof fn lemma_same_path(a: PathView, b: PathView)
    requires
        a.absolute == b.absolute,
        a.parts == b.parts,
    ensures
        a == b,
{
}

/// What does not stand behind a second error, which does not stand behind a third, does not stand
/// behind the third.
proof fn lemma_error_chain(a: ErrorView, b: ErrorView, c: ErrorView, by: SortBy)
    requires
        !error_before(b, a, by),
        !error_before(c, b, by),
    ensures
        !error_before(c, a, by),
{
    let (p, q, r) = (a.module.name, b.module.name, c.module.name);
    let (x, y, z) = (a.module.path, b.module.path, c.module.path);
    lemma_text_before(p, q);
    lemma_text_before(q, r);
    lemma_text_before(p, r);
    if text_before(p, q) && text_before(q, r) {
        lemma_text_chain(p, q, r);
    }
    lemma_text_before(x.text(), y.text());
    lemma_text_before(y.text(), z.text());
    lemma_text_before(x.text(), z.text());
    if text_before(x.text(), y.text()) && text_before(y.text(), z.text()) {
        lemma_text_chain(x.text(), y.text(), z.text());
    }
    lemma_parts_before(x.parts, y.parts);
    lemma_parts_before(y.parts, z.parts);
    lemma_parts_before(x.parts, z.parts);
    if parts_before(x.parts, y.parts) && parts_before(y.parts, z.parts) {
        lemma_parts_chain(x.parts, y.parts, z.parts);
    }
    if x.absolute == y.absolute && x.parts == y.parts {
        lemma_same_path(x, y);
    }
    if y.absolute == z.absolute && y.parts == z.parts {
        lemma_same_path(y, z);
    }
    if x.absolute == z.absolute && x.parts == z.parts {
        lemma_same_path(x, z);
    }
}

fn order_texts(a: &str, b: &str) -> (r: Standing)
    ensures
        r == Standing::Before <==> text_before(a@, b@),
        r == Standing::Same <==> a@ == b@,
{
    let x = chars_of(a);
    let y = chars_of(b);
    let mut i: usize = 0;
    proof {
        lemma_text_before(a@, b@);
        assert(x@.skip(0) =~= x@);
        assert(y@.skip(0) =~= y@);
    }
    while i < x.len() && i < y.len()
        invariant
            i <= x@.len(),
            i <= y@.len(),
            x@ == a@,
            y@ == b@,
            text_before(a@, b@) == text_before(x@.skip(i as int), y@.skip(i as int)),
            forall|k: int| 0 <= k < i ==> x@[k] == y@[k],
        decreases x@.len() - i,
    {
        proof {
            assert(x@.skip(i as int).drop_first() =~= x@.skip(i + 1));
            assert(y@.skip(i as int).drop_first() =~= y@.skip(i + 1));
        }
        if x[i] != y[i] {
            if x[i] < y[i] {
                return Standing::Before;
            }
            return Standing::Behind;
        }
        i = i + 1;
    }
    if i < y.len() {
        return Standing::Before;
    }
    if i < x.len() {
        return Standing::Behind;
    }
    assert(x@ =~= y@);
    Standing::Same
}

fn order_parts(a: &String, b: &String) -> (r: Standing)
    ensures
        r == Standing::Before <==> part_before(a@, b@),
        r == Standing::Same <==> a@ == b@,
{
    if is_text(a, "..") {
        if is_text(b, "..") {
            Standing::Same
        } else {
            Standing::Before
        }
    } else if is_text(b, "..") {
        Standing::Behind
    } else {
        order_texts(a.as_str(), b.as_str())
    }
}

fn order_paths(a: &FilePath, b: &FilePath) -> (r: Standing)
    ensures
        r == Standing::Before <==> path_before(a@, b@),
        r == Standing::Same <==> a@ == b@,
{
    if a.absolute != b.absolute {
        if a.absolute {
            return Standing::Before;
        }
        return Standing::Behind;
    }
    let ghost x = texts(a.parts@);
    let ghost y = texts(b.parts@);
    let mut i: usize = 0;
    proof {
        lemma_parts_before(x, y);
        assert(x.skip(0) =~= x);
        assert(y.skip(0) =~= y);
    }
    while i < a.parts.len() && i < b.parts.len()
        invariant
            i <= a.parts@.len(),
            i <= b.parts@.len(),
            x == texts(a.parts@),
            y == texts(b.parts@),
            a.absolute == b.absolute,
            parts_before(x, y) == parts_before(x.skip(i as int), y.skip(i as int)),
            forall|k: int| 0 <= k < i ==> x[k] == y[k],
        decreases a.parts@.len() - i,
    {
        proof {
            assert(x.skip(i as int).drop_first() =~= x.skip(i + 1));
            assert(y.skip(i as int).drop_first() =~= y.skip(i + 1));
            assert(x[i as int] == a.parts@[i as int]@);
            assert(y[i as int] == b.parts@[i as int]@);
            assert(x.skip(i as int)[0] == x[i as int]);
            assert(y.skip(i as int)[0] == y[i as int]);
            lemma_part_before(x[i as int], y[i as int]);
        }
        match order_parts(&a.parts[i], &b.parts[i]) {
            Standing::Before => {
                return Standing::Before;
            },
            Standing::Behind => {
                return Standing::Behind;
            },
            Standing::Same => {},
        }
        i = i + 1;
    }
    if i < b.parts.len() {
        return Standing::Before;
    }
    if i < a.parts.len() {
        return Standing::Behind;
    }
    assert(x =~= y);
    Standing::Same
}

fn check_range_before(a: &Error, b: &Error) -> (r: bool)
    ensures
        r == range_before(a@, b@),
{
    a.range.start < b.range.start || (a.range.start == b.range.start && a.range.end < b.range.end)
}

/// Whether an error stands before another one.
pub fn check_before(a: &Error, b: &Error, by: SortBy) -> (r: bool)
    ensures
        r == error_before(a@, b@, by),
{
    match by {
        SortBy::Place => match order_texts(a.module.name.as_str(), b.module.name.as_str()) {
            Standing::Before => true,
            Standing::Behind => false,
            Standing::Same => match order_paths(&a.module.path, &b.module.path) {
                Standing::Before => true,
                Standing::Behind => false,
                Standing::Same => check_range_before(a, b),
            },
        },
        SortBy::Record => {
            let x = a.module.path.to_text();
            let y = b.module.path.to_text();
            match order_texts(x.as_str(), y.as_str()) {
                Standing::Before => true,
                Standing::Behind => false,
                Standing::Same => if a.range.start == b.range.start && a.range.end == b.range.end {
                    a.error_kind.rank < b.error_kind.rank
                } else {
                    check_range_before(a, b)
                },
            }
        },
    }
}

/// How many errors at the beginning do not stand behind `e`, where they are in order.
pub open spec fn error_place(errors: Seq<ErrorView>, e: ErrorView, by: SortBy) -> int
    decreases errors.len(),
{
    if errors.len() == 0 {
        0
    } else if !error_before(e, errors.last(), by) {
        errors.len() as int
    } else {
        error_place(errors.drop_last(), e, by)
    }
}

/// The errors in order. Errors of which none stands before the other keep their order.
pub open spec fn sorted(errors: Seq<ErrorView>, by: SortBy) -> Seq<ErrorView>
    decreases errors.len(),
{
    if errors.len() == 0 {
        Seq::empty()
    } else {
        let before = sorted(errors.drop_last(), by);
        before.insert(error_place(before, errors.last(), by), errors.last())
    }
}

proof fn lemma_error_place(errors: Seq<ErrorView>, e: ErrorView, by: SortBy)
    ensures
        ({
            let p = error_place(errors, e, by);
            &&& 0 <= p <= errors.len()
            &&& p > 0 ==> !error_before(e, errors[p - 1], by)
            &&& p < errors.len() ==> error_before(e, errors[p], by)
        }),
    decreases errors.len(),
{
    if errors.len() > 0 && error_before(e, errors.last(), by) {
        lemma_error_place(errors.drop_last(), e, by);
    }
}

/// Whether no error comes behind one that it stands before.
pub open spec fn in_order(errors: Seq<ErrorView>, by: SortBy) -> bool {
    forall|i: int, j: int|
        0 <= i < j < errors.len() ==> !error_before(
            #[trigger] errors[j],
            #[trigger] errors[i],
            by,
        )
}

/// Where an error has to go is behind all errors that it does not stand before, and in front of
/// all others.
proof fn lemma_place_divides(errors: Seq<ErrorView>, e: ErrorView, by: SortBy)
    requires
        in_order(errors, by),
    ensures
        forall|i: int|
            0 <= i < error_place(errors, e, by) ==> !error_before(e, #[trigger] errors[i], by),
        forall|i: int|
            error_place(errors, e, by) <= i < errors.len() ==> error_before(
                e,
                #[trigger] errors[i],
                by,
            ),
{
    let p = error_place(errors, e, by);
    lemma_error_place(errors, e, by);
    assert forall|i: int| 0 <= i < p implies !error_before(e, #[trigger] errors[i], by) by {
        if i < p - 1 {
            assert(!error_before(errors[p - 1], errors[i], by));
            lemma_error_chain(errors[i], errors[p - 1], e, by);
        }
    }
    assert forall|i: int| p <= i < errors.len() implies error_before(
        e,
        #[trigger] errors[i],
        by,
    ) by {
        if i > p && !error_before(e, errors[i], by) {
            assert(!error_before(errors[i], errors[p], by));
            lemma_error_chain(errors[p], errors[i], e, by);
        }
    }
}

/// Putting errors in order keeps each of them, and none comes behind one that it stands before.
pub proof fn law_sorting_keeps_errors(errors: Seq<ErrorView>, by: SortBy)
    ensures
        sorted(errors, by).len() == errors.len(),
        sorted(errors, by).to_multiset() == errors.to_multiset(),
        in_order(sorted(errors, by), by),
    decreases errors.len(),
{
    broadcast use vstd::seq_lib::group_to_multiset_ensures;

    if errors.len() > 0 {
        let rest = errors.drop_last();
        let e = errors.last();
        law_sorting_keeps_errors(rest, by);
        let before = sorted(rest, by);
        let p = error_place(before, e, by);
        lemma_error_place(before, e, by);
        lemma_place_divides(before, e, by);
        let after = before.insert(p, e);
        assert(errors =~= rest.push(e));
        after.to_multiset_ensures();
        assert(after[p] == e);
        assert(after.contains(e));
        assert(after.remove(p) =~= before);
        assert(after.to_multiset() =~= before.to_multiset().insert(e));
        assert(rest.push(e).to_multiset() =~= rest.to_multiset().insert(e));
        assert forall|i: int, j: int| 0 <= i < j < after.len() implies !error_before(
            #[trigger] after[j],
            #[trigger] after[i],
            by,
        ) by {
            let x = if i < p {
                i
            } else {
                i - 1
            };
            let y = if j < p {
                j
            } else {
                j - 1
            };
            if i != p {
                assert(after[i] == before[x]);
            }
            if j != p {
                assert(after[j] == before[y]);
            }
            if i == p {
                lemma_error_before(e, before[y], by);
            }
        }
    } else {
        assert(sorted(errors, by) =~= errors);
    }
}

/// Errors that are in order already stay as they are; in particular, putting them in order twice
/// is doing it once.
pub proof fn law_ordered_errors_stay(errors: Seq<ErrorView>, by: SortBy)
    requires
        in_order(errors, by),
    ensures
        sorted(errors, by) == errors,
    decreases errors.len(),
{
    if errors.len() > 0 {
        let rest = errors.drop_last();
        let e = errors.last();
        assert forall|i: int, j: int| 0 <= i < j < rest.len() implies !error_before(
            #[trigger] rest[j],
            #[trigger] rest[i],
            by,
        ) by {
            assert(rest[i] == errors[i] && rest[j] == errors[j]);
        }
        law_ordered_errors_stay(rest, by);
        if rest.len() > 0 {
            assert(rest.last() == errors[errors.len() - 2]);
            assert(!error_before(errors[errors.len() - 1], errors[errors.len() - 2], by));
        }
        assert(error_place(rest, e, by) == rest.len());
        assert(rest.insert(rest.len() as int, e) =~= errors);
    } else {
        assert(sorted(errors, by) =~= errors);
    }
}

/// Puts errors in order.
pub fn sort_errors(errors: Vec<Error>, by: SortBy) -> (r: Vec<Error>)
    ensures
        error_views(r@) == sorted(error_views(errors@), by),
{
    let ghost all = error_views(errors@);
    let n: usize = errors.len();
    let mut rest = errors;
    let mut out: Vec<Error> = Vec::new();
    assert(all.skip(0) =~= all);
    assert(all.take(0) =~= Seq::empty());
    assert(error_views(out@) =~= sorted(all.take(0), by));
    while rest.len() > 0
        invariant
            rest@.len() <= n,
            n == all.len(),
            error_views(rest@) == all.skip(n - rest@.len()),
            error_views(out@) == sorted(all.take(n - rest@.len()), by),
        decreases rest@.len(),
    {
        let ghost left = rest@;
        let ghost i = n - rest@.len();
        let e = rest.remove(0);
        proof {
            assert(left[0] == e);
            assert(error_views(left)[0] == e@);
            assert(all.skip(i)[0] == e@);
            assert(error_views(rest@) =~= error_views(left).skip(1));
            assert(all.skip(i).skip(1) =~= all.skip(i + 1));
            assert(all.take(i + 1).drop_last() =~= all.take(i));
            assert(all.take(i + 1).last() == e@);
        }
        let ghost before = error_views(out@);
        let mut at: usize = out.len();
        assert(before.take(at as int) =~= before);
        while at > 0 && check_before(&e, &out[at - 1], by)
            invariant
                at <= out@.len(),
                before == error_views(out@),
                error_place(before, e@, by) == error_place(before.take(at as int), e@, by),
            decreases at,
        {
            assert(before.take(at as int).drop_last() =~= before.take(at - 1));
            assert(before.take(at as int).last() == before[at - 1]);
            assert(before[at - 1] == out@[at - 1]@);
            at = at - 1;
        }
        proof {
            if at > 0 {
                assert(before.take(at as int).last() == before[at - 1]);
                assert(before[at - 1] == out@[at - 1]@);
            }
            assert(error_place(before, e@, by) == at);
        }
        let ghost kept = out@;
        out.insert(at, e);
        assert(out@ =~= kept.insert(at as int, e));
        assert(error_views(out@) =~= before.insert(at as int, e@));
    }
    assert(all.take(n as int) =~= all);
    out
}

} // verus!
