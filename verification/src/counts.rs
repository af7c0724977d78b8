use vstd::prelude::*;

use crate::error::{Error, ErrorView};
use crate::ordered::{
    lemma_value_after_entry, name_entries, name_map, name_map_entries, name_map_get,
    name_map_insert, value_at, with_entry,
};
use crate::text::{cat2, cat3, decimal, decimal_text, digit, digit_char};
use crate::xml::error_views;

verus! {

/// Three digits.
pub open spec fn three_digits(n: nat) -> Seq<char> {
    seq![digit(n / 100), digit(n / 10 % 10), digit(n % 10)]
}

/// The decimal notation of a number, with commas between thousands.
pub open spec fn thousands(n: nat) -> Seq<char>
    decreases n,
{
    if n < 1000 {
        decimal(n)
    } else {
        thousands(n / 1000) + seq![','] + three_digits(n % 1000)
    }
}

/// Writes a number with commas between thousands.
pub fn number_thousands(n: u64) -> (r: String)
    ensures
        r@ == thousands(n as nat),
    decreases n,
{
    if n < 1000 {
        decimal_text(n)
    } else {
        let mut s = number_thousands(n / 1000);
        let rest: u64 = n % 1000;
        s.push(',');
        s.push(digit_char(rest / 100));
        s.push(digit_char(rest / 10 % 10));
        s.push(digit_char(rest % 10));
        assert(s@ =~= thousands(n as nat));
        s
    }
}

/// So many things, in the plural unless there is one.
pub open spec fn counted(n: nat, what: Seq<char>) -> Seq<char> {
    if n == 1 {
        thousands(n) + " "@ + what
    } else {
        thousands(n) + " "@ + what + "s"@
    }
}

/// Writes so many things, in the plural unless there is one.
pub fn count(n: u64, what: &str) -> (r: String)
    ensures
        r@ == counted(n as nat, what@),
{
    let number = number_thousands(n);
    let one = cat3(number.as_str(), " ", what);
    if n == 1 {
        one
    } else {
        cat2(one.as_str(), "s")
    }
}

/// How many of the errors are of each kind, in the order in which the kinds first occur.
pub open spec fn kind_counts(errors: Seq<ErrorView>) -> Seq<(Seq<char>, usize)>
    decreases errors.len(),
{
    if errors.len() == 0 {
        Seq::empty()
    } else {
        let before = kind_counts(errors.drop_last());
        let kind = errors.last().error_kind.name;
        let n = match value_at(before, kind) {
            Some(n) => n,
            None => 0,
        };
        with_entry(before, kind, (n + 1) as usize)
    }
}

/// How many of the errors are of a kind.
pub open spec fn times(errors: Seq<ErrorView>, kind: Seq<char>) -> nat
    decreases errors.len(),
{
    if errors.len() == 0 {
        0
    } else if errors.last().error_kind.name == kind {
        times(errors.drop_last(), kind) + 1
    } else {
        times(errors.drop_last(), kind)
    }
}

proof fn lemma_times(errors: Seq<ErrorView>, kind: Seq<char>)
    ensures
        times(errors, kind) <= errors.len(),
    decreases errors.len(),
{
    if errors.len() > 0 {
        lemma_times(errors.drop_last(), kind);
    }
}

/// A kind is counted as often as it occurs; a kind that does not occur is not counted.
pub proof fn law_kinds_are_counted(errors: Seq<ErrorView>, kind: Seq<char>)
    requires
        errors.len() <= usize::MAX,
    ensures
        value_at(kind_counts(errors), kind) == (if times(errors, kind) == 0 {
            None
        } else {
            Some(times(errors, kind) as usize)
        }),
    decreases errors.len(),
{
    if errors.len() > 0 {
        let rest = errors.drop_last();
        let last = errors.last().error_kind.name;
        law_kinds_are_counted(rest, kind);
        law_kinds_are_counted(rest, last);
        lemma_times(rest, kind);
        lemma_times(rest, last);
        let n = match value_at(kind_counts(rest), last) {
            Some(n) => n,
            None => 0,
        };
        lemma_value_after_entry(kind_counts(rest), last, (n + 1) as usize, kind);
    }
}

/// How many entries at the beginning do not count more than `n`, where they are in order.
pub open spec fn count_place(entries: Seq<(Seq<char>, usize)>, n: usize) -> int
    decreases entries.len(),
{
    if entries.len() == 0 {
        0
    } else if entries.last().1 <= n {
        entries.len() as int
    } else {
        count_place(entries.drop_last(), n)
    }
}

/// Entries in the order of their counts. Entries that count the same keep their order.
pub open spec fn by_count(entries: Seq<(Seq<char>, usize)>) -> Seq<(Seq<char>, usize)>
    decreases entries.len(),
{
    if entries.len() == 0 {
        Seq::empty()
    } else {
        let before = by_count(entries.drop_last());
        before.insert(count_place(before, entries.last().1), entries.last())
    }
}

/// Putting entries in the order of their counts keeps each of them, and none comes behind one that
/// counts more.
pub proof fn law_counts_are_in_order(entries: Seq<(Seq<char>, usize)>)
    ensures
        by_count(entries).len() == entries.len(),
        by_count(entries).to_multiset() == entries.to_multiset(),
        forall|i: int, j: int|
            0 <= i < j < entries.len() ==> (#[trigger] by_count(entries)[i]).1 <= (
            #[trigger] by_count(entries)[j]).1,
    decreases entries.len(),
{
    broadcast use vstd::seq_lib::group_to_multiset_ensures;

    if entries.len() > 0 {
        let rest = entries.drop_last();
        let e = entries.last();
        law_counts_are_in_order(rest);
        let before = by_count(rest);
        let p = count_place(before, e.1);
        lemma_count_place(before, e.1);
        let after = before.insert(p, e);
        assert(entries =~= rest.push(e));
        after.to_multiset_ensures();
        assert(after[p] == e);
        assert(after.contains(e));
        assert(after.remove(p) =~= before);
        assert(after.to_multiset() =~= before.to_multiset().insert(e));
        assert(rest.push(e).to_multiset() =~= rest.to_multiset().insert(e));
        assert forall|i: int, j: int| 0 <= i < j < after.len() implies (#[trigger] after[i]).1 <= (
        #[trigger] after[j]).1 by {
            let x = if i < p {
                i
            } else {
                i - 1
            };
            let y = if j < p {
                j
            } else {
                j - 1
            };
            if i != p {
                assert(after[i] == before[x]);
            }
            if j != p {
                assert(after[j] == before[y]);
            }
        }
    } else {
        assert(by_count(entries) =~= entries);
    }
}

proof fn lemma_count_place(entries: Seq<(Seq<char>, usize)>, n: usize)
    requires
        forall|i: int, j: int|
            0 <= i < j < entries.len() ==> (#[trigger] entries[i]).1 <= (#[trigger] entries[j]).1,
    ensures
        0 <= count_place(entries, n) <= entries.len(),
        forall|i: int| 0 <= i < count_place(entries, n) ==> (#[trigger] entries[i]).1 <= n,
        forall|i: int|
            count_place(entries, n) <= i < entries.len() ==> n < (#[trigger] entries[i]).1,
    decreases entries.len(),
{
    if entries.len() > 0 && entries.last().1 > n {
        lemma_count_place(entries.drop_last(), n);
        assert forall|i: int| 0 <= i < count_place(entries, n) implies (#[trigger] entries[i]).1
            <= n by {
            assert(entries.drop_last()[i] == entries[i]);
        }
        assert forall|i: int| count_place(entries, n) <= i < entries.len() implies n < (
        #[trigger] entries[i]).1 by {
            if i < entries.len() - 1 {
                assert(entries.drop_last()[i] == entries[i]);
            }
        }
    } else if entries.len() > 0 {
        assert forall|i: int| 0 <= i < entries.len() implies (#[trigger] entries[i]).1 <= n by {
            if i < entries.len() - 1 {
                assert(entries[i].1 <= entries[entries.len() - 1].1);
            }
        }
    }
}

/// Kinds with counts as plain text.
pub open spec fn entry_views(entries: Seq<(String, usize)>) -> Seq<(Seq<char>, usize)> {
    entries.map_values(|e: (String, usize)| (e.0@, e.1))
}

fn sort_by_count(entries: Vec<(String, usize)>) -> (r: Vec<(String, usize)>)
    ensures
        entry_views(r@) == by_count(entry_views(entries@)),
{
    let ghost all = entry_views(entries@);
    let mut out: Vec<(String, usize)> = Vec::new();
    let mut i: usize = 0;
    assert(all.take(0) =~= Seq::empty());
    assert(entry_views(out@) =~= by_count(all.take(0)));
    while i < entries.len()
        invariant
            i <= entries@.len(),
            all == entry_views(entries@),
            entry_views(out@) == by_count(all.take(i as int)),
        decreases entries@.len() - i,
    {
        proof {
            assert(all.take(i + 1).drop_last() =~= all.take(i as int));
            assert(all.take(i + 1).last() == all[i as int]);
        }
        let n: usize = entries[i].1;
        let ghost before = entry_views(out@);
        let mut at: usize = out.len();
        assert(before.take(at as int) =~= before);
        while at > 0 && out[at - 1].1 > n
            invariant
                at <= out@.len(),
                before == entry_views(out@),
                count_place(before, n) == count_place(before.take(at as int), n),
            decreases at,
        {
            assert(before.take(at as int).drop_last() =~= before.take(at - 1));
            assert(before.take(at as int).last() == before[at - 1]);
            at = at - 1;
        }
        proof {
            if at > 0 {
                assert(before.take(at as int).last() == before[at - 1]);
            }
            assert(count_place(before, n) == at);
        }
        let item = (entries[i].0.clone(), n);
        let ghost kept = out@;
        out.insert(at, item);
        assert(out@ =~= kept.insert(at as int, item));
        assert(entry_views(out@) =~= before.insert(at as int, all[i as int]));
        i = i + 1;
    }
    assert(all.take(i as int) =~= all);
    out
}

/// Counts the errors of each kind. Kinds that occur more often come later.
pub fn count_error_kinds(errors: &Vec<Error>) -> (r: Vec<(String, usize)>)
    ensures
        entry_views(r@) == by_count(kind_counts(error_views(errors@))),
{
    let mut map = name_map();
    let mut i: usize = 0;
    let n: usize = errors.len();
    let ghost all = error_views(errors@);
    assert(all.take(0) =~= Seq::empty());
    while i < errors.len()
        invariant
            i <= n,
            n == errors@.len(),
            all == error_views(errors@),
            name_entries(map) == kind_counts(all.take(i as int)),
        decreases errors@.len() - i,
    {
        let kind = &errors[i].error_kind.name;
        proof {
            assert(all.take(i + 1).drop_last() =~= all.take(i as int));
            assert(all.take(i + 1).last() == errors@[i as int]@);
            law_kinds_are_counted(all.take(i as int), kind@);
            lemma_times(all.take(i as int), kind@);
        }
        let known: usize = match name_map_get(&map, kind.as_str()) {
            Some(k) => k,
            None => 0,
        };
        name_map_insert(&mut map, kind.clone(), known + 1);
        i = i + 1;
    }
    assert(all.take(i as int) =~= all);
    sort_by_count(name_map_entries(map))
}

/// A line on how often a kind occurs.
pub open spec fn count_line(entry: (Seq<char>, usize)) -> Seq<char> {
    thousands(entry.1 as nat) + " instances of "@ + entry.0 + "\n"@
}

/// The lines on the last `n` entries, from the last one on.
pub open spec fn count_lines(entries: Seq<(Seq<char>, usize)>, n: nat) -> Seq<char>
    decreases entries.len(),
{
    if entries.len() == 0 || n == 0 {
        Seq::empty()
    } else {
        count_line(entries.last()) + count_lines(entries.drop_last(), (n - 1) as nat)
    }
}

/// Tells how often the kinds occur that occur most often, one on each line; with the limit 0, all of
/// them.
pub fn error_counts_text(errors: &Vec<Error>, limit: usize) -> (r: String)
    ensures
        ({
            let entries = by_count(kind_counts(error_views(errors@)));
            r@ == count_lines(
                entries,
                if limit > 0 {
                    limit as nat
                } else {
                    entries.len()
                },
            )
        }),
{
    let items = count_error_kinds(errors);
    let ghost all = entry_views(items@);
    let wanted: usize = if limit > 0 {
        limit
    } else {
        items.len()
    };
    let mut out = String::new();
    let mut at: usize = items.len();
    let mut left: usize = wanted;
    assert(all.take(at as int) =~= all);
    assert(count_lines(all, wanted as nat) =~= out@ + count_lines(all, wanted as nat));
    while at > 0 && left > 0
        invariant
            at <= items@.len(),
            all == entry_views(items@),
            count_lines(all, wanted as nat) == out@ + count_lines(
                all.take(at as int),
                left as nat,
            ),
        decreases at,
    {
        proof {
            assert(all.take(at as int).drop_last() =~= all.take(at - 1));
            assert(all.take(at as int).last() == all[at - 1]);
        }
        let item = &items[at - 1];
        let number = number_thousands(item.1 as u64);
        let head = cat3(number.as_str(), " instances of ", item.0.as_str());
        let line = cat2(head.as_str(), "\n");
        out.append(line.as_str());
        assert(line@ =~= count_line(all[at - 1]));
        at = at - 1;
        left = left - 1;
        assert(count_lines(all, wanted as nat) =~= out@ + count_lines(
            all.take(at as int),
            left as nat,
        ));
    }
    assert(out@ =~= count_lines(all, wanted as nat));
    out
}

} // verus!
