use vstd::prelude::*;

use crate::paths::{FilePath, PathView};
use crate::report::TextRange;
use crate::source::{
    at_boundary, code_at, cut, fits, lemma_cut_of_prefix, lemma_cut_order, ModuleInfo, ModuleView,
};
use crate::text::{cat3, cat5, chars_of, string_of};

verus! {

/// An edit: a range of a text and what stands there afterwards.
pub struct EditView {
    pub range: TextRange,
    pub text: Seq<char>,
}

/// An edit of a module, as plain text.
pub struct ModuleEditView {
    pub module: ModuleView,
    pub edit: EditView,
}

/// Edits of modules as plain text.
pub open spec fn edit_views(edits: Seq<(ModuleInfo, TextRange, String)>) -> Seq<ModuleEditView> {
    edits.map_values(
        |e: (ModuleInfo, TextRange, String)|
            ModuleEditView { module: e.0@, edit: EditView { range: e.1, text: e.2@ } },
    )
}

/// The edits as plain text.
pub open spec fn plain_edits(edits: Seq<(TextRange, String)>) -> Seq<EditView> {
    edits.map_values(|e: (TextRange, String)| EditView { range: e.0, text: e.1@ })
}

/// Something that can be done about code, with the edits that do it.
pub struct CodeAction {
    pub title: String,
    pub edits: Vec<(ModuleInfo, TextRange, String)>,
}

/// The text with a range replaced.
pub open spec fn replaced(s: Seq<char>, edit: EditView) -> Seq<char> {
    s.take(cut(s, edit.range.start as nat)) + edit.text + s.skip(cut(s, edit.range.end as nat))
}

/// The edits of the module at a path.
pub open spec fn edits_of(edits: Seq<ModuleEditView>, path: PathView) -> Seq<EditView>
    decreases edits.len(),
{
    if edits.len() == 0 {
        Seq::empty()
    } else if edits.last().module.path == path {
        edits_of(edits.drop_last(), path).push(edits.last().edit)
    } else {
        edits_of(edits.drop_last(), path)
    }
}

/// How many of the edits at the beginning do not start behind `start`.
pub open spec fn place(edits: Seq<EditView>, start: u32) -> int
    decreases edits.len(),
{
    if edits.len() == 0 {
        0
    } else if edits.last().range.start <= start {
        edits.len() as int
    } else {
        place(edits.drop_last(), start)
    }
}

/// The edits in the order of where they start. Edits that start together keep their order.
pub open spec fn in_order(edits: Seq<EditView>) -> Seq<EditView>
    decreases edits.len(),
{
    if edits.len() == 0 {
        Seq::empty()
    } else {
        let before = in_order(edits.drop_last());
        before.insert(place(before, edits.last().range.start), edits.last())
    }
}

/// The text after the edits, which are made from the last to the first.
pub open spec fn applied(s: Seq<char>, edits: Seq<EditView>) -> Seq<char>
    decreases edits.len(),
{
    if edits.len() == 0 {
        s
    } else {
        applied(replaced(s, edits.last()), edits.drop_last())
    }
}

/// Whether each edit meets whole characters of the text that it is made in.
pub open spec fn applicable(s: Seq<char>, edits: Seq<EditView>) -> bool
    decreases edits.len(),
{
    edits.len() > 0 ==> 4 * s.len() <= u64::MAX && fits(s, edits.last().range) && applicable(
        replaced(s, edits.last()),
        edits.drop_last(),
    )
}

proof fn lemma_place(edits: Seq<EditView>, start: u32)
    requires
        forall|i: int, j: int|
            0 <= i <= j < edits.len() ==> edits[i].range.start <= edits[j].range.start,
    ensures
        0 <= place(edits, start) <= edits.len(),
        forall|i: int| 0 <= i < place(edits, start) ==> edits[i].range.start <= start,
        forall|i: int| place(edits, start) <= i < edits.len() ==> edits[i].range.start > start,
    decreases edits.len(),
{
    if edits.len() > 0 {
        assert(edits.last() == edits[edits.len() - 1]);
        if edits.last().range.start > start {
            let rest = edits.drop_last();
            assert(forall|i: int| 0 <= i < rest.len() ==> #[trigger] rest[i] == edits[i]);
            lemma_place(rest, start);
            assert forall|i: int| 0 <= i < place(edits, start) implies edits[i].range.start
                <= start by {
                assert(rest[i] == edits[i]);
            }
            assert forall|i: int| place(edits, start) <= i < edits.len() implies edits[i].range.start
                > start by {
                if i < rest.len() {
                    assert(rest[i] == edits[i]);
                }
            }
        }
    }
}

/// Putting edits in order keeps each of them, and none starts in front of the one before it.
pub proof fn law_order_keeps_edits(edits: Seq<EditView>)
    ensures
        in_order(edits).to_multiset() == edits.to_multiset(),
        forall|i: int, j: int|
            0 <= i <= j < edits.len() ==> in_order(edits)[i].range.start <= in_order(
                edits,
            )[j].range.start,
        in_order(edits).len() == edits.len(),
    decreases edits.len(),
{
    broadcast use vstd::seq_lib::group_to_multiset_ensures;

    if edits.len() > 0 {
        let rest = edits.drop_last();
        let e = edits.last();
        law_order_keeps_edits(rest);
        let before = in_order(rest);
        lemma_place(before, e.range.start);
        assert(edits =~= rest.push(e));
        let p = place(before, e.range.start);
        let after = before.insert(p, e);
        after.to_multiset_ensures();
        assert(after[p] == e);
        assert(after.contains(e));
        assert(after.remove(p) =~= before);
        assert(after.to_multiset() =~= before.to_multiset().insert(e));
        assert(rest.push(e).to_multiset() =~= rest.to_multiset().insert(e));
    } else {
        assert(in_order(edits) =~= edits);
    }
}

proof fn lemma_replaced(s: Seq<char>, edit: EditView)
    requires
        fits(s, edit.range),
    ensures
        ({
            let a = cut(s, edit.range.start as nat);
            let t = replaced(s, edit);
            &&& t.take(a) == s.take(a)
            &&& t.skip(a + edit.text.len()) == s.skip(cut(s, edit.range.end as nat))
            &&& t.len() >= a + edit.text.len()
            &&& at_boundary(t, edit.range.start as nat)
            &&& cut(t, edit.range.start as nat) == a
            &&& 0 <= a <= cut(s, edit.range.end as nat) <= s.len()
        }),
{
    let a = cut(s, edit.range.start as nat);
    let t = replaced(s, edit);
    lemma_cut_order(s, edit.range.start as nat, edit.range.end as nat);
    assert(t.take(a) =~= s.take(a));
    assert(t.skip(a + edit.text.len()) =~= s.skip(cut(s, edit.range.end as nat)));
    lemma_cut_of_prefix(s, t, edit.range.start as nat, a);
}

/// Edits leave the text in front of all of them as it was.
pub proof fn law_text_before_edits_stays(s: Seq<char>, edits: Seq<EditView>, n: nat)
    requires
        applicable(s, edits),
        at_boundary(s, n),
        forall|i: int| 0 <= i < edits.len() ==> n <= #[trigger] edits[i].range.start,
    ensures
        at_boundary(applied(s, edits), n),
        cut(applied(s, edits), n) == cut(s, n),
        applied(s, edits).take(cut(s, n)) == s.take(cut(s, n)),
    decreases edits.len(),
{
    if edits.len() > 0 {
        let e = edits.last();
        let t = replaced(s, e);
        let a = cut(s, e.range.start as nat);
        assert(n <= edits[edits.len() - 1].range.start);
        lemma_replaced(s, e);
        lemma_cut_order(s, n, e.range.start as nat);
        assert(t.take(cut(s, n)) =~= t.take(a).take(cut(s, n)));
        assert(s.take(cut(s, n)) =~= s.take(a).take(cut(s, n)));
        lemma_cut_of_prefix(s, t, n, cut(s, n));
        assert forall|i: int| 0 <= i < edits.drop_last().len() implies n
            <= #[trigger] edits.drop_last()[i].range.start by {
            assert(edits.drop_last()[i] == edits[i]);
        }
        law_text_before_edits_stays(t, edits.drop_last(), n);
    }
}

/// Whether each edit ends before the next one starts, and the last one at `end`.
pub open spec fn apart(edits: Seq<EditView>, end: nat) -> bool
    decreases edits.len(),
{
    edits.len() > 0 ==> edits.last().range.end <= end && apart(
        edits.drop_last(),
        edits.last().range.start as nat,
    )
}

/// Whether a text ends with another one.
pub open spec fn ends_with(s: Seq<char>, suffix: Seq<char>) -> bool {
    suffix.len() <= s.len() && s.skip(s.len() - suffix.len()) == suffix
}

/// Edits that do not overlap leave the text behind all of them as it was.
pub proof fn law_text_behind_edits_stays(s: Seq<char>, edits: Seq<EditView>, end: nat)
    requires
        applicable(s, edits),
        at_boundary(s, end),
        apart(edits, end),
    ensures
        ends_with(applied(s, edits), s.skip(cut(s, end))),
    decreases edits.len(),
{
    if edits.len() == 0 {
        assert(s.skip(s.len() - s.skip(cut(s, end)).len()) =~= s.skip(cut(s, end)));
    } else {
        let e = edits.last();
        let t = replaced(s, e);
        let a = cut(s, e.range.start as nat);
        lemma_replaced(s, e);
        lemma_cut_order(s, e.range.end as nat, end);
        law_text_behind_edits_stays(t, edits.drop_last(), e.range.start as nat);
        let r = applied(s, edits);
        let tail = t.skip(a);
        let suffix = s.skip(cut(s, end));
        assert(ends_with(r, tail));
        assert(t.skip(a + e.text.len()) =~= tail.skip(e.text.len() as int));
        let d = cut(s, end) - cut(s, e.range.end as nat);
        assert(suffix =~= s.skip(cut(s, e.range.end as nat)).skip(d));
        assert(suffix =~= tail.skip(e.text.len() + d));
        assert(r.skip(r.len() - suffix.len()) =~= r.skip(r.len() - tail.len()).skip(
            e.text.len() + d,
        ));
    }
}

/// Replaces a range of a text.
fn replace_range(s: &String, range: TextRange, text: &str) -> (r: String)
    requires
        4 * s@.len() <= u64::MAX,
        fits(s@, range),
    ensures
        r@ == replaced(s@, EditView { range, text: text@ }),
{
    let chars = chars_of(s.as_str());
    let (a, b) = code_at(&chars, range);
    let n: usize = chars.len();
    let before = string_of(&chars, 0, a);
    let after = string_of(&chars, b, n);
    assert(chars@.subrange(0, a as int) =~= s@.take(a as int));
    assert(chars@.subrange(b as int, n as int) =~= s@.skip(b as int));
    cat3(before.as_str(), text, after.as_str())
}

/// A module's text, and the text with a range of it replaced.
pub fn apply_patch(info: &ModuleInfo, range: TextRange, patch: String) -> (r: (String, String))
    requires
        4 * info.contents@.len() <= u64::MAX,
        fits(info.contents@, range),
    ensures
        r.0@ == info.contents@,
        r.1@ == replaced(info.contents@, EditView { range, text: patch@ }),
{
    let after = replace_range(&info.contents, range, patch.as_str());
    (info.contents.clone(), after)
}

/// The edits of the module at a path, in the order of where they start.
fn order_edits(edits: &Vec<(ModuleInfo, TextRange, String)>, path: &FilePath) -> (r: Vec<
    (TextRange, String),
>)
    ensures
        plain_edits(r@) == in_order(edits_of(edit_views(edits@), path@)),
{
    let mut out: Vec<(TextRange, String)> = Vec::new();
    let mut i: usize = 0;
    let ghost all = edit_views(edits@);
    assert(all.take(0) =~= Seq::empty());
    assert(plain_edits(out@) =~= in_order(edits_of(all.take(0), path@)));
    while i < edits.len()
        invariant
            i <= edits@.len(),
            all == edit_views(edits@),
            plain_edits(out@) == in_order(edits_of(all.take(i as int), path@)),
        decreases edits@.len() - i,
    {
        let e = &edits[i];
        proof {
            assert(all.take(i + 1).drop_last() =~= all.take(i as int));
            assert(all.take(i + 1).last() == all[i as int]);
        }
        if e.0.path.same(path) {
            let ghost known = edits_of(all.take(i as int), path@);
            let ghost before = plain_edits(out@);
            proof {
                law_order_keeps_edits(known);
                lemma_place(before, e.1.start);
                let more = known.push(all[i as int].edit);
                assert(more.drop_last() =~= known);
                assert(more.last() == all[i as int].edit);
            }
            let mut at: usize = out.len();
            assert(before.take(at as int) =~= before);
            while at > 0 && out[at - 1].0.start > e.1.start
                invariant
                    at <= out@.len(),
                    before == plain_edits(out@),
                    place(before, e.1.start) == place(before.take(at as int), e.1.start),
                decreases at,
            {
                assert(before.take(at as int).drop_last() =~= before.take(at - 1));
                assert(before.take(at as int).last() == before[at - 1]);
                at = at - 1;
            }
            proof {
                if at > 0 {
                    assert(before.take(at as int).last() == before[at - 1]);
                }
                assert(place(before, e.1.start) == at);
            }
            let ghost old_out = out@;
            let item = (e.1, e.2.clone());
            out.insert(at, item);
            assert(out@ =~= old_out.insert(at as int, item));
            assert(plain_edits(out@) =~= before.insert(at as int, all[i as int].edit));
        }
        i = i + 1;
    }
    assert(all.take(i as int) =~= all);
    out
}

/// The text of a module after the edits that are meant for it.
pub fn apply_refactor_edits_for_module(
    module: &ModuleInfo,
    edits: &Vec<(ModuleInfo, TextRange, String)>,
) -> (r: String)
    requires
        applicable(module.contents@, in_order(edits_of(edit_views(edits@), module.path@))),
    ensures
        r@ == applied(
            module.contents@,
            in_order(edits_of(edit_views(edits@), module.path@)),
        ),
{
    let relevant = order_edits(edits, &module.path);
    let ghost all = plain_edits(relevant@);
    let mut result = module.contents.clone();
    let mut n: usize = relevant.len();
    assert(all.take(n as int) =~= all);
    while n > 0
        invariant
            n <= relevant@.len(),
            all == plain_edits(relevant@),
            applicable(result@, all.take(n as int)),
            applied(result@, all.take(n as int)) == applied(module.contents@, all),
        decreases n,
    {
        assert(all.take(n as int).drop_last() =~= all.take(n - 1));
        assert(all.take(n as int).last() == all[n - 1]);
        let e = &relevant[n - 1];
        result = replace_range(&result, e.0, e.1.as_str());
        n = n - 1;
    }
    result
}

/// Whether the edits of an action can be made in a module.
pub open spec fn action_applies(module: ModuleInfo, action: CodeAction) -> bool {
    applicable(module.contents@, in_order(edits_of(edit_views(action.edits@), module.path@)))
}

/// The text of a module after one of the actions that are offered, where that is offered.
pub fn apply_action(module: &ModuleInfo, actions: &Vec<CodeAction>, index: usize) -> (r: Option<
    String,
>)
    requires
        index < actions@.len() ==> action_applies(*module, actions@[index as int]),
    ensures
        match r {
            Some(text) => index < actions@.len() && text@ == applied(
                module.contents@,
                in_order(edits_of(edit_views(actions@[index as int].edits@), module.path@)),
            ),
            None => index >= actions@.len(),
        },
{
    if index < actions.len() {
        Some(apply_refactor_edits_for_module(module, &actions[index].edits))
    } else {
        None
    }
}

/// The text of a module after the first of the actions that are offered.
pub fn apply_first_action(module: &ModuleInfo, actions: &Vec<CodeAction>) -> (r: Option<String>)
    requires
        actions@.len() > 0 ==> action_applies(*module, actions@[0]),
    ensures
        match r {
            Some(text) => actions@.len() > 0 && text@ == applied(
                module.contents@,
                in_order(edits_of(edit_views(actions@[0].edits@), module.path@)),
            ),
            None => actions@.len() == 0,
        },
{
    apply_action(module, actions, 0)
}

/// What is reported of an action: its title and the text of its module before and after it.
pub open spec fn action_report(title: Seq<char>, before: Seq<char>, after: Seq<char>) -> Seq<char> {
    "# Title: "@ + title + "\n\n## Before:\n"@ + before + "\n## After:\n"@ + after + "\n"@
}

/// The report of actions, as far as they are told.
pub open spec fn actions_report(actions: Seq<CodeAction>) -> Seq<char>
    decreases actions.len(),
{
    if actions.len() == 0 {
        "Code Actions Results:\n"@
    } else {
        let a = actions.last();
        let m = edit_views(a.edits@)[0].module;
        actions_report(actions.drop_last()) + action_report(
            a.title@,
            m.contents,
            applied(m.contents, in_order(edits_of(edit_views(a.edits@), m.path))),
        )
    }
}

/// Whether an action edits something, and its edits can be made.
pub open spec fn reportable(a: CodeAction) -> bool {
    a.edits@.len() > 0 && action_applies(a.edits@[0].0, a)
}

/// Reports the actions that are offered at a place. All edits of an action are meant for the
/// module of the first.
pub fn get_report(actions: &Vec<CodeAction>) -> (r: String)
    requires
        forall|i: int| 0 <= i < actions@.len() ==> reportable(#[trigger] actions@[i]),
    ensures
        r@ == actions_report(actions@),
{
    let mut report = cat3("Code Actions Results:\n", "", "");
    let mut i: usize = 0;
    assert(actions@.take(0) =~= Seq::empty());
    proof {
        reveal_strlit("");
        assert("Code Actions Results:\n"@ + ""@ + ""@ =~= "Code Actions Results:\n"@);
    }
    while i < actions.len()
        invariant
            i <= actions@.len(),
            forall|k: int| 0 <= k < actions@.len() ==> reportable(#[trigger] actions@[k]),
            report@ == actions_report(actions@.take(i as int)),
        decreases actions@.len() - i,
    {
        let a = &actions[i];
        assert(reportable(actions@[i as int]));
        assert(actions@.take(i + 1).drop_last() =~= actions@.take(i as int));
        assert(actions@.take(i + 1).last() == actions@[i as int]);
        let module = &a.edits[0].0;
        assert(edit_views(a.edits@)[0].module == module@);
        let after = apply_refactor_edits_for_module(module, &a.edits);
        let head = cat5(
            "# Title: ",
            a.title.as_str(),
            "\n\n## Before:\n",
            module.contents.as_str(),
            "\n## After:\n",
        );
        let ghost before = report@;
        let part = cat3(head.as_str(), after.as_str(), "\n");
        assert(part@ =~= action_report(a.title@, module.contents@, after@));
        report = cat3(report.as_str(), part.as_str(), "");
        proof {
            reveal_strlit("");
            assert(report@ =~= before + part@);
        }
        i = i + 1;
    }
    assert(actions@.take(i as int) =~= actions@);
    report
}

} // verus!
