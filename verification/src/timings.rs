use vstd::prelude::*;

use crate::text::{cat2, cat3, join, joined, texts};

verus! {

/// A time in nanoseconds, with how it is written.
pub struct Timed {
    pub nanos: u64,
    pub shown: String,
}

/// The times of a run.
pub struct Timings {
    pub total: Timed,
    pub list_files: Timed,
    pub type_check: Timed,
    pub report_errors: Timed,
}

/// From when on a step is worth mentioning: a tenth of a second.
pub const THRESHOLD: u64 = 100_000_000;

/// A step with its time, as plain text.
pub struct StepView {
    pub label: Seq<char>,
    pub nanos: u64,
    pub shown: Seq<char>,
}

/// The steps that are worth mentioning: checking where it is not nearly all of the time, and the
/// others where they take long.
pub open spec fn notable_steps(t: Timings) -> Seq<StepView> {
    let checking: Seq<StepView> = if t.type_check.nanos + THRESHOLD < t.total.nanos {
        seq![
            StepView {
                label: "checking"@,
                nanos: t.type_check.nanos,
                shown: t.type_check.shown@,
            },
        ]
    } else {
        Seq::empty()
    };
    let reporting: Seq<StepView> = if t.report_errors.nanos > THRESHOLD {
        seq![
            StepView {
                label: "reporting"@,
                nanos: t.report_errors.nanos,
                shown: t.report_errors.shown@,
            },
        ]
    } else {
        Seq::empty()
    };
    let listing: Seq<StepView> = if t.list_files.nanos > THRESHOLD {
        seq![
            StepView {
                label: "listing"@,
                nanos: t.list_files.nanos,
                shown: t.list_files.shown@,
            },
        ]
    } else {
        Seq::empty()
    };
    checking + reporting + listing
}

/// How many steps at the beginning take longer than `nanos`, where the longest come first.
pub open spec fn step_place(steps: Seq<StepView>, nanos: u64) -> int
    decreases steps.len(),
{
    if steps.len() == 0 {
        0
    } else if steps.last().nanos > nanos {
        steps.len() as int
    } else {
        step_place(steps.drop_last(), nanos)
    }
}

/// The steps with the longest first. Of steps that take the same time, the later one comes first.
pub open spec fn longest_first(steps: Seq<StepView>) -> Seq<StepView>
    decreases steps.len(),
{
    if steps.len() == 0 {
        Seq::empty()
    } else {
        let before = longest_first(steps.drop_last());
        before.insert(step_place(before, steps.last().nanos), steps.last())
    }
}

/// A step as it is written.
pub open spec fn step_text(step: StepView) -> Seq<char> {
    step.label + " "@ + step.shown
}

/// The times of a run as they are written.
pub open spec fn timings_text(t: Timings) -> Seq<char> {
    let steps = longest_first(notable_steps(t));
    if steps.len() == 0 {
        t.total.shown@
    } else {
        t.total.shown@ + " ("@ + joined(steps.map_values(|s: StepView| step_text(s)), ", "@) + ")"@
    }
}

/// A step with its time.
struct Step {
    nanos: u64,
    text: String,
}

/// Whether these are steps with their texts.
spec fn are_steps(steps: Seq<Step>, views: Seq<StepView>) -> bool {
    &&& steps.len() == views.len()
    &&& forall|i: int|
        0 <= i < steps.len() ==> (#[trigger] steps[i]).nanos == views[i].nanos && steps[i].text@
            == step_text(views[i])
}

fn add_step(
    steps: &mut Vec<Step>,
    label: &str,
    time: &Timed,
    Ghost(views): Ghost<Seq<StepView>>,
)
    requires
        are_steps(old(steps)@, views),
    ensures
        are_steps(
            final(steps)@,
            views.insert(
                step_place(views, time.nanos),
                StepView { label: label@, nanos: time.nanos, shown: time.shown@ },
            ),
        ),
{
    let ghost added = StepView { label: label@, nanos: time.nanos, shown: time.shown@ };
    let mut at: usize = steps.len();
    assert(views.take(at as int) =~= views);
    while at > 0 && steps[at - 1].nanos <= time.nanos
        invariant
            at <= steps@.len(),
            are_steps(steps@, views),
            step_place(views, time.nanos) == step_place(views.take(at as int), time.nanos),
        decreases at,
    {
        assert(views.take(at as int).drop_last() =~= views.take(at - 1));
        assert(views.take(at as int).last() == views[at - 1]);
        assert(steps@[at - 1].nanos == views[at - 1].nanos);
        at = at - 1;
    }
    proof {
        if at > 0 {
            assert(views.take(at as int).last() == views[at - 1]);
            assert(steps@[at - 1].nanos == views[at - 1].nanos);
        }
        assert(step_place(views, time.nanos) == at);
    }
    let text = cat3(label, " ", time.shown.as_str());
    let ghost before = steps@;
    let step = Step { nanos: time.nanos, text };
    steps.insert(at, step);
    assert(steps@ =~= before.insert(at as int, step));
    assert forall|i: int| 0 <= i < steps@.len() implies (#[trigger] steps@[i]).nanos
        == views.insert(at as int, added)[i].nanos && steps@[i].text@ == step_text(
        views.insert(at as int, added)[i],
    ) by {
        if i < at {
            assert(steps@[i] == before[i]);
        } else if i > at {
            assert(steps@[i] == before[i - 1]);
        }
    }
}

proof fn lemma_longest_first_push(steps: Seq<StepView>, step: StepView)
    ensures
        longest_first(steps.push(step)) == longest_first(steps).insert(
            step_place(longest_first(steps), step.nanos),
            step,
        ),
{
    assert(steps.push(step).drop_last() =~= steps);
}

/// Writes the times of a run: the total, and in brackets the steps that are worth mentioning, the
/// longest first.
pub fn write_timings(t: &Timings) -> (r: String)
    ensures
        r@ == timings_text(*t),
{
    let mut steps: Vec<Step> = Vec::new();
    let ghost mut done: Seq<StepView> = Seq::empty();
    if t.total.nanos >= THRESHOLD && t.type_check.nanos < t.total.nanos - THRESHOLD {
        add_step(&mut steps, "checking", &t.type_check, Ghost(longest_first(done)));
        proof {
            let step = StepView {
                label: "checking"@,
                nanos: t.type_check.nanos,
                shown: t.type_check.shown@,
            };
            lemma_longest_first_push(done, step);
            done = done.push(step);
        }
    }
    if t.report_errors.nanos > THRESHOLD {
        add_step(&mut steps, "reporting", &t.report_errors, Ghost(longest_first(done)));
        proof {
            let step = StepView {
                label: "reporting"@,
                nanos: t.report_errors.nanos,
                shown: t.report_errors.shown@,
            };
            lemma_longest_first_push(done, step);
            done = done.push(step);
        }
    }
    if t.list_files.nanos > THRESHOLD {
        add_step(&mut steps, "listing", &t.list_files, Ghost(longest_first(done)));
        proof {
            let step = StepView {
                label: "listing"@,
                nanos: t.list_files.nanos,
                shown: t.list_files.shown@,
            };
            lemma_longest_first_push(done, step);
            done = done.push(step);
        }
    }
    assert(done =~= notable_steps(*t));
    let ghost views = longest_first(done);
    if steps.len() == 0 {
        return t.total.shown.clone();
    }
    let mut parts: Vec<String> = Vec::new();
    let mut i: usize = 0;
    let ghost wanted = views.map_values(|s: StepView| step_text(s));
    assert(texts(parts@) =~= wanted.take(0));
    while i < steps.len()
        invariant
            i <= steps@.len(),
            are_steps(steps@, views),
            wanted == views.map_values(|s: StepView| step_text(s)),
            texts(parts@) == wanted.take(i as int),
        decreases steps@.len() - i,
    {
        let ghost before = parts@;
        let text = steps[i].text.clone();
        assert(steps@[i as int].text@ == step_text(views[i as int]));
        parts.push(text);
        assert(texts(parts@) =~= texts(before).push(text@));
        assert(texts(parts@) =~= wanted.take(i + 1));
        i = i + 1;
    }
    assert(wanted.take(i as int) =~= wanted);
    let details = join(&parts, ", ");
    let head = cat3(t.total.shown.as_str(), " (", details.as_str());
    cat2(head.as_str(), ")")
}

proof fn lemma_step_place(steps: Seq<StepView>, nanos: u64)
    requires
        forall|i: int, j: int|
            0 <= i < j < steps.len() ==> (#[trigger] steps[j]).nanos <= (#[trigger] steps[i]).nanos,
    ensures
        0 <= step_place(steps, nanos) <= steps.len(),
        forall|i: int| 0 <= i < step_place(steps, nanos) ==> nanos < (#[trigger] steps[i]).nanos,
        forall|i: int|
            step_place(steps, nanos) <= i < steps.len() ==> (#[trigger] steps[i]).nanos <= nanos,
    decreases steps.len(),
{
    if steps.len() > 0 && steps.last().nanos <= nanos {
        let rest = steps.drop_last();
        lemma_step_place(rest, nanos);
        assert forall|i: int| 0 <= i < step_place(steps, nanos) implies nanos < (
        #[trigger] steps[i]).nanos by {
            assert(rest[i] == steps[i]);
        }
        assert forall|i: int| step_place(steps, nanos) <= i < steps.len() implies (
        #[trigger] steps[i]).nanos <= nanos by {
            if i < steps.len() - 1 {
                assert(rest[i] == steps[i]);
            }
        }
    } else if steps.len() > 0 {
        assert forall|i: int| 0 <= i < steps.len() implies nanos < (#[trigger] steps[i]).nanos by {
            if i < steps.len() - 1 {
                assert(steps[steps.len() - 1].nanos <= steps[i].nanos);
            }
        }
    }
}

/// Each step that is worth mentioning is mentioned once, and none in front of one that took longer.
pub proof fn law_longest_steps_come_first(steps: Seq<StepView>)
    ensures
        longest_first(steps).to_multiset() == steps.to_multiset(),
        longest_first(steps).len() == steps.len(),
        forall|i: int, j: int|
            0 <= i < j < steps.len() ==> (#[trigger] longest_first(steps)[j]).nanos <= (
            #[trigger] longest_first(steps)[i]).nanos,
    decreases steps.len(),
{
    broadcast use vstd::seq_lib::group_to_multiset_ensures;

    if steps.len() > 0 {
        let rest = steps.drop_last();
        let e = steps.last();
        law_longest_steps_come_first(rest);
        let before = longest_first(rest);
        let p = step_place(before, e.nanos);
        lemma_step_place(before, e.nanos);
        let after = before.insert(p, e);
        assert(steps =~= rest.push(e));
        after.to_multiset_ensures();
        assert(after[p] == e);
        assert(after.contains(e));
        assert(after.remove(p) =~= before);
        assert(after.to_multiset() =~= before.to_multiset().insert(e));
        assert(rest.push(e).to_multiset() =~= rest.to_multiset().insert(e));
        assert forall|i: int, j: int| 0 <= i < j < after.len() implies (
        #[trigger] after[j]).nanos <= (#[trigger] after[i]).nanos by {
            let x = if i < p {
                i
            } else {
                i - 1
            };
            let y = if j < p {
                j
            } else {
                j - 1
            };
            if i != p {
                assert(after[i] == before[x]);
            }
            if j != p {
                assert(after[j] == before[y]);
            }
        }
    } else {
        assert(longest_first(steps) =~= steps);
    }
}

} // verus!
