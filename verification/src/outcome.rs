use starlark_map::small_set::SmallSet;
use vstd::prelude::*;

use crate::counts::{count, counted, number_thousands, thousands};
use crate::error::{Error, ErrorView, Severity};
use crate::order::{sort_errors, sorted, SortBy};
use crate::ordered::{name_set_contains, name_set_insert, name_texts, new_name_set};
use crate::text::{cat2, cat3, cat7, join, joined, texts};
use crate::timings::{timings_text, write_timings, Timings};
use crate::xml::error_views;

verus! {

/// The errors of a run.
pub struct LoadedErrors {
    /// Answers to directives in the code, such as `reveal_type`.
    pub directives: Vec<Error>,
    pub ordinary: Vec<Error>,
    /// Errors that the baseline knows.
    pub baseline: Vec<Error>,
    /// Errors about suppressions that suppress nothing.
    pub unused_ignores: Vec<Error>,
    /// How serious the errors in configurations are.
    pub config_errors: Vec<Severity>,
}

/// What a user asks of a run.
pub struct RunOptions {
    /// The kinds to show, where not all are.
    pub only: Option<Vec<String>>,
    pub min_severity: Option<Severity>,
    /// Whether the baseline is written anew.
    pub update_baseline: bool,
    /// Whether what is expected in the code is checked, in place of showing errors.
    pub expectations: bool,
}

/// How a command ends.
#[derive(Clone, Copy, Debug, PartialEq, Eq, Structural)]
pub enum CommandExitStatus {
    Success,
    UserError,
}

/// What comes of a run.
pub struct Outcome {
    /// The errors that are shown.
    pub output_errors: Vec<Error>,
    /// The errors that are not shown because they are not serious enough.
    pub hidden_errors: Vec<Error>,
    /// The errors that suppressions are written for, where that is asked.
    pub ordinary_errors: Vec<Error>,
    /// The new baseline, where one is written.
    pub new_baseline: Option<Vec<Error>>,
    /// How many errors decide on how the command ends.
    pub ordinary_errors_count: u64,
    pub status: CommandExitStatus,
}

/// The errors of the kinds that are asked for.
pub open spec fn of_kinds(errors: Seq<ErrorView>, only: Option<Seq<Seq<char>>>) -> Seq<ErrorView>
    decreases errors.len(),
{
    if errors.len() == 0 {
        Seq::empty()
    } else if only is None || only->0.contains(errors.last().error_kind.name) {
        of_kinds(errors.drop_last(), only).push(errors.last())
    } else {
        of_kinds(errors.drop_last(), only)
    }
}

/// The errors that are at least so serious, or those that are less serious.
pub open spec fn by_severity(errors: Seq<ErrorView>, min: Severity, shown: bool) -> Seq<ErrorView>
    decreases errors.len(),
{
    if errors.len() == 0 {
        Seq::empty()
    } else if (errors.last().severity.rank() >= min.rank()) == shown {
        by_severity(errors.drop_last(), min, shown).push(errors.last())
    } else {
        by_severity(errors.drop_last(), min, shown)
    }
}

/// The kinds that are asked for.
pub open spec fn only_names(only: Option<Vec<String>>) -> Option<Seq<Seq<char>>> {
    match only {
        Some(names) => Some(texts(names@)),
        None => None,
    }
}

/// How serious an error has to be to be shown.
pub open spec fn least_severity(options: RunOptions) -> Severity {
    match options.min_severity {
        Some(s) => s,
        None => Severity::Error,
    }
}

/// The ordinary errors of the kinds that are asked for.
pub open spec fn asked_for(loaded: LoadedErrors, options: RunOptions) -> Seq<ErrorView> {
    of_kinds(error_views(loaded.ordinary@), only_names(options.only)) + of_kinds(
        error_views(loaded.unused_ignores@),
        only_names(options.only),
    )
}

/// How many errors in configurations are serious.
pub open spec fn serious(severities: Seq<Severity>) -> nat
    decreases severities.len(),
{
    if severities.len() == 0 {
        0
    } else if severities.last() == Severity::Error {
        serious(severities.drop_last()) + 1
    } else {
        serious(severities.drop_last())
    }
}

fn make_only(only: &Option<Vec<String>>) -> (r: Option<SmallSet<String>>)
    ensures
        match r {
            Some(set) => only is Some && forall|name: Seq<char>|
                name_texts(set).contains(name) == texts(only->0@).contains(name),
            None => only is None,
        },
{
    match only {
        None => None,
        Some(names) => {
            let mut set = new_name_set();
            let mut i: usize = 0;
            while i < names.len()
                invariant
                    i <= names@.len(),
                    forall|name: Seq<char>| #[trigger]
                        name_texts(set).contains(name) == texts(names@).take(i as int).contains(
                            name,
                        ),
                decreases names@.len() - i,
            {
                let ghost before = name_texts(set);
                let ghost known = texts(names@).take(i as int);
                let ghost added = names@[i as int]@;
                name_set_insert(&mut set, names[i].clone());
                proof {
                    let more = texts(names@).take(i + 1);
                    assert(more =~= known.push(added));
                    assert forall|name: Seq<char>| #[trigger]
                        name_texts(set).contains(name) == more.contains(name) by {
                        lemma_contains_push(known, added, name);
                        if !before.contains(added) {
                            lemma_contains_push(before, added, name);
                        }
                        assert(before.contains(name) == known.contains(name));
                        assert(before.contains(added) == known.contains(added));
                    }
                }
                i = i + 1;
            }
            assert(texts(names@).take(i as int) =~= texts(names@));
            Some(set)
        },
    }
}

proof fn lemma_contains_push(s: Seq<Seq<char>>, x: Seq<char>, y: Seq<char>)
    ensures
        s.push(x).contains(y) == (s.contains(y) || x == y),
{
    if s.contains(y) {
        let i = choose|i: int| 0 <= i < s.len() && s[i] == y;
        assert(s.push(x)[i] == y);
    }
    if x == y {
        assert(s.push(x)[s.len() as int] == y);
    }
    if s.push(x).contains(y) {
        let i = choose|i: int| 0 <= i < s.push(x).len() && s.push(x)[i] == y;
        if i < s.len() {
            assert(s[i] == y);
        }
    }
}

fn keep_kinds(errors: Vec<Error>, only: &Option<SmallSet<String>>, Ghost(names): Ghost<
    Option<Seq<Seq<char>>>,
>, out: &mut Vec<Error>)
    requires
        match only {
            Some(set) => names is Some && forall|name: Seq<char>|
                name_texts(*set).contains(name) == names->0.contains(name),
            None => names is None,
        },
    ensures
        error_views(final(out)@) == error_views(old(out)@) + of_kinds(
            error_views(errors@),
            names,
        ),
{
    let ghost all = error_views(errors@);
    let n: usize = errors.len();
    let mut rest = errors;
    assert(all.take(0) =~= Seq::empty());
    assert(all.skip(0) =~= all);
    assert(error_views(out@) =~= error_views(old(out)@) + of_kinds(all.take(0), names));
    while rest.len() > 0
        invariant
            rest@.len() <= n,
            n == all.len(),
            match only {
                Some(set) => names is Some && forall|name: Seq<char>|
                    name_texts(*set).contains(name) == names->0.contains(name),
                None => names is None,
            },
            error_views(rest@) == all.skip(n - rest@.len()),
            error_views(out@) == error_views(old(out)@) + of_kinds(
                all.take(n - rest@.len()),
                names,
            ),
        decreases rest@.len(),
    {
        let ghost left = rest@;
        let ghost i = n - rest@.len();
        let e = rest.remove(0);
        proof {
            assert(error_views(left)[0] == e@);
            assert(all.skip(i)[0] == e@);
            assert(error_views(rest@) =~= error_views(left).skip(1));
            assert(all.skip(i).skip(1) =~= all.skip(i + 1));
            assert(all.take(i + 1).drop_last() =~= all.take(i));
            assert(all.take(i + 1).last() == e@);
        }
        let keep = match only {
            None => true,
            Some(set) => name_set_contains(set, e.error_kind.name.as_str()),
        };
        let ghost before = out@;
        if keep {
            out.push(e);
            assert(error_views(out@) =~= error_views(before).push(e@));
        }
        assert(error_views(out@) =~= error_views(old(out)@) + of_kinds(all.take(i + 1), names));
    }
    assert(all.take(n as int) =~= all);
}

/// Splits errors into those that are at least so serious and those that are less serious.
fn partition(errors: Vec<Error>, min: Severity) -> (r: (Vec<Error>, Vec<Error>))
    ensures
        error_views((r.0)@) == by_severity(error_views(errors@), min, true),
        error_views((r.1)@) == by_severity(error_views(errors@), min, false),
{
    let ghost all = error_views(errors@);
    let n: usize = errors.len();
    let mut rest = errors;
    let mut shown: Vec<Error> = Vec::new();
    let mut hidden: Vec<Error> = Vec::new();
    assert(all.take(0) =~= Seq::empty());
    assert(all.skip(0) =~= all);
    assert(error_views(shown@) =~= by_severity(all.take(0), min, true));
    assert(error_views(hidden@) =~= by_severity(all.take(0), min, false));
    while rest.len() > 0
        invariant
            rest@.len() <= n,
            n == all.len(),
            error_views(rest@) == all.skip(n - rest@.len()),
            error_views(shown@) == by_severity(all.take(n - rest@.len()), min, true),
            error_views(hidden@) == by_severity(all.take(n - rest@.len()), min, false),
        decreases rest@.len(),
    {
        let ghost left = rest@;
        let ghost i = n - rest@.len();
        let e = rest.remove(0);
        proof {
            assert(error_views(left)[0] == e@);
            assert(all.skip(i)[0] == e@);
            assert(error_views(rest@) =~= error_views(left).skip(1));
            assert(all.skip(i).skip(1) =~= all.skip(i + 1));
            assert(all.take(i + 1).drop_last() =~= all.take(i));
            assert(all.take(i + 1).last() == e@);
        }
        let ghost before_shown = shown@;
        let ghost before_hidden = hidden@;
        if e.severity.at_least(min) {
            shown.push(e);
            assert(error_views(shown@) =~= error_views(before_shown).push(e@));
        } else {
            hidden.push(e);
            assert(error_views(hidden@) =~= error_views(before_hidden).push(e@));
        }
    }
    assert(all.take(n as int) =~= all);
    (shown, hidden)
}

/// The same errors once more.
pub fn dupe_errors(errors: &Vec<Error>) -> (r: Vec<Error>)
    ensures
        error_views(r@) == error_views(errors@),
{
    let mut out: Vec<Error> = Vec::new();
    let mut i: usize = 0;
    let ghost all = error_views(errors@);
    assert(error_views(out@) =~= all.take(0));
    while i < errors.len()
        invariant
            i <= errors@.len(),
            all == error_views(errors@),
            error_views(out@) == all.take(i as int),
        decreases errors@.len() - i,
    {
        let ghost before = out@;
        let copy = errors[i].dupe();
        out.push(copy);
        assert(error_views(out@) =~= error_views(before).push(copy@));
        assert(error_views(out@) =~= all.take(i + 1));
        i = i + 1;
    }
    assert(all.take(i as int) =~= all);
    out
}

fn append_errors(out: &mut Vec<Error>, more: Vec<Error>)
    ensures
        error_views(final(out)@) == error_views(old(out)@) + error_views(more@),
{
    let mut rest = more;
    out.append(&mut rest);
    assert(error_views(out@) =~= error_views(old(out)@) + error_views(more@));
}

fn count_serious(severities: &Vec<Severity>) -> (r: u64)
    ensures
        r == serious(severities@),
        r <= severities@.len(),
{
    let len: usize = severities.len();
    let mut n: u64 = 0;
    let mut i: usize = 0;
    assert(severities@.take(0) =~= Seq::empty());
    while i < len
        invariant
            i <= len == severities@.len(),
            n <= i,
            n == serious(severities@.take(i as int)),
        decreases severities@.len() - i,
    {
        assert(severities@.take(i + 1).drop_last() =~= severities@.take(i as int));
        assert(severities@.take(i + 1).last() == severities@[i as int]);
        if severities[i].at_least(Severity::Error) {
            n = n + 1;
        }
        i = i + 1;
    }
    assert(severities@.take(i as int) =~= severities@);
    n
}

/// How a run ends: with expectations they decide, else any error that is serious enough.
pub open spec fn exit_status(count: nat, expectations: bool) -> CommandExitStatus {
    if !expectations && count > 0 {
        CommandExitStatus::UserError
    } else {
        CommandExitStatus::Success
    }
}

/// Settles what comes of a run. Errors are shown that are of the kinds that are asked for and
/// serious enough, with the answers to directives among them; only the former decide on how the
/// command ends, and only they go into a new baseline, together with those that the old one knows.
pub fn settle(loaded: LoadedErrors, options: &RunOptions) -> (r: Outcome)
    requires
        loaded.config_errors@.len() + loaded.ordinary@.len() + loaded.unused_ignores@.len()
            <= u64::MAX,
    ensures
        ({
            let min = least_severity(*options);
            let asked = asked_for(loaded, *options);
            let shown = by_severity(asked, min, true);
            let n = serious(loaded.config_errors@) + shown.len();
            &&& error_views(r.output_errors@) == sorted(
                shown + of_kinds(error_views(loaded.directives@), only_names(options.only)),
                SortBy::Place,
            )
            &&& error_views(r.hidden_errors@) == by_severity(asked, min, false)
            &&& error_views(r.ordinary_errors@) == shown
            &&& r.new_baseline is Some == options.update_baseline
            &&& r.new_baseline matches Some(b) ==> error_views(b@) == sorted(
                shown + by_severity(error_views(loaded.baseline@), min, true),
                SortBy::Record,
            )
            &&& r.ordinary_errors_count == n
            &&& r.status == exit_status(n, options.expectations)
        }),
{
    let min = match options.min_severity {
        Some(s) => s,
        None => Severity::Error,
    };
    let only = make_only(&options.only);
    let ghost names = only_names(options.only);
    let mut directives: Vec<Error> = Vec::new();
    keep_kinds(loaded.directives, &only, Ghost(names), &mut directives);
    let mut asked: Vec<Error> = Vec::new();
    keep_kinds(loaded.ordinary, &only, Ghost(names), &mut asked);
    keep_kinds(loaded.unused_ignores, &only, Ghost(names), &mut asked);
    proof {
        assert(error_views(asked@) =~= asked_for(loaded, *options));
        assert(error_views(directives@) =~= of_kinds(error_views(loaded.directives@), names));
        lemma_of_kinds(error_views(loaded.ordinary@), names);
        lemma_of_kinds(error_views(loaded.unused_ignores@), names);
        lemma_by_severity(asked_for(loaded, *options), min);
    }
    let (shown, hidden) = partition(asked, min);
    let config_count = count_serious(&loaded.config_errors);
    assert(error_views(shown@).len() == shown@.len());
    let ordinary_errors_count: u64 = config_count + shown.len() as u64;
    let new_baseline = if options.update_baseline {
        let mut next = dupe_errors(&shown);
        let (known, _) = partition(loaded.baseline, min);
        append_errors(&mut next, known);
        Some(sort_errors(next, SortBy::Record))
    } else {
        None
    };
    let mut output = dupe_errors(&shown);
    append_errors(&mut output, directives);
    let output_errors = sort_errors(output, SortBy::Place);
    let status = if !options.expectations && ordinary_errors_count > 0 {
        CommandExitStatus::UserError
    } else {
        CommandExitStatus::Success
    };
    Outcome {
        output_errors,
        hidden_errors: hidden,
        ordinary_errors: shown,
        new_baseline,
        ordinary_errors_count,
        status,
    }
}

proof fn lemma_of_kinds(errors: Seq<ErrorView>, only: Option<Seq<Seq<char>>>)
    ensures
        of_kinds(errors, only).len() <= errors.len(),
    decreases errors.len(),
{
    if errors.len() > 0 {
        lemma_of_kinds(errors.drop_last(), only);
    }
}

proof fn lemma_by_severity(errors: Seq<ErrorView>, min: Severity)
    ensures
        by_severity(errors, min, true).len() + by_severity(errors, min, false).len()
            == errors.len(),
    decreases errors.len(),
{
    if errors.len() > 0 {
        lemma_by_severity(errors.drop_last(), min);
    }
}

/// No error is lost or shown twice by how serious it is: each is shown or hidden, and what is
/// hidden is less serious than an error.
pub proof fn law_each_error_is_shown_or_hidden(errors: Seq<ErrorView>, min: Severity)
    ensures
        (by_severity(errors, min, true) + by_severity(errors, min, false)).to_multiset()
            == errors.to_multiset(),
        forall|i: int|
            0 <= i < by_severity(errors, min, false).len() ==> (#[trigger] by_severity(
                errors,
                min,
                false,
            )[i]).severity != Severity::Error,
    decreases errors.len(),
{
    broadcast use vstd::seq_lib::group_to_multiset_ensures;

    let shown = by_severity(errors, min, true);
    let hidden = by_severity(errors, min, false);
    if errors.len() > 0 {
        let rest = errors.drop_last();
        let e = errors.last();
        law_each_error_is_shown_or_hidden(rest, min);
        let a = by_severity(rest, min, true);
        let b = by_severity(rest, min, false);
        assert(errors =~= rest.push(e));
        if e.severity.rank() >= min.rank() {
            assert(shown + hidden =~= (a + b).insert(a.len() as int, e));
            let t = (a + b).insert(a.len() as int, e);
            t.to_multiset_ensures();
            assert(t[a.len() as int] == e);
            assert(t.contains(e));
            assert(t.remove(a.len() as int) =~= a + b);
            assert(t.to_multiset() =~= (a + b).to_multiset().insert(e));
        } else {
            assert(shown + hidden =~= (a + b).push(e));
        }
        assert(rest.push(e).to_multiset() =~= rest.to_multiset().insert(e));
    } else {
        assert(shown + hidden =~= errors);
    }
}

/// Directives do not fail a run, nor do errors that are known to the baseline: without other errors
/// it succeeds, whatever these are.
pub proof fn law_directives_do_not_fail_a_run(loaded: LoadedErrors, options: RunOptions)
    requires
        loaded.ordinary@.len() == 0,
        loaded.unused_ignores@.len() == 0,
        serious(loaded.config_errors@) == 0,
    ensures
        exit_status(
            serious(loaded.config_errors@) + by_severity(
                asked_for(loaded, options),
                least_severity(options),
                true,
            ).len(),
            options.expectations,
        ) == CommandExitStatus::Success,
{
    assert(asked_for(loaded, options) =~= Seq::empty());
}

/// How many of the errors have a severity.
pub open spec fn with_severity(errors: Seq<ErrorView>, severity: Severity) -> nat
    decreases errors.len(),
{
    if errors.len() == 0 {
        0
    } else if errors.last().severity == severity {
        with_severity(errors.drop_last(), severity) + 1
    } else {
        with_severity(errors.drop_last(), severity)
    }
}

fn count_severity(errors: &Vec<Error>, severity: Severity) -> (r: u64)
    ensures
        r == with_severity(error_views(errors@), severity),
{
    let len: usize = errors.len();
    let mut n: u64 = 0;
    let mut i: usize = 0;
    let ghost all = error_views(errors@);
    assert(all.take(0) =~= Seq::empty());
    while i < len
        invariant
            i <= len == errors@.len(),
            n <= i,
            all == error_views(errors@),
            n == with_severity(all.take(i as int), severity),
        decreases errors@.len() - i,
    {
        assert(all.take(i + 1).drop_last() =~= all.take(i as int));
        assert(all.take(i + 1).last() == errors@[i as int]@);
        if errors[i].severity == severity {
            n = n + 1;
        }
        i = i + 1;
    }
    assert(all.take(i as int) =~= all);
    n
}

/// What is said of the errors that are not shown.
pub open spec fn hidden_text(hidden: Seq<ErrorView>) -> Seq<char> {
    let warnings = with_severity(hidden, Severity::Warn);
    let infos = with_severity(hidden, Severity::Info);
    let first: Seq<Seq<char>> = if warnings > 0 {
        seq![counted(warnings, "warning"@)]
    } else {
        Seq::empty()
    };
    let second: Seq<Seq<char>> = if infos > 0 {
        seq![counted(infos, "info message"@)]
    } else {
        Seq::empty()
    };
    joined(first + second, " and "@) + " not shown"@
}

/// What is said in brackets behind the number of errors.
pub open spec fn summary_details(suppressed: nat, hidden: Seq<ErrorView>) -> Seq<Seq<char>> {
    let first: Seq<Seq<char>> = if suppressed > 0 {
        seq![thousands(suppressed) + " suppressed"@]
    } else {
        Seq::empty()
    };
    let second: Seq<Seq<char>> = if hidden.len() > 0 {
        seq![hidden_text(hidden)]
    } else {
        Seq::empty()
    };
    first + second
}

/// The line that sums up a run.
pub open spec fn summary_text(
    count: nat,
    suppressed: nat,
    hidden: Seq<ErrorView>,
    min: Severity,
) -> Seq<char> {
    let label = if min == Severity::Error {
        "error"@
    } else {
        "diagnostic"@
    };
    let details = summary_details(suppressed, hidden);
    if details.len() == 0 {
        counted(count, label)
    } else {
        counted(count, label) + " ("@ + joined(details, ", "@) + ")"@
    }
}

fn write_hidden(hidden: &Vec<Error>) -> (r: String)
    ensures
        r@ == hidden_text(error_views(hidden@)),
{
    let warnings = count_severity(hidden, Severity::Warn);
    let infos = count_severity(hidden, Severity::Info);
    let mut parts: Vec<String> = Vec::new();
    if warnings > 0 {
        let text = count(warnings, "warning");
        parts.push(text);
        assert(texts(parts@) =~= seq![text@]);
    } else {
        assert(texts(parts@) =~= Seq::empty());
    }
    let ghost first = texts(parts@);
    if infos > 0 {
        let text = count(infos, "info message");
        parts.push(text);
        assert(texts(parts@) =~= first + seq![text@]);
    } else {
        assert(texts(parts@) =~= first + Seq::<Seq<char>>::empty());
    }
    let all = join(&parts, " and ");
    cat2(all.as_str(), " not shown")
}

/// Sums up a run in a line: how many errors there are, and how many are suppressed or not shown.
pub fn write_summary(count_of_errors: u64, suppressed: u64, hidden: &Vec<Error>, min: Severity) -> (r:
    String)
    ensures
        r@ == summary_text(
            count_of_errors as nat,
            suppressed as nat,
            error_views(hidden@),
            min,
        ),
{
    let head = if min == Severity::Error {
        count(count_of_errors, "error")
    } else {
        count(count_of_errors, "diagnostic")
    };
    let mut parts: Vec<String> = Vec::new();
    if suppressed > 0 {
        let number = number_thousands(suppressed);
        let text = cat2(number.as_str(), " suppressed");
        parts.push(text);
        assert(texts(parts@) =~= seq![text@]);
    } else {
        assert(texts(parts@) =~= Seq::empty());
    }
    let ghost first = texts(parts@);
    if hidden.len() > 0 {
        let text = write_hidden(hidden);
        parts.push(text);
        assert(texts(parts@) =~= first + seq![text@]);
    } else {
        assert(texts(parts@) =~= first + Seq::<Seq<char>>::empty());
    }
    assert(texts(parts@) =~= summary_details(suppressed as nat, error_views(hidden@)));
    assert(texts(parts@).len() == parts@.len());
    if parts.len() == 0 {
        head
    } else {
        let details = join(&parts, ", ");
        let open = cat3(head.as_str(), " (", details.as_str());
        cat2(open.as_str(), ")")
    }
}

/// How much a run looked at.
pub struct RunSize {
    /// The modules that were asked for.
    pub modules: u64,
    /// All modules, with those that others depend on.
    pub all_modules: u64,
    pub user_lines: u64,
    pub dependency_lines: u64,
}

impl RunSize {
    /// Whether the numbers go together.
    pub open spec fn wf(self) -> bool {
        &&& self.modules <= self.all_modules
        &&& self.user_lines + self.dependency_lines <= u64::MAX
    }
}

/// The line that says how much a run looked at, how long it took and how much memory it used.
pub open spec fn full_summary_text(
    size: RunSize,
    timings: Timings,
    memory: Seq<char>,
) -> Seq<char> {
    counted(size.modules as nat, "module"@) + " ("@ + counted(
        (size.all_modules - size.modules) as nat,
        "dependent module"@,
    ) + "); "@ + counted((size.user_lines + size.dependency_lines) as nat, "line"@) + " ("@
        + counted(size.user_lines as nat, "line"@) + " in your project, "@ + counted(
        size.dependency_lines as nat,
        "line"@,
    ) + " in dependencies); took "@ + timings_text(timings) + "; memory ("@ + memory + ")"@
}

/// Says how much a run looked at, how long it took and how much memory it used.
pub fn write_full_summary(size: &RunSize, timings: &Timings, memory: &str) -> (r: String)
    requires
        size.wf(),
    ensures
        r@ == full_summary_text(*size, *timings, memory@),
{
    let modules = count(size.modules, "module");
    let dependent = count(size.all_modules - size.modules, "dependent module");
    let lines = count(size.user_lines + size.dependency_lines, "line");
    let user = count(size.user_lines, "line");
    let others = count(size.dependency_lines, "line");
    let took = write_timings(timings);
    let counts = cat7(
        modules.as_str(),
        " (",
        dependent.as_str(),
        "); ",
        lines.as_str(),
        " (",
        user.as_str(),
    );
    let spent = cat7(
        counts.as_str(),
        " in your project, ",
        others.as_str(),
        " in dependencies); took ",
        took.as_str(),
        "; memory (",
        memory,
    );
    cat2(spent.as_str(), ")")
}

} // verus!
