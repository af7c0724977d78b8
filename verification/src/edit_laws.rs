use vstd::prelude::*;

use crate::edits::{action_report, applied, edits_of, replaced, EditView, ModuleEditView};
use crate::error::{ErrorView, FixView, Tool};
use crate::marks::{feed_before, feed_behind, first_text, nth_text};
use crate::paths::PathView;
use crate::quick_fixes::{
    byte_range, enclosing_literal, enum_member_offer, ignore_offer, indent_len, line_text,
    removal_offer, CoveringNode, IgnoreComment, OfferView,
};
use crate::report::TextRange;
use crate::source::{code_in, cut, fits, ModuleView};
use crate::suppression::{
    plan_of, removals, suppressions, to_remove, to_suppress, SerializedError, SuppressOptions,
};
use crate::text::{begins_with, joined, texts};
use crate::timings::{longest_first, notable_steps, step_text, timings_text, StepView, Timings};
use crate::upsell::{
    known_configs, upsell_reason, upsell_text, SynthesizedPresetReason, UpsellDecision, UsedConfig,
};

verus! {

/// An edit puts its text in the place of the range, and leaves what stands before and behind.
pub proof fn law_edits_replace_their_range(s: Seq<char>, edit: EditView)
    requires
        fits(s, edit.range),
    ensures
        applied(s, Seq::empty()) == s,
        applied(s, seq![edit]) == s.take(cut(s, edit.range.start as nat)) + edit.text + s.skip(
            cut(s, edit.range.end as nat),
        ),
        edit.text == code_in(s, edit.range) && cut(s, edit.range.start as nat) <= cut(
            s,
            edit.range.end as nat,
        ) ==> applied(s, seq![edit]) == s,
{
    let a = cut(s, edit.range.start as nat);
    let b = cut(s, edit.range.end as nat);
    assert(seq![edit].drop_last() =~= Seq::<EditView>::empty());
    assert(seq![edit].last() == edit);
    assert(applied(replaced(s, edit), Seq::empty()) == replaced(s, edit));
    assert(applied(s, seq![edit]) == applied(replaced(s, edit), seq![edit].drop_last()));
    assert(crate::words::cuts_at(s, edit.range.start as nat, a));
    assert(crate::words::cuts_at(s, edit.range.end as nat, b));
    if edit.text == code_in(s, edit.range) && a <= b {
        assert(s.take(a) + s.subrange(a, b) + s.skip(b) =~= s);
    }
}

/// The edits of a module are those of its path, in their order.
pub proof fn law_modules_get_their_own_edits(
    edits: Seq<ModuleEditView>,
    edit: ModuleEditView,
    path: PathView,
)
    ensures
        edits_of(Seq::empty(), path).len() == 0,
        edit.module.path == path ==> edits_of(edits.push(edit), path) == edits_of(edits, path).push(
            edit.edit,
        ),
        edit.module.path != path ==> edits_of(edits.push(edit), path) == edits_of(edits, path),
{
    assert(edits.push(edit).drop_last() =~= edits);
}

/// A report on an action shows its title, the text before it and the text after it.
pub proof fn law_reports_show_before_and_after(
    title: Seq<char>,
    before: Seq<char>,
    after: Seq<char>,
)
    ensures
        ("# Title: "@ + title + "\n\n## Before:\n"@ + before).is_prefix_of(
            action_report(title, before, after),
        ),
        ("\n## After:\n"@ + after + "\n"@).is_suffix_of(action_report(title, before, after)),
{
    let text = action_report(title, before, after);
    let head = "# Title: "@ + title + "\n\n## Before:\n"@ + before;
    let tail = "\n## After:\n"@ + after + "\n"@;
    assert(text =~= head + tail);
    assert(text.subrange(0, head.len() as int) =~= head);
    assert(text.subrange(text.len() - tail.len(), text.len() as int) =~= tail);
}

/// A string literal is offered for replacement where it holds the error, the outermost such literal
/// first, and its replacement is the member that the error names.
pub proof fn law_enum_members_replace_literals(
    module: ModuleView,
    nodes: Seq<CoveringNode>,
    error: ErrorView,
    offer: OfferView,
)
    requires
        enum_member_offer(module, nodes, error) == Some(offer),
    ensures
        error.quick_fixes.len() > 0,
        error.quick_fixes[0] matches FixView::ReplaceWithEnumMember { replacement } && offer.text
            == replacement && offer.title == "Replace with `"@ + replacement + seq!['`'],
        offer.module == module,
        exists|i: int|
            0 <= i < nodes.len() && (#[trigger] nodes[i]).is_string_literal && nodes[i].range
                == offer.range,
        offer.range.start <= error.range.start,
        error.range.end <= offer.range.end,
{
    reveal_strlit("`");
    assert("`"@ =~= seq!['`']);
    lemma_literal_encloses(nodes, error.range);
}

proof fn lemma_literal_encloses(nodes: Seq<CoveringNode>, range: TextRange)
    ensures
        enclosing_literal(nodes, range) matches Some(r) ==> r.start <= range.start && range.end
            <= r.end && exists|i: int|
            0 <= i < nodes.len() && (#[trigger] nodes[i]).is_string_literal && nodes[i].range == r,
        enclosing_literal(nodes, range) is None ==> forall|i: int|
            0 <= i < nodes.len() && (#[trigger] nodes[i]).is_string_literal ==> !(
            nodes[i].range.start <= range.start && range.end <= nodes[i].range.end),
    decreases nodes.len(),
{
    if nodes.len() > 0 {
        let rest = nodes.drop_first();
        lemma_literal_encloses(rest, range);
        assert forall|i: int| 0 <= i < rest.len() implies #[trigger] rest[i] == nodes[i + 1] by {}
        assert forall|i: int| 1 <= i < nodes.len() implies #[trigger] nodes[i] == rest[i - 1] by {}
        if !(nodes[0].is_string_literal && nodes[0].range.covers(range)) {
            if let Some(r) = enclosing_literal(rest, range) {
                let i = choose|i: int|
                    0 <= i < rest.len() && (#[trigger] rest[i]).is_string_literal && rest[i].range
                        == r;
                assert(nodes[i + 1].is_string_literal);
            }
        }
    }
}

/// Every literal that holds the error leads to an offer where the error names a member.
pub proof fn law_enclosing_literals_are_found(
    module: ModuleView,
    nodes: Seq<CoveringNode>,
    error: ErrorView,
    i: int,
)
    requires
        error.quick_fixes.len() > 0,
        error.quick_fixes[0] is ReplaceWithEnumMember,
        0 <= i < nodes.len(),
        nodes[i].is_string_literal,
        nodes[i].range.start <= error.range.start,
        error.range.end <= nodes[i].range.end,
    ensures
        enum_member_offer(module, nodes, error) is Some,
{
    lemma_literal_encloses(nodes, error.range);
}

/// An ignore comment is offered only in files that are written by hand and no notebooks, never for
/// errors about unused suppressions, and not where the error is ignored already.
pub proof fn law_errors_are_ignored_once(
    module: ModuleView,
    error: ErrorView,
    on_line: Option<IgnoreComment>,
    above: Option<IgnoreComment>,
    r: Option<OfferView>,
)
    requires
        ignore_offer(module, error, on_line, above, r),
    ensures
        module.is_notebook || module.is_generated ==> r is None,
        error.error_kind.name == "unused-ignore"@ || error.error_kind.name == "unused-type-ignore"@
            ==> r is None,
        on_line matches Some(c) ==> (texts(c.codes@).contains(error.error_kind.name) ==> r is None),
        r matches Some(offer) ==> offer.module == module && offer.title
            == "Add `# pyrefly: ignore ["@ + error.error_kind.name + "]`"@,
        r is Some ==> (on_line matches Some(c) ==> r->0.text == c.merged_line@),
{
}

/// A new ignore comment stands on a line of its own above the error, with the same indentation, and
/// names the kind of the error.
pub proof fn law_new_comments_stand_above(
    module: ModuleView,
    error: ErrorView,
    r: Option<OfferView>,
    a: int,
    b: int,
)
    requires
        ignore_offer(module, error, None, None, r),
        !module.is_notebook,
        !module.is_generated,
        error.error_kind.name != "unused-ignore"@,
        error.error_kind.name != "unused-type-ignore"@,
        error.display_range.start.line_within_file >= 1,
        line_text(
            module.contents,
            (error.display_range.start.line_within_file - 1) as nat,
        ) == Some((a, b)),
        0 <= a <= b <= module.contents.len(),
    ensures
        r matches Some(offer) && {
            let line = module.contents.subrange(a, b);
            let n = indent_len(line);
            &&& offer.range.start == offer.range.end
            &&& byte_range(module.contents, a, a, offer.range)
            &&& offer.text == line.take(n) + "# pyrefly: ignore ["@ + error.error_kind.name
                + "]\n"@
            &&& 0 <= n <= line.len()
            &&& forall|i: int| 0 <= i < n ==> line[i] == ' ' || line[i] == '\t'
            &&& n < line.len() ==> line[n] != ' ' && line[n] != '\t'
        },
{
    lemma_indent(module.contents.subrange(a, b));
}

proof fn lemma_indent(s: Seq<char>)
    ensures
        0 <= indent_len(s) <= s.len(),
        forall|i: int| 0 <= i < indent_len(s) ==> s[i] == ' ' || s[i] == '\t',
        indent_len(s) < s.len() ==> s[indent_len(s)] != ' ' && s[indent_len(s)] != '\t',
    decreases s.len(),
{
    if s.len() > 0 && (s[0] == ' ' || s[0] == '\t') {
        let rest = s.drop_first();
        lemma_indent(rest);
        assert forall|i: int| 0 <= i < indent_len(s) implies s[i] == ' ' || s[i] == '\t' by {
            if i > 0 {
                assert(s[i] == rest[i - 1]);
            }
        }
    }
}

/// A suppression is removed or narrowed only where the text is still what it was when it was found
/// unused. The text that replaces it is the one that was worked out then.
pub proof fn law_only_known_suppressions_are_removed(
    module: ModuleView,
    error: ErrorView,
    r: Option<OfferView>,
    tool: Tool,
    range: TextRange,
    expected: Seq<char>,
    replacement: Seq<char>,
)
    requires
        removal_offer(module, error, r),
        error.quick_fixes.len() > 0,
        error.quick_fixes[0] == (FixView::RemoveUnusedSuppression {
            tool,
            range,
            expected,
            replacement,
        }),
    ensures
        r is Some == (code_in(module.contents, range) == expected),
        r matches Some(offer) ==> offer.text == replacement && offer.module == module,
        r matches Some(offer) ==> (replacement.len() > 0 ==> offer.range == range && offer.title
            == "Remove unused suppression codes"@),
        r matches Some(offer) ==> (replacement.len() == 0 && tool == Tool::Type ==> offer.title
            == "Remove unused `# type: ignore` comment"@),
        r matches Some(offer) ==> (replacement.len() == 0 && tool == Tool::Pyrefly ==> offer.title
            == "Remove unused `# pyrefly: ignore` comment"@),
{
}

/// Errors without a fix of the kind are offered none.
pub proof fn law_other_errors_have_no_offers(
    module: ModuleView,
    nodes: Seq<CoveringNode>,
    error: ErrorView,
    r: Option<OfferView>,
)
    requires
        removal_offer(module, error, r),
    ensures
        error.quick_fixes.len() == 0 ==> r is None && enum_member_offer(module, nodes, error)
            is None,
        error.quick_fixes.len() > 0 ==> !(r is Some && enum_member_offer(module, nodes, error)
            is Some),
{
}

/// Suppressions are removed that are unused, those for other tools only on request; and errors are
/// suppressed that answer no directive and are not about unused suppressions.
pub proof fn law_unused_suppressions_are_removed(e: SerializedError, type_ignores: bool)
    ensures
        e.name@ == "unused-ignore"@ ==> to_remove(e, type_ignores) && !to_suppress(e),
        e.name@ == "unused-type-ignore"@ ==> to_remove(e, type_ignores) == type_ignores,
        e.name@ != "unused-ignore"@ && e.name@ != "unused-type-ignore"@ ==> !to_remove(
            e,
            type_ignores,
        ) && to_suppress(e) == !e.is_directive,
        e.is_directive ==> !to_suppress(e),
{
    reveal_strlit("unused-ignore");
    reveal_strlit("unused-type-ignore");
    assert("unused-ignore"@.len() == 13);
    assert("unused-type-ignore"@.len() == 18);
}

/// What is removed and what is suppressed is picked error by error, in order.
pub proof fn law_errors_are_picked_in_order(
    errors: Seq<SerializedError>,
    e: SerializedError,
    type_ignores: bool,
)
    ensures
        removals(Seq::empty(), type_ignores).len() == 0,
        suppressions(Seq::empty()).len() == 0,
        removals(errors.push(e), type_ignores) == if to_remove(e, type_ignores) {
            removals(errors, type_ignores).push(e)
        } else {
            removals(errors, type_ignores)
        },
        suppressions(errors.push(e)) == if to_suppress(e) {
            suppressions(errors).push(e)
        } else {
            suppressions(errors)
        },
{
    assert(errors.push(e).drop_last() =~= errors);
}

/// The command removes suppressions where either removal is asked for and adds them otherwise; it
/// takes the errors from a file where one is given, and otherwise checks the project for them.
pub proof fn law_commands_remove_or_suppress(o: SuppressOptions)
    ensures
        ({
            let removes = o.remove_unused || o.remove_unused_type_ignores;
            &&& plan_of(o) is RemoveListed == (removes && o.json)
            &&& plan_of(o) is RemoveFound == (removes && !o.json)
            &&& plan_of(o) is SuppressListed == (!removes && o.json)
            &&& plan_of(o) is SuppressFound == (!removes && !o.json)
        }),
{
}

/// The hint at how to set up a project is shown where that is decided, and otherwise where all files
/// have one and the same configuration and that was not written by the user.
pub proof fn law_hints_need_one_configuration(
    decision: UpsellDecision,
    configs: Seq<Option<UsedConfig>>,
    config: UsedConfig,
)
    ensures
        decision is Skip ==> upsell_reason(decision, configs) is None,
        decision matches UpsellDecision::Show(reason) ==> upsell_reason(decision, configs) == Some(
            reason,
        ),
        decision is Determine ==> upsell_reason(decision, Seq::empty()) is None,
        decision is Determine ==> upsell_reason(decision, seq![Some(config)])
            == config.synthesized_preset_reason,
{
    assert(seq![Some(config)].drop_last() =~= Seq::<Option<UsedConfig>>::empty());
    assert(seq![Some(config)].last() == Some(config));
    assert(known_configs(Seq::empty()) =~= Seq::<UsedConfig>::empty());
    assert(known_configs(seq![Some(config)]) =~= seq![config]);
}

/// Two configurations that differ give no hint.
pub proof fn law_different_configurations_give_no_hint(
    configs: Seq<Option<UsedConfig>>,
    i: int,
    j: int,
)
    requires
        0 <= i < known_configs(configs).len(),
        0 <= j < known_configs(configs).len(),
        known_configs(configs)[i].id != known_configs(configs)[j].id,
    ensures
        upsell_reason(UpsellDecision::Determine, configs) is None,
{
}

/// Nothing is said to a user who chose the settings, and something to every other.
pub proof fn law_users_who_chose_are_left_alone(reason: SynthesizedPresetReason)
    ensures
        reason is UserOverride ==> upsell_text(reason).len() == 0,
        !(reason is UserOverride) ==> upsell_text(reason).len() > 0 && upsell_text(reason).last()
            == '\n',
{
    reveal_strlit("\n");
    assert("\n"@ =~= seq!['\n']);
}

/// A step is mentioned where it took noticeably long; checking is where the rest took noticeably
/// long.
pub proof fn law_long_steps_are_mentioned(t: Timings)
    ensures
        ({
            let steps = notable_steps(t);
            let checking = t.total.nanos - t.type_check.nanos > 100_000_000;
            let reporting = t.report_errors.nanos > 100_000_000;
            let listing = t.list_files.nanos > 100_000_000;
            &&& steps.len() == (if checking {
                1int
            } else {
                0int
            }) + (if reporting {
                1int
            } else {
                0int
            }) + (if listing {
                1int
            } else {
                0int
            })
            &&& checking ==> steps[0].label == "checking"@ && steps[0].shown == t.type_check.shown@
            &&& !checking && reporting ==> steps[0].label == "reporting"@ && steps[0].shown
                == t.report_errors.shown@
            &&& listing ==> steps.last().label == "listing"@ && steps.last().shown
                == t.list_files.shown@
            &&& steps.len() == 0 ==> timings_text(t) == t.total.shown@
        }),
{
}

/// A single step that is mentioned stands in brackets behind the whole time.
pub proof fn law_mentioned_steps_stand_in_brackets(t: Timings, step: StepView)
    requires
        notable_steps(t) == seq![step],
    ensures
        timings_text(t) == t.total.shown@ + seq![' ', '('] + step.label + seq![' '] + step.shown
            + seq![')'],
{
    reveal_strlit(" (");
    reveal_strlit(")");
    reveal_strlit(" ");
    assert(" ("@ =~= seq![' ', '(']);
    assert(")"@ =~= seq![')']);
    assert(" "@ =~= seq![' ']);
    let one = seq![step];
    assert(one.drop_last() =~= Seq::<StepView>::empty());
    let none = longest_first(one.drop_last());
    assert(none =~= Seq::<StepView>::empty());
    assert(crate::timings::step_place(none, step.nanos) == 0);
    assert(longest_first(one) =~= seq![step]);
    let shown = longest_first(one).map_values(|s: StepView| step_text(s));
    assert(shown =~= seq![step_text(step)]);
    assert(joined(shown, ", "@) == step_text(step));
    assert(timings_text(t) =~= t.total.shown@ + seq![' ', '('] + step.label + seq![' '] + step.shown
        + seq![')']);
}

/// A path is written with slashes between its parts, and with one in front where it is absolute.
pub proof fn law_paths_are_written_with_slashes(path: PathView, name: Seq<char>)
    ensures
        path.parts.len() == 0 ==> path.text() == if path.absolute {
            seq!['/']
        } else {
            Seq::empty()
        },
        path.parts.len() > 0 ==> (PathView { absolute: path.absolute, parts: path.parts.push(name) })
            .text() == path.text() + seq!['/'] + name,
{
    reveal_strlit("/");
    assert("/"@ =~= seq!['/']);
    let longer = PathView { absolute: path.absolute, parts: path.parts.push(name) };
    assert(longer.parts.drop_last() =~= path.parts);
    if path.parts.len() > 0 {
        assert(longer.text() =~= path.text() + seq!['/'] + name);
    } else {
        assert(joined(path.parts, "/"@) =~= Seq::empty());
        assert("/"@ + joined(path.parts, "/"@) =~= seq!['/']);
    }
}

/// A relative path leads from the base to the path: up from the base to where the two part, and down
/// from there to the path.
pub proof fn law_relative_paths_lead_to_the_path(path: PathView, base: PathView)
    requires
        path.absolute == base.absolute,
        forall|i: int| 0 <= i < base.parts.len() ==> #[trigger] base.parts[i] != ".."@,
    ensures
        ({
            let relative = path.relative_to(base);
            let down = exists|n: int|
                {
                    &&& 0 <= n <= path.parts.len()
                    &&& n <= base.parts.len()
                    &&& path.parts.take(n) == #[trigger] base.parts.take(n)
                    &&& n < path.parts.len() && n < base.parts.len() ==> path.parts[n]
                        != base.parts[n]
                    &&& relative.parts.len() == (base.parts.len() - n) + (path.parts.len() - n)
                    &&& forall|i: int|
                        0 <= i < base.parts.len() - n ==> #[trigger] relative.parts[i] == ".."@
                    &&& relative.parts.skip(base.parts.len() - n) == path.parts.skip(n)
                };
            &&& !relative.absolute
            &&& down
        }),
{
    let n = crate::paths::common(path.parts, base.parts);
    crate::paths::lemma_common(path.parts, base.parts);
    let relative = path.relative_to(base);
    assert(path.parts.take(n) =~= base.parts.take(n));
    assert(relative.parts.skip(base.parts.len() - n) =~= path.parts.skip(n));
}

/// A text is found where it first occurs at or behind a position, and nowhere where it does not
/// occur.
pub proof fn law_first_occurrences_are_found(s: Seq<char>, needle: Seq<char>, from: int)
    requires
        0 <= from <= s.len(),
    ensures
        first_text(s, needle, from) matches Some(i) ==> from <= i <= s.len() && begins_with(
            s.skip(i),
            needle,
        ) && forall|k: int| from <= k < i ==> !begins_with(#[trigger] s.skip(k), needle),
        first_text(s, needle, from) is None ==> forall|k: int|
            from <= k <= s.len() ==> !begins_with(#[trigger] s.skip(k), needle),
    decreases s.len() - from,
{
    if !begins_with(s.skip(from), needle) && from < s.len() {
        law_first_occurrences_are_found(s, needle, from + 1);
    } else if from == s.len() {
        assert(first_text(s, needle, from + 1) is None);
    }
}

/// Each further occurrence is looked for behind the one before it.
pub proof fn law_occurrences_do_not_overlap(s: Seq<char>, needle: Seq<char>, from: int, n: nat)
    requires
        n >= 1,
    ensures
        nth_text(s, needle, from, 1) == first_text(s, needle, from),
        first_text(s, needle, from) matches Some(i) ==> nth_text(s, needle, from, n + 1) == nth_text(
            s,
            needle,
            i + needle.len(),
            n,
        ),
        first_text(s, needle, from) is None ==> nth_text(s, needle, from, n) is None,
{
}

/// A line begins behind the last line feed in front of a position, and ends with the first one that
/// is not in front of it.
pub proof fn law_lines_lie_between_feeds(s: Seq<char>, at: int, start: int)
    requires
        0 <= at <= s.len(),
    ensures
        ({
            let begin = feed_before(s, at, start);
            let end = feed_behind(s, at);
            &&& (0 < begin <= at && s[begin - 1] == '\n' && forall|k: int|
                begin <= k < at ==> s[k] != '\n') || (begin == start && forall|k: int|
                0 <= k < at ==> s[k] != '\n')
            &&& at <= end <= s.len()
            &&& end < s.len() ==> end > at && s[end - 1] == '\n'
            &&& forall|k: int| at <= k < end - 1 ==> s[k] != '\n'
        }),
{
    lemma_feed_before(s, at, start);
    lemma_feed_behind(s, at);
}

proof fn lemma_feed_before(s: Seq<char>, at: int, start: int)
    requires
        0 <= at <= s.len(),
    ensures
        ({
            let begin = feed_before(s, at, start);
            (0 < begin <= at && s[begin - 1] == '\n' && forall|k: int|
                begin <= k < at ==> s[k] != '\n') || (begin == start && forall|k: int|
                0 <= k < at ==> s[k] != '\n')
        }),
    decreases at,
{
    if at > 0 && s[at - 1] != '\n' {
        lemma_feed_before(s, at - 1, start);
    }
}

proof fn lemma_feed_behind(s: Seq<char>, at: int)
    requires
        0 <= at <= s.len(),
    ensures
        ({
            let end = feed_behind(s, at);
            &&& at <= end <= s.len()
            &&& end < s.len() ==> end > at && s[end - 1] == '\n'
            &&& forall|k: int| at <= k < end - 1 ==> s[k] != '\n'
        }),
    decreases s.len() - at,
{
    if at < s.len() && s[at] != '\n' {
        lemma_feed_behind(s, at + 1);
    }
}

} // verus!
