use vstd::prelude::*;

use crate::counts::{count_lines, counted, thousands, three_digits};
use crate::diagnostic::{describes, Diagnostic};
use crate::error::{details_text, with_indented_lines, BaselineStatus, ErrorView, Severity};
use crate::github::{
    data_specials, escaped_char, escaped_text, hex_digit, percent_byte, property_specials,
    workflow_command, workflow_commands,
};
use crate::legacy::{
    default_fields, full_record, recorded_path, severity_name, with_slashes, BaselineField,
    BaselineView, LegacyError,
};
use crate::order::{error_before, text_before, SortBy};
use crate::outcome::{
    asked_for, by_severity, exit_status, hidden_text, least_severity, of_kinds, serious,
    summary_text, with_severity, CommandExitStatus, LoadedErrors, RunOptions,
};
use crate::outputs::{errors_text, is_written, Written};
use crate::paths::PathView;
use crate::plan::{taken, RunFlags, RunStep};
use crate::position::{
    cell_of, line_of, lines_before, shown_at, utf16_len, DisplayPos, DisplayRange,
};
use crate::renderer::{error_text, origin_text, range_text};
use crate::settings::{
    progress_style, required_levels, OutputFormat, ProgressBarStyle, ReportFlags, SettingsView,
    Summary,
};
use crate::text::{decimal, digit, joined};
use crate::xml::{admitted, attr_char, attr_text, error_views, test_cases, xml_char};

verus! {

/// Severities go up from what is ignored over information and warnings to errors.
pub proof fn law_severities_are_ordered()
    ensures
        Severity::Ignore.rank() < Severity::Info.rank(),
        Severity::Info.rank() < Severity::Warn.rank(),
        Severity::Warn.rank() < Severity::Error.rank(),
{
}

/// A message is its first line, and below it the details where there are some.
pub proof fn law_messages_begin_with_their_header(error: ErrorView)
    ensures
        error.msg_details is None ==> error.msg() == error.msg_header,
        error.msg_details matches Some(details) ==> error.msg() == error.msg_header + seq!['\n']
            + details,
{
    reveal_strlit("\n");
    assert("\n"@ =~= seq!['\n']);
}

proof fn lemma_one_line_stays(s: Seq<char>, line: Seq<char>)
    requires
        !line.contains('\n'),
    ensures
        with_indented_lines(s + line) == with_indented_lines(s) + line,
    decreases line.len(),
{
    if line.len() == 0 {
        assert(s + line =~= s);
        assert(with_indented_lines(s) + line =~= with_indented_lines(s));
    } else {
        let rest = line.drop_last();
        assert forall|i: int| 0 <= i < rest.len() implies rest[i] != '\n' by {
            assert(line.contains(line[i]));
        }
        assert(line.contains(line.last()));
        lemma_one_line_stays(s, rest);
        assert((s + line).drop_last() =~= s + rest);
        assert((s + line).last() == line.last());
        assert(with_indented_lines(s + line) =~= with_indented_lines(s) + line);
    }
}

/// Details stand one below the other, each behind two spaces.
pub proof fn law_details_stand_below_each_other(details: Seq<Seq<char>>, line: Seq<char>)
    requires
        !line.contains('\n'),
    ensures
        details_text(Seq::empty()) is None,
        details_text(seq![line]) == Some(seq![' ', ' '] + line),
        details.len() > 0 ==> details_text(details.push(line)) == Some(
            details_text(details)->0 + seq!['\n', ' ', ' '] + line,
        ),
{
    reveal_strlit("\n");
    assert("\n"@ =~= seq!['\n']);
    let empty: Seq<char> = Seq::empty();
    assert(empty + line =~= line);
    lemma_one_line_stays(empty, line);
    assert(with_indented_lines(empty) + line =~= line);
    assert(with_indented_lines(line) =~= line);
    if details.len() > 0 {
        assert(details.push(line).drop_last() =~= details);
        let before = joined(details, "\n"@);
        lemma_one_line_stays(before + "\n"@, line);
        assert((before + "\n"@).drop_last() =~= before);
        assert(with_indented_lines(before + "\n"@) =~= with_indented_lines(before) + seq![
            '\n',
            ' ',
            ' ',
        ]);
        assert(details_text(details.push(line))->0 =~= details_text(details)->0 + seq![
            '\n',
            ' ',
            ' ',
        ] + line);
    }
}

/// A record holds where an error begins and ends, what it says in one line and in full, of what
/// kind and how serious it is, and whether a baseline knows it.
pub proof fn law_records_hold_the_error(record: LegacyError, relative_to: PathView, error: ErrorView)
    requires
        record.records(relative_to, error),
    ensures
        record.line == error.display_range.start.line_within_cell,
        record.stop_line == error.display_range.end.line_within_cell,
        record.column == error.display_range.start.column,
        record.stop_column == error.display_range.end.column,
        record.cell == error.display_range.start.cell,
        record.name@ == error.error_kind.name,
        record.concise_description@ == error.msg_header,
        error.msg_details matches Some(details) ==> record.description@ == error.msg_header + seq![
            '\n',
        ] + details,
        error.msg_details is None ==> record.description@ == error.msg_header,
        record.severity@ == severity_name(error.severity),
        error.baseline_status == BaselineStatus::Matched <==> record.baselined == Some(true),
        error.baseline_status == BaselineStatus::NotConfigured <==> record.baselined is None,
        record.path@ == recorded_path(error.module.path, relative_to),
        record.code == -2,
{
    law_messages_begin_with_their_header(error);
}

/// Severities are recorded under their own names, and no two share one.
pub proof fn law_severities_have_names(a: Severity, b: Severity)
    ensures
        severity_name(Severity::Ignore) == "ignore"@,
        severity_name(Severity::Info) == "info"@,
        severity_name(Severity::Warn) == "warn"@,
        severity_name(Severity::Error) == "error"@,
        severity_name(a) == severity_name(b) ==> a == b,
{
    reveal_strlit("ignore");
    reveal_strlit("info");
    reveal_strlit("warn");
    reveal_strlit("error");
    assert("info"@[0] == 'i' && "warn"@[0] == 'w');
    assert("ignore"@.len() == 6 && "info"@.len() == 4 && "warn"@.len() == 4 && "error"@.len() == 5);
}

/// Recorded paths differ from the paths in their backslashes alone, which become slashes.
pub proof fn law_backslashes_become_slashes(s: Seq<char>, i: int)
    requires
        0 <= i < s.len(),
    ensures
        with_slashes(s).len() == s.len(),
        s[i] == '\\' ==> with_slashes(s)[i] == '/',
        s[i] != '\\' ==> with_slashes(s)[i] == s[i],
{
}

/// What is kept of a record are the fields that are asked for, each as it was, and nothing else.
pub proof fn law_records_keep_what_is_asked_for(record: BaselineView, fields: Seq<BaselineField>)
    ensures
        ({
            let kept = record.retained(fields);
            &&& kept.line == if fields.contains(BaselineField::Line) {
                record.line
            } else {
                None
            }
            &&& kept.column == if fields.contains(BaselineField::Column) {
                record.column
            } else {
                None
            }
            &&& kept.path == if fields.contains(BaselineField::Path) {
                record.path
            } else {
                None
            }
            &&& kept.name == if fields.contains(BaselineField::Name) {
                record.name
            } else {
                None
            }
            &&& kept.concise_description == if fields.contains(BaselineField::ConciseDescription) {
                record.concise_description
            } else {
                None
            }
            &&& kept.severity == if fields.contains(BaselineField::Severity) {
                record.severity
            } else {
                None
            }
            &&& kept.cell == if fields.contains(BaselineField::Cell) {
                record.cell
            } else {
                None
            }
        }),
{
}

/// By default a baseline knows an error by its path, its kind and its column.
pub proof fn law_baselines_know_errors_by_place_and_kind(relative_to: PathView, error: ErrorView)
    ensures
        ({
            let record = full_record(relative_to, error).retained(default_fields());
            &&& record.path == Some(recorded_path(error.module.path, relative_to))
            &&& record.name == Some(error.error_kind.name)
            &&& record.column == Some(error.display_range.start.column as usize)
            &&& record.line is None
            &&& record.concise_description is None
            &&& record.severity is None
            &&& record.cell is None
        }),
        full_record(relative_to, error).line == Some(
            error.display_range.start.line_within_cell as usize,
        ),
        full_record(relative_to, error).concise_description == Some(error.msg_header),
        full_record(relative_to, error).severity == Some(severity_name(error.severity)),
        full_record(relative_to, error).cell == error.display_range.start.cell,
{
    let fields = default_fields();
    assert(fields[0] == BaselineField::Column);
    assert(fields[1] == BaselineField::Path);
    assert(fields[2] == BaselineField::Name);
    assert(fields.contains(BaselineField::Column));
    assert(fields.contains(BaselineField::Path));
    assert(fields.contains(BaselineField::Name));
}

/// The value of a hexadecimal digit.
pub open spec fn hex_value(c: char) -> int {
    let n = c as int;
    if 48 <= n <= 57 {
        n - 48
    } else if 65 <= n <= 70 {
        n - 55
    } else {
        -1
    }
}

/// The byte that three escaped characters stand for.
pub open spec fn escaped_byte(s: Seq<char>) -> int {
    if s.len() == 3 && s[0] == '%' && hex_value(s[1]) >= 0 && hex_value(s[2]) >= 0 {
        16 * hex_value(s[1]) + hex_value(s[2])
    } else {
        -1
    }
}

/// An escaped byte can be read back.
pub proof fn law_escaped_bytes_can_be_read(b: int)
    requires
        0 <= b < 256,
    ensures
        escaped_byte(percent_byte(b)) == b,
{
    let h = b / 16;
    let l = b % 16;
    assert(0 <= h < 16 && 0 <= l < 16 && b == 16 * h + l);
    assert(hex_value(hex_digit(h)) == h);
    assert(hex_value(hex_digit(l)) == l);
}

/// Plain text is left alone in a workflow command, but for the signs that the command gives a
/// meaning; those, and everything that is no plain text, are escaped.
pub proof fn law_plain_text_is_not_escaped(c: char)
    ensures
        0x20 <= c as int <= 0x7E && c != '%' ==> escaped_char(c, data_specials()) == seq![c],
        0x20 <= c as int <= 0x7E && c != '%' && c != ':' && c != ',' ==> escaped_char(
            c,
            property_specials(),
        ) == seq![c],
        c == '%' || c == '\n' || c == '\r' ==> escaped_byte(escaped_char(c, data_specials()))
            == c as int,
        c == '%' || c == ':' || c == ',' || c == '\n' || c == '\r' ==> escaped_byte(
            escaped_char(c, property_specials()),
        ) == c as int,
{
    assert(data_specials()[0] == '%');
    assert(property_specials()[0] == '%');
    assert(property_specials()[1] == ':');
    assert(property_specials()[2] == ',');
    if (c as int) < 128 {
        law_escaped_bytes_can_be_read(c as int);
    }
}

/// Texts are escaped sign by sign.
pub proof fn law_texts_are_escaped_in_turn(s: Seq<char>, c: char, special: Seq<char>)
    ensures
        escaped_text(Seq::empty(), special).len() == 0,
        escaped_text(s.push(c), special) == escaped_text(s, special) + escaped_char(c, special),
{
    assert(s.push(c).drop_last() =~= s);
}

/// A workflow command behind its name and the word for the file: the file, the place where the error
/// begins and ends, its kind and its message.
pub open spec fn command_with(head: Seq<char>, error: ErrorView) -> Seq<char> {
    let d = error.display_range;
    head + escaped_text(error.module.path.text(), property_specials()) + ",line="@ + decimal(
        d.start.line_within_file as nat,
    ) + ",col="@ + decimal(d.start.column as nat) + ",endLine="@ + (decimal(
        d.end.line_within_file as nat,
    ) + ",endColumn="@ + decimal(d.end.column as nat) + ",title="@ + escaped_text(
        "Pyrefly "@ + error.error_kind.name,
        property_specials(),
    ) + "::"@ + escaped_text(error.msg(), data_specials()))
}

/// A workflow command says by its name how serious an error is, and holds the file, the place where
/// the error begins and ends, its kind and its message. What is ignored has no command.
pub proof fn law_commands_name_the_severity(error: ErrorView)
    ensures
        workflow_command(error) == match error.severity {
            Severity::Ignore => None,
            Severity::Info => Some(command_with("::notice file="@, error)),
            Severity::Warn => Some(command_with("::warning file="@, error)),
            Severity::Error => Some(command_with("::error file="@, error)),
        },
{
    reveal_strlit("::");
    reveal_strlit(" file=");
    reveal_strlit("notice");
    reveal_strlit("warning");
    reveal_strlit("error");
    reveal_strlit("::notice file=");
    reveal_strlit("::warning file=");
    reveal_strlit("::error file=");
    assert("::"@ + "notice"@ + " file="@ =~= "::notice file="@);
    assert("::"@ + "warning"@ + " file="@ =~= "::warning file="@);
    assert("::"@ + "error"@ + " file="@ =~= "::error file="@);
}

/// Each command stands on a line of its own, in the order of the errors; what is ignored leaves no
/// line.
pub proof fn law_commands_stand_on_lines(errors: Seq<ErrorView>, error: ErrorView)
    ensures
        workflow_commands(Seq::empty()).len() == 0,
        error.severity == Severity::Ignore ==> workflow_commands(errors.push(error))
            == workflow_commands(errors),
        error.severity != Severity::Ignore ==> workflow_commands(errors.push(error))
            == workflow_commands(errors) + workflow_command(error)->0 + seq!['\n'],
{
    reveal_strlit("\n");
    assert("\n"@ =~= seq!['\n']);
    assert(errors.push(error).drop_last() =~= errors);
}

/// A text without its commas.
pub open spec fn without_commas(s: Seq<char>) -> Seq<char>
    decreases s.len(),
{
    if s.len() == 0 {
        Seq::empty()
    } else if s.last() == ',' {
        without_commas(s.drop_last())
    } else {
        without_commas(s.drop_last()).push(s.last())
    }
}

proof fn lemma_without_commas(a: Seq<char>, b: Seq<char>)
    ensures
        without_commas(a + b) == without_commas(a) + without_commas(b),
    decreases b.len(),
{
    if b.len() == 0 {
        assert(a + b =~= a);
        assert(without_commas(a) + without_commas(b) =~= without_commas(a));
    } else {
        lemma_without_commas(a, b.drop_last());
        assert((a + b).drop_last() =~= a + b.drop_last());
        assert((a + b).last() == b.last());
        assert(without_commas(a + b) =~= without_commas(a) + without_commas(b));
    }
}

proof fn lemma_no_commas(s: Seq<char>)
    requires
        forall|i: int| 0 <= i < s.len() ==> #[trigger] s[i] != ',',
    ensures
        without_commas(s) == s,
    decreases s.len(),
{
    if s.len() > 0 {
        assert forall|i: int| 0 <= i < s.drop_last().len() implies #[trigger] s.drop_last()[i]
            != ',' by {
            assert(s[i] != ',');
        }
        lemma_no_commas(s.drop_last());
        assert(s.last() == s[s.len() - 1]);
        assert(without_commas(s) =~= s);
    } else {
        assert(s =~= Seq::empty());
    }
}

proof fn lemma_decimal_digits(n: nat)
    ensures
        forall|i: int| 0 <= i < decimal(n).len() ==> 48 <= (#[trigger] decimal(n)[i]) as int <= 57,
    decreases n,
{
    if n >= 10 {
        lemma_decimal_digits(n / 10);
        let before = decimal(n / 10);
        assert forall|i: int| 0 <= i < decimal(n).len() implies 48 <= (
        #[trigger] decimal(n)[i]) as int <= 57 by {
            if i < before.len() {
                assert(decimal(n)[i] == before[i]);
            } else {
                let d = n % 10;
                assert(decimal(n)[i] == digit(d));
                assert(0 <= d < 10);
            }
        }
    }
}

proof fn lemma_decimal_of_thousands(n: nat)
    requires
        n >= 1000,
    ensures
        decimal(n) == decimal(n / 1000) + three_digits(n % 1000),
{
    let a = n / 10;
    let b = a / 10;
    assert(b / 10 == n / 1000);
    assert(decimal(n) == decimal(a).push(digit(n % 10)));
    assert(decimal(a) == decimal(b).push(digit(a % 10)));
    assert(decimal(b) == decimal(b / 10).push(digit(b % 10)));
    assert(n % 1000 % 10 == n % 10);
    assert(n % 1000 / 10 % 10 == a % 10);
    assert(n % 1000 / 100 == b % 10);
    assert(decimal(n) =~= decimal(n / 1000) + three_digits(n % 1000));
}

/// A number with commas is the number: without them it is its decimal notation, and below a
/// thousand there are none.
pub proof fn law_commas_only_group_digits(n: nat)
    ensures
        without_commas(thousands(n)) == decimal(n),
        n < 1000 ==> thousands(n) == decimal(n),
        n >= 1000 ==> thousands(n).len() >= 5 && thousands(n)[thousands(n).len() - 4] == ',',
    decreases n,
{
    lemma_decimal_digits(n);
    lemma_no_commas(decimal(n));
    if n >= 1000 {
        law_commas_only_group_digits(n / 1000);
        lemma_decimal_of_thousands(n);
        let rest = three_digits(n % 1000);
        let a = n % 1000 / 100;
        let b = n % 1000 / 10 % 10;
        let c = n % 1000 % 10;
        assert(a < 10 && b < 10 && c < 10);
        assert forall|i: int| 0 <= i < rest.len() implies #[trigger] rest[i] != ',' by {}
        lemma_no_commas(rest);
        lemma_without_commas(thousands(n / 1000) + seq![','], rest);
        lemma_without_commas(thousands(n / 1000), seq![',']);
        assert(seq![','].drop_last() =~= Seq::<char>::empty());
        assert(seq![','].last() == ',');
        assert(without_commas(Seq::<char>::empty()) =~= Seq::<char>::empty());
        assert(without_commas(seq![',']) == without_commas(seq![','].drop_last()));
        assert(thousands(n) == thousands(n / 1000) + seq![','] + rest);
        assert(decimal(n / 1000) + Seq::<char>::empty() =~= decimal(n / 1000));
        lemma_thousands_nonempty(n / 1000);
    }
}

proof fn lemma_thousands_nonempty(n: nat)
    ensures
        thousands(n).len() > 0,
{
}

/// One of a thing is named in the singular, any other number in the plural.
pub proof fn law_counts_agree_in_number(n: nat, what: Seq<char>)
    ensures
        n == 1 ==> counted(n, what) == seq!['1', ' '] + what,
        n != 1 ==> counted(n, what) == thousands(n) + seq![' '] + what + seq!['s'],
{
    reveal_strlit(" ");
    reveal_strlit("s");
    assert(" "@ =~= seq![' ']);
    assert("s"@ =~= seq!['s']);
    assert(decimal(1) =~= seq!['1']);
    if n == 1 {
        assert(counted(n, what) =~= seq!['1', ' '] + what);
    } else {
        assert(counted(n, what) =~= thousands(n) + seq![' '] + what + seq!['s']);
    }
}

/// Counts are shown from the last entry on, one line each, and no more of them than are asked for.
pub proof fn law_largest_counts_are_shown_first(
    entries: Seq<(Seq<char>, usize)>,
    entry: (Seq<char>, usize),
    n: nat,
)
    ensures
        count_lines(entries.push(entry), 0).len() == 0,
        count_lines(Seq::empty(), n).len() == 0,
        count_lines(entries.push(entry), n + 1) == thousands(entry.1 as nat) + " instances of "@
            + entry.0 + seq!['\n'] + count_lines(entries, n),
{
    reveal_strlit("\n");
    assert("\n"@ =~= seq!['\n']);
    assert(entries.push(entry).drop_last() =~= entries);
}

/// An error is kept among those of the asked kinds exactly where its kind is asked for, or all kinds
/// are.
pub proof fn law_asked_kinds_are_kept(
    errors: Seq<ErrorView>,
    error: ErrorView,
    only: Option<Seq<Seq<char>>>,
)
    ensures
        of_kinds(Seq::empty(), only).len() == 0,
        only is None ==> of_kinds(errors, only) == errors,
        only matches Some(names) ==> of_kinds(errors.push(error), only) == if names.contains(
            error.error_kind.name,
        ) {
            of_kinds(errors, only).push(error)
        } else {
            of_kinds(errors, only)
        },
    decreases errors.len(),
{
    assert(errors.push(error).drop_last() =~= errors);
    if only is None && errors.len() > 0 {
        law_asked_kinds_are_kept(errors.drop_last(), error, only);
        assert(errors.drop_last().push(errors.last()) =~= errors);
    }
    if errors.len() == 0 {
        assert(of_kinds(errors, only) =~= Seq::empty());
        assert(errors =~= Seq::empty());
    }
}

/// An error is shown exactly where it is as serious as the least that is shown, and hidden
/// otherwise.
pub proof fn law_serious_errors_are_shown(
    errors: Seq<ErrorView>,
    error: ErrorView,
    min: Severity,
)
    ensures
        ({
            let serious_enough = match min {
                Severity::Ignore => true,
                Severity::Info => error.severity != Severity::Ignore,
                Severity::Warn => error.severity == Severity::Warn || error.severity
                    == Severity::Error,
                Severity::Error => error.severity == Severity::Error,
            };
            let all = errors.push(error);
            &&& serious_enough ==> by_severity(all, min, true) == by_severity(
                errors,
                min,
                true,
            ).push(error) && by_severity(all, min, false) == by_severity(errors, min, false)
            &&& !serious_enough ==> by_severity(all, min, false) == by_severity(
                errors,
                min,
                false,
            ).push(error) && by_severity(all, min, true) == by_severity(errors, min, true)
        }),
{
    assert(errors.push(error).drop_last() =~= errors);
}

/// Without a word on it only errors are shown.
pub proof fn law_errors_are_shown_by_default(options: RunOptions)
    ensures
        options.min_severity is None ==> least_severity(options) == Severity::Error,
        options.min_severity matches Some(s) ==> least_severity(options) == s,
{
}

/// What is asked for is among the ordinary errors and those on unused suppressions; where all kinds
/// are asked for it is all of them.
pub proof fn law_ordinary_errors_are_asked_for(loaded: LoadedErrors, options: RunOptions)
    requires
        options.only is None,
    ensures
        asked_for(loaded, options) == error_views(loaded.ordinary@) + error_views(
            loaded.unused_ignores@,
        ),
{
    let any: ErrorView = arbitrary();
    law_asked_kinds_are_kept(error_views(loaded.ordinary@), any, None);
    law_asked_kinds_are_kept(error_views(loaded.unused_ignores@), any, None);
}

/// A run fails exactly where there is something to fail for, unless expectations are checked.
pub proof fn law_runs_fail_for_errors(count: nat, expectations: bool)
    ensures
        expectations ==> exit_status(count, expectations) == CommandExitStatus::Success,
        !expectations && count == 0 ==> exit_status(count, expectations)
            == CommandExitStatus::Success,
        !expectations && count > 0 ==> exit_status(count, expectations)
            == CommandExitStatus::UserError,
{
}

/// Of the errors in configurations only the serious ones count.
pub proof fn law_config_errors_count_where_serious(severities: Seq<Severity>, s: Severity)
    ensures
        serious(Seq::empty()) == 0,
        serious(severities.push(s)) == serious(severities) + (if s == Severity::Error {
            1nat
        } else {
            0nat
        }),
{
    assert(severities.push(s).drop_last() =~= severities);
}

/// The summary counts errors, or diagnostics where less is shown too. What was suppressed and what
/// was hidden stands in brackets behind, each where there is some.
pub proof fn law_summaries_count_what_is_shown(
    count: nat,
    suppressed: nat,
    hidden: Seq<ErrorView>,
    min: Severity,
)
    ensures
        ({
            let shown = counted(
                count,
                if min == Severity::Error {
                    "error"@
                } else {
                    "diagnostic"@
                },
            );
            summary_text(count, suppressed, hidden, min) == if suppressed == 0 && hidden.len() == 0 {
                shown
            } else if hidden.len() == 0 {
                shown + seq![' ', '('] + thousands(suppressed) + " suppressed)"@
            } else if suppressed == 0 {
                shown + seq![' ', '('] + hidden_text(hidden) + seq![')']
            } else {
                shown + seq![' ', '('] + thousands(suppressed) + " suppressed, "@ + hidden_text(
                    hidden,
                ) + seq![')']
            }
        }),
{
    reveal_strlit(" (");
    reveal_strlit(")");
    reveal_strlit(", ");
    reveal_strlit(" suppressed");
    reveal_strlit(" suppressed)");
    reveal_strlit(" suppressed, ");
    assert(" suppressed"@ + ")"@ =~= " suppressed)"@);
    assert(" suppressed"@ + ", "@ =~= " suppressed, "@);
    let a = thousands(suppressed) + " suppressed"@;
    let b = hidden_text(hidden);
    let details = crate::outcome::summary_details(suppressed, hidden);
    let shown = counted(
        count,
        if min == Severity::Error {
            "error"@
        } else {
            "diagnostic"@
        },
    );
    if suppressed == 0 && hidden.len() == 0 {
        assert(details =~= Seq::empty());
    } else if hidden.len() == 0 {
        assert(details =~= seq![a]);
        assert(summary_text(count, suppressed, hidden, min) =~= shown + seq![' ', '('] + thousands(
            suppressed,
        ) + " suppressed)"@);
    } else if suppressed == 0 {
        assert(details =~= seq![b]);
        assert(summary_text(count, suppressed, hidden, min) =~= shown + seq![' ', '('] + b + seq![
            ')',
        ]);
    } else {
        assert(details =~= seq![a, b]);
        assert(details.drop_last() =~= seq![a]);
        assert(joined(seq![a], ", "@) == a);
        assert(joined(details, ", "@) == a + ", "@ + b);
        assert(summary_text(count, suppressed, hidden, min) =~= shown + seq![' ', '('] + thousands(
            suppressed,
        ) + " suppressed, "@ + b + seq![')']);
    }
}

/// What is hidden is counted as warnings and information messages, and said not to be shown.
pub proof fn law_hidden_errors_are_counted(hidden: Seq<ErrorView>)
    ensures
        ({
            let warnings = with_severity(hidden, Severity::Warn);
            let infos = with_severity(hidden, Severity::Info);
            &&& warnings > 0 && infos == 0 ==> hidden_text(hidden) == counted(warnings, "warning"@)
                + " not shown"@
            &&& warnings == 0 && infos > 0 ==> hidden_text(hidden) == counted(
                infos,
                "info message"@,
            ) + " not shown"@
            &&& warnings > 0 && infos > 0 ==> hidden_text(hidden) == counted(warnings, "warning"@)
                + " and "@ + counted(infos, "info message"@) + " not shown"@
        }),
{
    let a = counted(with_severity(hidden, Severity::Warn), "warning"@);
    let b = counted(with_severity(hidden, Severity::Info), "info message"@);
    let empty: Seq<Seq<char>> = Seq::empty();
    assert(empty + seq![b] =~= seq![b]);
    assert(seq![a] + empty =~= seq![a]);
    assert(seq![a] + seq![b] =~= seq![a, b]);
    assert(seq![a, b].drop_last() =~= seq![a]);
    assert(joined(seq![a], " and "@) == a);
    assert(joined(seq![a, b], " and "@) == a + " and "@ + b);
}

/// Errors are counted by their severity one by one.
pub proof fn law_severities_are_counted(errors: Seq<ErrorView>, error: ErrorView, s: Severity)
    ensures
        with_severity(Seq::empty(), s) == 0,
        with_severity(errors.push(error), s) == with_severity(errors, s) + (if error.severity == s {
            1nat
        } else {
            0nat
        }),
{
    assert(errors.push(error).drop_last() =~= errors);
}

proof fn lemma_taken_contains(choices: Seq<(bool, RunStep)>, step: RunStep)
    ensures
        taken(choices).contains(step) <==> exists|k: int|
            0 <= k < choices.len() && #[trigger] choices[k] == (true, step),
    decreases choices.len(),
{
    if choices.len() > 0 {
        let rest = choices.drop_last();
        lemma_taken_contains(rest, step);
        let all = taken(choices);
        let before = taken(rest);
        if choices.last().0 {
            assert(all =~= before.push(choices.last().1));
        } else {
            assert(all =~= before);
        }
        if before.contains(step) {
            let i = choose|i: int| 0 <= i < before.len() && before[i] == step;
            assert(all[i] == step);
        }
        if choices.last() == (true, step) {
            assert(all[before.len() as int] == step);
            assert(choices[choices.len() - 1] == (true, step));
        }
        if all.contains(step) {
            let i = choose|i: int| 0 <= i < all.len() && all[i] == step;
            if i < before.len() {
                assert(before[i] == step);
                let k = choose|k: int| 0 <= k < rest.len() && #[trigger] rest[k] == (true, step);
                assert(choices[k] == (true, step));
            } else {
                assert(choices[choices.len() - 1] == (true, step));
            }
        }
        if exists|k: int| 0 <= k < choices.len() && #[trigger] choices[k] == (true, step) {
            let k = choose|k: int| 0 <= k < choices.len() && #[trigger] choices[k] == (true, step);
            if k < rest.len() {
                assert(rest[k] == (true, step));
            }
        }
    }
}

proof fn lemma_choices(flags: RunFlags)
    ensures
        flags.choices().len() == 27,
        flags.choices()[0] == (flags.report_pysa, RunStep::StartPysaReport),
        flags.choices()[1] == (flags.report_cinderx, RunStep::StartCinderxReport(flags.cinderx_include_deps)),
        flags.choices()[2] == (flags.report_demand_tree, RunStep::CollectDemand),
        flags.choices()[3] == (!flags.report_demand_tree, RunStep::ShowProgress(flags.progress_bar)),
        flags.choices()[4] == (true, RunStep::Check),
        flags.choices()[5] == (true, RunStep::LoadErrors(flags.check_all)),
        flags.choices()[6] == (true, RunStep::PrintConfigErrors),
        flags.choices()[7] == (flags.suppress_errors, RunStep::SuppressErrors),
        flags.choices()[8] == (flags.remove_unused_ignores || flags.remove_unused_type_ignores, RunStep::RemoveUnusedIgnores(flags.remove_unused_type_ignores)),
        flags.choices()[9] == (flags.update_baseline && flags.baseline, RunStep::UpdateBaseline),
        flags.choices()[10] == (flags.output, RunStep::WriteErrorsToFile),
        flags.choices()[11] == (!flags.output, RunStep::WriteErrorsToConsole),
        flags.choices()[12] == (flags.count_errors, RunStep::CountErrors),
        flags.choices()[13] == (flags.summarize_errors, RunStep::SummarizeErrors),
        flags.choices()[14] == (flags.summary != Summary::Silent, RunStep::Summarize),
        flags.choices()[15] == (flags.summary == Summary::Full, RunStep::SummarizeFully),
        flags.choices()[16] == (flags.summary != Summary::Silent, RunStep::Upsell),
        flags.choices()[17] == (flags.report_timings, RunStep::ReportTimings),
        flags.choices()[18] == (flags.debug_info, RunStep::WriteDebugInfo),
        flags.choices()[19] == (flags.report_glean, RunStep::WriteGlean),
        flags.choices()[20] == (flags.report_pysa, RunStep::FinishPysaReport),
        flags.choices()[21] == (flags.report_cinderx, RunStep::FinishCinderxReport),
        flags.choices()[22] == (flags.report_binding_memory, RunStep::WriteBindingMemory),
        flags.choices()[23] == (flags.report_trace, RunStep::WriteTrace),
        flags.choices()[24] == (flags.dependency_graph, RunStep::WriteDependencyGraph),
        flags.choices()[25] == (flags.report_demand_tree, RunStep::WriteDemandTree),
        flags.choices()[26] == (flags.expectations, RunStep::CheckExpectations),
{
}

proof fn lemma_step(flags: RunFlags, step: RunStep, asked: bool)
    requires
        0 <= step.rank() < flags.choices().len(),
        flags.choices()[step.rank()] == (asked, step),
    ensures
        flags.steps().contains(step) == asked,
{
    let choices = flags.choices();
    crate::plan::lemma_ranks(flags);
    crate::plan::lemma_taken_in_order(choices);
    lemma_taken_contains(choices, step);
    if flags.steps().contains(step) {
        let i = choose|i: int| 0 <= i < flags.steps().len() && flags.steps()[i] == step;
        assert(choices[flags.steps()[i].rank()] == (true, flags.steps()[i]));
    }
}

/// A run checks and loads errors in any case. What it prepares for reports, and what it changes in
/// files, it does exactly on request.
#[verifier::rlimit(30)]
pub proof fn law_runs_check_and_load_errors(flags: RunFlags)
    ensures
        flags.steps().contains(RunStep::StartPysaReport) == flags.report_pysa,
        flags.steps().contains(RunStep::StartCinderxReport(flags.cinderx_include_deps)) == flags.report_cinderx,
        flags.steps().contains(RunStep::CollectDemand) == flags.report_demand_tree,
        flags.steps().contains(RunStep::ShowProgress(flags.progress_bar)) == !flags.report_demand_tree,
        flags.steps().contains(RunStep::Check),
        flags.steps().contains(RunStep::LoadErrors(flags.check_all)),
        flags.steps().contains(RunStep::PrintConfigErrors),
{
    lemma_choices(flags);
    lemma_step(flags, RunStep::StartPysaReport, flags.report_pysa);
    lemma_step(flags, RunStep::StartCinderxReport(flags.cinderx_include_deps), flags.report_cinderx);
    lemma_step(flags, RunStep::CollectDemand, flags.report_demand_tree);
    lemma_step(flags, RunStep::ShowProgress(flags.progress_bar), !flags.report_demand_tree);
    lemma_step(flags, RunStep::Check, true);
    lemma_step(flags, RunStep::LoadErrors(flags.check_all), true);
    lemma_step(flags, RunStep::PrintConfigErrors, true);
}

/// Suppressions are written and removed and the baseline is renewed exactly on request, and errors
/// are written to the file that is asked for, or else to the console.
#[verifier::rlimit(30)]
pub proof fn law_runs_change_files_on_request(flags: RunFlags)
    ensures
        flags.steps().contains(RunStep::SuppressErrors) == flags.suppress_errors,
        flags.steps().contains(RunStep::RemoveUnusedIgnores(flags.remove_unused_type_ignores)) == (flags.remove_unused_ignores || flags.remove_unused_type_ignores),
        flags.steps().contains(RunStep::UpdateBaseline) == (flags.update_baseline && flags.baseline),
        flags.steps().contains(RunStep::WriteErrorsToFile) == flags.output,
        flags.steps().contains(RunStep::WriteErrorsToConsole) == !flags.output,
{
    lemma_choices(flags);
    lemma_step(flags, RunStep::SuppressErrors, flags.suppress_errors);
    lemma_step(flags, RunStep::RemoveUnusedIgnores(flags.remove_unused_type_ignores), flags.remove_unused_ignores || flags.remove_unused_type_ignores);
    lemma_step(flags, RunStep::UpdateBaseline, flags.update_baseline && flags.baseline);
    lemma_step(flags, RunStep::WriteErrorsToFile, flags.output);
    lemma_step(flags, RunStep::WriteErrorsToConsole, !flags.output);
}

/// Errors are counted and summarized exactly on request.
#[verifier::rlimit(30)]
pub proof fn law_runs_summarize_on_request(flags: RunFlags)
    ensures
        flags.steps().contains(RunStep::CountErrors) == flags.count_errors,
        flags.steps().contains(RunStep::SummarizeErrors) == flags.summarize_errors,
        flags.steps().contains(RunStep::Summarize) == (flags.summary != Summary::Silent),
        flags.steps().contains(RunStep::SummarizeFully) == (flags.summary == Summary::Full),
        flags.steps().contains(RunStep::Upsell) == (flags.summary != Summary::Silent),
{
    lemma_choices(flags);
    lemma_step(flags, RunStep::CountErrors, flags.count_errors);
    lemma_step(flags, RunStep::SummarizeErrors, flags.summarize_errors);
    lemma_step(flags, RunStep::Summarize, flags.summary != Summary::Silent);
    lemma_step(flags, RunStep::SummarizeFully, flags.summary == Summary::Full);
    lemma_step(flags, RunStep::Upsell, flags.summary != Summary::Silent);
}

/// Timings and debug information are written exactly on request.
#[verifier::rlimit(30)]
pub proof fn law_runs_report_on_request(flags: RunFlags)
    ensures
        flags.steps().contains(RunStep::ReportTimings) == flags.report_timings,
        flags.steps().contains(RunStep::WriteDebugInfo) == flags.debug_info,
        flags.steps().contains(RunStep::WriteGlean) == flags.report_glean,
        flags.steps().contains(RunStep::FinishPysaReport) == flags.report_pysa,
        flags.steps().contains(RunStep::FinishCinderxReport) == flags.report_cinderx,
{
    lemma_choices(flags);
    lemma_step(flags, RunStep::ReportTimings, flags.report_timings);
    lemma_step(flags, RunStep::WriteDebugInfo, flags.debug_info);
    lemma_step(flags, RunStep::WriteGlean, flags.report_glean);
    lemma_step(flags, RunStep::FinishPysaReport, flags.report_pysa);
    lemma_step(flags, RunStep::FinishCinderxReport, flags.report_cinderx);
}

/// Each further report is written exactly on request.
#[verifier::rlimit(30)]
pub proof fn law_runs_write_reports_on_request(flags: RunFlags)
    ensures
        flags.steps().contains(RunStep::WriteBindingMemory) == flags.report_binding_memory,
        flags.steps().contains(RunStep::WriteTrace) == flags.report_trace,
        flags.steps().contains(RunStep::WriteDependencyGraph) == flags.dependency_graph,
        flags.steps().contains(RunStep::WriteDemandTree) == flags.report_demand_tree,
        flags.steps().contains(RunStep::CheckExpectations) == flags.expectations,
{
    lemma_choices(flags);
    lemma_step(flags, RunStep::WriteBindingMemory, flags.report_binding_memory);
    lemma_step(flags, RunStep::WriteTrace, flags.report_trace);
    lemma_step(flags, RunStep::WriteDependencyGraph, flags.dependency_graph);
    lemma_step(flags, RunStep::WriteDemandTree, flags.report_demand_tree);
    lemma_step(flags, RunStep::CheckExpectations, flags.expectations);
}

/// A setting that is not given is taken from the configuration.
pub proof fn law_configurations_fill_in(settings: SettingsView, config: SettingsView)
    ensures
        settings.baseline is None ==> settings.with_defaults(config).baseline == config.baseline,
        settings.output_format is None ==> settings.with_defaults(config).output_format
            == config.output_format,
        settings.min_severity is None ==> settings.with_defaults(config).min_severity
            == config.min_severity,
{
}

/// Progress is shown as asked; without a word on it not at all where there is no summary or no bar is
/// wanted, and interactively otherwise.
pub proof fn law_progress_is_shown_as_asked(
    asked: Option<ProgressBarStyle>,
    no_progress_bar: bool,
    summary: Summary,
)
    ensures
        asked matches Some(style) ==> progress_style(asked, no_progress_bar, summary) == style,
        asked is None && no_progress_bar ==> progress_style(asked, no_progress_bar, summary)
            == ProgressBarStyle::No,
        asked is None && summary is Silent ==> progress_style(asked, no_progress_bar, summary)
            == ProgressBarStyle::No,
        asked is None && !no_progress_bar && !(summary is Silent) ==> progress_style(
            asked,
            no_progress_bar,
            summary,
        ) == ProgressBarStyle::Interactive,
{
}

/// Reports on everything need everything of all modules. Otherwise errors are needed, of all modules
/// where all are checked or reported, and of the modules asked for in any case.
pub proof fn law_reports_need_their_levels(flags: ReportFlags)
    ensures
        ({
            let levels = required_levels(flags);
            let everything = flags.binding_memory || flags.debug_info || flags.trace || flags.glean;
            let all = flags.check_all || flags.stdlib_search_path || flags.pysa || flags.cinderx;
            &&& everything ==> levels.specified is Everything && levels.default is Everything
            &&& !everything ==> levels.specified is Errors
            &&& !everything && all ==> levels.default is Errors
            &&& !everything && !all ==> levels.default is Exports
        }),
{
}

/// Texts are compared sign by sign, and a text stands behind its own beginnings.
pub proof fn law_texts_are_ordered_by_signs(a: Seq<char>, b: Seq<char>, x: char, y: char)
    ensures
        !text_before(a, Seq::empty()),
        b.len() > 0 ==> text_before(Seq::empty(), b),
        x < y ==> text_before(seq![x] + a, seq![y] + b),
        x > y ==> !text_before(seq![x] + a, seq![y] + b),
        text_before(seq![x] + a, seq![x] + b) == text_before(a, b),
{
    assert((seq![x] + a).drop_first() =~= a);
    assert((seq![x] + b).drop_first() =~= b);
    assert((seq![x] + a)[0] == x);
    assert((seq![y] + b)[0] == y);
}

/// Errors of one file are shown by where they begin, and then by where they end; errors of two
/// modules by the names of the modules. In a record errors of one place come in the order of their
/// kinds.
pub proof fn law_errors_are_ordered_by_place(a: ErrorView, b: ErrorView)
    ensures
        a.module.name == b.module.name && a.module.path == b.module.path && a.range.start
            < b.range.start ==> error_before(a, b, SortBy::Place) && !error_before(
            b,
            a,
            SortBy::Place,
        ),
        a.module.name == b.module.name && a.module.path == b.module.path && a.range.start
            == b.range.start && a.range.end < b.range.end ==> error_before(a, b, SortBy::Place)
            && !error_before(b, a, SortBy::Place),
        a.module.name != b.module.name ==> error_before(a, b, SortBy::Place) == text_before(
            a.module.name,
            b.module.name,
        ),
        a.module.path == b.module.path && a.range == b.range && a.error_kind.rank
            < b.error_kind.rank ==> error_before(a, b, SortBy::Record) && !error_before(
            b,
            a,
            SortBy::Record,
        ),
        a.module.path == b.module.path && a.range.start < b.range.start ==> error_before(
            a,
            b,
            SortBy::Record,
        ) && !error_before(b, a, SortBy::Record),
        a.module.path.text() != b.module.path.text() ==> error_before(a, b, SortBy::Record)
            == text_before(a.module.path.text(), b.module.path.text()),
{
}

/// A place in a text without line breaks in front of it is on its first line, and its column is how
/// many signs stand before it, counted from one. Behind a line break a new line begins.
pub proof fn law_lines_are_counted_from_one(module: crate::source::ModuleView, k: int, p: DisplayPos)
    requires
        shown_at(module, k, p),
        0 <= k <= module.contents.len(),
        module.cells.len() == 0,
    ensures
        p.cell is None,
        p.line_within_cell == p.line_within_file,
        p.line_within_file >= 1,
        k == 0 ==> p.line_within_file == 1 && p.column == 1,
        k > 0 && module.contents[k - 1] == '\n' ==> p.column == 1,
        (forall|i: int| 0 <= i < k ==> module.contents[i] != '\n' && module.contents[i] != '\r')
            ==> p.line_within_file == 1 && p.column == k + 1,
{
    lemma_first_line(module.contents, k);
}

proof fn lemma_first_line(s: Seq<char>, k: int)
    requires
        0 <= k <= s.len(),
    ensures
        (forall|i: int| 0 <= i < k ==> s[i] != '\n' && s[i] != '\r') ==> lines_before(s, k) == 0
            && line_of(s, k) == 0,
    decreases k,
{
    if k > 0 {
        lemma_first_line(s, k - 1);
    }
}

/// In the cell of a notebook lines are counted from the beginning of the cell, and cells from one.
pub proof fn law_cells_count_their_own_lines(
    module: crate::source::ModuleView,
    k: int,
    p: DisplayPos,
    c: int,
)
    requires
        shown_at(module, k, p),
        cell_of(module.cells, lines_before(module.contents, k) as int) == Some(c),
        0 <= c < 1000000,
    ensures
        p.cell == Some((c + 1) as usize),
        p.line_within_file - p.line_within_cell == module.cells[c],
{
}

/// A place in a file is written as its line and column, with the column behind a dash where it
/// ends on the same line, and the line and the column where it ends on another one.
pub proof fn law_places_are_written_short(d: DisplayRange)
    ensures
        ({
            let begin = decimal(d.start.line_within_cell as nat) + seq![':'] + decimal(
                d.start.column as nat,
            );
            let same_line = d.start.line_within_file == d.end.line_within_file;
            &&& same_line && d.start.column == d.end.column ==> range_text(d) == begin
            &&& same_line && d.start.column != d.end.column ==> range_text(d) == begin + seq!['-']
                + decimal(d.end.column as nat)
            &&& !same_line ==> range_text(d) == begin + seq!['-'] + decimal(
                d.end.line_within_cell as nat,
            ) + seq![':'] + decimal(d.end.column as nat)
        }),
{
    reveal_strlit(":");
    reveal_strlit("-");
    assert(":"@ =~= seq![':']);
    assert("-"@ =~= seq!['-']);
}

/// In short each error is one line: how serious it is, where it is, what it says and of what kind
/// it is. What is ignored is not written at all.
pub proof fn law_errors_are_one_line_in_short(error: ErrorView, root: PathView)
    ensures
        ({
            let rest = origin_text(error, root) + seq![':'] + range_text(error.display_range)
                + seq![':', ' '] + error.msg_header + seq![' ', '['] + error.error_kind.name
                + seq![']', '\n'];
            error_text(error, root, false) == match error.severity {
                Severity::Ignore => Seq::empty(),
                Severity::Info => " INFO "@ + rest,
                Severity::Warn => " WARN "@ + rest,
                Severity::Error => "ERROR "@ + rest,
            }
        }),
        error.severity == Severity::Ignore ==> error_text(error, root, true).len() == 0,
{
    reveal_strlit(" INFO");
    reveal_strlit(" WARN");
    reveal_strlit("ERROR");
    reveal_strlit(" INFO ");
    reveal_strlit(" WARN ");
    reveal_strlit("ERROR ");
    reveal_strlit(" ");
    reveal_strlit(":");
    reveal_strlit(": ");
    reveal_strlit(" [");
    reveal_strlit("]\n");
    assert(" INFO"@ + " "@ =~= " INFO "@);
    assert(" WARN"@ + " "@ =~= " WARN "@);
    assert("ERROR"@ + " "@ =~= "ERROR "@);
    let rest = origin_text(error, root) + seq![':'] + range_text(error.display_range) + seq![
        ':',
        ' ',
    ] + error.msg_header + seq![' ', '['] + error.error_kind.name + seq![']', '\n'];
    match error.severity {
        Severity::Ignore => {},
        Severity::Info => {
            assert(error_text(error, root, false) =~= " INFO "@ + rest);
        },
        Severity::Warn => {
            assert(error_text(error, root, false) =~= " WARN "@ + rest);
        },
        Severity::Error => {
            assert(error_text(error, root, false) =~= "ERROR "@ + rest);
        },
    }
}

/// In full an error begins with how serious it is, what it says and of what kind it is, and ends
/// with its details where it has some.
pub proof fn law_errors_show_their_details_in_full(error: ErrorView, root: PathView)
    requires
        error.severity == Severity::Error,
    ensures
        ("ERROR "@ + error.msg_header + seq![' ', '['] + error.error_kind.name + seq![
            ']',
            '\n',
        ]).is_prefix_of(error_text(error, root, true)),
        error.msg_details matches Some(details) ==> (details + seq!['\n']).is_suffix_of(
            error_text(error, root, true),
        ),
{
    reveal_strlit("ERROR");
    reveal_strlit("ERROR ");
    reveal_strlit(" ");
    reveal_strlit(" [");
    reveal_strlit("]\n");
    reveal_strlit("\n");
    assert("ERROR"@ + " "@ =~= "ERROR "@);
    let head = "ERROR "@ + error.msg_header + seq![' ', '['] + error.error_kind.name + seq![
        ']',
        '\n',
    ];
    let text = error_text(error, root, true);
    assert(crate::renderer::header_text(error) =~= head);
    assert(text.subrange(0, head.len() as int) =~= head);
    if let Some(details) = error.msg_details {
        let tail = details + seq!['\n'];
        assert(text.subrange(text.len() - tail.len(), text.len() as int) =~= tail);
    }
}

/// The cell of a notebook stands behind the path, and nothing does outside notebooks.
pub proof fn law_cells_stand_behind_paths(error: ErrorView, root: PathView)
    ensures
        ({
            let path = match error.module.path.stripped(root) {
                Some(p) => p.text(),
                None => error.module.path.text(),
            };
            &&& error.display_range.start.cell is None ==> origin_text(error, root) == path
            &&& error.display_range.start.cell matches Some(cell) ==> origin_text(error, root)
                == path + seq!['#'] + decimal(cell as nat)
        }),
{
    reveal_strlit("#");
    assert("#"@ =~= seq!['#']);
}

/// Errors are written one after the other.
pub proof fn law_errors_are_written_in_turn(
    errors: Seq<ErrorView>,
    error: ErrorView,
    root: PathView,
    verbose: bool,
)
    ensures
        errors_text(Seq::empty(), root, verbose).len() == 0,
        errors_text(errors.push(error), root, verbose) == errors_text(errors, root, verbose)
            + error_text(error, root, verbose),
        test_cases(Seq::empty(), root).len() == 0,
        test_cases(errors.push(error), root) == test_cases(errors, root) + crate::xml::test_case(
            error,
            root,
        ),
{
    assert(errors.push(error).drop_last() =~= errors);
}

/// Each format gives its own kind of output: short or full text, records, commands, test cases, or
/// nothing.
pub proof fn law_formats_decide_what_is_written(
    w: Written,
    format: OutputFormat,
    relative_to: PathView,
    errors: Seq<ErrorView>,
)
    requires
        is_written(w, format, relative_to, errors),
    ensures
        format is OmitErrors <==> w is Nothing,
        format is Json <==> w is Records,
        format is MinText ==> (w matches Written::Text(t) && t@ == errors_text(
            errors,
            relative_to,
            false,
        )),
        format is FullText ==> (w matches Written::Text(t) && t@ == errors_text(
            errors,
            relative_to,
            true,
        )),
        format is Github ==> (w matches Written::Text(t) && t@ == workflow_commands(errors)),
        w matches Written::Records(l) ==> l.errors@.len() == errors.len(),
{
}

/// An editor is told of errors and warnings as such and of everything else as information, with the
/// whole message and the kind.
pub proof fn law_editors_are_told_the_severity(d: Diagnostic, error: ErrorView, url: Option<Seq<char>>)
    requires
        describes(d, error, url),
    ensures
        d.severity is Error <==> error.severity == Severity::Error,
        d.severity is Warning <==> error.severity == Severity::Warn,
        d.message@ == error.msg(),
        d.code@ == error.error_kind.name,
        d.deprecated == (error.error_kind.name == "deprecated"@),
        d.code_description is Some == url is Some,
{
}

/// The signs that have a meaning in XML are written as references, signs that XML does not know are
/// left out, and all others stay.
pub proof fn law_attributes_keep_plain_text(s: Seq<char>, c: char)
    ensures
        attr_text(Seq::empty()).len() == 0,
        attr_text(s.push(c)) == attr_text(s) + attr_char(c),
        0x20 <= c as int && xml_char(c) && c != '&' && c != '<' && c != '>' && c != '"' && c != '\''
            ==> attr_char(c) == seq![c],
        c == '&' ==> attr_char(c) == "&amp;"@,
        c == '<' ==> attr_char(c) == "&lt;"@,
        c == '>' ==> attr_char(c) == "&gt;"@,
        c == '"' ==> attr_char(c) == "&quot;"@,
        c == '\'' ==> attr_char(c) == "&apos;"@,
        !xml_char(c) ==> attr_char(c).len() == 0,
        xml_char(c) ==> admitted(s.push(c)) == admitted(s).push(c),
        !xml_char(c) ==> admitted(s.push(c)) == admitted(s),
{
    assert(s.push(c).drop_last() =~= s);
}

/// A position in an editor counts code units: one for each sign, and two for each beyond the basic
/// plane.
pub proof fn law_editors_count_code_units(s: Seq<char>, c: char)
    ensures
        utf16_len(Seq::empty()) == 0,
        utf16_len(s.push(c)) == utf16_len(s) + (if c as int >= 0x10000 {
            2nat
        } else {
            1nat
        }),
{
    assert(s.push(c).drop_last() =~= s);
}

} // verus!
