use pyrefly::counts::{count, count_error_kinds, error_counts_text, number_thousands};
use pyrefly::diagnostic::DiagnosticSeverity;
use pyrefly::error::{Error, ErrorKind, Severity, SuppressionEdit, Tool};
use pyrefly::github::{
    escape_workflow_data, escape_workflow_property, github_actions_command,
    severity_to_github_command, write_error_github,
};
use pyrefly::handles::{group_by_config, Handles};
use pyrefly::order::{sort_errors, SortBy};
use pyrefly::outcome::{
    settle, write_full_summary, write_summary, CommandExitStatus, LoadedErrors, RunOptions,
    RunSize,
};
use pyrefly::outputs::{write_errors, CheckResult, Written};
use pyrefly::paths::FilePath;
use pyrefly::plan::{plan_run, RunFlags, RunStep};
use pyrefly::report::TextRange;
use pyrefly::reports::{is_javascript, report_file_name, watch_step, FileEvents, WatchStep};
use pyrefly::settings::{
    get_required_levels, progress_bar_style, OutputFormat, OutputSettings, ProgressBarStyle,
    ReportFlags, Require, Summary,
};
use pyrefly::source::ModuleInfo;
use pyrefly::suppression::{
    errors_to_remove, errors_to_suppress, make_plan, removal_flag, SerializedError,
    SuppressOptions, SuppressPlan,
};
use pyrefly::timings::{write_timings, Timed, Timings};
use pyrefly::upsell::{
    decide_upsell, write_unconfigured_upsell, MigratedConfigSource, MigratedFromKind,
    SynthesizedPresetReason, UpsellDecision, UsedConfig,
};
use pyrefly::xml::{is_xml_char, write_error_junit_xml, xml_escape_attr, xml_escape_cdata};

fn path(text: &str) -> FilePath {
    FilePath {
        absolute: text.starts_with('/'),
        parts: text.split('/').filter(|p| !p.is_empty()).map(|p| p.to_owned()).collect(),
    }
}

fn kind(name: &str, rank: u32) -> ErrorKind {
    ErrorKind {
        name: name.to_owned(),
        rank,
        default_severity: Severity::Error,
        docs_url: format!("https://pyrefly.org/en/docs/error-kinds/#{name}"),
        is_directive: false,
        suppression_names: vec![name.to_owned()],
    }
}

fn error_at(at: &str, start: u32, msg: &str, kind: ErrorKind) -> Error {
    let module = ModuleInfo {
        name: "sample".to_owned(),
        path: path(at),
        contents: "x = 1\n".to_owned(),
        is_notebook: false,
        is_generated: false,
        cells: Vec::new(),
    };
    Error::new(
        module,
        TextRange { start, end: start + 1 },
        msg.to_owned(),
        Vec::new(),
        kind,
    )
}

fn sample_error(msg: &str) -> Error {
    error_at("/repo/foo.py", 0, msg, kind("bad-assignment", 0))
}

#[test]
fn github_actions_command_includes_full_path_and_metadata() {
    let cmd = github_actions_command(&sample_error("bad")).expect("should emit command");
    assert!(cmd.starts_with("::error "), "{cmd}");
    assert!(
        cmd.contains("file=/repo/foo.py"),
        "full path expected, got {cmd}"
    );
    assert!(
        cmd.contains("title=Pyrefly bad-assignment"),
        "title missing, got {cmd}"
    );
    assert!(cmd.ends_with("::bad"));
    assert_eq!(
        cmd,
        "::error file=/repo/foo.py,line=1,col=1,endLine=1,endColumn=2,title=Pyrefly bad-assignment::bad"
    );
}

#[test]
fn github_actions_command_respects_severity_mapping() {
    let warning = sample_error("bad").with_severity(Severity::Warn);
    let notice = sample_error("bad").with_severity(Severity::Info);
    let ignored = sample_error("bad").with_severity(Severity::Ignore);
    assert!(
        github_actions_command(&warning)
            .unwrap()
            .starts_with("::warning "),
        "warning severity not mapped"
    );
    assert!(
        github_actions_command(&notice)
            .unwrap()
            .starts_with("::notice "),
        "info severity not mapped"
    );
    assert!(github_actions_command(&ignored).is_none());
    assert_eq!(severity_to_github_command(Severity::Ignore), None);
}

#[test]
fn escape_helpers_follow_workflow_spec() {
    assert_eq!(
        escape_workflow_data("line1\nline2\r% done"),
        "line1%0Aline2%0D%25 done"
    );
    assert_eq!(escape_workflow_property("file:name,py"), "file%3Aname%2Cpy");
}

#[test]
fn escapes_write_other_characters_by_their_bytes() {
    assert_eq!(escape_workflow_data("é€😀\u{7f}:"), "%C3%A9%E2%82%AC%F0%9F%98%80%7F:");
    let messy = escape_workflow_property("a\n,b:\u{85}");
    assert!(messy.chars().all(|c| (' '..='~').contains(&c) && c != ':' && c != ','), "{messy}");
}

#[test]
fn github_output_format_writes_commands() {
    let errors = vec![sample_error("bad")];
    let output = write_error_github(&errors);
    assert!(output.contains("::error file=/repo/foo.py"));
    assert!(output.ends_with("::bad\n"));
}

#[test]
fn junit_xml_output_format_writes_well_formed_xml() {
    let errors = vec![sample_error("first error"), sample_error("second error")];
    let output = write_error_junit_xml(&path("/"), &errors);
    assert!(
        output.starts_with(r#"<?xml version="1.0" encoding="UTF-8"?>"#),
        "missing XML declaration: {output}"
    );
    assert!(
        output.contains(r#"<testsuite name="pyrefly" tests="2" failures="2""#),
        "missing testsuite element: {output}"
    );
    assert!(
        output.contains("<failure type="),
        "missing failure element: {output}"
    );
    assert!(
        output.contains("repo/foo.py"),
        "missing file path: {output}"
    );
    assert!(
        output.ends_with("</testsuites>\n"),
        "missing closing tag: {output}"
    );
    assert!(
        output.contains(
            "    <testcase classname=\"repo/foo.py\" name=\"bad-assignment:L1\" file=\"repo/foo.py\" line=\"1\" time=\"0\">\n      <failure type=\"bad-assignment\" message=\"first error\"><![CDATA[first error]]></failure>\n    </testcase>\n"
        ),
        "{output}"
    );
}

#[test]
fn junit_xml_escapes_special_chars_in_messages() {
    let errors = vec![sample_error(r#"a < b & c > d "e" 'f'"#)];
    let output = write_error_junit_xml(&path("/"), &errors);
    assert!(output.contains("&lt;"), "< not escaped: {output}");
    assert!(output.contains("&amp;"), "& not escaped: {output}");
    assert!(output.contains("&gt;"), "> not escaped: {output}");
    assert!(output.contains("&quot;"), "\" not escaped: {output}");
    assert!(output.contains("&apos;"), "' not escaped: {output}");

    // CDATA split for ]]>
    let errors2 = vec![sample_error("x ]]> y")];
    let output2 = write_error_junit_xml(&path("/"), &errors2);
    assert!(
        output2.contains("]]]]><![CDATA["),
        "CDATA ]]> was not split across CDATA boundaries: {output2}"
    );
}

#[test]
fn junit_xml_strips_invalid_control_chars() {
    // NUL and other C0 control characters are illegal in XML even inside a
    // CDATA section, so they must be dropped (not just escaped) to keep the
    // document well-formed. The surrounding text must survive.
    let errors = vec![sample_error("bad\u{0}\u{8}\u{1f}msg")];
    let output = write_error_junit_xml(&path("/"), &errors);
    assert!(
        !output
            .chars()
            .any(|c| !matches!(c, '\n' | '\t') && (c as u32) < 0x20),
        "illegal control char leaked into output: {output:?}"
    );
    assert!(
        output.contains("badmsg"),
        "surrounding message text was lost: {output}"
    );
}

#[test]
fn xml_text_is_escaped_by_place() {
    assert_eq!(xml_escape_attr("a\n\r\t\u{fffe}é"), "a&#10;&#13;&#9;é");
    assert_eq!(xml_escape_cdata("]]]>]]>"), "]]]]]><![CDATA[>]]]]><![CDATA[>");
    assert!(is_xml_char('\u{10ffff}') && !is_xml_char('\u{ffff}') && !is_xml_char('\u{b}'));
}

fn settings(format: Option<OutputFormat>) -> OutputSettings {
    OutputSettings { baseline: None, output_format: format, min_severity: None }
}

#[test]
fn output_args_inherit_output_format_from_config() {
    let mut output = settings(None);
    output.inherit_defaults_from_config(&settings(Some(OutputFormat::MinText)));
    assert_eq!(output.output_format(), OutputFormat::MinText);
}

#[test]
fn cli_output_format_overrides_config_output_format() {
    let mut output = settings(Some(OutputFormat::Json));
    output.inherit_defaults_from_config(&settings(Some(OutputFormat::MinText)));
    assert_eq!(output.output_format(), OutputFormat::Json);
}

#[test]
fn watching_follows_the_config() {
    let mut output = settings(Some(OutputFormat::Json));
    let given = output.get_given();
    assert!(output.needs_config());
    let first = OutputSettings {
        baseline: Some(path("a.json")),
        output_format: Some(OutputFormat::Github),
        min_severity: Some(Severity::Warn),
    };
    output.refresh_from_config(given, &first);
    assert_eq!(output.min_severity, Some(Severity::Warn));
    assert_eq!(output.baseline.as_ref().unwrap().to_text(), "a.json");
    output.refresh_from_config(given, &settings(None));
    assert_eq!(output.min_severity, None);
    assert!(output.baseline.is_none());
    assert_eq!(output.output_format(), OutputFormat::Json);
    assert_eq!(settings(None).output_format(), OutputFormat::FullText);
}

fn upsell_string(reason: SynthesizedPresetReason) -> String {
    write_unconfigured_upsell(reason)
}

#[test]
fn upsell_for_no_nearby_config() {
    let s = upsell_string(SynthesizedPresetReason::NoNearbyConfig);
    assert!(s.contains("preset `basic`"), "{s}");
    assert!(s.contains("`pyrefly init`"), "{s}");
    assert!(s.contains("https://pyrefly.org/en/docs/installation/"), "{s}");
    assert_eq!(
        s,
        "No `pyrefly.toml` found — using preset `basic`.\nRun `pyrefly init` to continue setting up Pyrefly.\nDocs: https://pyrefly.org/en/docs/installation/\n"
    );
}

#[test]
fn upsell_for_migrated_from_mypy_ini() {
    let s = upsell_string(SynthesizedPresetReason::Migrated(MigratedFromKind::Mypy(
        MigratedConfigSource::DedicatedFile,
    )));
    assert!(s.contains("your `mypy.ini`"), "{s}");
    assert!(s.contains("preset: legacy"), "{s}");
    assert!(s.contains("`pyrefly init`"), "{s}");
}

#[test]
fn upsell_for_migrated_from_mypy_pyproject() {
    let s = upsell_string(SynthesizedPresetReason::Migrated(MigratedFromKind::Mypy(
        MigratedConfigSource::PyprojectToml,
    )));
    assert!(s.contains("`[tool.mypy]` in your `pyproject.toml`"), "{s}");
    // Make sure the dedicated-file phrasing isn't accidentally
    // reused here.
    assert!(!s.contains("your `mypy.ini`"), "{s}");
    assert!(s.contains("preset: legacy"), "{s}");
    assert!(s.contains("`pyrefly init`"), "{s}");
}

#[test]
fn upsell_for_migrated_from_pyrightconfig() {
    let s = upsell_string(SynthesizedPresetReason::Migrated(
        MigratedFromKind::Pyright(MigratedConfigSource::DedicatedFile),
    ));
    assert!(s.contains("your `pyrightconfig.json`"), "{s}");
    assert!(s.contains("preset: default"), "{s}");
    assert!(s.contains("`pyrefly init`"), "{s}");
}

#[test]
fn upsell_for_migrated_from_pyright_pyproject() {
    let s = upsell_string(SynthesizedPresetReason::Migrated(
        MigratedFromKind::Pyright(MigratedConfigSource::PyprojectToml),
    ));
    assert!(
        s.contains("`[tool.pyright]` in your `pyproject.toml`"),
        "{s}"
    );
    assert!(!s.contains("your `pyrightconfig.json`"), "{s}");
    assert!(s.contains("preset: default"), "{s}");
    assert!(s.contains("`pyrefly init`"), "{s}");
}

#[test]
fn upsell_is_silent_for_user_override() {
    let s = upsell_string(SynthesizedPresetReason::UserOverride);
    assert!(s.is_empty(), "expected no upsell, got {s:?}");
}

#[test]
fn upsell_is_determined_by_a_single_config() {
    let reason = SynthesizedPresetReason::NoNearbyConfig;
    let used = |id: u64| Some(UsedConfig { id, synthesized_preset_reason: Some(reason) });
    assert_eq!(decide_upsell(UpsellDecision::Skip, &vec![used(1)]), None);
    assert_eq!(decide_upsell(UpsellDecision::Show(reason), &vec![]), Some(reason));
    assert_eq!(decide_upsell(UpsellDecision::Determine, &vec![]), None);
    assert_eq!(
        decide_upsell(UpsellDecision::Determine, &vec![None, used(1), used(1)]),
        Some(reason)
    );
    assert_eq!(decide_upsell(UpsellDecision::Determine, &vec![used(1), used(2)]), None);
}

fn loaded(ordinary: Vec<Error>, directives: Vec<Error>) -> LoadedErrors {
    LoadedErrors {
        directives,
        ordinary,
        baseline: Vec::new(),
        unused_ignores: Vec::new(),
        config_errors: Vec::new(),
    }
}

fn options() -> RunOptions {
    RunOptions { only: None, min_severity: None, update_baseline: false, expectations: false }
}

fn messages(errors: &Vec<Error>) -> Vec<String> {
    errors.iter().map(|e| e.msg()).collect()
}

#[test]
fn errors_are_shown_in_order_with_directives_among_them() {
    let found = loaded(
        vec![
            error_at("/repo/b.py", 0, "third", kind("k", 0)),
            error_at("/repo/a.py", 2, "second", kind("k", 0)),
        ],
        vec![error_at("/repo/a.py", 0, "first", kind("reveal-type", 1))],
    );
    let outcome = settle(found, &options());
    assert_eq!(messages(&outcome.output_errors), vec!["first", "second", "third"]);
    assert_eq!(outcome.ordinary_errors_count, 2);
    assert_eq!(outcome.status, CommandExitStatus::UserError);
    assert!(outcome.new_baseline.is_none());
}

#[test]
fn directives_alone_do_not_fail_a_run() {
    let found = loaded(Vec::new(), vec![sample_error("revealed")]);
    let outcome = settle(found, &options());
    assert_eq!(messages(&outcome.output_errors), vec!["revealed"]);
    assert_eq!(outcome.status, CommandExitStatus::Success);
}

#[test]
fn errors_in_configurations_fail_a_run() {
    let mut found = loaded(Vec::new(), Vec::new());
    found.config_errors = vec![Severity::Warn];
    assert_eq!(settle(found, &options()).status, CommandExitStatus::Success);
    let mut found = loaded(Vec::new(), Vec::new());
    found.config_errors = vec![Severity::Error, Severity::Warn];
    let outcome = settle(found, &options());
    assert_eq!(outcome.ordinary_errors_count, 1);
    assert_eq!(outcome.status, CommandExitStatus::UserError);
    let mut found = loaded(vec![sample_error("x")], Vec::new());
    found.config_errors = vec![Severity::Error];
    let expecting = RunOptions { expectations: true, ..options() };
    assert_eq!(settle(found, &expecting).status, CommandExitStatus::Success);
}

#[test]
fn severity_and_kind_filter_errors() {
    let warning = sample_error("warning").with_severity(Severity::Warn);
    let info = sample_error("info").with_severity(Severity::Info);
    let other = error_at("/repo/foo.py", 1, "other", kind("bad-return", 1));
    let mut found = loaded(vec![warning.dupe(), info.dupe(), other.dupe()], Vec::new());
    found.unused_ignores = vec![error_at("/repo/foo.py", 2, "unused", kind("unused-ignore", 2))];
    let outcome = settle(
        found,
        &RunOptions {
            only: Some(vec!["bad-assignment".to_owned(), "unused-ignore".to_owned()]),
            min_severity: Some(Severity::Warn),
            ..options()
        },
    );
    assert_eq!(messages(&outcome.output_errors), vec!["warning", "unused"]);
    assert_eq!(messages(&outcome.hidden_errors), vec!["info"]);
    assert_eq!(
        write_summary(outcome.ordinary_errors_count, 0, &outcome.hidden_errors, Severity::Warn),
        "2 diagnostics (1 info message not shown)"
    );
}

#[test]
fn summaries_name_what_is_not_shown() {
    let hidden = vec![
        sample_error("a").with_severity(Severity::Warn),
        sample_error("b").with_severity(Severity::Warn),
        sample_error("c").with_severity(Severity::Info),
    ];
    assert_eq!(write_summary(1, 0, &Vec::new(), Severity::Error), "1 error");
    assert_eq!(
        write_summary(0, 1234, &hidden, Severity::Error),
        "0 errors (1,234 suppressed, 2 warnings and 1 info message not shown)"
    );
}

#[test]
fn new_baselines_hold_old_and_new_errors() {
    let mut found = loaded(
        vec![
            error_at("/b.py", 0, "new", kind("k", 5)),
            error_at("/a.py", 0, "later kind", kind("l", 7)),
        ],
        Vec::new(),
    );
    found.baseline = vec![
        error_at("/a.py", 0, "earlier kind", kind("k", 5)),
        error_at("/a.py", 1, "mild", kind("k", 5)).with_severity(Severity::Warn),
    ];
    let outcome = settle(found, &RunOptions { update_baseline: true, ..options() });
    assert_eq!(
        messages(&outcome.new_baseline.unwrap()),
        vec!["earlier kind", "later kind", "new"]
    );
    assert_eq!(messages(&outcome.output_errors), vec!["later kind", "new"]);
}

#[test]
fn kinds_are_counted() {
    let errors = vec![
        error_at("/a.py", 0, "1", kind("x", 0)),
        error_at("/a.py", 0, "2", kind("y", 1)),
        error_at("/a.py", 0, "3", kind("z", 2)),
        error_at("/a.py", 0, "4", kind("y", 1)),
    ];
    assert_eq!(
        count_error_kinds(&errors),
        vec![("x".to_owned(), 1), ("z".to_owned(), 1), ("y".to_owned(), 2)]
    );
    assert_eq!(error_counts_text(&errors, 2), "2 instances of y\n1 instances of z\n");
    assert_eq!(
        error_counts_text(&errors, 0),
        "2 instances of y\n1 instances of z\n1 instances of x\n"
    );
    assert_eq!(number_thousands(1234567), "1,234,567");
    assert_eq!(number_thousands(1002), "1,002");
    assert_eq!(count(1, "module"), "1 module");
    assert_eq!(count(0, "line"), "0 lines");
}

#[test]
fn errors_are_written_in_each_format() {
    let errors = vec![sample_error("bad")];
    let root = path("/repo");
    let text = |format: OutputFormat| match write_errors(format, &root, &errors) {
        Written::Text(t) => t,
        _ => panic!("text expected"),
    };
    assert_eq!(text(OutputFormat::MinText), "ERROR foo.py:1:1-2: bad [bad-assignment]\n");
    assert!(text(OutputFormat::FullText).contains("1 | x = 1\n"));
    assert!(text(OutputFormat::Github).starts_with("::error "));
    assert!(text(OutputFormat::JunitXml).starts_with("<?xml"));
    assert!(matches!(write_errors(OutputFormat::OmitErrors, &root, &errors), Written::Nothing));
    match write_errors(OutputFormat::Json, &root, &errors) {
        Written::Records(records) => assert_eq!(records.errors[0].path, "foo.py"),
        _ => panic!("records expected"),
    }
    let result = CheckResult::from_errors(&errors, &root, 3);
    assert_eq!((result.legacy_errors.len(), result.checked_file_count), (1, 3));
    assert_eq!(CheckResult::nothing_checked().checked_file_count, 0);
}

#[test]
fn diagnostics_link_to_their_kinds() {
    let error = error_at("/repo/foo.py", 0, "old", kind("deprecated", 0)).with_severity(Severity::Warn);
    let d = error.to_diagnostic();
    assert_eq!(d.severity, DiagnosticSeverity::Warning);
    assert_eq!((d.range.end.line, d.range.end.character), (0, 1));
    assert_eq!((d.source.as_str(), d.message.as_str(), d.code.as_str()), ("Pyrefly", "old", "deprecated"));
    assert!(d.deprecated);
    assert_eq!(
        d.code_description.as_deref(),
        Some("https://pyrefly.org/en/docs/error-kinds/#deprecated")
    );
    let mut odd = sample_error("x");
    odd.error_kind.docs_url = "HTTPS://Example.org".to_owned();
    assert_eq!(odd.to_diagnostic().code_description.as_deref(), Some("https://example.org/"));
    odd.error_kind.docs_url = "no url".to_owned();
    let d = odd.to_diagnostic();
    assert_eq!(d.code_description, None);
    assert!(!d.deprecated);
    assert_eq!(odd.with_severity(Severity::Ignore).to_diagnostic().severity, DiagnosticSeverity::Information);
}

#[test]
fn handles_follow_the_files() {
    let mut handles = Handles::new(&vec![path("/a"), path("/b"), path("/a")]);
    assert_eq!(handles.len(), 2);
    handles.update(&vec![path("/c"), path("/d")], &vec![path("/a"), path("/d"), path("/x")]);
    let left: Vec<String> = handles.paths.iter().map(|p| p.to_text()).collect();
    assert_eq!(left, vec!["/b", "/c"]);
    assert!(Handles::new(&Vec::new()).is_empty());
    assert!(!handles.is_empty());
}

#[test]
fn files_are_grouped_by_config() {
    let (places, reloaded) = group_by_config(&vec![7, 9, 7, 8, 9], &vec![9, 1]);
    assert_eq!(places, vec![0, 2, 1, 4, 3]);
    assert_eq!(reloaded, vec![9]);
}

#[test]
fn report_files_are_named_by_hashes() {
    let name = report_file_name(&path("/repo/foo.py"));
    assert_eq!(name.len(), 69);
    assert!(name.ends_with(".json"));
    assert!(name[..64].chars().all(|c| c.is_ascii_hexdigit()));
    assert_ne!(name, report_file_name(&path("/repo/bar.py")));
    assert_eq!(
        report_file_name(&path("")),
        "af1349b9f5f9a1a6a0404dea36dcc9499bcb25c9adc112b7cc9a93cae41f3262.json"
    );
    assert!(is_javascript(&path("/tmp/out.js")));
    assert!(!is_javascript(&path("/tmp/out.json")));
    assert!(!is_javascript(&path("/tmp/.js")));
}

#[test]
fn watches_wait_for_changes_they_know() {
    let events = |created: Vec<FilePath>, unknown: Vec<FilePath>| FileEvents {
        created,
        modified: Vec::new(),
        removed: Vec::new(),
        unknown,
    };
    assert!(matches!(watch_step(&events(vec![path("/a")], vec![path("/b")])), WatchStep::Proceed));
    assert!(matches!(watch_step(&events(Vec::new(), Vec::new())), WatchStep::Wait));
    match watch_step(&events(Vec::new(), vec![path("/a"), path("b")])) {
        WatchStep::Fail(reason) => assert_eq!(
            reason,
            "Cannot handle uncategorized watcher event on paths [/a, b]"
        ),
        _ => panic!("failure expected"),
    }
}

#[test]
fn levels_follow_the_reports() {
    let none = ReportFlags {
        binding_memory: false,
        debug_info: false,
        trace: false,
        glean: false,
        pysa: false,
        cinderx: false,
        check_all: false,
        stdlib_search_path: false,
    };
    let levels = get_required_levels(none);
    assert_eq!((levels.specified, levels.default), (Require::Errors, Require::Exports));
    let levels = get_required_levels(ReportFlags { pysa: true, ..none });
    assert_eq!((levels.specified, levels.default), (Require::Errors, Require::Errors));
    let levels = get_required_levels(ReportFlags { glean: true, check_all: true, ..none });
    assert_eq!((levels.specified, levels.default), (Require::Everything, Require::Everything));
    assert_eq!(progress_bar_style(None, false, Summary::Default), ProgressBarStyle::Interactive);
    assert_eq!(progress_bar_style(None, false, Summary::Silent), ProgressBarStyle::No);
    assert_eq!(progress_bar_style(None, true, Summary::Full), ProgressBarStyle::No);
    assert_eq!(
        progress_bar_style(Some(ProgressBarStyle::Simple), true, Summary::Silent),
        ProgressBarStyle::Simple
    );
}

fn timed(millis: u64) -> Timed {
    Timed { nanos: millis * 1_000_000, shown: format!("{:.2}s", millis as f32 / 1000.0) }
}

#[test]
fn timings_show_long_steps_first() {
    let t = Timings {
        total: timed(1000),
        list_files: timed(300),
        type_check: timed(200),
        report_errors: timed(300),
    };
    assert_eq!(
        write_timings(&t),
        "1.00s (listing 0.30s, reporting 0.30s, checking 0.20s)"
    );
    let quick = Timings {
        total: timed(150),
        list_files: timed(100),
        type_check: timed(50),
        report_errors: timed(0),
    };
    assert_eq!(write_timings(&quick), "0.15s");
}

fn serialized(name: &str, is_directive: bool) -> SerializedError {
    SerializedError {
        path: "a.py".to_owned(),
        line: 1,
        name: name.to_owned(),
        message: String::new(),
        suppression_edit: None,
        is_directive,
    }
}

fn names(errors: &Vec<SerializedError>) -> Vec<&str> {
    errors.iter().map(|e| e.name.as_str()).collect()
}

#[test]
fn suppressions_leave_out_directives_and_unused_ignores() {
    let all = || {
        vec![
            serialized("bad-return", false),
            serialized("reveal-type", true),
            serialized("unused-ignore", false),
            serialized("unused-type-ignore", false),
        ]
    };
    assert_eq!(names(&errors_to_suppress(all())), vec!["bad-return", "unused-type-ignore"]);
    assert_eq!(names(&errors_to_remove(all(), false)), vec!["unused-ignore"]);
    let mut unused = serialized("unused-ignore", false);
    unused.suppression_edit = Some(SuppressionEdit {
        tool: Tool::Pyrefly,
        range: TextRange { start: 4, end: 20 },
        expected: "# pyrefly: ignore".to_owned(),
        replacement: String::new(),
    });
    let kept = errors_to_remove(vec![unused], false);
    assert_eq!(kept[0].suppression_edit.as_ref().map(|e| e.range.end), Some(20));
    assert_eq!(names(&errors_to_remove(all(), true)), vec!["unused-ignore", "unused-type-ignore"]);
}

#[test]
fn suppress_plans_follow_the_flags() {
    let o = SuppressOptions { json: false, remove_unused: false, remove_unused_type_ignores: false };
    assert_eq!(make_plan(o), SuppressPlan::SuppressFound);
    assert_eq!(make_plan(SuppressOptions { json: true, ..o }), SuppressPlan::SuppressListed);
    let remove = SuppressOptions { remove_unused_type_ignores: true, ..o };
    assert_eq!(make_plan(remove), SuppressPlan::RemoveFound);
    assert_eq!(removal_flag(remove), "--remove-unused-type-ignores");
    let listed = SuppressOptions { json: true, remove_unused: true, ..o };
    assert_eq!(make_plan(listed), SuppressPlan::RemoveListed);
    assert_eq!(removal_flag(listed), "--remove-unused-ignores");
}

#[test]
fn full_summaries_count_modules_and_lines() {
    let t = Timings {
        total: timed(150),
        list_files: timed(0),
        type_check: timed(140),
        report_errors: timed(0),
    };
    let size = RunSize {
        modules: 1,
        all_modules: 1236,
        user_lines: 1,
        dependency_lines: 999,
    };
    assert_eq!(
        write_full_summary(&size, &t, "10 MiB"),
        "1 module (1,235 dependent modules); 1,000 lines (1 line in your project, \
         999 lines in dependencies); took 0.15s; memory (10 MiB)"
    );
}

fn no_flags() -> RunFlags {
    RunFlags {
        report_pysa: false,
        report_cinderx: false,
        cinderx_include_deps: false,
        report_demand_tree: false,
        progress_bar: ProgressBarStyle::Interactive,
        check_all: false,
        suppress_errors: false,
        remove_unused_ignores: false,
        remove_unused_type_ignores: false,
        baseline: false,
        update_baseline: false,
        output: false,
        count_errors: false,
        summarize_errors: false,
        summary: Summary::Default,
        report_timings: false,
        debug_info: false,
        report_glean: false,
        report_binding_memory: false,
        report_trace: false,
        dependency_graph: false,
        expectations: false,
    }
}

#[test]
fn plain_runs_check_write_and_sum_up() {
    assert_eq!(
        plan_run(no_flags()),
        vec![
            RunStep::ShowProgress(ProgressBarStyle::Interactive),
            RunStep::Check,
            RunStep::LoadErrors(false),
            RunStep::PrintConfigErrors,
            RunStep::WriteErrorsToConsole,
            RunStep::Summarize,
            RunStep::Upsell,
        ]
    );
}

#[test]
fn silent_runs_show_no_summary() {
    let mut flags = no_flags();
    flags.summary = Summary::Silent;
    let steps = plan_run(flags);
    assert!(!steps.contains(&RunStep::Summarize));
    assert!(!steps.contains(&RunStep::Upsell));
    flags.summary = Summary::Full;
    assert!(plan_run(flags).contains(&RunStep::SummarizeFully));
}

#[test]
fn files_change_before_errors_are_written() {
    let mut flags = no_flags();
    flags.suppress_errors = true;
    flags.remove_unused_type_ignores = true;
    flags.baseline = true;
    flags.update_baseline = true;
    flags.output = true;
    flags.report_pysa = true;
    flags.report_demand_tree = true;
    flags.expectations = true;
    flags.summary = Summary::Silent;
    assert_eq!(
        plan_run(flags),
        vec![
            RunStep::StartPysaReport,
            RunStep::CollectDemand,
            RunStep::Check,
            RunStep::LoadErrors(false),
            RunStep::PrintConfigErrors,
            RunStep::SuppressErrors,
            RunStep::RemoveUnusedIgnores(true),
            RunStep::UpdateBaseline,
            RunStep::WriteErrorsToFile,
            RunStep::FinishPysaReport,
            RunStep::WriteDemandTree,
            RunStep::CheckExpectations,
        ]
    );
    flags.baseline = false;
    assert!(!plan_run(flags).contains(&RunStep::UpdateBaseline));
}

#[test]
fn ordered_errors_stay_in_order() {
    let first = error_at("/repo/a.py", 2, "m", kind("bad-assignment", 0));
    let second = error_at("/repo/b.py", 0, "m", kind("bad-assignment", 0));
    let third = error_at("/repo/b.py", 1, "m", kind("bad-assignment", 0));
    for by in [SortBy::Place, SortBy::Record] {
        let once = sort_errors(vec![third.dupe(), second.dupe(), first.dupe()], by);
        let starts: Vec<u32> = once.iter().map(|e| e.range().start).collect();
        assert_eq!(starts, vec![2, 0, 1]);
        let twice = sort_errors(once, by);
        let again: Vec<u32> = twice.iter().map(|e| e.range().start).collect();
        assert_eq!(again, vec![2, 0, 1]);
    }
}
