use pyrefly::error::{BaselineStatus, Error, ErrorKind, Severity};
use pyrefly::legacy::{
    default_baseline_fields, default_severity, severity_to_str, BaselineError, BaselineErrors,
    BaselineField, LegacyError, LegacyErrors,
};
use pyrefly::paths::FilePath;
use pyrefly::renderer::{path_string_with_fragment, render_plain, render_source, write_range, ErrorRenderMode};
use pyrefly::report::TextRange;
use pyrefly::showable::{can_show, is_placed};
use pyrefly::source::ModuleInfo;

fn path(text: &str) -> FilePath {
    FilePath {
        absolute: text.starts_with('/'),
        parts: text.split('/').filter(|p| !p.is_empty()).map(|p| p.to_owned()).collect(),
    }
}

fn module_at(at: &str, contents: &str) -> ModuleInfo {
    ModuleInfo {
        name: "main".to_owned(),
        path: path(at),
        contents: contents.to_owned(),
        is_notebook: false,
        is_generated: false,
        cells: Vec::new(),
    }
}

fn kind(name: &str) -> ErrorKind {
    ErrorKind {
        name: name.to_owned(),
        rank: 0,
        default_severity: Severity::Error,
        docs_url: String::new(),
        is_directive: false,
        suppression_names: vec![name.to_owned()],
    }
}

fn range(start: u32, end: u32) -> TextRange {
    TextRange { start, end }
}

#[test]
fn test_error_render() {
    let module_info = module_at("test.py", "def f(x: int) -> str:\n    return x");
    let error = Error::new(
        module_info,
        range(26, 34),
        "bad return".to_owned(),
        Vec::new(),
        kind("bad-return"),
    );
    let root = path("");
    let normal = render_plain(&error, &root, false);
    let verbose = render_plain(&error, &root, true);

    assert_eq!(normal, "ERROR test.py:2:5-13: bad return [bad-return]\n");
    assert_eq!(
        verbose,
        r#"ERROR bad return [bad-return]
 --> test.py:2:5
  |
2 |     return x
  |     ^^^^^^^^
  |
"#,
    );
}

#[test]
fn test_error_too_long() {
    let contents = format!("Start\n{}\nEnd", "X\n".repeat(1000));
    let error = Error::new(
        module_at("test.py", &contents),
        range(0, contents.len() as u32),
        "oops".to_owned(),
        Vec::new(),
        kind("bad-return"),
    );
    let output = render_plain(&error, &path(""), true);

    assert_eq!(
        output,
        r#"ERROR oops [bad-return]
  --> test.py:1:1
   |
 1 | / Start
 2 | | X
 3 | | X
 4 | | X
 5 | | X
 6 | | X
 7 | | X
 8 | | X
 9 | | X
10 | | X
11 | | X
   | |__^
   |
"#,
    );
}

#[test]
fn test_error_with_secondary_annotations() {
    // Source: "val * 2" where val is at bytes 0..3, * at 4, 2 at 6
    let source = "val * 2";
    let error = Error::new(
        module_at("test.py", source),
        // Primary span covers the whole expression
        range(0, 7),
        "`*` is not supported between `int | str` and `int`".to_owned(),
        Vec::new(),
        kind("unsupported-operation"),
    )
    .with_annotation(range(0, 3), "has type `int | str`".to_owned())
    .with_annotation(range(6, 7), "has type `int`".to_owned());
    let output = render_plain(&error, &path(""), true);

    assert_eq!(
        output,
        r#"ERROR `*` is not supported between `int | str` and `int` [unsupported-operation]
 --> test.py:1:1
  |
1 | val * 2
  | ---^^^-
  | |     |
  | |     has type `int`
  | has type `int | str`
  |
"#,
    );
}

#[test]
fn labels_far_away_are_shown_by_themselves() {
    let contents = format!("first = 1\n{}last = 2\n", "x\n".repeat(20));
    let at = contents.find("last").unwrap() as u32;
    let error = Error::new(
        module_at("test.py", &contents),
        range(at, at + 4),
        "redefined".to_owned(),
        vec!["once".to_owned(), "and again".to_owned()],
        kind("redefinition"),
    )
    .with_annotation(range(0, 5), "here".to_owned());
    let output = render_plain(&error, &path(""), true);
    assert!(output.contains(" --> test.py:22:1\n"), "{output}");
    assert!(output.contains(" ::: test.py:1:1\n"), "{output}");
    assert!(output.ends_with("\n  once\n  and again\n"), "{output}");
    assert_eq!(error.msg(), "redefined\n  once\n  and again");
    let styled = render_source(&error, &path(""), ErrorRenderMode::Color);
    assert!(styled.contains('\u{1b}'), "{styled}");
    let plain = render_source(&error, &path(""), ErrorRenderMode::Plain);
    assert!(!plain.contains('\u{1b}'), "{plain}");
}

#[test]
fn ignored_errors_are_not_shown() {
    let error = Error::new(
        module_at("test.py", "x"),
        range(0, 1),
        "m".to_owned(),
        Vec::new(),
        kind("k"),
    );
    assert_eq!(render_plain(&error.with_severity(Severity::Ignore), &path(""), true), "");
    assert_eq!(
        render_plain(&error.with_severity(Severity::Warn), &path(""), false),
        " WARN test.py:1:1-2: m [k]\n"
    );
}

#[test]
fn ranges_over_lines_name_both_lines() {
    let module = module_at("a.py", "ab\ncd\n");
    assert_eq!(write_range(&module.display_range(range(1, 5))), "1:2-2:3");
    assert_eq!(write_range(&module.display_range(range(3, 3))), "2:1");
}

#[test]
fn notebooks_count_lines_within_cells() {
    let module = ModuleInfo {
        is_notebook: true,
        cells: vec![0, 2],
        ..module_at("/w/n.ipynb", "a\nb\nc\nd\n")
    };
    let error = Error::new(module, range(6, 7), "m".to_owned(), Vec::new(), kind("k"));
    assert_eq!(error.get_notebook_cell(), Some(1));
    assert_eq!(path_string_with_fragment(&error, &path("/w")), "n.ipynb#2");
    assert_eq!(path_string_with_fragment(&error, &path("/other")), "/w/n.ipynb#2");
    assert_eq!(render_plain(&error, &path("/w"), false), "ERROR n.ipynb#2:2:1-2: m [k]\n");
    let record = LegacyError::from_error(&path("/w"), &error);
    assert_eq!((record.line, record.cell), (2, Some(2)));
}

#[test]
fn editors_count_in_utf16() {
    let module = module_at("a.py", "x\n😀é = 1\n");
    let found = module.to_lsp_range(range(2, 8));
    assert_eq!((found.start.line, found.start.character), (1, 0));
    assert_eq!((found.end.line, found.end.character), (1, 3));
}

fn full() -> BaselineError {
    BaselineError {
        line: Some(4),
        column: Some(8),
        path: Some("test.py".to_owned()),
        name: Some("bad-return".to_owned()),
        concise_description: Some("test".to_owned()),
        severity: Some("error".to_owned()),
        cell: Some(2),
    }
}

#[test]
fn test_baseline_error_retains_configured_fields() {
    let mut error = full();
    error.retain_fields(&vec![
        BaselineField::Path,
        BaselineField::Name,
        BaselineField::ConciseDescription,
    ]);
    assert_eq!(error.line, None);
    assert_eq!(error.column, None);
    assert_eq!(error.path.as_deref(), Some("test.py"));
    assert_eq!(error.name.as_deref(), Some("bad-return"));
    assert_eq!(error.concise_description.as_deref(), Some("test"));
    assert_eq!(error.severity, None);
    assert_eq!(error.cell, None);
}

#[test]
fn test_baseline_error_retains_default_fields() {
    let mut error = full();
    error.retain_fields(&default_baseline_fields());
    assert_eq!(error.line, None);
    assert_eq!(error.column, Some(8));
    assert_eq!(error.path.as_deref(), Some("test.py"));
    assert_eq!(error.name.as_deref(), Some("bad-return"));
    assert_eq!(error.concise_description, None);
    assert_eq!(error.severity, None);
    assert_eq!(error.cell, None);
    // Once more changes nothing.
    error.retain_fields(&default_baseline_fields());
    assert_eq!(error.column, Some(8));
}

fn assignment_error(at: &str) -> Error {
    Error::new(
        module_at(at, "x = 1\n"),
        range(0, 1),
        "err".to_owned(),
        Vec::new(),
        kind("bad-assignment"),
    )
}

#[test]
fn test_relativize_when_error_is_not_under_relative_to() {
    let error = assignment_error("/repo/libs/foo.py");
    let legacy = LegacyError::from_error(&path("/repo/src"), &error);
    assert_eq!(legacy.path, "../libs/foo.py");
}

#[test]
fn test_baseline_provenance_is_optional() {
    let error = assignment_error("/repo/foo.py");
    let without_baseline = LegacyError::from_error(&path("/repo"), &error);
    assert!(without_baseline.baselined.is_none());

    let matched = error.dupe().with_baseline_status(BaselineStatus::Matched);
    assert_eq!(LegacyError::from_error(&path("/repo"), &matched).baselined, Some(true));

    let not_compared = error.with_baseline_status(BaselineStatus::NotCompared);
    assert_eq!(LegacyError::from_error(&path("/repo"), &not_compared).baselined, Some(false));
}

#[test]
fn records_hold_what_is_shown() {
    let error = assignment_error("/repo/a/foo.py").with_severity(Severity::Info);
    let records = LegacyErrors::from_errors(&path("/repo"), &vec![error.dupe()]);
    let record = &records.errors[0];
    assert_eq!((record.line, record.column, record.stop_line, record.stop_column), (1, 1, 1, 2));
    assert_eq!(record.path, "a/foo.py");
    assert_eq!(record.code, -2);
    assert_eq!(record.name, "bad-assignment");
    assert_eq!(record.description, "err");
    assert_eq!(record.concise_description, "err");
    assert_eq!(record.severity, "info");
    let baseline = BaselineErrors::from_errors(
        &path("/repo"),
        &vec![error],
        &vec![BaselineField::Line, BaselineField::Severity, BaselineField::Cell],
    );
    assert_eq!(baseline.errors[0].line, Some(1));
    assert_eq!(baseline.errors[0].column, None);
    assert_eq!(baseline.errors[0].severity.as_deref(), Some("info"));
    assert_eq!(baseline.errors[0].cell, None);
    assert_eq!(default_severity(), "error");
    assert_eq!(severity_to_str(Severity::Warn), "warn");
    assert_eq!(severity_to_str(Severity::Ignore), "ignore");
}

#[test]
fn paths_are_seen_from_elsewhere() {
    assert_eq!(path("/a/b/c").relativize_from(&path("/a/x/y")).to_text(), "../../b/c");
    assert_eq!(path("/a/b").relativize_from(&path("/a/b")).to_text(), "");
    assert_eq!(path("a/b").relativize_from(&path("/a")).to_text(), "a/b");
    assert_eq!(path("/a/b").relativize_from(&path("/../c")).to_text(), "/a/b");
    assert_eq!(path("/a/b").strip_prefix(&path("/a")).unwrap().to_text(), "b");
    assert!(path("/a/b").strip_prefix(&path("a")).is_none());
    assert_eq!(path("/a/b").strip_prefix(&path("")).unwrap().to_text(), "/a/b");
}

#[test]
fn unused_ignores_cannot_be_ignored() {
    let error = assignment_error("a.py");
    assert!(error.is_ignored(&vec!["bad-assignment".to_owned()]));
    assert!(!error.is_ignored(&vec!["bad-return".to_owned()]));
    let unused = Error::new(
        module_at("a.py", "x"),
        range(0, 1),
        "m".to_owned(),
        Vec::new(),
        kind("unused-ignore"),
    );
    assert!(!unused.is_ignored(&vec!["unused-ignore".to_owned()]));
}

#[test]
fn recorded_paths_hold_no_backslash() {
    let error = assignment_error("/repo/a\\b.py");
    let record = LegacyError::from_error(&path("/repo"), &error);
    assert_eq!(record.path, "a/b.py");
}

#[test]
fn errors_without_labels_can_be_shown() {
    let error = assignment_error("/repo/a.py");
    assert!(can_show(&error, &path("/repo")));
}

#[test]
fn errors_lie_in_their_modules() {
    let mut error = assignment_error("/repo/a.py");
    assert!(is_placed(&error));
    error.display_range.start.column += 1;
    assert!(!is_placed(&error));
    let labelled =
        assignment_error("/repo/a.py").with_annotation(range(0, 0), "here".to_owned());
    assert!(is_placed(&labelled));
    let mut moved = assignment_error("/repo/a.py");
    moved.range = range(0, 100000);
    assert!(!is_placed(&moved));
}

#[test]
fn labels_on_the_same_lines_need_whole_characters() {
    let contents = "x = (\n'é'\n)é";
    let n = contents.len() as u32;
    let error = Error::new(
        module_at("/repo/a.py", contents),
        range(0, n),
        "m".to_owned(),
        vec![],
        kind("bad-assignment"),
    );
    assert!(can_show(&error, &path("/repo")));
    let labelled = error.with_annotation(range(0, n), "here".to_owned());
    assert!(!can_show(&labelled, &path("/repo")));
}

fn with_details(details: Vec<&str>) -> Error {
    Error::new(
        module_at("test.py", "x = 1"),
        range(0, 1),
        "bad".to_owned(),
        details.into_iter().map(|d| d.to_owned()).collect(),
        kind("bad-return"),
    )
}

#[test]
fn every_line_of_the_details_is_indented() {
    assert_eq!(with_details(vec![]).msg_details, None);
    assert_eq!(with_details(vec!["a"]).msg_details.as_deref(), Some("  a"));
    assert_eq!(with_details(vec!["a\nb", "c"]).msg_details.as_deref(), Some("  a\n  b\n  c"));
    let text = render_plain(&with_details(vec!["a\nb", "c"]), &path(""), true);
    assert!(text.ends_with("\n  a\n  b\n  c\n"), "{text}");
}
