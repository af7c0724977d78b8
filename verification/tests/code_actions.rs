use pyrefly::edits::{apply_action, apply_first_action, apply_patch, apply_refactor_edits_for_module, get_report, CodeAction};
use pyrefly::error::{Error, ErrorKind, ErrorQuickFix, Severity, SuppressionEdit, Tool};
use pyrefly::marks::{find_marked_range, find_marked_range_with, find_nth_range};
use pyrefly::quick_fixes::{
    add_pyrefly_ignore_code_action, remove_unused_ignore_code_action,
    replace_with_enum_member_code_action, CoveringNode, IgnoreComment, Offer,
};
use pyrefly::paths::FilePath;
use pyrefly::report::TextRange;
use pyrefly::source::ModuleInfo;

fn module(code: &str) -> ModuleInfo {
    ModuleInfo {
        name: "main".to_owned(),
        path: FilePath { absolute: false, parts: vec!["main.py".to_owned()] },
        contents: code.to_owned(),
        is_notebook: false,
        is_generated: false,
        cells: Vec::new(),
    }
}

fn kind(name: &str) -> ErrorKind {
    ErrorKind {
        name: name.to_owned(),
        rank: 0,
        default_severity: Severity::Error,
        docs_url: format!("https://pyrefly.org/en/docs/error-kinds/#{name}"),
        is_directive: false,
        suppression_names: vec![name.to_owned()],
    }
}

/// The text that is selected between the marks.
fn selected(code: &str) -> &str {
    let range = find_marked_range(code);
    &code[range.start as usize..range.end as usize]
}

/// The cursor mark `^` points at the character above it.
fn at_cursor(code: &str) -> char {
    let lines: Vec<&str> = code.lines().collect();
    let row = lines
        .iter()
        .position(|line| line.starts_with('#') && line.ends_with('^'))
        .expect("expected cursor marker");
    lines[row - 1].chars().nth(lines[row].len() - 1).expect("a character above the marker")
}

/// No refactoring is offered for the code.
fn nothing_offered() -> Vec<CodeAction> {
    Vec::new()
}

/// The report of one offer.
fn report_of(offer: Offer) -> String {
    let (title, module, range, text) = offer;
    get_report(&vec![CodeAction { title, edits: vec![(module, range, text)] }])
}

/// The text after one offer.
fn text_after(offer: Offer) -> String {
    let (_, module, range, text) = offer;
    let target = module.dupe();
    apply_refactor_edits_for_module(&target, &vec![(module, range, text)])
}

#[test]
fn extract_variable_rejects_empty_selection() {
    let code = r#"
def sink(values):
    # EXTRACT-START
    # EXTRACT-END
    return values
"#;
    assert_eq!(selected(code), "");
    assert_eq!(apply_first_action(&module(code), &nothing_offered()), None);
}

#[test]
fn extract_variable_rejects_whitespace_selection() {
    let code = r#"
def sink(values):
    return (
        # EXTRACT-START

        # EXTRACT-END
    )
"#;
    assert_eq!(selected(code), "\n");
    assert_eq!(apply_first_action(&module(code), &nothing_offered()), None);
}

#[test]
fn extract_variable_requires_exact_expression() {
    let code = r#"
def sink(values):
    # EXTRACT-START
    value = values[0]
    # EXTRACT-END
    return value
"#;
    assert_eq!(selected(code), "    value = values[0]\n");
    assert_eq!(apply_first_action(&module(code), &nothing_offered()), None);
}

#[test]
fn introduce_parameter_rejects_local_names() {
    let code = r#"
def combine(values):
    offset = 2
    return (
        # EXTRACT-START
        values[0] + offset
        # EXTRACT-END
    )
"#;
    assert_eq!(selected(code), "        values[0] + offset\n");
    assert_eq!(apply_first_action(&module(code), &nothing_offered()), None);
}

#[test]
fn introduce_parameter_rejects_star_args_callsite() {
    let code = r#"
def accept(value):
    return (
        # EXTRACT-START
        value + 1
        # EXTRACT-END
    )

def caller():
    values = [1]
    accept(*values)
"#;
    assert_eq!(selected(code), "        value + 1\n");
    assert_eq!(apply_first_action(&module(code), &nothing_offered()), None);
}

#[test]
fn introduce_parameter_rejects_kwargs_callsite() {
    let code = r#"
def accept(value):
    return (
        # EXTRACT-START
        value + 1
        # EXTRACT-END
    )

def caller():
    values = {"value": 1}
    accept(**values)
"#;
    assert_eq!(selected(code), "        value + 1\n");
    assert_eq!(apply_first_action(&module(code), &nothing_offered()), None);
}

#[test]
fn extract_field_rejects_method_local_dependencies() {
    let code = r#"
class Collector:
    def process(self, values):
        interim = len(values)
        return (
            # EXTRACT-START
            interim + 1
            # EXTRACT-END
        )
"#;
    assert_eq!(selected(code), "            interim + 1\n");
    assert_eq!(apply_first_action(&module(code), &nothing_offered()), None);
}

#[test]
fn extract_function_rejects_empty_selection() {
    let code = r#"
def sink(values):
    for value in values:
        # EXTRACT-START
        # EXTRACT-END
        print(value)
"#;
    assert_eq!(selected(code), "");
    assert_eq!(apply_first_action(&module(code), &nothing_offered()), None);
}

#[test]
fn extract_function_rejects_return_statement() {
    let code = r#"
def sink(values):
    # EXTRACT-START
    return values[0]
    # EXTRACT-END
"#;
    assert_eq!(selected(code), "    return values[0]\n");
    assert_eq!(apply_first_action(&module(code), &nothing_offered()), None);
}

#[test]
fn inline_method_for_class_no_action_staticmethod() {
    let code = r#"
class A:
    @staticmethod
    def foo():
        return 1

    def bar(self):
        self.foo()
#        ^
"#;
    assert_eq!(at_cursor(code), 'e');
    assert_eq!(apply_first_action(&module(code), &nothing_offered()), None);
}

#[test]
fn inline_method_for_class_no_action_classmethod() {
    let code = r#"
class A:
    @classmethod
    def foo(cls):
        return 1

    def bar(self):
        self.foo()
#        ^
"#;
    assert_eq!(at_cursor(code), 'e');
    assert_eq!(apply_first_action(&module(code), &nothing_offered()), None);
}

#[test]
fn inline_method_for_class_no_action_method_not_found() {
    let code = r#"
class A:
    def bar(self):
        self.foo()
#        ^
"#;
    assert_eq!(at_cursor(code), 'e');
    assert_eq!(apply_first_action(&module(code), &nothing_offered()), None);
}

#[test]
fn inline_method_for_class_no_action_different_receiver() {
    let code = r#"
class A:
    def foo(self):
        return 1

    def bar(self):
        this.foo()
#        ^
"#;
    assert_eq!(at_cursor(code), 'h');
    assert_eq!(apply_first_action(&module(code), &nothing_offered()), None);
}

#[test]
fn safe_delete_rejects_referenced_symbol() {
    let code = r#"
def foo():
#   ^
    return 1
foo()
"#;
    assert_eq!(at_cursor(code), 'f');
    assert_eq!(apply_first_action(&module(code), &nothing_offered()), None);
}

#[test]
fn safe_delete_type_alias_with_refs() {
    let code = r#"
type MyType = int
#    ^
x: MyType = 1
"#;
    assert_eq!(at_cursor(code), 'M');
    assert_eq!(apply_first_action(&module(code), &nothing_offered()), None);
}

#[test]
fn safe_delete_constant_with_refs() {
    let code = r#"
MY_CONST = 42
# ^
x = MY_CONST
"#;
    assert_eq!(at_cursor(code), '_');
    assert_eq!(apply_first_action(&module(code), &nothing_offered()), None);
}

#[test]
fn safe_delete_nested_function_with_refs() {
    let code = r#"
def outer():
    def inner():
#       ^
        return 1
    return inner()
"#;
    assert_eq!(at_cursor(code), 'i');
    assert_eq!(apply_first_action(&module(code), &nothing_offered()), None);
}

#[test]
fn safe_delete_multiple_assignment_targets() {
    let code = r#"
a = b = 1
# ^
"#;
    assert_eq!(at_cursor(code), '=');
    assert_eq!(apply_first_action(&module(code), &nothing_offered()), None);
}

#[test]
fn safe_delete_child_impl_blocks_deletion() {
    let code = r#"
class Base:
    def method(self) -> int:
#       ^
        return 1

class Child(Base):
    def method(self) -> int:
        return 2
"#;
    assert_eq!(at_cursor(code), 'm');
    assert_eq!(apply_first_action(&module(code), &nothing_offered()), None);
}

#[test]
fn quickfix_replace_string_literal_with_enum_member() {
    let code = r#"from enum import Enum

class AccountStatus(Enum):
    ACTIVE = "active"

def takes_status(status: AccountStatus) -> None:
    pass

takes_status("active")
#             ^
"#;
    let inner = find_nth_range(code, "\"active\"", 2);
    let call = find_nth_range(code, "takes_status(\"active\")", 1);
    let error = Error::new(
        module(code),
        inner,
        "bad argument".to_owned(),
        Vec::new(),
        kind("bad-argument-type"),
    )
    .with_quick_fix(ErrorQuickFix::ReplaceWithEnumMember {
        replacement: "AccountStatus.ACTIVE".to_owned(),
    });
    let nodes = vec![
        CoveringNode { is_string_literal: true, range: inner },
        CoveringNode { is_string_literal: false, range: call },
    ];
    let offer = replace_with_enum_member_code_action(&module(code), &nodes, &error).unwrap();
    let report = report_of(offer);
    assert!(report.contains("# Title: Replace with `AccountStatus.ACTIVE`"), "{report}");
    assert!(report.contains("takes_status(AccountStatus.ACTIVE)"), "{report}");
}

fn assignment_error(code: &str) -> Error {
    Error::new(
        module(code),
        find_nth_range(code, "\"hello\"", 1),
        "`Literal['hello']` is not assignable to `int`".to_owned(),
        Vec::new(),
        kind("bad-assignment"),
    )
}

#[test]
fn quickfix_add_pyrefly_ignore_code() {
    let code = "x: int = \"hello\"\n#         ^";
    let error = assignment_error(code);
    let offer = add_pyrefly_ignore_code_action(&module(code), &error, &None, &None).unwrap();
    assert_eq!(
        r#"
Code Actions Results:
# Title: Add `# pyrefly: ignore [bad-assignment]`

## Before:
x: int = "hello"
#         ^
## After:
# pyrefly: ignore [bad-assignment]
x: int = "hello"
#         ^
"#
        .trim(),
        report_of(offer).trim()
    );
}

#[test]
fn quickfix_add_pyrefly_ignore_code_with_existing_comment() {
    let code = "x: int = \"hello\" # intentional error\n#         ^";
    let error = assignment_error(code);
    let offer = add_pyrefly_ignore_code_action(&module(code), &error, &None, &None).unwrap();
    assert_eq!(
        r#"
Code Actions Results:
# Title: Add `# pyrefly: ignore [bad-assignment]`

## Before:
x: int = "hello" # intentional error
#         ^
## After:
# pyrefly: ignore [bad-assignment]
x: int = "hello" # intentional error
#         ^
"#
        .trim(),
        report_of(offer).trim()
    );
}

#[test]
fn quickfix_merge_pyrefly_ignore_codes() {
    let code = "x: int = \"hello\"  # pyrefly: ignore [bad-return]\n#         ^";
    let error = assignment_error(code);
    let on_line = Some(IgnoreComment {
        codes: vec!["bad-return".to_owned()],
        merged_line: "x: int = \"hello\"  # pyrefly: ignore [bad-assignment, bad-return]".to_owned(),
    });
    let offer = add_pyrefly_ignore_code_action(&module(code), &error, &on_line, &None).unwrap();
    assert_eq!(
        r#"
Code Actions Results:
# Title: Add `# pyrefly: ignore [bad-assignment]`

## Before:
x: int = "hello"  # pyrefly: ignore [bad-return]
#         ^
## After:
x: int = "hello"  # pyrefly: ignore [bad-assignment, bad-return]
#         ^
"#
        .trim(),
        report_of(offer).trim()
    );
}

#[test]
fn quickfix_merge_pyrefly_ignore_codes_comment_line_above() {
    let code = "    # pyrefly: ignore [bad-return]\n    x: int = \"hello\"\n#             ^";
    let error = assignment_error(code);
    let above = Some(IgnoreComment {
        codes: vec!["bad-return".to_owned()],
        merged_line: "    # pyrefly: ignore [bad-assignment, bad-return]".to_owned(),
    });
    let offer = add_pyrefly_ignore_code_action(&module(code), &error, &None, &above).unwrap();
    assert_eq!(
        r#"
Code Actions Results:
# Title: Add `# pyrefly: ignore [bad-assignment]`

## Before:
    # pyrefly: ignore [bad-return]
    x: int = "hello"
#             ^
## After:
    # pyrefly: ignore [bad-assignment, bad-return]
    x: int = "hello"
#             ^
"#
        .trim(),
        report_of(offer).trim()
    );
}

#[test]
fn ignore_comment_is_not_offered_twice() {
    let code = "    # pyrefly: ignore [bad-assignment]\n    x: int = \"hello\"\n";
    let error = assignment_error(code);
    let known = Some(IgnoreComment {
        codes: vec!["bad-assignment".to_owned()],
        merged_line: String::new(),
    });
    assert!(add_pyrefly_ignore_code_action(&module(code), &error, &known, &None).is_none());
    assert!(add_pyrefly_ignore_code_action(&module(code), &error, &None, &known).is_none());
    // On the line below code, a comment does not belong to the next line.
    let behind = "y = 1  # pyrefly: ignore [bad-return]\n\tx: int = \"hello\"\n";
    let error = assignment_error(behind);
    let offer = add_pyrefly_ignore_code_action(&module(behind), &error, &None, &known).unwrap();
    assert_eq!(
        text_after(offer),
        "y = 1  # pyrefly: ignore [bad-return]\n\t# pyrefly: ignore [bad-assignment]\n\tx: int = \"hello\"\n"
    );
}

#[test]
fn ignore_comment_is_not_offered_in_generated_code() {
    let code = "x: int = \"hello\"\n";
    let error = assignment_error(code);
    let generated = ModuleInfo { is_generated: true, ..module(code) };
    assert!(add_pyrefly_ignore_code_action(&generated, &error, &None, &None).is_none());
    let notebook = ModuleInfo { is_notebook: true, ..module(code) };
    assert!(add_pyrefly_ignore_code_action(&notebook, &error, &None, &None).is_none());
    let unused = Error::new(
        module(code),
        TextRange { start: 0, end: 1 },
        "unused".to_owned(),
        Vec::new(),
        kind("unused-ignore"),
    );
    assert!(add_pyrefly_ignore_code_action(&module(code), &unused, &None, &None).is_none());
}

fn remove_unused_ignore_quickfix(
    code: &str,
    suppression: &str,
    tool: Tool,
    replacement: &str,
) -> (String, String) {
    let range = find_nth_range(code, suppression, 1);
    let error = Error::new(
        module(code),
        range,
        "Unused suppression".to_owned(),
        Vec::new(),
        kind("unused-ignore"),
    )
    .with_quick_fix(ErrorQuickFix::from(SuppressionEdit {
        tool,
        range,
        expected: suppression.to_owned(),
        replacement: replacement.to_owned(),
    }));
    let offer = remove_unused_ignore_code_action(&module(code), &error)
        .expect("expected remove-unused-ignore quick fix");
    (offer.0.clone(), text_after(offer))
}

#[test]
fn quickfix_remove_unused_type_ignore_line() {
    let code = "# type: ignore\nx = 1\n";
    let (title, after) = remove_unused_ignore_quickfix(code, "# type: ignore", Tool::Type, "");
    assert_eq!(title, "Remove unused `# type: ignore` comment");
    assert_eq!(after, "x = 1\n");
}

#[test]
fn quickfix_remove_unused_inline_pyrefly_ignore() {
    let code = "x = 1  # pyrefly: ignore\n";
    let (title, after) = remove_unused_ignore_quickfix(code, "# pyrefly: ignore", Tool::Pyrefly, "");
    assert_eq!(title, "Remove unused `# pyrefly: ignore` comment");
    assert_eq!(after, "x = 1\n");
}

#[test]
fn quickfix_remove_partially_unused_pyrefly_ignore_codes() {
    let code = "x: int = \"bad\"  # pyrefly: ignore [bad-assignment, unknown-name]\n";
    let (title, after) = remove_unused_ignore_quickfix(
        code,
        "# pyrefly: ignore [bad-assignment, unknown-name]",
        Tool::Pyrefly,
        "# pyrefly: ignore [bad-assignment]",
    );
    assert_eq!(title, "Remove unused suppression codes");
    assert_eq!(
        after,
        "x: int = \"bad\"  # pyrefly: ignore [bad-assignment]\n"
    );
}

#[test]
fn suppression_that_changed_is_left_alone() {
    let code = "x = 1  # noqa\n";
    let range = find_nth_range(code, "# noqa", 1);
    let error = Error::new(module(code), range, "e".to_owned(), Vec::new(), kind("unused-ignore"))
        .with_quick_fix(ErrorQuickFix::from(SuppressionEdit {
            tool: Tool::Pyre,
            range,
            expected: "# pyre-fixme".to_owned(),
            replacement: String::new(),
        }));
    assert!(remove_unused_ignore_code_action(&module(code), &error).is_none());
}

#[test]
fn edits_are_made_from_the_last_to_the_first() {
    let m = module("abc def ghi");
    let other = ModuleInfo { path: FilePath { absolute: false, parts: vec!["other.py".to_owned()] }, ..module("zzz") };
    let edits = vec![
        (m.dupe(), TextRange { start: 8, end: 11 }, "GHI!".to_owned()),
        (other, TextRange { start: 0, end: 3 }, "no".to_owned()),
        (m.dupe(), TextRange { start: 0, end: 3 }, String::new()),
        (m.dupe(), TextRange { start: 4, end: 4 }, "X".to_owned()),
        (m.dupe(), TextRange { start: 4, end: 4 }, "Y".to_owned()),
    ];
    // Insertions at one place come out in the order of the edits.
    assert_eq!(apply_refactor_edits_for_module(&m, &edits), " XYdef GHI!");
    let actions = vec![CodeAction { title: "t".to_owned(), edits }];
    assert_eq!(apply_action(&m, &actions, 0), Some(" XYdef GHI!".to_owned()));
    assert_eq!(apply_action(&m, &actions, 1), None);
}

#[test]
fn patches_count_bytes() {
    let (before, after) = apply_patch(&module("é = 1"), TextRange { start: 0, end: 2 }, "x".to_owned());
    assert_eq!(before, "é = 1");
    assert_eq!(after, "x = 1");
}

#[test]
fn marks_select_whole_lines() {
    let code = "a\n# MOVE-START\nb\nc\n  # MOVE-END\n";
    let range = find_marked_range_with(code, "# MOVE-START", "# MOVE-END");
    assert_eq!(&code[range.start as usize..range.end as usize], "b\nc\n");
    assert_eq!(find_nth_range("aaaa", "aa", 2), TextRange { start: 2, end: 4 });
}
