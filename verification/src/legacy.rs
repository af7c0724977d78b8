use vstd::prelude::*;

use crate::error::{BaselineStatus, Error, ErrorView, Severity};
use crate::paths::{FilePath, PathView};
use crate::stub::opt_text;
use crate::text::{chars_of, string_of};

verus! {

/// The name of a severity.
pub open spec fn severity_name(severity: Severity) -> Seq<char> {
    match severity {
        Severity::Ignore => "ignore"@,
        Severity::Info => "info"@,
        Severity::Warn => "warn"@,
        Severity::Error => "error"@,
    }
}

pub fn severity_to_str(severity: Severity) -> (r: String)
    ensures
        r@ == severity_name(severity),
{
    match severity {
        Severity::Ignore => "ignore".to_owned(),
        Severity::Info => "info".to_owned(),
        Severity::Warn => "warn".to_owned(),
        Severity::Error => "error".to_owned(),
    }
}

/// The severity of a record that names none.
pub fn default_severity() -> (r: String)
    ensures
        r@ == "error"@,
{
    "error".to_owned()
}

/// An error as older tools record it.
pub struct LegacyError {
    pub line: usize,
    pub column: usize,
    pub stop_line: usize,
    pub stop_column: usize,
    pub path: String,
    /// No longer used, but still expected.
    pub code: i32,
    /// The name of the kind in kebab case.
    pub name: String,
    pub description: String,
    pub concise_description: String,
    pub severity: String,
    /// Whether the error matched a baseline, where there is one.
    pub baselined: Option<bool>,
    /// The cell of a notebook.
    pub cell: Option<usize>,
}

/// The text with all backslashes turned into slashes.
pub open spec fn with_slashes(s: Seq<char>) -> Seq<char> {
    s.map_values(
        |c: char|
            if c == '\\' {
                '/'
            } else {
                c
            },
    )
}

/// The path of an error as it is recorded.
pub open spec fn recorded_path(path: PathView, relative_to: PathView) -> Seq<char> {
    with_slashes(path.relative_to(relative_to).text())
}

fn record_path(path: &FilePath, relative_to: &FilePath) -> (r: String)
    ensures
        r@ == recorded_path(path@, relative_to@),
{
    let text = path.relativize_from(relative_to).to_text();
    let chars = chars_of(text.as_str());
    let mut out: Vec<char> = Vec::new();
    let mut i: usize = 0;
    while i < chars.len()
        invariant
            i <= chars@.len(),
            out@ == with_slashes(chars@).take(i as int),
        decreases chars@.len() - i,
    {
        if chars[i] == '\\' {
            out.push('/');
        } else {
            out.push(chars[i]);
        }
        assert(out@ =~= with_slashes(chars@).take(i + 1));
        i = i + 1;
    }
    assert(out@ =~= with_slashes(chars@));
    assert(out@.subrange(0, out@.len() as int) =~= out@);
    let n: usize = out.len();
    string_of(&out, 0, n)
}

/// Whether an error is known to be in the baseline.
pub open spec fn baselined_as(status: BaselineStatus) -> Option<bool> {
    match status {
        BaselineStatus::NotConfigured => None,
        BaselineStatus::NotCompared => Some(false),
        BaselineStatus::Unmatched => Some(false),
        BaselineStatus::Matched => Some(true),
    }
}

impl LegacyError {
    /// Whether this is the record of an error.
    pub open spec fn records(self, relative_to: PathView, error: ErrorView) -> bool {
        let range = error.display_range;
        &&& self.line == range.start.line_within_cell
        &&& self.column == range.start.column
        &&& self.stop_line == range.end.line_within_cell
        &&& self.stop_column == range.end.column
        &&& self.cell == range.start.cell
        &&& self.path@ == recorded_path(error.module.path, relative_to)
        &&& self.code == -2
        &&& self.name@ == error.error_kind.name
        &&& self.description@ == error.msg()
        &&& self.concise_description@ == error.msg_header
        &&& self.severity@ == severity_name(error.severity)
        &&& self.baselined == baselined_as(error.baseline_status)
    }

    /// Records an error, with its path as it is seen from `relative_to`.
    pub fn from_error(relative_to: &FilePath, error: &Error) -> (r: LegacyError)
        ensures
            r.records(relative_to@, error@),
    {
        let range = &error.display_range;
        LegacyError {
            line: range.start.line_within_cell as usize,
            column: range.start.column as usize,
            stop_line: range.end.line_within_cell as usize,
            stop_column: range.end.column as usize,
            cell: range.start.cell,
            path: record_path(&error.module.path, relative_to),
            code: -2,
            name: error.error_kind.name.clone(),
            description: error.msg(),
            concise_description: error.msg_header.clone(),
            severity: severity_to_str(error.severity),
            baselined: match error.baseline_status {
                BaselineStatus::NotConfigured => None,
                BaselineStatus::NotCompared => Some(false),
                BaselineStatus::Unmatched => Some(false),
                BaselineStatus::Matched => Some(true),
            },
        }
    }
}

/// Errors as older tools record them.
pub struct LegacyErrors {
    pub errors: Vec<LegacyError>,
}

impl LegacyErrors {
    /// Records errors one by one.
    pub fn from_errors(relative_to: &FilePath, errors: &Vec<Error>) -> (r: LegacyErrors)
        ensures
            r.errors@.len() == errors@.len(),
            forall|i: int|
                0 <= i < errors@.len() ==> (#[trigger] r.errors@[i]).records(
                    relative_to@,
                    errors@[i]@,
                ),
    {
        let mut out: Vec<LegacyError> = Vec::new();
        let mut i: usize = 0;
        while i < errors.len()
            invariant
                i <= errors@.len(),
                out@.len() == i,
                forall|k: int|
                    0 <= k < i ==> (#[trigger] out@[k]).records(relative_to@, errors@[k]@),
            decreases errors@.len() - i,
        {
            out.push(LegacyError::from_error(relative_to, &errors[i]));
            i = i + 1;
        }
        LegacyErrors { errors: out }
    }
}

/// A field of a record in a baseline.
#[derive(Clone, Copy, Debug, PartialEq, Eq, Structural)]
pub enum BaselineField {
    Line,
    Column,
    Path,
    Name,
    ConciseDescription,
    Severity,
    Cell,
}

/// An error in a baseline, with the fields that the baseline holds.
pub struct BaselineError {
    pub line: Option<usize>,
    pub column: Option<usize>,
    pub path: Option<String>,
    /// The name of the kind in kebab case.
    pub name: Option<String>,
    pub concise_description: Option<String>,
    pub severity: Option<String>,
    /// The cell of a notebook.
    pub cell: Option<usize>,
}

/// An error in a baseline as plain text.
pub struct BaselineView {
    pub line: Option<usize>,
    pub column: Option<usize>,
    pub path: Option<Seq<char>>,
    pub name: Option<Seq<char>>,
    pub concise_description: Option<Seq<char>>,
    pub severity: Option<Seq<char>>,
    pub cell: Option<usize>,
}

impl View for BaselineError {
    type V = BaselineView;

    open spec fn view(&self) -> BaselineView {
        BaselineView {
            line: self.line,
            column: self.column,
            path: opt_text(self.path),
            name: opt_text(self.name),
            concise_description: opt_text(self.concise_description),
            severity: opt_text(self.severity),
            cell: self.cell,
        }
    }
}

/// The fields of a baseline that is not configured otherwise.
pub open spec fn default_fields() -> Seq<BaselineField> {
    seq![BaselineField::Column, BaselineField::Path, BaselineField::Name]
}

pub fn default_baseline_fields() -> (r: Vec<BaselineField>)
    ensures
        r@ == default_fields(),
{
    let r = vec![BaselineField::Column, BaselineField::Path, BaselineField::Name];
    assert(r@ =~= default_fields());
    r
}

fn includes_baseline_field(fields: &Vec<BaselineField>, field: BaselineField) -> (r: bool)
    ensures
        r == fields@.contains(field),
{
    let mut i: usize = 0;
    while i < fields.len()
        invariant
            i <= fields@.len(),
            forall|k: int| 0 <= k < i ==> fields@[k] != field,
        decreases fields@.len() - i,
    {
        if fields[i] == field {
            assert(fields@[i as int] == field);
            return true;
        }
        i = i + 1;
    }
    false
}

/// What is there, where it is wanted.
pub open spec fn kept<T>(wanted: bool, value: Option<T>) -> Option<T> {
    if wanted {
        value
    } else {
        None
    }
}

impl BaselineView {
    /// The fields of a record that a baseline with these fields holds.
    pub open spec fn retained(self, fields: Seq<BaselineField>) -> BaselineView {
        BaselineView {
            line: kept(fields.contains(BaselineField::Line), self.line),
            column: kept(fields.contains(BaselineField::Column), self.column),
            path: kept(fields.contains(BaselineField::Path), self.path),
            name: kept(fields.contains(BaselineField::Name), self.name),
            concise_description: kept(
                fields.contains(BaselineField::ConciseDescription),
                self.concise_description,
            ),
            severity: kept(fields.contains(BaselineField::Severity), self.severity),
            cell: kept(fields.contains(BaselineField::Cell), self.cell),
        }
    }
}

/// The record of an error with all its fields.
pub open spec fn full_record(relative_to: PathView, error: ErrorView) -> BaselineView {
    let start = error.display_range.start;
    BaselineView {
        line: Some(start.line_within_cell as usize),
        column: Some(start.column as usize),
        path: Some(recorded_path(error.module.path, relative_to)),
        name: Some(error.error_kind.name),
        concise_description: Some(error.msg_header),
        severity: Some(severity_name(error.severity)),
        cell: start.cell,
    }
}

impl BaselineError {
    /// Records an error in a baseline with these fields.
    pub fn from_error(relative_to: &FilePath, error: &Error, fields: &Vec<BaselineField>) -> (r:
        BaselineError)
        ensures
            r@ == full_record(relative_to@, error@).retained(fields@),
    {
        let start = &error.display_range.start;
        BaselineError {
            line: if includes_baseline_field(fields, BaselineField::Line) {
                Some(start.line_within_cell as usize)
            } else {
                None
            },
            column: if includes_baseline_field(fields, BaselineField::Column) {
                Some(start.column as usize)
            } else {
                None
            },
            cell: if includes_baseline_field(fields, BaselineField::Cell) {
                start.cell
            } else {
                None
            },
            path: if includes_baseline_field(fields, BaselineField::Path) {
                Some(record_path(&error.module.path, relative_to))
            } else {
                None
            },
            name: if includes_baseline_field(fields, BaselineField::Name) {
                Some(error.error_kind.name.clone())
            } else {
                None
            },
            concise_description: if includes_baseline_field(
                fields,
                BaselineField::ConciseDescription,
            ) {
                Some(error.msg_header.clone())
            } else {
                None
            },
            severity: if includes_baseline_field(fields, BaselineField::Severity) {
                Some(severity_to_str(error.severity))
            } else {
                None
            },
        }
    }

    /// Removes the fields that a baseline with these fields does not hold.
    pub fn retain_fields(&mut self, fields: &Vec<BaselineField>)
        ensures
            final(self)@ == old(self)@.retained(fields@),
    {
        if !includes_baseline_field(fields, BaselineField::Line) {
            self.line = None;
        }
        if !includes_baseline_field(fields, BaselineField::Column) {
            self.column = None;
        }
        if !includes_baseline_field(fields, BaselineField::Path) {
            self.path = None;
        }
        if !includes_baseline_field(fields, BaselineField::Name) {
            self.name = None;
        }
        if !includes_baseline_field(fields, BaselineField::ConciseDescription) {
            self.concise_description = None;
        }
        if !includes_baseline_field(fields, BaselineField::Severity) {
            self.severity = None;
        }
        if !includes_baseline_field(fields, BaselineField::Cell) {
            self.cell = None;
        }
    }
}

/// Errors in a baseline.
pub struct BaselineErrors {
    pub errors: Vec<BaselineError>,
}

impl BaselineErrors {
    /// Records errors one by one.
    pub fn from_errors(
        relative_to: &FilePath,
        errors: &Vec<Error>,
        fields: &Vec<BaselineField>,
    ) -> (r: BaselineErrors)
        ensures
            r.errors@.len() == errors@.len(),
            forall|i: int|
                0 <= i < errors@.len() ==> (#[trigger] r.errors@[i])@ == full_record(
                    relative_to@,
                    errors@[i]@,
                ).retained(fields@),
    {
        let mut out: Vec<BaselineError> = Vec::new();
        let mut i: usize = 0;
        while i < errors.len()
            invariant
                i <= errors@.len(),
                out@.len() == i,
                forall|k: int|
                    0 <= k < i ==> (#[trigger] out@[k])@ == full_record(
                        relative_to@,
                        errors@[k]@,
                    ).retained(fields@),
            decreases errors@.len() - i,
        {
            out.push(BaselineError::from_error(relative_to, &errors[i], fields));
            i = i + 1;
        }
        BaselineErrors { errors: out }
    }
}

/// What was retained once is retained again: a record of a baseline is not changed by retaining
/// the fields of the baseline.
pub proof fn law_retaining_twice_changes_nothing(
    relative_to: PathView,
    error: ErrorView,
    fields: Seq<BaselineField>,
)
    ensures
        full_record(relative_to, error).retained(fields).retained(fields) == full_record(
            relative_to,
            error,
        ).retained(fields),
{
}

/// Retaining the fields of one baseline and then those of another one leaves what both hold.
pub proof fn law_retaining_in_turn(
    record: BaselineView,
    first: Seq<BaselineField>,
    second: Seq<BaselineField>,
)
    ensures
        record.retained(first).retained(second) == record.retained(second).retained(first),
{
}

/// A recorded path holds no backslash, and differs from the path that is recorded in nothing else.
pub proof fn law_recorded_paths_hold_no_backslash(path: PathView, relative_to: PathView)
    ensures
        !recorded_path(path, relative_to).contains('\\'),
        !path.relative_to(relative_to).text().contains('\\') ==> recorded_path(path, relative_to)
            == path.relative_to(relative_to).text(),
{
    let text = path.relative_to(relative_to).text();
    if !text.contains('\\') {
        assert forall|i: int| 0 <= i < text.len() implies with_slashes(text)[i] == text[i] by {
            assert(text.contains(text[i]));
        }
        assert(with_slashes(text) =~= text);
    }
}

} // verus!
