use vstd::prelude::*;

use crate::position::{
    cell_of, countable, lemma_cell_of, lines_before, shown, DisplayRange,
};
use crate::paths::FilePath;
use crate::report::TextRange;
use crate::source::{cut, fits, ModuleInfo, ModuleView};
use crate::stub::opt_text;
use crate::text::{cat3, chars_of, contains_name, is_text, join, joined, texts};

verus! {

/// How serious an error is.
#[derive(Clone, Copy, Debug, PartialEq, Eq, Structural)]
pub enum Severity {
    Ignore,
    Info,
    Warn,
    Error,
}

impl Severity {
    /// The place of a severity in the order of severities.
    pub open spec fn rank(self) -> int {
        match self {
            Severity::Ignore => 0,
            Severity::Info => 1,
            Severity::Warn => 2,
            Severity::Error => 3,
        }
    }

    fn get_rank(self) -> (r: u8)
        ensures
            r == self.rank(),
    {
        match self {
            Severity::Ignore => 0,
            Severity::Info => 1,
            Severity::Warn => 2,
            Severity::Error => 3,
        }
    }

    /// Whether this severity is at least `other`.
    pub fn at_least(self, other: Severity) -> (r: bool)
        ensures
            r == (self.rank() >= other.rank()),
    {
        self.get_rank() >= other.get_rank()
    }

    /// Whether errors of this severity are shown at all.
    pub fn is_enabled(self) -> (r: bool)
        ensures
            r == (self != Severity::Ignore),
    {
        match self {
            Severity::Ignore => false,
            _ => true,
        }
    }
}

/// A kind of error.
pub struct ErrorKind {
    /// The name in kebab case.
    pub name: String,
    /// The place of the kind among all kinds.
    pub rank: u32,
    pub default_severity: Severity,
    pub docs_url: String,
    /// Whether errors of this kind answer a directive in the code, such as `reveal_type`.
    pub is_directive: bool,
    /// The names that an ignore comment can give: its own and those of the kinds above it.
    pub suppression_names: Vec<String>,
}

/// A kind of error as plain text.
pub struct KindView {
    pub name: Seq<char>,
    pub rank: u32,
    pub default_severity: Severity,
    pub docs_url: Seq<char>,
    pub is_directive: bool,
    pub suppression_names: Seq<Seq<char>>,
}

impl View for ErrorKind {
    type V = KindView;

    open spec fn view(&self) -> KindView {
        KindView {
            name: self.name@,
            rank: self.rank,
            default_severity: self.default_severity,
            docs_url: self.docs_url@,
            is_directive: self.is_directive,
            suppression_names: texts(self.suppression_names@),
        }
    }
}

/// The same names once more.
pub fn dupe_names(names: &Vec<String>) -> (r: Vec<String>)
    ensures
        texts(r@) == texts(names@),
{
    let mut out: Vec<String> = Vec::new();
    let mut i: usize = 0;
    assert(texts(out@) =~= texts(names@).take(0));
    while i < names.len()
        invariant
            i <= names@.len(),
            texts(out@) == texts(names@).take(i as int),
        decreases names@.len() - i,
    {
        let ghost before = out@;
        out.push(names[i].clone());
        assert(texts(out@) =~= texts(before).push(names@[i as int]@));
        assert(texts(out@) =~= texts(names@).take(i + 1));
        i = i + 1;
    }
    assert(texts(names@).take(i as int) =~= texts(names@));
    out
}

impl ErrorKind {
    /// The same kind once more.
    pub fn dupe(&self) -> (r: ErrorKind)
        ensures
            r@ == self@,
    {
        ErrorKind {
            name: self.name.clone(),
            rank: self.rank,
            default_severity: self.default_severity,
            docs_url: self.docs_url.clone(),
            is_directive: self.is_directive,
            suppression_names: dupe_names(&self.suppression_names),
        }
    }
}

/// Whether an error was held against a baseline, and what came of it.
#[derive(Clone, Copy, Debug, PartialEq, Eq, Structural)]
pub enum BaselineStatus {
    NotConfigured,
    NotCompared,
    Unmatched,
    Matched,
}

/// A tool whose ignore comments are understood.
#[derive(Clone, Copy, Debug, PartialEq, Eq, Structural)]
pub enum Tool {
    Type,
    Pyrefly,
    Pyre,
    Pyright,
    Mypy,
    Ty,
    Zuban,
}

/// An edit that removes a suppression, or part of one.
pub struct SuppressionEdit {
    pub tool: Tool,
    pub range: TextRange,
    /// What has to stand in the range for the edit to apply.
    pub expected: String,
    pub replacement: String,
}

/// A label on a span in the file of an error, for context.
pub struct SecondaryAnnotation {
    pub range: TextRange,
    pub label: String,
}

/// A label as plain text.
pub struct AnnotationView {
    pub range: TextRange,
    pub label: Seq<char>,
}

impl View for SecondaryAnnotation {
    type V = AnnotationView;

    open spec fn view(&self) -> AnnotationView {
        AnnotationView { range: self.range, label: self.label@ }
    }
}

/// A fix that comes with an error.
pub enum ErrorQuickFix {
    ReplaceWithEnumMember { replacement: String },
    RemoveUnusedSuppression(SuppressionEdit),
}

/// A fix as plain text.
pub enum FixView {
    ReplaceWithEnumMember { replacement: Seq<char> },
    RemoveUnusedSuppression {
        tool: Tool,
        range: TextRange,
        expected: Seq<char>,
        replacement: Seq<char>,
    },
}

impl View for ErrorQuickFix {
    type V = FixView;

    open spec fn view(&self) -> FixView {
        match self {
            ErrorQuickFix::ReplaceWithEnumMember { replacement } => FixView::ReplaceWithEnumMember {
                replacement: replacement@,
            },
            ErrorQuickFix::RemoveUnusedSuppression(e) => FixView::RemoveUnusedSuppression {
                tool: e.tool,
                range: e.range,
                expected: e.expected@,
                replacement: e.replacement@,
            },
        }
    }
}

impl ErrorQuickFix {
    fn dupe(&self) -> (r: ErrorQuickFix)
        ensures
            r@ == self@,
    {
        match self {
            ErrorQuickFix::ReplaceWithEnumMember { replacement } => {
                ErrorQuickFix::ReplaceWithEnumMember { replacement: replacement.clone() }
            },
            ErrorQuickFix::RemoveUnusedSuppression(e) => ErrorQuickFix::RemoveUnusedSuppression(
                SuppressionEdit {
                    tool: e.tool,
                    range: e.range,
                    expected: e.expected.clone(),
                    replacement: e.replacement.clone(),
                },
            ),
        }
    }
}

impl From<SuppressionEdit> for ErrorQuickFix {
    fn from(edit: SuppressionEdit) -> (r: ErrorQuickFix) {
        ErrorQuickFix::RemoveUnusedSuppression(edit)
    }
}

impl vstd::std_specs::convert::FromSpecImpl<SuppressionEdit> for ErrorQuickFix {
    open spec fn obeys_from_spec() -> bool {
        true
    }

    open spec fn from_spec(edit: SuppressionEdit) -> ErrorQuickFix {
        ErrorQuickFix::RemoveUnusedSuppression(edit)
    }
}

/// An error that was found in a module.
pub struct Error {
    pub module: ModuleInfo,
    pub range: TextRange,
    pub display_range: DisplayRange,
    pub error_kind: ErrorKind,
    pub severity: Severity,
    /// The first line of the message.
    pub msg_header: String,
    /// The rest of the message, with two spaces at the beginning and after every line break.
    pub msg_details: Option<String>,
    pub secondary_annotations: Vec<SecondaryAnnotation>,
    pub quick_fixes: Vec<ErrorQuickFix>,
    pub baseline_status: BaselineStatus,
}

/// An error as plain text.
pub struct ErrorView {
    pub module: ModuleView,
    pub range: TextRange,
    pub display_range: DisplayRange,
    pub error_kind: KindView,
    pub severity: Severity,
    pub msg_header: Seq<char>,
    pub msg_details: Option<Seq<char>>,
    pub secondary_annotations: Seq<AnnotationView>,
    pub quick_fixes: Seq<FixView>,
    pub baseline_status: BaselineStatus,
}

/// Labels as plain text.
pub open spec fn annotation_views(a: Seq<SecondaryAnnotation>) -> Seq<AnnotationView> {
    a.map_values(|x: SecondaryAnnotation| x@)
}

/// Fixes as plain text.
pub open spec fn fix_views(f: Seq<ErrorQuickFix>) -> Seq<FixView> {
    f.map_values(|x: ErrorQuickFix| x@)
}

impl View for Error {
    type V = ErrorView;

    open spec fn view(&self) -> ErrorView {
        ErrorView {
            module: self.module@,
            range: self.range,
            display_range: self.display_range,
            error_kind: self.error_kind@,
            severity: self.severity,
            msg_header: self.msg_header@,
            msg_details: opt_text(self.msg_details),
            secondary_annotations: annotation_views(self.secondary_annotations@),
            quick_fixes: fix_views(self.quick_fixes@),
            baseline_status: self.baseline_status,
        }
    }
}

/// The text with two spaces after every line break.
pub open spec fn with_indented_lines(s: Seq<char>) -> Seq<char>
    decreases s.len(),
{
    if s.len() == 0 {
        Seq::empty()
    } else if s.last() == '\n' {
        with_indented_lines(s.drop_last()) + seq!['\n', ' ', ' ']
    } else {
        with_indented_lines(s.drop_last()).push(s.last())
    }
}

/// The details of a message, each from a line of its own on, with two spaces at the beginning and
/// after every line break.
pub open spec fn details_text(details: Seq<Seq<char>>) -> Option<Seq<char>> {
    if details.len() == 0 {
        None
    } else {
        Some(seq![' ', ' '] + with_indented_lines(joined(details, "\n"@)))
    }
}

fn join_details(details: &Vec<String>) -> (r: Option<String>)
    ensures
        opt_text(r) == details_text(texts(details@)),
{
    if details.len() == 0 {
        return None;
    }
    let whole = join(details, "\n");
    let chars = chars_of(whole.as_str());
    let mut out = String::new();
    out.push(' ');
    out.push(' ');
    let mut i: usize = 0;
    assert(chars@.take(0) =~= Seq::empty());
    assert(out@ =~= seq![' ', ' '] + with_indented_lines(chars@.take(0)));
    while i < chars.len()
        invariant
            i <= chars@.len(),
            out@ == seq![' ', ' '] + with_indented_lines(chars@.take(i as int)),
        decreases chars@.len() - i,
    {
        assert(chars@.take(i + 1).drop_last() =~= chars@.take(i as int));
        assert(chars@.take(i + 1).last() == chars@[i as int]);
        out.push(chars[i]);
        if chars[i] == '\n' {
            out.push(' ');
            out.push(' ');
        }
        assert(out@ =~= seq![' ', ' '] + with_indented_lines(chars@.take(i + 1)));
        i = i + 1;
    }
    assert(chars@.take(i as int) =~= chars@);
    Some(out)
}

/// Every line of the details of a message begins with two spaces.
pub proof fn law_details_are_indented(details: Seq<Seq<char>>, i: int)
    requires
        details.len() > 0,
        0 <= i < details_text(details)->0.len(),
        i == 0 || details_text(details)->0[i - 1] == '\n',
    ensures
        i + 1 < details_text(details)->0.len(),
        details_text(details)->0[i] == ' ',
        details_text(details)->0[i + 1] == ' ',
{
    let text = joined(details, "\n"@);
    let inner = with_indented_lines(text);
    assert(details_text(details)->0 =~= seq![' ', ' '] + inner);
    if i > 0 {
        lemma_indented(text, i - 3);
    }
}

/// Behind every line break of an indented text stand two spaces.
proof fn lemma_indented(s: Seq<char>, k: int)
    requires
        0 <= k < with_indented_lines(s).len(),
        with_indented_lines(s)[k] == '\n',
    ensures
        k + 2 < with_indented_lines(s).len(),
        with_indented_lines(s)[k + 1] == ' ',
        with_indented_lines(s)[k + 2] == ' ',
    decreases s.len(),
{
    let before = with_indented_lines(s.drop_last());
    if k < before.len() {
        lemma_indented(s.drop_last(), k);
    }
}

impl ErrorView {
    /// Whether the range lies in the module and is shown as it should be.
    pub open spec fn wf(self) -> bool {
        &&& countable(self.module.contents)
        &&& fits(self.module.contents, self.range)
        &&& shown(self.module, self.range, self.display_range)
    }

    /// The whole message.
    pub open spec fn msg(self) -> Seq<char> {
        match self.msg_details {
            Some(details) => self.msg_header + "\n"@ + details,
            None => self.msg_header,
        }
    }
}

impl Error {
    /// An error of a kind at a range of a module.
    pub fn new(
        module: ModuleInfo,
        range: TextRange,
        header: String,
        details: Vec<String>,
        error_kind: ErrorKind,
    ) -> (r: Error)
        requires
            countable(module.contents@),
            fits(module.contents@, range),
        ensures
            r@.wf(),
            r@.module == module@,
            r@.range == range,
            r@.error_kind == error_kind@,
            r@.severity == error_kind.default_severity,
            r@.msg_header == header@,
            r@.msg_details == details_text(texts(details@)),
            r@.secondary_annotations.len() == 0,
            r@.quick_fixes.len() == 0,
            r@.baseline_status == BaselineStatus::NotConfigured,
    {
        let display_range = module.display_range(range);
        let msg_details = join_details(&details);
        let severity = error_kind.default_severity;
        Error {
            module,
            range,
            display_range,
            error_kind,
            severity,
            msg_header: header,
            msg_details,
            secondary_annotations: Vec::new(),
            quick_fixes: Vec::new(),
            baseline_status: BaselineStatus::NotConfigured,
        }
    }

    /// The same error once more.
    pub fn dupe(&self) -> (r: Error)
        ensures
            r@ == self@,
    {
        let mut annotations: Vec<SecondaryAnnotation> = Vec::new();
        let mut i: usize = 0;
        let ghost wanted = annotation_views(self.secondary_annotations@);
        assert(annotation_views(annotations@) =~= wanted.take(0));
        while i < self.secondary_annotations.len()
            invariant
                i <= self.secondary_annotations@.len(),
                wanted == annotation_views(self.secondary_annotations@),
                annotation_views(annotations@) == wanted.take(i as int),
            decreases self.secondary_annotations@.len() - i,
        {
            let ghost before = annotations@;
            let a = &self.secondary_annotations[i];
            let copy = SecondaryAnnotation { range: a.range, label: a.label.clone() };
            annotations.push(copy);
            assert(annotation_views(annotations@) =~= annotation_views(before).push(copy@));
            assert(annotation_views(annotations@) =~= wanted.take(i + 1));
            i = i + 1;
        }
        assert(wanted.take(i as int) =~= wanted);
        let mut fixes: Vec<ErrorQuickFix> = Vec::new();
        let mut k: usize = 0;
        let ghost wanted_fixes = fix_views(self.quick_fixes@);
        assert(fix_views(fixes@) =~= wanted_fixes.take(0));
        while k < self.quick_fixes.len()
            invariant
                k <= self.quick_fixes@.len(),
                wanted_fixes == fix_views(self.quick_fixes@),
                fix_views(fixes@) == wanted_fixes.take(k as int),
            decreases self.quick_fixes@.len() - k,
        {
            let ghost before = fixes@;
            let copy = self.quick_fixes[k].dupe();
            fixes.push(copy);
            assert(fix_views(fixes@) =~= fix_views(before).push(copy@));
            assert(fix_views(fixes@) =~= wanted_fixes.take(k + 1));
            k = k + 1;
        }
        assert(wanted_fixes.take(k as int) =~= wanted_fixes);
        Error {
            module: self.module.dupe(),
            range: self.range,
            display_range: self.display_range,
            error_kind: self.error_kind.dupe(),
            severity: self.severity,
            msg_header: self.msg_header.clone(),
            msg_details: match &self.msg_details {
                Some(details) => Some(details.clone()),
                None => None,
            },
            secondary_annotations: annotations,
            quick_fixes: fixes,
            baseline_status: self.baseline_status,
        }
    }

    /// The same error with a severity.
    pub fn with_severity(&self, severity: Severity) -> (r: Error)
        ensures
            r@ == (ErrorView { severity, ..self@ }),
    {
        let mut r = self.dupe();
        r.severity = severity;
        r
    }

    /// The error with what came of comparing it with a baseline.
    pub fn with_baseline_status(self, baseline_status: BaselineStatus) -> (r: Error)
        ensures
            r@ == (ErrorView { baseline_status, ..self@ }),
    {
        let mut r = self;
        r.baseline_status = baseline_status;
        r
    }

    pub fn baseline_status(&self) -> (r: BaselineStatus)
        ensures
            r == self@.baseline_status,
    {
        self.baseline_status
    }

    pub fn severity(&self) -> (r: Severity)
        ensures
            r == self@.severity,
    {
        self.severity
    }

    /// Adds a label on a span of the error's module.
    pub fn with_annotation(self, range: TextRange, label: String) -> (r: Error)
        ensures
            r@ == (ErrorView {
                secondary_annotations: self@.secondary_annotations.push(
                    AnnotationView { range, label: label@ },
                ),
                ..self@
            }),
    {
        let mut r = self;
        let ghost before = r.secondary_annotations@;
        let a = SecondaryAnnotation { range, label };
        r.secondary_annotations.push(a);
        assert(annotation_views(r.secondary_annotations@) =~= annotation_views(before).push(a@));
        r
    }

    /// Adds a fix.
    pub fn with_quick_fix(self, quick_fix: ErrorQuickFix) -> (r: Error)
        ensures
            r@ == (ErrorView { quick_fixes: self@.quick_fixes.push(quick_fix@), ..self@ }),
    {
        let mut r = self;
        let ghost before = r.quick_fixes@;
        r.quick_fixes.push(quick_fix);
        assert(fix_views(r.quick_fixes@) =~= fix_views(before).push(quick_fix@));
        r
    }

    pub fn display_range(&self) -> (r: &DisplayRange)
        ensures
            *r == self@.display_range,
    {
        &self.display_range
    }

    pub fn path(&self) -> (r: &FilePath)
        ensures
            r@ == self@.module.path,
    {
        &self.module.path
    }

    pub fn module(&self) -> (r: &ModuleInfo)
        ensures
            r@ == self@.module,
    {
        &self.module
    }

    pub fn range(&self) -> (r: TextRange)
        ensures
            r == self@.range,
    {
        self.range
    }

    pub fn msg_header(&self) -> (r: &String)
        ensures
            r@ == self@.msg_header,
    {
        &self.msg_header
    }

    pub fn msg_details(&self) -> (r: Option<&String>)
        ensures
            match r {
                Some(t) => self@.msg_details == Some(t@),
                None => self@.msg_details is None,
            },
    {
        match &self.msg_details {
            Some(t) => Some(t),
            None => None,
        }
    }

    /// The whole message.
    pub fn msg(&self) -> (r: String)
        ensures
            r@ == self@.msg(),
    {
        match &self.msg_details {
            Some(details) => cat3(self.msg_header.as_str(), "\n", details.as_str()),
            None => self.msg_header.clone(),
        }
    }

    /// Whether an ignore comment applies to the error. `ignored` are the kinds that the comments
    /// of the enabled tools ignore where the error is shown. An error about an unused ignore
    /// comment cannot be ignored itself; any other one also by the name of a kind above its own.
    pub fn is_ignored(&self, ignored: &Vec<String>) -> (r: bool)
        ensures
            r == (self@.error_kind.name != "unused-ignore"@ && exists|i: int|
                0 <= i < self@.error_kind.suppression_names.len() && texts(ignored@).contains(
                    #[trigger] self@.error_kind.suppression_names[i],
                )),
    {
        if is_text(&self.error_kind.name, "unused-ignore") {
            return false;
        }
        let names = &self.error_kind.suppression_names;
        let mut i: usize = 0;
        while i < names.len()
            invariant
                i <= names@.len(),
                names == self.error_kind.suppression_names,
                forall|k: int|
                    0 <= k < i ==> !texts(ignored@).contains(#[trigger] texts(names@)[k]),
                self@.error_kind.name != "unused-ignore"@,
            decreases names@.len() - i,
        {
            if contains_name(ignored, names[i].as_str()) {
                assert(self@.error_kind.suppression_names[i as int] == names@[i as int]@);
                return true;
            }
            assert(texts(names@)[i as int] == names@[i as int]@);
            i = i + 1;
        }
        false
    }

    pub fn error_kind(&self) -> (r: &ErrorKind)
        ensures
            r@ == self@.error_kind,
    {
        &self.error_kind
    }

    pub fn secondary_annotations(&self) -> (r: &Vec<SecondaryAnnotation>)
        ensures
            annotation_views(r@) == self@.secondary_annotations,
    {
        &self.secondary_annotations
    }

    pub fn quick_fixes(&self) -> (r: &Vec<ErrorQuickFix>)
        ensures
            fix_views(r@) == self@.quick_fixes,
    {
        &self.quick_fixes
    }

    /// The cell of a notebook that the error begins in, counted from 0.
    pub fn get_notebook_cell(&self) -> (r: Option<usize>)
        requires
            self@.wf(),
        ensures
            ({
                let s = self@.module.contents;
                let line = lines_before(s, cut(s, self@.range.start as nat));
                match cell_of(self@.module.cells, line as int) {
                    Some(c) => r == Some(c as usize),
                    None => r is None,
                }
            }),
    {
        let known: usize = self.module.cells.len();
        proof {
            let s = self.module.contents@;
            lemma_cell_of(
                self.module.cells@,
                lines_before(s, cut(s, self.range.start as nat)) as int,
            );
            assert(known == self.module.cells@.len());
        }
        match self.display_range.start.cell {
            Some(c) => Some(c - 1),
            None => None,
        }
    }
}

} // verus!
