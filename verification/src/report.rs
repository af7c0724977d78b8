use vstd::prelude::*;

verus! {

/// A half-open range of byte offsets in a source text.
#[derive(Clone, Copy, Debug, PartialEq, Eq, Structural)]
pub struct TextRange {
    pub start: u32,
    pub end: u32,
}

impl TextRange {
    /// A range runs forwards.
    pub open spec fn wf(self) -> bool {
        self.start <= self.end
    }

    /// The range from `start` to `end`.
    pub fn new(start: u32, end: u32) -> (r: TextRange)
        requires
            start <= end,
        ensures
            r.start == start,
            r.end == end,
            r.wf(),
    {
        TextRange { start, end }
    }

    /// Whether `other` lies within this range.
    pub open spec fn covers(self, other: TextRange) -> bool {
        self.start <= other.start && other.end <= self.end
    }

    /// Whether `other` lies within this range.
    pub fn contains_range(&self, other: TextRange) -> (r: bool)
        ensures
            r == self.covers(other),
    {
        self.start <= other.start && other.end <= self.end
    }
}

/// The rules on classes whose violations are reported.
#[derive(Clone, Copy, Debug, PartialEq, Eq, Structural)]
pub enum Rule {
    BadArgumentType,
    BadClassDefinition,
    BadOverride,
    BadOverrideMutableAttribute,
    BadOverrideParamName,
    BadTypedDictKey,
    ImplicitAnyAttribute,
    ImplicitlyDefinedAttribute,
    InconsistentInheritance,
    InvalidAnnotation,
    InvalidInheritance,
    InvalidLiteral,
    InvalidTypeVar,
    MissingAttribute,
    MissingOverrideDecorator,
    NoAccess,
    ProtocolImplicitlyDefinedAttribute,
    ReadOnly,
    UnannotatedProtocolMember,
    /// A rule on something else than classes, known by a number.
    Other(u64),
}

/// A violation of a rule at some place in the source. The first line is the headline, the
/// others explain it.
pub struct Report {
    pub range: TextRange,
    pub rule: Rule,
    pub lines: Vec<String>,
}

/// What a report says.
pub struct ReportView {
    pub range: TextRange,
    pub rule: Rule,
    pub lines: Seq<Seq<char>>,
}

impl View for Report {
    type V = ReportView;

    open spec fn view(&self) -> ReportView {
        ReportView { range: self.range, rule: self.rule, lines: crate::text::texts(self.lines@) }
    }
}

/// A report of a single line.
pub open spec fn report1(range: TextRange, rule: Rule, line: Seq<char>) -> ReportView {
    ReportView { range, rule, lines: seq![line] }
}

/// A report of two lines.
pub open spec fn report2(
    range: TextRange,
    rule: Rule,
    headline: Seq<char>,
    detail: Seq<char>,
) -> ReportView {
    ReportView { range, rule, lines: seq![headline, detail] }
}

/// The reports made so far, in the order in which they were made.
pub struct ErrorCollector {
    pub reports: Vec<Report>,
}

impl View for ErrorCollector {
    type V = Seq<ReportView>;

    open spec fn view(&self) -> Seq<ReportView> {
        self.reports@.map_values(|r: Report| r@)
    }
}

impl ErrorCollector {
    /// A collector without reports.
    pub fn new() -> (r: Self)
        ensures
            r@ == Seq::<ReportView>::empty(),
    {
        let r = ErrorCollector { reports: Vec::new() };
        assert(r@ =~= Seq::empty());
        r
    }

    /// Whether nothing was reported.
    pub fn is_empty(&self) -> (r: bool)
        ensures
            r == (self@.len() == 0),
    {
        self.reports.len() == 0
    }

    /// Adds a report of any number of lines.
    pub fn add(&mut self, range: TextRange, rule: Rule, lines: Vec<String>)
        ensures
            final(self)@ == old(self)@.push(
                (ReportView { range, rule, lines: crate::text::texts(lines@) }),
            ),
    {
        self.reports.push(Report { range, rule, lines });
        assert(self@ =~= old(self)@.push(
            ReportView { range, rule, lines: crate::text::texts(lines@) },
        ));
    }

    /// Adds a report of a single line.
    pub fn error(&mut self, range: TextRange, rule: Rule, line: String)
        ensures
            final(self)@ == old(self)@.push(report1(range, rule, line@)),
    {
        let mut lines: Vec<String> = Vec::new();
        lines.push(line);
        assert(crate::text::texts(lines@) =~= seq![line@]);
        self.add(range, rule, lines);
    }

    /// Adds a report of two lines.
    pub fn error2(&mut self, range: TextRange, rule: Rule, headline: String, detail: String)
        ensures
            final(self)@ == old(self)@.push(report2(range, rule, headline@, detail@)),
    {
        let mut lines: Vec<String> = Vec::new();
        lines.push(headline);
        lines.push(detail);
        assert(crate::text::texts(lines@) =~= seq![headline@, detail@]);
        self.add(range, rule, lines);
    }
}

} // verus!
