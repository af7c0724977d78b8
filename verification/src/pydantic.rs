use vstd::prelude::*;

use crate::annotation::{dupe_type, DataclassFieldKeywords};
use crate::expr::CallExpr;
use crate::lit_int::LitInt;
use crate::metadata::{ClassMetadata, DataclassMetadata};
use crate::report::{report1, ErrorCollector, ReportView, Rule, TextRange};
use crate::solver::{AnswersSolver, LookupAnswer};
use crate::text::{cat5, cat7};
use crate::types::{Lit, Type};

verus! {

/// The integer literal that a type is.
pub open spec fn int_literal(ty: Type) -> Option<LitInt> {
    match ty {
        Type::Literal(lit) => match lit.value {
            Lit::Int(n) => Some(n),
            _ => None,
        },
        _ => None,
    }
}

/// The integer literal that a type is. Range constraints are only enforced on those.
fn int_literal_from_type(ty: &Type) -> (r: Option<&LitInt>)
    ensures
        r is Some == int_literal(*ty) is Some,
        r is Some ==> *r->0 == int_literal(*ty)->0,
{
    match ty {
        Type::Literal(lit) => match &lit.value {
            Lit::Int(n) => Some(n),
            _ => None,
        },
        _ => None,
    }
}

/// The four kinds of range constraints.
#[derive(Clone, Copy, Debug, PartialEq, Eq, Structural)]
pub enum Bound {
    Gt,
    Ge,
    Lt,
    Le,
}

impl Bound {
    /// The keyword that gives the constraint.
    pub open spec fn keyword(self) -> Seq<char> {
        match self {
            Bound::Gt => "gt"@,
            Bound::Ge => "ge"@,
            Bound::Lt => "lt"@,
            Bound::Le => "le"@,
        }
    }

    fn label(&self) -> (r: &'static str)
        ensures
            r@ == self.keyword(),
    {
        match self {
            Bound::Gt => "gt",
            Bound::Ge => "ge",
            Bound::Lt => "lt",
            Bound::Le => "le",
        }
    }

    /// Whether a value keeps to the constraint.
    pub open spec fn allows(self, value: int, limit: int) -> bool {
        match self {
            Bound::Gt => value > limit,
            Bound::Ge => value >= limit,
            Bound::Lt => value < limit,
            Bound::Le => value <= limit,
        }
    }

    fn violates(&self, value: &LitInt, limit: &LitInt) -> (r: bool)
        ensures
            r == !self.allows(value.value(), limit.value()),
    {
        match self {
            Bound::Gt => !limit.less(value),
            Bound::Ge => value.less(limit),
            Bound::Lt => !value.less(limit),
            Bound::Le => limit.less(value),
        }
    }
}

/// The range constraints of a field.
pub struct PydanticRangeConstraints {
    pub gt: Option<Type>,
    pub ge: Option<Type>,
    pub lt: Option<Type>,
    pub le: Option<Type>,
}

impl PydanticRangeConstraints {
    /// The constraints that the options of a field give.
    pub open spec fn of(keywords: DataclassFieldKeywords) -> PydanticRangeConstraints {
        PydanticRangeConstraints {
            gt: keywords.gt,
            ge: keywords.ge,
            lt: keywords.lt,
            le: keywords.le,
        }
    }

    /// Whether there is any constraint.
    pub open spec fn any(self) -> bool {
        self.gt is Some || self.ge is Some || self.lt is Some || self.le is Some
    }

    /// The constraints that the options of a field give, if any.
    pub fn from_keywords(keywords: &DataclassFieldKeywords) -> (r: Option<PydanticRangeConstraints>)
        ensures
            r == (if PydanticRangeConstraints::of(*keywords).any() {
                Some(PydanticRangeConstraints::of(*keywords))
            } else {
                None
            }),
    {
        if keywords.gt.is_none() && keywords.ge.is_none() && keywords.lt.is_none()
            && keywords.le.is_none() {
            return None;
        }
        Some(
            PydanticRangeConstraints {
                gt: dupe_type(&keywords.gt),
                ge: dupe_type(&keywords.ge),
                lt: dupe_type(&keywords.lt),
                le: dupe_type(&keywords.le),
            },
        )
    }

    pub fn dupe(&self) -> (r: PydanticRangeConstraints)
        ensures
            r == *self,
    {
        PydanticRangeConstraints {
            gt: dupe_type(&self.gt),
            ge: dupe_type(&self.ge),
            lt: dupe_type(&self.lt),
            le: dupe_type(&self.le),
        }
    }
}

/// Which value a violated constraint is reported for.
#[derive(Clone, Copy, Debug, PartialEq, Eq, Structural)]
pub enum Checked {
    Default,
    Argument,
}

impl Checked {
    pub open spec fn opening(self) -> Seq<char> {
        match self {
            Checked::Default => "Default value `"@,
            Checked::Argument => "Argument value `"@,
        }
    }

    fn get_opening(&self) -> (r: &'static str)
        ensures
            r@ == self.opening(),
    {
        match self {
            Checked::Default => "Default value `",
            Checked::Argument => "Argument value `",
        }
    }
}

impl<Ans: LookupAnswer> AnswersSolver<Ans> {
    /// The report on a value that does not keep to a constraint. Only integer literals are
    /// compared.
    pub open spec fn violation(
        self,
        what: Checked,
        value: Type,
        bound: Bound,
        limit: Option<Type>,
        field_name: Seq<char>,
        range: TextRange,
    ) -> Seq<ReportView> {
        match (int_literal(value), limit) {
            (Some(v), Some(limit)) => match int_literal(limit) {
                Some(l) => if bound.allows(v.value(), l.value()) {
                    Seq::empty()
                } else {
                    seq![
                        report1(
                            range,
                            Rule::BadArgumentType,
                            what.opening() + self.answers.shown(value) + "` violates Pydantic `"@
                                + bound.keyword() + "` constraint `"@ + self.answers.shown(limit)
                                + "` for field `"@ + field_name + "`"@,
                        ),
                    ]
                },
                None => Seq::empty(),
            },
            _ => Seq::empty(),
        }
    }

    fn check_violation(
        &self,
        what: Checked,
        value: &Type,
        bound: Bound,
        limit: &Option<Type>,
        field_name: &str,
        range: TextRange,
        errors: &mut ErrorCollector,
    )
        ensures
            final(errors)@ == old(errors)@ + self.violation(
                what,
                *value,
                bound,
                *limit,
                field_name@,
                range,
            ),
    {
        assert(errors@ + Seq::<ReportView>::empty() =~= errors@);
        if let Some(v) = int_literal_from_type(value) {
            if let Some(limit) = limit {
                if let Some(l) = int_literal_from_type(limit) {
                    if bound.violates(v, l) {
                        let shown = self.answers.display(value);
                        let shown_limit = self.answers.display(limit);
                        let start = cat5(
                            what.get_opening(),
                            shown.as_str(),
                            "` violates Pydantic `",
                            bound.label(),
                            "` constraint `",
                        );
                        let line = cat5(
                            start.as_str(),
                            shown_limit.as_str(),
                            "` for field `",
                            field_name,
                            "`",
                        );
                        errors.error(range, Rule::BadArgumentType, line);
                    }
                }
            }
        }
    }

    /// The reports on a value that does not keep to the constraints of a field.
    pub open spec fn violations(
        self,
        what: Checked,
        value: Type,
        constraints: PydanticRangeConstraints,
        field_name: Seq<char>,
        range: TextRange,
    ) -> Seq<ReportView> {
        self.violation(what, value, Bound::Gt, constraints.gt, field_name, range) + self.violation(
            what,
            value,
            Bound::Ge,
            constraints.ge,
            field_name,
            range,
        ) + self.violation(what, value, Bound::Lt, constraints.lt, field_name, range)
            + self.violation(what, value, Bound::Le, constraints.le, field_name, range)
    }

    pub(crate) fn check_violations(
        &self,
        what: Checked,
        value: &Type,
        constraints: &PydanticRangeConstraints,
        field_name: &str,
        range: TextRange,
        errors: &mut ErrorCollector,
    )
        ensures
            final(errors)@ == old(errors)@ + self.violations(
                what,
                *value,
                *constraints,
                field_name@,
                range,
            ),
    {
        self.check_violation(what, value, Bound::Gt, &constraints.gt, field_name, range, errors);
        self.check_violation(what, value, Bound::Ge, &constraints.ge, field_name, range, errors);
        self.check_violation(what, value, Bound::Lt, &constraints.lt, field_name, range, errors);
        self.check_violation(what, value, Bound::Le, &constraints.le, field_name, range, errors);
        assert(errors@ =~= old(errors)@ + self.violations(
            what,
            *value,
            *constraints,
            field_name@,
            range,
        ));
    }

    /// The report on a constraint whose value does not fit the type of the field.
    pub open spec fn limit_report(
        self,
        bound: Bound,
        limit: Option<Type>,
        field_ty: Type,
        range: TextRange,
    ) -> Seq<ReportView> {
        match limit {
            Some(limit) => if self.subset_eq(limit, field_ty) {
                Seq::empty()
            } else {
                seq![
                    report1(
                        range,
                        Rule::BadArgumentType,
                        "Pydantic `"@ + bound.keyword() + "` value has type `"@
                            + self.answers.shown(limit)
                            + "`, which is not assignable to field type `"@ + self.answers.shown(
                            field_ty,
                        ) + "`"@,
                    ),
                ]
            },
            None => Seq::empty(),
        }
    }

    fn check_limit(
        &self,
        bound: Bound,
        limit: &Option<Type>,
        field_ty: &Type,
        range: TextRange,
        errors: &mut ErrorCollector,
    )
        ensures
            final(errors)@ == old(errors)@ + self.limit_report(bound, *limit, *field_ty, range),
    {
        assert(errors@ + Seq::<ReportView>::empty() =~= errors@);
        if let Some(limit) = limit {
            if !self.is_subset_eq(limit, field_ty) {
                let shown = self.answers.display(limit);
                let shown_field = self.answers.display(field_ty);
                let line = cat7(
                    "Pydantic `",
                    bound.label(),
                    "` value has type `",
                    shown.as_str(),
                    "`, which is not assignable to field type `",
                    shown_field.as_str(),
                    "`",
                );
                errors.error(range, Rule::BadArgumentType, line);
            }
        }
    }

    /// The reports on a default that does not keep to the constraints.
    pub open spec fn default_violations(
        self,
        field_name: Seq<char>,
        keywords: DataclassFieldKeywords,
        range: TextRange,
    ) -> Seq<ReportView> {
        match keywords.default {
            Some(default) => self.violations(
                Checked::Default,
                default,
                PydanticRangeConstraints::of(keywords),
                field_name,
                range,
            ),
            None => Seq::empty(),
        }
    }

    fn check_pydantic_range_default(
        &self,
        field_name: &str,
        keywords: &DataclassFieldKeywords,
        range: TextRange,
        errors: &mut ErrorCollector,
    )
        ensures
            final(errors)@ == old(errors)@ + self.default_violations(field_name@, *keywords, range),
    {
        assert(errors@ + Seq::<ReportView>::empty() =~= errors@);
        if let Some(default) = &keywords.default {
            let constraints = PydanticRangeConstraints {
                gt: dupe_type(&keywords.gt),
                ge: dupe_type(&keywords.ge),
                lt: dupe_type(&keywords.lt),
                le: dupe_type(&keywords.le),
            };
            self.check_violations(
                Checked::Default,
                default,
                &constraints,
                field_name,
                range,
                errors,
            );
        }
    }

    /// The reports on the range constraints of a field: on limits that do not fit the type of the
    /// field, and on a default that does not keep to them.
    pub open spec fn range_reports(
        self,
        field_name: Seq<char>,
        field_ty: Type,
        keywords: DataclassFieldKeywords,
        range: TextRange,
    ) -> Seq<ReportView> {
        self.limit_report(Bound::Gt, keywords.gt, field_ty, range) + self.limit_report(
            Bound::Lt,
            keywords.lt,
            field_ty,
            range,
        ) + self.limit_report(Bound::Ge, keywords.ge, field_ty, range) + self.limit_report(
            Bound::Le,
            keywords.le,
            field_ty,
            range,
        ) + self.default_violations(field_name, keywords, range)
    }

    /// Reports on the range constraints of a field.
    pub fn check_pydantic_range_constraints(
        &self,
        field_name: &str,
        field_ty: &Type,
        keywords: &DataclassFieldKeywords,
        range: TextRange,
        errors: &mut ErrorCollector,
    )
        ensures
            final(errors)@ == old(errors)@ + self.range_reports(
                field_name@,
                *field_ty,
                *keywords,
                range,
            ),
    {
        self.check_limit(Bound::Gt, &keywords.gt, field_ty, range, errors);
        self.check_limit(Bound::Lt, &keywords.lt, field_ty, range, errors);
        self.check_limit(Bound::Ge, &keywords.ge, field_ty, range, errors);
        self.check_limit(Bound::Le, &keywords.le, field_ty, range, errors);
        self.check_pydantic_range_default(field_name, keywords, range, errors);
        assert(errors@ =~= old(errors)@ + self.range_reports(
            field_name@,
            *field_ty,
            *keywords,
            range,
        ));
    }

    /// The options of a pydantic field that the first field specifier inside `Annotated` gives.
    pub open spec fn annotated_options(
        self,
        calls: Seq<CallExpr>,
        metadata: ClassMetadata,
    ) -> Option<DataclassFieldKeywords> {
        if metadata.dataclass is Some && metadata.pydantic() {
            self.first_specified(calls, metadata.dataclass->0)
        } else {
            None
        }
    }

    pub open spec fn first_specified(self, calls: Seq<CallExpr>, dm: DataclassMetadata) -> Option<
        DataclassFieldKeywords,
    >
        decreases calls.len(),
    {
        if calls.len() == 0 {
            None
        } else {
            match self.specified(calls[0], dm) {
                Some(keywords) => Some(keywords),
                None => self.first_specified(calls.drop_first(), dm),
            }
        }
    }

    /// The options of a pydantic field that is declared as
    /// `field: Annotated[some_type, Field(some_keyword=<value>)]`. The calls are those inside
    /// `Annotated`.
    pub fn extract_pydantic_field_from_annotation(
        &self,
        calls: &Vec<CallExpr>,
        metadata: &ClassMetadata,
    ) -> (r: Option<DataclassFieldKeywords>)
        ensures
            r == self.annotated_options(calls@, *metadata),
    {
        match &metadata.dataclass {
            None => None,
            Some(dm) => {
                if !metadata.is_pydantic_model() {
                    return None;
                }
                let mut i: usize = 0;
                assert(calls@.skip(0) =~= calls@);
                while i < calls.len()
                    invariant
                        i <= calls@.len(),
                        self.annotated_options(calls@, *metadata) == self.first_specified(
                            calls@.skip(i as int),
                            *dm,
                        ),
                    decreases calls@.len() - i,
                {
                    assert(calls@.skip(i as int).drop_first() =~= calls@.skip(i + 1));
                    if let Some(keywords) = self.compute_dataclass_field_initialization(
                        &calls[i],
                        dm,
                    ) {
                        return Some(keywords);
                    }
                    i = i + 1;
                }
                None
            },
        }
    }
}

/// The reports on range constraints are in their place: a default that keeps to every constraint,
/// with limits that fit the type of the field, is not reported.
pub proof fn law_fitting_defaults_pass<Ans: LookupAnswer>(
    solver: AnswersSolver<Ans>,
    field_name: Seq<char>,
    field_ty: Type,
    keywords: DataclassFieldKeywords,
    range: TextRange,
    value: LitInt,
    low: LitInt,
    high: LitInt,
)
    requires
        keywords.default matches Some(d) && int_literal(d) == Some(value),
        keywords.ge matches Some(l) && int_literal(l) == Some(low) && solver.subset_eq(l, field_ty),
        keywords.le matches Some(h) && int_literal(h) == Some(high) && solver.subset_eq(
            h,
            field_ty,
        ),
        keywords.gt is None,
        keywords.lt is None,
    ensures
        solver.range_reports(field_name, field_ty, keywords, range).len() == 0 <==> low.value()
            <= value.value() <= high.value(),
{
}

} // verus!
