use starlark_map::small_map::SmallMap;
use vstd::prelude::*;

use crate::dataclass_fields::FieldEntry;
use crate::expr::{CallArg, CallKeyword};
use crate::metadata::DataclassMetadata;
use crate::ordered::{
    lemma_value_after_entry, name_entries, name_map, name_map_get, name_map_insert, value_at,
};
use crate::pydantic::{Checked, PydanticRangeConstraints};
use crate::report::{ErrorCollector, ReportView};
use crate::solver::{AnswersSolver, LookupAnswer};
use crate::types::Class;

verus! {

/// The range constraints of a constructor parameter, with the field they belong to.
pub struct PydanticParamConstraint {
    pub field_name: String,
    pub constraints: PydanticRangeConstraints,
}

impl PydanticParamConstraint {
    pub fn dupe(&self) -> (r: PydanticParamConstraint)
        ensures
            r == *self,
    {
        PydanticParamConstraint {
            field_name: self.field_name.clone(),
            constraints: self.constraints.dupe(),
        }
    }
}

/// A name under which a constrained field can be passed.
pub type NamedConstraint = (String, PydanticParamConstraint);

/// The constraint of a field.
pub open spec fn constraint_of(entry: FieldEntry) -> PydanticParamConstraint {
    PydanticParamConstraint {
        field_name: entry.0,
        constraints: PydanticRangeConstraints::of(entry.2),
    }
}

/// Whether a field is passed to the constructor and constrained.
pub open spec fn constrained(entry: FieldEntry) -> bool {
    entry.2.init && PydanticRangeConstraints::of(entry.2).any()
}

/// The names under which a constrained field can be passed.
pub open spec fn own_names(entry: FieldEntry) -> Seq<NamedConstraint> {
    if !constrained(entry) {
        Seq::empty()
    } else {
        (if entry.2.init_by_name {
            seq![(entry.0, constraint_of(entry))]
        } else {
            Seq::empty()
        }) + match entry.2.init_by_alias {
            Some(alias) => seq![(alias, constraint_of(entry))],
            None => Seq::empty(),
        }
    }
}

/// The names under which constrained fields can be passed.
pub open spec fn constrained_names(entries: Seq<FieldEntry>) -> Seq<NamedConstraint>
    decreases entries.len(),
{
    if entries.len() == 0 {
        Seq::empty()
    } else {
        constrained_names(entries.drop_last()) + own_names(entries.last())
    }
}

/// The constraints by position: one for each name under which a constrained field can be passed,
/// unless it can only be passed by keyword.
pub open spec fn constrained_positions(entries: Seq<FieldEntry>) -> Seq<PydanticParamConstraint>
    decreases entries.len(),
{
    if entries.len() == 0 {
        Seq::empty()
    } else if entries.last().2.keyword_only() {
        constrained_positions(entries.drop_last())
    } else {
        constrained_positions(entries.drop_last()) + own_names(entries.last()).map_values(
            |n: NamedConstraint| n.1,
        )
    }
}

/// The constraint of the last of the names that is `name`.
pub open spec fn constraint_named(names: Seq<NamedConstraint>, name: Seq<char>) -> Option<
    PydanticParamConstraint,
>
    decreases names.len(),
{
    if names.len() == 0 {
        None
    } else if names.last().0@ == name {
        Some(names.last().1)
    } else {
        constraint_named(names.drop_last(), name)
    }
}

/// The constraints of the constructor parameters of a model by name.
pub struct ConstraintParams {
    pub index: SmallMap<String, usize>,
    pub by_name: Vec<PydanticParamConstraint>,
}

impl ConstraintParams {
    /// Whether names lead to what they stand for.
    pub open spec fn holds(self, names: Seq<NamedConstraint>) -> bool {
        &&& forall|name: Seq<char>| #[trigger] self.named(name) == constraint_named(names, name)
        &&& forall|name: Seq<char>| #[trigger]
            value_at(name_entries(self.index), name) is Some ==> value_at(
                name_entries(self.index),
                name,
            )->0 < self.by_name@.len()
    }

    pub open spec fn named(self, name: Seq<char>) -> Option<PydanticParamConstraint> {
        match value_at(name_entries(self.index), name) {
            Some(i) => if i < self.by_name@.len() {
                Some(self.by_name@[i as int])
            } else {
                None
            },
            None => None,
        }
    }

    fn get_named(&self, name: &str) -> (r: Option<&PydanticParamConstraint>)
        ensures
            r is Some == self.named(name@) is Some,
            r is Some ==> *r->0 == self.named(name@)->0,
    {
        match name_map_get(&self.index, name) {
            Some(i) => if i < self.by_name.len() {
                Some(&self.by_name[i])
            } else {
                None
            },
            None => None,
        }
    }

    fn insert(&mut self, name: &String, info: &PydanticParamConstraint, Ghost(names): Ghost<
        Seq<NamedConstraint>,
    >)
        requires
            old(self).holds(names),
        ensures
            final(self).holds(names.push((*name, *info))),
    {
        let ghost before = *self;
        let at: usize = self.by_name.len();
        self.by_name.push(info.dupe());
        name_map_insert(&mut self.index, name.clone(), at);
        proof {
            let after = names.push((*name, *info));
            assert(after.drop_last() =~= names);
            assert forall|n: Seq<char>| #[trigger]
                value_at(name_entries(self.index), n) is Some implies value_at(
                name_entries(self.index),
                n,
            )->0 < self.by_name@.len() by {
                lemma_value_after_entry(name_entries(before.index), name@, at, n);
            }
            assert forall|n: Seq<char>| #[trigger] self.named(n) == constraint_named(after, n) by {
                lemma_value_after_entry(name_entries(before.index), name@, at, n);
                assert(before.named(n) == constraint_named(names, n));
            }
        }
    }
}

impl<Ans: LookupAnswer> AnswersSolver<Ans> {
    fn collect_pydantic_constraint_params(&self, cls: &Class, dataclass: &DataclassMetadata) -> (r: (
        ConstraintParams,
        Vec<PydanticParamConstraint>,
    ))
        ensures
            r.0.holds(
                constrained_names(
                    self.ordered_fields(*cls, *dataclass, true, self.kw_only_of(*cls)),
                ),
            ),
            r.1@ == constrained_positions(
                self.ordered_fields(*cls, *dataclass, true, self.kw_only_of(*cls)),
            ),
    {
        let kw_only_by_class = self.compute_kw_only_fields_by_class(cls);
        let entries = self.iter_fields(cls, dataclass, true, &kw_only_by_class);
        let mut params = ConstraintParams {
            index: name_map(),
            by_name: Vec::new(),
        };
        let mut positions: Vec<PydanticParamConstraint> = Vec::new();
        let mut i: usize = 0;
        assert(entries@.take(0) =~= Seq::empty());
        while i < entries.len()
            invariant
                i <= entries@.len(),
                params.holds(constrained_names(entries@.take(i as int))),
                positions@ == constrained_positions(entries@.take(i as int)),
            decreases entries@.len() - i,
        {
            assert(entries@.take(i + 1).drop_last() =~= entries@.take(i as int));
            assert(entries@.take(i + 1).last() == entries@[i as int]);
            let entry = &entries[i];
            let ghost names = constrained_names(entries@.take(i as int));
            let constraints = if entry.2.init {
                PydanticRangeConstraints::from_keywords(&entry.2)
            } else {
                None
            };
            if let Some(constraints) = constraints {
                let info = PydanticParamConstraint { field_name: entry.0.clone(), constraints };
                let kw_only = entry.2.is_kw_only();
                let ghost mut added = names;
                if entry.2.init_by_name {
                    params.insert(&entry.0, &info, Ghost(added));
                    proof {
                        added = added.push((entry.0, info));
                    }
                    if !kw_only {
                        positions.push(info.dupe());
                    }
                }
                if let Some(alias) = &entry.2.init_by_alias {
                    params.insert(alias, &info, Ghost(added));
                    proof {
                        added = added.push((*alias, info));
                    }
                    if !kw_only {
                        positions.push(info.dupe());
                    }
                }
                assert(added =~= names + own_names(*entry));
            } else {
                assert(names + own_names(*entry) =~= names);
            }
            assert(positions@ =~= constrained_positions(entries@.take(i + 1)));
            i = i + 1;
        }
        assert(entries@.take(i as int) =~= entries@);
        (params, positions)
    }

    /// The reports on positional arguments that do not keep to constraints. Behind an unpacked
    /// argument positions are not known.
    pub open spec fn positional_violations(
        self,
        args: Seq<CallArg>,
        positions: Seq<PydanticParamConstraint>,
    ) -> Seq<ReportView>
        decreases args.len(),
    {
        if args.len() == 0 {
            Seq::empty()
        } else {
            match args[0] {
                CallArg::Star(_, _) => Seq::empty(),
                CallArg::Arg(value, range) => (if positions.len() > 0 {
                    self.violations(
                        Checked::Argument,
                        self.argument_type(value),
                        positions[0].constraints,
                        positions[0].field_name@,
                        range,
                    )
                } else {
                    Seq::empty()
                }) + self.positional_violations(
                    args.drop_first(),
                    if positions.len() > 0 {
                        positions.drop_first()
                    } else {
                        positions
                    },
                ),
            }
        }
    }

    /// The report on a keyword argument that does not keep to constraints.
    pub open spec fn keyword_violations(self, kw: CallKeyword, names: Seq<NamedConstraint>) -> Seq<
        ReportView,
    > {
        match kw.arg {
            Some(name) => match constraint_named(names, name@) {
                Some(info) => self.violations(
                    Checked::Argument,
                    self.argument_type(kw.value),
                    info.constraints,
                    info.field_name@,
                    kw.range,
                ),
                None => Seq::empty(),
            },
            None => Seq::empty(),
        }
    }

    /// The reports on keyword arguments that do not keep to constraints.
    pub open spec fn all_keyword_violations(
        self,
        kws: Seq<CallKeyword>,
        names: Seq<NamedConstraint>,
    ) -> Seq<ReportView>
        decreases kws.len(),
    {
        if kws.len() == 0 {
            Seq::empty()
        } else {
            self.all_keyword_violations(kws.drop_last(), names) + self.keyword_violations(
                kws.last(),
                names,
            )
        }
    }

    fn check_positional(
        &self,
        args: &Vec<CallArg>,
        positions: &Vec<PydanticParamConstraint>,
        errors: &mut ErrorCollector,
    )
        ensures
            final(errors)@ == old(errors)@ + self.positional_violations(args@, positions@),
    {
        let mut ignored = ErrorCollector::new();
        let mut i: usize = 0;
        let ghost whole = self.positional_violations(args@, positions@);
        let ghost mut left = positions@;
        assert(args@.skip(0) =~= args@);
        assert(left =~= positions@.skip(0));
        while i < args.len()
            invariant
                i <= args@.len(),
                left == (if i <= positions@.len() {
                    positions@.skip(i as int)
                } else {
                    Seq::empty()
                }),
                errors@ + self.positional_violations(args@.skip(i as int), left) == old(errors)@
                    + whole,
                whole == self.positional_violations(args@, positions@),
            decreases args@.len() - i,
        {
            assert(args@.skip(i as int).drop_first() =~= args@.skip(i + 1));
            assert(args@.skip(i as int)[0] == args@[i as int]);
            match &args[i] {
                CallArg::Star(_, _) => {
                    assert(errors@ =~= errors@ + Seq::<ReportView>::empty());
                    return ;
                },
                CallArg::Arg(value, range) => {
                    let ty = self.infer_argument(value, &mut ignored);
                    let ghost before = errors@;
                    if i < positions.len() {
                        let info = &positions[i];
                        assert(left[0] == *info);
                        self.check_violations(
                            Checked::Argument,
                            &ty,
                            &info.constraints,
                            info.field_name.as_str(),
                            *range,
                            errors,
                        );
                    }
                    proof {
                        let next = if left.len() > 0 {
                            left.drop_first()
                        } else {
                            left
                        };
                        let rest = self.positional_violations(args@.skip(i + 1), next);
                        if i < positions@.len() {
                            assert(next =~= positions@.skip(i + 1));
                            let own = self.violations(
                                Checked::Argument,
                                ty,
                                left[0].constraints,
                                left[0].field_name@,
                                *range,
                            );
                            assert(before + (own + rest) =~= (before + own) + rest);
                        } else {
                            assert(next =~= Seq::empty());
                            assert(before + (Seq::<ReportView>::empty() + rest) =~= before + rest);
                        }
                        left = next;
                    }
                },
            }
            i = i + 1;
        }
        assert(args@.skip(i as int) =~= Seq::empty());
        assert(errors@ =~= errors@ + Seq::<ReportView>::empty());
    }

    fn check_keywords(
        &self,
        kws: &Vec<CallKeyword>,
        params: &ConstraintParams,
        errors: &mut ErrorCollector,
        Ghost(names): Ghost<Seq<NamedConstraint>>,
    )
        requires
            params.holds(names),
        ensures
            final(errors)@ == old(errors)@ + self.all_keyword_violations(kws@, names),
    {
        let mut ignored = ErrorCollector::new();
        let mut i: usize = 0;
        assert(kws@.take(0) =~= Seq::empty());
        assert(errors@ =~= old(errors)@ + Seq::<ReportView>::empty());
        while i < kws.len()
            invariant
                i <= kws@.len(),
                params.holds(names),
                errors@ == old(errors)@ + self.all_keyword_violations(kws@.take(i as int), names),
            decreases kws@.len() - i,
        {
            assert(kws@.take(i + 1).drop_last() =~= kws@.take(i as int));
            assert(kws@.take(i + 1).last() == kws@[i as int]);
            let kw = &kws[i];
            if let Some(name) = &kw.arg {
                assert(params.named(name@) == constraint_named(names, name@));
                if let Some(info) = params.get_named(name.as_str()) {
                    let ty = self.infer_argument(&kw.value, &mut ignored);
                    self.check_violations(
                        Checked::Argument,
                        &ty,
                        &info.constraints,
                        info.field_name.as_str(),
                        kw.range,
                        errors,
                    );
                }
            }
            assert(errors@ =~= old(errors)@ + self.all_keyword_violations(
                kws@.take(i + 1),
                names,
            ));
            i = i + 1;
        }
        assert(kws@.take(i as int) =~= kws@);
    }

    /// Reports arguments of a pydantic model that do not keep to the range constraints of their
    /// fields. Only integer literals are compared.
    pub fn check_pydantic_argument_range_constraints(
        &self,
        cls: &Class,
        dataclass: &DataclassMetadata,
        args: &Vec<CallArg>,
        keywords: &Vec<CallKeyword>,
        errors: &mut ErrorCollector,
    )
        ensures
            final(errors)@ == old(errors)@ + self.positional_violations(
                args@,
                constrained_positions(
                    self.ordered_fields(*cls, *dataclass, true, self.kw_only_of(*cls)),
                ),
            ) + self.all_keyword_violations(
                keywords@,
                constrained_names(
                    self.ordered_fields(*cls, *dataclass, true, self.kw_only_of(*cls)),
                ),
            ),
    {
        let (params, positions) = self.collect_pydantic_constraint_params(cls, dataclass);
        self.check_positional(args, &positions, errors);
        let ghost names = constrained_names(
            self.ordered_fields(*cls, *dataclass, true, self.kw_only_of(*cls)),
        );
        self.check_keywords(keywords, &params, errors, Ghost(names));
    }
}

} // verus!
