use std::sync::Arc;

use vstd::prelude::*;

use crate::class_field::{ClassField, ClassFieldInner};
use crate::dataclass_fields::BaseWithMetadata;
use crate::list::List;
use crate::metadata::DataclassMetadata;
use crate::ordered::{name_elements, name_set_list};
use crate::reading::DataclassMember;
use crate::report::{report1, report2, ErrorCollector, ReportView, Rule};
use crate::solver::{AnswersSolver, LookupAnswer};
use crate::text::{cat3, cat5, cat9};
use crate::types::{AnyStyle, Callable, Class, ClassType, Param, Params, Required, Type};

verus! {

/// The type of the third parameter, where it can be passed by position.
pub open spec fn third_param(c: Callable) -> Option<Type> {
    match c.params {
        Params::List(ps) => if ps@.len() > 2 {
            match ps@[2] {
                Param::Pos(_, t, _) => Some(t),
                Param::PosOnly(_, t, _) => Some(t),
                _ => None,
            }
        } else {
            None
        },
        _ => None,
    }
}

fn get_third_param(c: &Callable) -> (r: Option<Type>)
    ensures
        r == third_param(*c),
{
    match &c.params {
        Params::List(ps) => match ps.get(2) {
            Some(Param::Pos(_, t, _)) => Some(t.dupe()),
            Some(Param::PosOnly(_, t, _)) => Some(t.dupe()),
            _ => None,
        },
        _ => None,
    }
}

/// The types that the signatures of a `__set__` method take for the value.
pub open spec fn value_types(sigs: Seq<Arc<Callable>>) -> Seq<Type>
    decreases sigs.len(),
{
    if sigs.len() == 0 {
        Seq::empty()
    } else {
        match third_param(*sigs.last()) {
            Some(t) => value_types(sigs.drop_last()).push(t),
            None => value_types(sigs.drop_last()),
        }
    }
}

/// What is done to the type of a constructor parameter.
#[derive(Clone, Copy, Debug, PartialEq, Eq, Structural)]
pub enum ParamTransform {
    Keep,
    /// Root models are joined with what they can be given as.
    ExpandRootModels,
}

impl<Ans: LookupAnswer> AnswersSolver<Ans> {
    /// The type that a `__set__` method takes for the value.
    pub open spec fn setter_value(self, setter: Type) -> Type {
        let values = value_types(setter.signatures());
        if values.len() == 0 {
            Type::Any(AnyStyle::Implicit)
        } else {
            self.answers.unioned(values)
        }
    }

    /// The type that a `__set__` method takes for the value.
    pub fn get_descriptor_setter_value(&self, setter: &Type) -> (r: Type)
        ensures
            r == self.setter_value(*setter),
    {
        let sigs = setter.callable_signatures();
        let mut values: Vec<Type> = Vec::new();
        let mut i: usize = 0;
        assert(sigs@.take(0) =~= Seq::empty());
        while i < sigs.len()
            invariant
                i <= sigs@.len(),
                values@ == value_types(sigs@.take(i as int)),
            decreases sigs@.len() - i,
        {
            assert(sigs@.take(i + 1).drop_last() =~= sigs@.take(i as int));
            assert(sigs@.take(i + 1).last() == sigs@[i as int]);
            if let Some(t) = get_third_param(&*sigs[i]) {
                values.push(t);
            }
            i = i + 1;
        }
        assert(sigs@.take(i as int) =~= sigs@);
        if values.len() == 0 {
            Type::Any(AnyStyle::Implicit)
        } else {
            self.answers.unions(&values)
        }
    }

    /// Whether the setter of a field that is a descriptor can be read.
    pub open spec fn setter_readable(self, field: ClassField) -> bool {
        field.inner matches ClassFieldInner::Descriptor { descriptor, .. } ==> (
        self.descriptor_method(descriptor.cls, descriptor.setter, self.dunder.set) matches Some(m)
            ==> self.readable(m))
    }

    /// What a field accepts in the constructor: what its converter accepts; anything, where values
    /// are converted; what the setter accepts, for a descriptor; the type of the field otherwise.
    pub open spec fn accepted(self, field: ClassField, strict: bool, converter: Option<Type>) -> Type {
        if converter is Some {
            converter->0
        } else if !strict {
            Type::Any(AnyStyle::Explicit)
        } else {
            match field.inner {
                ClassFieldInner::Descriptor { descriptor, .. } => match self.resolved_method(
                    descriptor.cls,
                    descriptor.setter,
                    self.dunder.set,
                ) {
                    Some(setter) => self.setter_value(setter),
                    None => field.field_type(),
                },
                _ => field.field_type(),
            }
        }
    }

    /// The reports that go with it.
    pub open spec fn accepted_reports(
        self,
        field: ClassField,
        strict: bool,
        converter: Option<Type>,
    ) -> Seq<ReportView> {
        match field.inner {
            ClassFieldInner::Descriptor { descriptor, .. } => if converter is None && strict {
                self.method_reports(
                    descriptor.cls,
                    descriptor.setter,
                    self.dunder.set,
                    descriptor.range,
                )
            } else {
                Seq::empty()
            },
            _ => Seq::empty(),
        }
    }

    fn get_accepted(
        &self,
        field: &ClassField,
        strict: bool,
        converter: Option<Type>,
        errors: &mut ErrorCollector,
    ) -> (r: Type)
        requires
            self.wf(),
            self.setter_readable(*field),
        ensures
            r == self.accepted(*field, strict, converter),
            final(errors)@ == old(errors)@ + self.accepted_reports(*field, strict, converter),
    {
        assert(errors@ + Seq::<ReportView>::empty() =~= errors@);
        if let Some(ty) = converter {
            return ty;
        }
        if !strict {
            return Type::Any(AnyStyle::Explicit);
        }
        if let ClassFieldInner::Descriptor { descriptor, .. } = &field.inner {
            if let Some(setter) = self.resolve_descriptor_setter(descriptor, errors) {
                return self.get_descriptor_setter_value(&setter);
            }
        }
        field.ty()
    }

    pub open spec fn transformed(self, ty: Type, transform: ParamTransform) -> Type {
        match transform {
            ParamTransform::Keep => ty,
            ParamTransform::ExpandRootModels => match self.expansion(ty) {
                Some(root) => self.answers.unioned(seq![ty, root]),
                None => ty,
            },
        }
    }

    fn transform(&self, ty: Type, transform: ParamTransform) -> (r: Type)
        requires
            transform == ParamTransform::ExpandRootModels ==> self.nesting_ends(ty),
        ensures
            r == self.transformed(ty, transform),
    {
        match transform {
            ParamTransform::Keep => ty,
            ParamTransform::ExpandRootModels => match self.extract_root_model_inner_type(&ty) {
                Some(root) => {
                    let mut both: Vec<Type> = Vec::new();
                    both.push(ty);
                    both.push(root);
                    assert(both@ =~= seq![ty, root]);
                    self.answers.unions(&both)
                },
                None => ty,
            },
        }
    }

    /// A field as a parameter of the constructor.
    pub open spec fn param_of(
        self,
        field: ClassField,
        name: String,
        default: bool,
        kw_only: bool,
        strict: bool,
        converter: Option<Type>,
        transform: ParamTransform,
    ) -> Param {
        let ty = self.transformed(self.accepted(field, strict, converter), transform);
        let required = if default {
            Required::Optional(None)
        } else {
            Required::Required
        };
        if kw_only {
            Param::KwOnly(name, ty, required)
        } else {
            Param::Pos(name, ty, required)
        }
    }

    /// Whether what a field accepts can be computed.
    pub open spec fn acceptable(
        self,
        field: ClassField,
        strict: bool,
        converter: Option<Type>,
        transform: ParamTransform,
    ) -> bool {
        &&& self.setter_readable(field)
        &&& transform == ParamTransform::ExpandRootModels ==> self.nesting_ends(
            self.accepted(field, strict, converter),
        )
    }

    /// A field as a parameter of the constructor.
    pub fn as_param(
        &self,
        field: &ClassField,
        name: &String,
        default: bool,
        kw_only: bool,
        strict: bool,
        converter_param: Option<Type>,
        param_type_transform: ParamTransform,
        errors: &mut ErrorCollector,
    ) -> (r: Param)
        requires
            self.wf(),
            self.acceptable(*field, strict, converter_param, param_type_transform),
        ensures
            r == self.param_of(
                *field,
                *name,
                default,
                kw_only,
                strict,
                converter_param,
                param_type_transform,
            ),
            final(errors)@ == old(errors)@ + self.accepted_reports(
                *field,
                strict,
                converter_param,
            ),
    {
        let accepted = self.get_accepted(field, strict, converter_param, errors);
        let ty = self.transform(accepted, param_type_transform);
        let required = if default {
            Required::Optional(None)
        } else {
            Required::Required
        };
        if kw_only {
            Param::KwOnly(name.clone(), ty, required)
        } else {
            Param::Pos(name.clone(), ty, required)
        }
    }

    /// The report on a field whose value is a descriptor without `__set__`: the constructor would
    /// hide the descriptor. It does no harm where `__get__` returns the descriptor itself.
    pub open spec fn non_data_report(self, cls: Class, name: Seq<char>) -> Seq<ReportView> {
        match self.dataclass_member(cls, name) {
            DataclassMember::Field(member, _) => match member.value.non_data_info() {
                Some((range, descriptor)) => if self.getter_returns(descriptor) matches Some(
                    Type::SelfType(_),
                ) {
                    Seq::empty()
                } else {
                    let class_name = descriptor.class.name@;
                    seq![
                        report2(
                            range,
                            Rule::BadClassDefinition,
                            "Cannot set field `"@ + name + "` to non-data descriptor `"@
                                + class_name + "`"@,
                            "Hint: add a `__set__` method to make `"@ + class_name
                                + "` a data descriptor"@,
                        ),
                    ]
                },
                None => Seq::empty(),
            },
            _ => Seq::empty(),
        }
    }

    /// What the `__get__` method of a class returns.
    pub open spec fn getter_returns(self, descriptor: ClassType) -> Option<Type> {
        match self.member(descriptor.class, "__get__"@) {
            Some(field) => self.answers.returned(field.field_type()),
            None => None,
        }
    }

    fn get_getter_returns(&self, descriptor: &ClassType) -> (r: Option<Type>)
        ensures
            r == self.getter_returns(*descriptor),
    {
        match self.get_class_member(&descriptor.class, "__get__") {
            Some(field) => self.answers.callable_return_type(&field.ty()),
            None => None,
        }
    }

    pub open spec fn non_data_reports(self, cls: Class, names: Seq<String>) -> Seq<ReportView>
        decreases names.len(),
    {
        if names.len() == 0 {
            Seq::empty()
        } else {
            self.non_data_reports(cls, names.drop_last()) + self.non_data_report(
                cls,
                names.last()@,
            )
        }
    }

    fn check_non_data(&self, cls: &Class, name: &String, errors: &mut ErrorCollector)
        ensures
            final(errors)@ == old(errors)@ + self.non_data_report(*cls, name@),
    {
        assert(errors@ + Seq::<ReportView>::empty() =~= errors@);
        if let DataclassMember::Field(member, _) = self.get_dataclass_member(cls, name.as_str()) {
            if let Some((range, descriptor)) = member.value.non_data_descriptor_info() {
                if let Some(Type::SelfType(_)) = self.get_getter_returns(&descriptor) {
                    return ;
                }
                let class_name = descriptor.class.name.as_str();
                let headline = cat5(
                    "Cannot set field `",
                    name.as_str(),
                    "` to non-data descriptor `",
                    class_name,
                    "`",
                );
                let hint = cat3(
                    "Hint: add a `__set__` method to make `",
                    class_name,
                    "` a data descriptor",
                );
                errors.error2(range, Rule::BadClassDefinition, headline, hint);
            }
        }
    }

    /// Reports fields whose values are descriptors without `__set__`.
    pub(crate) fn check_dataclass_non_data_descriptors(
        &self,
        cls: &Class,
        dataclass: &DataclassMetadata,
        errors: &mut ErrorCollector,
    )
        ensures
            final(errors)@ == old(errors)@ + self.non_data_reports(*cls, name_elements(dataclass.fields)),
    {
        let names = name_set_list(&dataclass.fields);
        let mut i: usize = 0;
        assert(names@.take(0) =~= Seq::empty());
        assert(errors@ =~= old(errors)@ + self.non_data_reports(*cls, names@.take(0)));
        while i < names.len()
            invariant
                i <= names@.len(),
                errors@ == old(errors)@ + self.non_data_reports(*cls, names@.take(i as int)),
            decreases names@.len() - i,
        {
            assert(names@.take(i + 1).drop_last() =~= names@.take(i as int));
            self.check_non_data(cls, &names[i], errors);
            assert(errors@ =~= old(errors)@ + self.non_data_reports(*cls, names@.take(i + 1)));
            i = i + 1;
        }
        assert(names@.take(i as int) =~= names@);
    }

    /// What the `__set__` method of a class takes for the value, by its first signature.
    pub open spec fn setter_takes(self, descriptor: ClassType) -> Option<Type> {
        match self.member(descriptor.class, "__set__"@) {
            Some(field) => {
                let sigs = field.field_type().signatures();
                if sigs.len() > 0 {
                    third_param(*sigs[0])
                } else {
                    None
                }
            },
            None => None,
        }
    }

    fn get_setter_takes(&self, descriptor: &ClassType) -> (r: Option<Type>)
        ensures
            r == self.setter_takes(*descriptor),
    {
        match self.get_class_member(&descriptor.class, "__set__") {
            Some(field) => {
                let sigs = field.ty().callable_signatures();
                if sigs.len() > 0 {
                    get_third_param(&*sigs[0])
                } else {
                    None
                }
            },
            None => None,
        }
    }

    /// The report on a field whose value is a descriptor that gives what cannot be set: leaving
    /// the field out of the constructor call would set what `__get__` returns.
    pub open spec fn data_report(self, cls: Class, name: Seq<char>) -> Seq<ReportView> {
        match self.dataclass_member(cls, name) {
            DataclassMember::Field(member, _) => match member.value.data_info() {
                Some((range, descriptor)) => match (
                    self.getter_returns(descriptor),
                    self.setter_takes(descriptor),
                ) {
                    (Some(get_ty), Some(set_ty)) => if self.subset_eq(get_ty, set_ty) {
                        Seq::empty()
                    } else {
                        let class_name = descriptor.class.name@;
                        seq![
                            report2(
                                range,
                                Rule::BadClassDefinition,
                                "Cannot set field `"@ + name + "` to data descriptor `"@
                                    + class_name + "` with inconsistent types"@,
                                "Return type `"@ + self.answers.as_it_stands(get_ty) + "` of `"@
                                    + class_name
                                    + ".__get__` is not assignable to value type `"@
                                    + self.answers.as_it_stands(set_ty) + "` of `"@ + class_name
                                    + ".__set__`"@,
                            ),
                        ]
                    },
                    _ => Seq::empty(),
                },
                None => Seq::empty(),
            },
            _ => Seq::empty(),
        }
    }

    pub open spec fn data_reports(self, cls: Class, names: Seq<String>) -> Seq<ReportView>
        decreases names.len(),
    {
        if names.len() == 0 {
            Seq::empty()
        } else {
            self.data_reports(cls, names.drop_last()) + self.data_report(cls, names.last()@)
        }
    }

    fn check_data(&self, cls: &Class, name: &String, errors: &mut ErrorCollector)
        ensures
            final(errors)@ == old(errors)@ + self.data_report(*cls, name@),
    {
        assert(errors@ + Seq::<ReportView>::empty() =~= errors@);
        if let DataclassMember::Field(member, _) = self.get_dataclass_member(cls, name.as_str()) {
            if let Some((range, descriptor)) = member.value.data_descriptor_info() {
                let got = self.get_getter_returns(&descriptor);
                let want = self.get_setter_takes(&descriptor);
                if let Some(get_ty) = got {
                    if let Some(set_ty) = want {
                        if !self.is_subset_eq(&get_ty, &set_ty) {
                            let class_name = descriptor.class.name.as_str();
                            let headline = cat5(
                                "Cannot set field `",
                                name.as_str(),
                                "` to data descriptor `",
                                class_name,
                                "` with inconsistent types",
                            );
                            let shown_get = self.answers.display_as_it_stands(&get_ty);
                            let shown_set = self.answers.display_as_it_stands(&set_ty);
                            let detail = cat9(
                                "Return type `",
                                shown_get.as_str(),
                                "` of `",
                                class_name,
                                ".__get__` is not assignable to value type `",
                                shown_set.as_str(),
                                "` of `",
                                class_name,
                                ".__set__`",
                            );
                            errors.error2(range, Rule::BadClassDefinition, headline, detail);
                        }
                    }
                }
            }
        }
    }

    /// Reports fields whose values are descriptors that give what cannot be set.
    pub(crate) fn check_dataclass_data_descriptor_defaults(
        &self,
        cls: &Class,
        dataclass: &DataclassMetadata,
        errors: &mut ErrorCollector,
    )
        ensures
            final(errors)@ == old(errors)@ + self.data_reports(*cls, name_elements(dataclass.fields)),
    {
        let names = name_set_list(&dataclass.fields);
        let mut i: usize = 0;
        assert(names@.take(0) =~= Seq::empty());
        assert(errors@ =~= old(errors)@ + self.data_reports(*cls, names@.take(0)));
        while i < names.len()
            invariant
                i <= names@.len(),
                errors@ == old(errors)@ + self.data_reports(*cls, names@.take(i as int)),
            decreases names@.len() - i,
        {
            assert(names@.take(i + 1).drop_last() =~= names@.take(i as int));
            self.check_data(cls, &names[i], errors);
            assert(errors@ =~= old(errors)@ + self.data_reports(*cls, names@.take(i + 1)));
            i = i + 1;
        }
        assert(names@.take(i as int) =~= names@);
    }

    /// The report on a dataclass and a base of which one is frozen and the other is not. With
    /// `dataclass_transform` a frozen class may have a base that is not.
    pub open spec fn frozen_report(
        self,
        cls: Class,
        frozen: bool,
        base: BaseWithMetadata,
        is_from_dataclass_transform: bool,
    ) -> Seq<ReportView> {
        match base.metadata.dataclass {
            Some(dm) => if frozen == dm.kws.frozen || (is_from_dataclass_transform && frozen) {
                Seq::empty()
            } else {
                seq![
                    report1(
                        cls.range,
                        Rule::InvalidInheritance,
                        "Cannot inherit "@ + frozen_word(frozen) + " dataclass `"@
                            + self.answers.class_beside(cls, base.class) + "` from "@
                            + frozen_word(dm.kws.frozen) + " dataclass `"@
                            + self.answers.class_beside(base.class, cls) + "`"@,
                    ),
                ]
            },
            None => Seq::empty(),
        }
    }

    pub open spec fn frozen_reports(
        self,
        cls: Class,
        frozen: bool,
        bases: Seq<BaseWithMetadata>,
        is_from_dataclass_transform: bool,
    ) -> Seq<ReportView>
        decreases bases.len(),
    {
        if bases.len() == 0 {
            Seq::empty()
        } else {
            self.frozen_reports(cls, frozen, bases.drop_last(), is_from_dataclass_transform)
                + self.frozen_report(cls, frozen, bases.last(), is_from_dataclass_transform)
        }
    }

    /// Reports bases of a dataclass that are frozen where the class is not, or the other way
    /// round. For `dataclass_transform` classes, only a frozen base of a class that is not frozen
    /// is reported.
    pub fn validate_frozen_dataclass_inheritance(
        &self,
        cls: &Class,
        dataclass_metadata: &DataclassMetadata,
        bases_with_metadata: &Vec<BaseWithMetadata>,
        is_from_dataclass_transform: bool,
        errors: &mut ErrorCollector,
    )
        ensures
            final(errors)@ == old(errors)@ + self.frozen_reports(
                *cls,
                dataclass_metadata.kws.frozen,
                bases_with_metadata@,
                is_from_dataclass_transform,
            ),
    {
        let bases = bases_with_metadata;
        let frozen = dataclass_metadata.kws.frozen;
        let mut i: usize = 0;
        assert(bases@.take(0) =~= Seq::empty());
        assert(errors@ =~= old(errors)@ + Seq::<ReportView>::empty());
        while i < bases.len()
            invariant
                i <= bases@.len(),
                bases@ == bases_with_metadata@,
                frozen == dataclass_metadata.kws.frozen,
                errors@ == old(errors)@ + self.frozen_reports(
                    *cls,
                    frozen,
                    bases@.take(i as int),
                    is_from_dataclass_transform,
                ),
            decreases bases@.len() - i,
        {
            assert(bases@.take(i + 1).drop_last() =~= bases@.take(i as int));
            assert(bases@.take(i + 1).last() == bases@[i as int]);
            let base = &bases[i];
            if let Some(dm) = &base.metadata.dataclass {
                let base_frozen = dm.kws.frozen;
                if frozen != base_frozen && !(is_from_dataclass_transform && frozen) {
                    let name = self.answers.display_class_beside(cls, &base.class);
                    let base_name = self.answers.display_class_beside(&base.class, cls);
                    let line = cat9(
                        "Cannot inherit ",
                        get_frozen_word(frozen),
                        " dataclass `",
                        name.as_str(),
                        "` from ",
                        get_frozen_word(base_frozen),
                        " dataclass `",
                        base_name.as_str(),
                        "`",
                    );
                    errors.error(cls.range, Rule::InvalidInheritance, line);
                }
            }
            assert(errors@ =~= old(errors)@ + self.frozen_reports(
                *cls,
                frozen,
                bases@.take(i + 1),
                is_from_dataclass_transform,
            ));
            i = i + 1;
        }
        assert(bases@.take(i as int) =~= bases@);
    }
}

pub open spec fn frozen_word(frozen: bool) -> Seq<char> {
    if frozen {
        "frozen"@
    } else {
        "non-frozen"@
    }
}

fn get_frozen_word(frozen: bool) -> (r: &'static str)
    ensures
        r@ == frozen_word(frozen),
{
    if frozen {
        "frozen"
    } else {
        "non-frozen"
    }
}

/// A class that is not frozen is reported for each of its frozen bases, whatever made it a
/// dataclass.
pub proof fn law_frozen_bases_are_reported<Ans: LookupAnswer>(
    solver: AnswersSolver<Ans>,
    cls: Class,
    bases: Seq<BaseWithMetadata>,
    is_from_dataclass_transform: bool,
    i: int,
)
    requires
        0 <= i < bases.len(),
        bases[i].metadata.dataclass matches Some(dm) && dm.kws.frozen,
    ensures
        solver.frozen_reports(cls, false, bases, is_from_dataclass_transform).len() > 0,
    decreases bases.len(),
{
    if i < bases.len() - 1 {
        law_frozen_bases_are_reported(
            solver,
            cls,
            bases.drop_last(),
            is_from_dataclass_transform,
            i,
        );
    }
}

/// With `dataclass_transform` a frozen class is never reported, whatever its bases are.
pub proof fn law_frozen_transform_classes_pass<Ans: LookupAnswer>(
    solver: AnswersSolver<Ans>,
    cls: Class,
    bases: Seq<BaseWithMetadata>,
)
    ensures
        solver.frozen_reports(cls, true, bases, true).len() == 0,
    decreases bases.len(),
{
    if bases.len() > 0 {
        law_frozen_transform_classes_pass(solver, cls, bases.drop_last());
    }
}

} // verus!
