use std::sync::Arc;

use vstd::prelude::*;

use crate::annotation::{dupe_type, DataclassFieldKeywords};
use crate::class_field::ClassField;
use crate::dataclass::ParamTransform;
use crate::dataclass_fields::{kw_views, FieldEntry, KwOnlyFields, KwOnlyView};
use crate::list::List;
use crate::metadata::{DataclassMetadata, PydanticModelKind, SynthesizedField};
use crate::ordered::name_elements;
use crate::report::{report1, ErrorCollector, ReportView, Rule, TextRange};
use crate::root_model::{make_method, method_type};
use crate::solver::{AnswersSolver, LookupAnswer, WithDefiningClass};
use crate::text::{cat3, contains_name, texts};
use crate::types::{
    AnyStyle, Callable, Class, ClassType, Lit, Literal, Param, Params, Required, Type,
};

verus! {

/// How the parameters of a dataclass constructor are made.
pub struct InitStyle {
    /// Whether values are taken as they are, unless a field says otherwise.
    pub strict_default: bool,
    pub transform: ParamTransform,
    /// Whether every parameter may be left out.
    pub force_optional: bool,
    /// The types of the fields, where values are converted.
    pub lax_types: Option<List<Type>>,
}

/// A literal string that stands for a name.
pub open spec fn name_literal(name: String) -> Type {
    Type::Literal(Arc::new(Literal { value: Lit::Str(name), implicit: true }))
}

fn make_name_literal(name: &String) -> (r: Type)
    ensures
        r == name_literal(*name),
{
    Type::Literal(Arc::new(Literal { value: Lit::Str(name.clone()), implicit: true }))
}

/// The names of the fields as literals.
pub open spec fn name_literals(entries: Seq<FieldEntry>) -> Seq<Type> {
    entries.map_values(|e: FieldEntry| name_literal(e.0))
}

/// The names of the fields that a positional pattern matches.
pub open spec fn matchable(entries: Seq<FieldEntry>) -> Seq<Type>
    decreases entries.len(),
{
    if entries.len() == 0 {
        Seq::empty()
    } else if entries.last().2.keyword_only() || !entries.last().2.init {
        matchable(entries.drop_last())
    } else {
        matchable(entries.drop_last()).push(name_literal(entries.last().0))
    }
}

/// The types of the fields.
pub open spec fn entry_types(entries: Seq<FieldEntry>) -> Seq<Type> {
    entries.map_values(|e: FieldEntry| e.1.field_type())
}

impl<Ans: LookupAnswer> AnswersSolver<Ans> {
    /// Whether the constructor can be called without the field.
    pub open spec fn init_optional(entry: FieldEntry, style: InitStyle) -> bool {
        style.force_optional || entry.2.default is Some || (entry.2.init_by_name
            && entry.2.init_by_alias is Some)
    }

    pub open spec fn strictness(entry: FieldEntry, strict_default: bool) -> bool {
        match entry.2.strict {
            Some(b) => b,
            None => strict_default,
        }
    }

    /// The type that the value of a field is converted from. A validator that runs before the
    /// conversion takes anything.
    pub open spec fn init_converter(
        self,
        entry: FieldEntry,
        dataclass: DataclassMetadata,
        style: InitStyle,
    ) -> Option<Type> {
        if texts(dataclass.pydantic_before_validator_fields@).contains(entry.0@) {
            Some(Type::Any(AnyStyle::Explicit))
        } else if entry.2.converter_param is Some {
            entry.2.converter_param
        } else if Self::strictness(entry, style.strict_default) {
            None
        } else {
            match style.lax_types {
                Some(types) => self.answers.lax(types@, entry.1.field_type()),
                None => None,
            }
        }
    }

    fn get_init_converter(
        &self,
        entry: &FieldEntry,
        dataclass: &DataclassMetadata,
        style: &InitStyle,
        strict: bool,
    ) -> (r: Option<Type>)
        requires
            strict == Self::strictness(*entry, style.strict_default),
        ensures
            r == self.init_converter(*entry, *dataclass, *style),
    {
        if contains_name(&dataclass.pydantic_before_validator_fields, entry.0.as_str()) {
            return Some(Type::Any(AnyStyle::Explicit));
        }
        if let Some(ty) = &entry.2.converter_param {
            return Some(ty.dupe());
        }
        if strict {
            return None;
        }
        match &style.lax_types {
            Some(types) => self.answers.lax_conversion(types, &entry.1.ty()),
            None => None,
        }
    }

    /// The parameters of the constructor that stand for a field: one under its name and one under
    /// its other name, where it can be passed by them.
    pub open spec fn init_params(
        self,
        entry: FieldEntry,
        dataclass: DataclassMetadata,
        style: InitStyle,
    ) -> Seq<Param> {
        let optional = Self::init_optional(entry, style);
        let strict = Self::strictness(entry, style.strict_default);
        let converter = self.init_converter(entry, dataclass, style);
        let kw_only = entry.2.keyword_only();
        if !entry.2.init {
            Seq::empty()
        } else {
            (if entry.2.init_by_name {
                seq![
                    self.param_of(
                        entry.1,
                        entry.0,
                        optional,
                        kw_only,
                        strict,
                        converter,
                        style.transform,
                    ),
                ]
            } else {
                Seq::empty()
            }) + match entry.2.init_by_alias {
                Some(alias) => seq![
                    self.param_of(
                        entry.1,
                        alias,
                        optional,
                        kw_only || !entry.2.init_by_name,
                        strict,
                        converter,
                        style.transform,
                    ),
                ],
                None => Seq::empty(),
            }
        }
    }

    /// The reports that go with a parameter under the name of a field and one under its other name.
    pub open spec fn param_reports(
        self,
        entry: FieldEntry,
        strict: bool,
        converter: Option<Type>,
    ) -> Seq<ReportView> {
        let once = self.accepted_reports(entry.1, strict, converter);
        if !entry.2.init {
            Seq::empty()
        } else {
            (if entry.2.init_by_name {
                once
            } else {
                Seq::empty()
            }) + (if entry.2.init_by_alias is Some {
                once
            } else {
                Seq::empty()
            })
        }
    }

    /// The parameters of the constructor that stand for the fields.
    pub open spec fn all_init_params(
        self,
        entries: Seq<FieldEntry>,
        dataclass: DataclassMetadata,
        style: InitStyle,
    ) -> Seq<Param>
        decreases entries.len(),
    {
        if entries.len() == 0 {
            Seq::empty()
        } else {
            self.all_init_params(entries.drop_last(), dataclass, style) + self.init_params(
                entries.last(),
                dataclass,
                style,
            )
        }
    }

    /// Whether a positional parameter that may be left out is among the fields.
    pub open spec fn seen_default(entries: Seq<FieldEntry>, style: InitStyle) -> bool
        decreases entries.len(),
    {
        entries.len() > 0 && (Self::seen_default(entries.drop_last(), style) || (
        entries.last().2.init && !entries.last().2.keyword_only() && Self::init_optional(
            entries.last(),
            style,
        )))
    }

    /// The report on a positional field without a default behind fields with one. Only fields of
    /// the class itself have a place to report them at.
    pub open spec fn order_report(
        self,
        cls: Class,
        before: Seq<FieldEntry>,
        entry: FieldEntry,
        style: InitStyle,
    ) -> Seq<ReportView> {
        if entry.2.init && !entry.2.keyword_only() && !Self::init_optional(entry, style)
            && Self::seen_default(before, style) && self.info(cls).decl_range(entry.0@) is Some {
            seq![
                report1(
                    self.info(cls).decl_range(entry.0@)->0,
                    Rule::BadClassDefinition,
                    "Dataclass field `"@ + entry.0@
                        + "` without a default may not follow dataclass field with a default"@,
                ),
            ]
        } else {
            Seq::empty()
        }
    }

    /// The reports on the fields of a constructor: those on their order, and those that go with
    /// what the fields accept.
    pub open spec fn init_reports(
        self,
        cls: Class,
        entries: Seq<FieldEntry>,
        dataclass: DataclassMetadata,
        style: InitStyle,
    ) -> Seq<ReportView>
        decreases entries.len(),
    {
        if entries.len() == 0 {
            Seq::empty()
        } else {
            let entry = entries.last();
            self.init_reports(cls, entries.drop_last(), dataclass, style) + self.order_report(
                cls,
                entries.drop_last(),
                entry,
                style,
            ) + self.param_reports(
                entry,
                Self::strictness(entry, style.strict_default),
                self.init_converter(entry, dataclass, style),
            )
        }
    }

    /// Whether what the fields accept can be computed.
    pub open spec fn init_computable(
        self,
        entries: Seq<FieldEntry>,
        dataclass: DataclassMetadata,
        style: InitStyle,
    ) -> bool {
        forall|i: int|
            0 <= i < entries.len() ==> self.acceptable(
                (#[trigger] entries[i]).1,
                Self::strictness(entries[i], style.strict_default),
                self.init_converter(entries[i], dataclass, style),
                style.transform,
            )
    }

    /// What accepts unknown keywords, where they are accepted.
    pub open spec fn extra_params(dataclass: DataclassMetadata) -> Seq<Param> {
        if dataclass.kws.extra {
            seq![Param::Kwargs(None, Type::Any(AnyStyle::Implicit))]
        } else {
            Seq::empty()
        }
    }

    /// The constructor of a dataclass.
    pub open spec fn dataclass_init(
        self,
        cls: Class,
        dataclass: DataclassMetadata,
        style: InitStyle,
        sets: Seq<KwOnlyView>,
    ) -> ClassField {
        ClassField::synthesized(
            method_type(
                self.dunder.init,
                seq![self.self_param(cls, false)] + self.all_init_params(
                    self.ordered_fields(cls, dataclass, true, sets),
                    dataclass,
                    style,
                ) + Self::extra_params(dataclass),
                Type::NoneType,
            ),
            false,
        )
    }

    fn push_init_params(
        &self,
        entry: &FieldEntry,
        dataclass: &DataclassMetadata,
        style: &InitStyle,
        optional: bool,
        params: &mut Vec<Param>,
        errors: &mut ErrorCollector,
    )
        requires
            self.wf(),
            entry.2.init,
            optional == Self::init_optional(*entry, *style),
            self.acceptable(
                entry.1,
                Self::strictness(*entry, style.strict_default),
                self.init_converter(*entry, *dataclass, *style),
                style.transform,
            ),
        ensures
            final(params)@ == old(params)@ + self.init_params(*entry, *dataclass, *style),
            final(errors)@ == old(errors)@ + self.param_reports(
                *entry,
                Self::strictness(*entry, style.strict_default),
                self.init_converter(*entry, *dataclass, *style),
            ),
    {
        let strict = match entry.2.strict {
            Some(b) => b,
            None => style.strict_default,
        };
        let kw_only = entry.2.is_kw_only();
        let converter = self.get_init_converter(entry, dataclass, style, strict);
        if entry.2.init_by_name {
            params.push(
                self.as_param(
                    &entry.1,
                    &entry.0,
                    optional,
                    kw_only,
                    strict,
                    dupe_type(&converter),
                    style.transform,
                    errors,
                ),
            );
        }
        if let Some(alias) = &entry.2.init_by_alias {
            let alias_kw_only = kw_only || !entry.2.init_by_name;
            params.push(
                self.as_param(
                    &entry.1,
                    alias,
                    optional,
                    alias_kw_only,
                    strict,
                    converter,
                    style.transform,
                    errors,
                ),
            );
        }
        assert(params@ =~= old(params)@ + self.init_params(*entry, *dataclass, *style));
        assert(errors@ =~= old(errors)@ + self.param_reports(
            *entry,
            Self::strictness(*entry, style.strict_default),
            self.init_converter(*entry, *dataclass, *style),
        ));
    }

    /// The constructor of a dataclass. Reports positional fields without a default behind fields
    /// with one, and what is wrong with the setters of descriptors.
    pub fn get_dataclass_init(
        &self,
        cls: &Class,
        dataclass: &DataclassMetadata,
        style: &InitStyle,
        kw_only_by_class: &Vec<KwOnlyFields>,
        errors: &mut ErrorCollector,
    ) -> (r: ClassField)
        requires
            self.wf(),
            self.init_computable(
                self.ordered_fields(*cls, *dataclass, true, kw_views(kw_only_by_class@)),
                *dataclass,
                *style,
            ),
        ensures
            r == self.dataclass_init(*cls, *dataclass, *style, kw_views(kw_only_by_class@)),
            final(errors)@ == old(errors)@ + self.init_reports(
                *cls,
                self.ordered_fields(*cls, *dataclass, true, kw_views(kw_only_by_class@)),
                *dataclass,
                *style,
            ),
    {
        let info = self.get_info(cls);
        let entries = self.iter_fields(cls, dataclass, true, kw_only_by_class);
        let mut params: Vec<Param> = Vec::new();
        params.push(self.class_self_param(cls, false));
        let ghost first = params@;
        let mut has_seen_default = false;
        let mut i: usize = 0;
        assert(entries@.take(0) =~= Seq::empty());
        assert(params@ =~= first + Seq::<Param>::empty());
        assert(errors@ =~= old(errors)@ + Seq::<ReportView>::empty());
        while i < entries.len()
            invariant
                i <= entries@.len(),
                self.wf(),
                *info == self.info(*cls),
                self.init_computable(entries@, *dataclass, *style),
                has_seen_default == Self::seen_default(entries@.take(i as int), *style),
                params@ == first + self.all_init_params(
                    entries@.take(i as int),
                    *dataclass,
                    *style,
                ),
                errors@ == old(errors)@ + self.init_reports(
                    *cls,
                    entries@.take(i as int),
                    *dataclass,
                    *style,
                ),
            decreases entries@.len() - i,
        {
            assert(entries@.take(i + 1).drop_last() =~= entries@.take(i as int));
            assert(entries@.take(i + 1).last() == entries@[i as int]);
            let entry = &entries[i];
            if entry.2.init {
                let optional = style.force_optional || entry.2.default.is_some() || (
                entry.2.init_by_name && entry.2.init_by_alias.is_some());
                if !entry.2.is_kw_only() {
                    if !optional && has_seen_default {
                        if let Some(range) = info.field_decl_range(entry.0.as_str()) {
                            let line = cat3(
                                "Dataclass field `",
                                entry.0.as_str(),
                                "` without a default may not follow dataclass field with a default",
                            );
                            errors.error(range, Rule::BadClassDefinition, line);
                        }
                    }
                    if optional {
                        has_seen_default = true;
                    }
                }
                self.push_init_params(entry, dataclass, style, optional, &mut params, errors);
            }
            assert(params@ =~= first + self.all_init_params(
                entries@.take(i + 1),
                *dataclass,
                *style,
            ));
            assert(errors@ =~= old(errors)@ + self.init_reports(
                *cls,
                entries@.take(i + 1),
                *dataclass,
                *style,
            ));
            i = i + 1;
        }
        assert(entries@.take(i as int) =~= entries@);
        if dataclass.kws.extra {
            params.push(Param::Kwargs(None, Type::Any(AnyStyle::Implicit)));
        }
        assert(params@ =~= seq![self.self_param(*cls, false)] + self.all_init_params(
            entries@,
            *dataclass,
            *style,
        ) + Self::extra_params(*dataclass));
        ClassField::new_synthesized(make_method(&self.dunder.init, params, Type::NoneType))
    }

    /// The parameters of `__replace__` that stand for a field.
    pub open spec fn replace_params(self, entry: FieldEntry, dataclass: DataclassMetadata) -> Seq<Param> {
        let strict = Self::strictness(entry, dataclass.kws.strict);
        let optional = !entry.1.init_var() || entry.2.default is Some;
        if !entry.2.init {
            Seq::empty()
        } else {
            (if entry.2.init_by_name {
                seq![
                    self.param_of(
                        entry.1,
                        entry.0,
                        optional,
                        true,
                        strict,
                        entry.2.converter_param,
                        ParamTransform::Keep,
                    ),
                ]
            } else {
                Seq::empty()
            }) + match entry.2.init_by_alias {
                Some(alias) => seq![
                    self.param_of(
                        entry.1,
                        alias,
                        optional,
                        true,
                        strict,
                        entry.2.converter_param,
                        ParamTransform::Keep,
                    ),
                ],
                None => Seq::empty(),
            }
        }
    }

    pub open spec fn all_replace_params(self, entries: Seq<FieldEntry>, dataclass: DataclassMetadata) -> Seq<
        Param,
    >
        decreases entries.len(),
    {
        if entries.len() == 0 {
            Seq::empty()
        } else {
            self.all_replace_params(entries.drop_last(), dataclass) + self.replace_params(
                entries.last(),
                dataclass,
            )
        }
    }

    /// The reports that go with the parameters of `__replace__`.
    pub open spec fn replace_method_reports(self, entries: Seq<FieldEntry>, dataclass: DataclassMetadata) -> Seq<
        ReportView,
    >
        decreases entries.len(),
    {
        if entries.len() == 0 {
            Seq::empty()
        } else {
            self.replace_method_reports(entries.drop_last(), dataclass) + self.param_reports(
                entries.last(),
                Self::strictness(entries.last(), dataclass.kws.strict),
                entries.last().2.converter_param,
            )
        }
    }

    /// Whether the setters of all fields can be read.
    pub open spec fn setters_readable(self, entries: Seq<FieldEntry>) -> bool {
        forall|i: int| 0 <= i < entries.len() ==> self.setter_readable((#[trigger] entries[i]).1)
    }

    /// The method that copies an instance with some fields changed. Every field can be passed, by
    /// keyword only; only init variables without a default must be.
    pub open spec fn dataclass_replace(
        self,
        cls: Class,
        dataclass: DataclassMetadata,
        sets: Seq<KwOnlyView>,
    ) -> ClassField {
        ClassField::synthesized(
            method_type(
                self.dunder.replace,
                seq![self.self_param(cls, true)] + self.all_replace_params(
                    self.ordered_fields(cls, dataclass, true, sets),
                    dataclass,
                ) + Self::extra_params(dataclass),
                self.instance_of(cls),
            ),
            false,
        )
    }

    fn push_replace_params(
        &self,
        entry: &FieldEntry,
        dataclass: &DataclassMetadata,
        params: &mut Vec<Param>,
        errors: &mut ErrorCollector,
    )
        requires
            self.wf(),
            self.setter_readable(entry.1),
        ensures
            final(params)@ == old(params)@ + self.replace_params(*entry, *dataclass),
            final(errors)@ == old(errors)@ + self.param_reports(
                *entry,
                Self::strictness(*entry, dataclass.kws.strict),
                entry.2.converter_param,
            ),
    {
        if entry.2.init {
            let strict = match entry.2.strict {
                Some(b) => b,
                None => dataclass.kws.strict,
            };
            let optional = !entry.1.is_init_var() || entry.2.default.is_some();
            if entry.2.init_by_name {
                params.push(
                    self.as_param(
                        &entry.1,
                        &entry.0,
                        optional,
                        true,
                        strict,
                        dupe_type(&entry.2.converter_param),
                        ParamTransform::Keep,
                        errors,
                    ),
                );
            }
            if let Some(alias) = &entry.2.init_by_alias {
                params.push(
                    self.as_param(
                        &entry.1,
                        alias,
                        optional,
                        true,
                        strict,
                        dupe_type(&entry.2.converter_param),
                        ParamTransform::Keep,
                        errors,
                    ),
                );
            }
        }
        assert(params@ =~= old(params)@ + self.replace_params(*entry, *dataclass));
        assert(errors@ =~= old(errors)@ + self.param_reports(
            *entry,
            Self::strictness(*entry, dataclass.kws.strict),
            entry.2.converter_param,
        ));
    }

    /// The method that copies an instance with some fields changed.
    pub fn get_dataclass_replace(
        &self,
        cls: &Class,
        dataclass: &DataclassMetadata,
        kw_only_by_class: &Vec<KwOnlyFields>,
        errors: &mut ErrorCollector,
    ) -> (r: ClassField)
        requires
            self.wf(),
            self.setters_readable(
                self.ordered_fields(*cls, *dataclass, true, kw_views(kw_only_by_class@)),
            ),
        ensures
            r == self.dataclass_replace(*cls, *dataclass, kw_views(kw_only_by_class@)),
            final(errors)@ == old(errors)@ + self.replace_method_reports(
                self.ordered_fields(*cls, *dataclass, true, kw_views(kw_only_by_class@)),
                *dataclass,
            ),
    {
        let entries = self.iter_fields(cls, dataclass, true, kw_only_by_class);
        let mut params: Vec<Param> = Vec::new();
        params.push(self.class_self_param(cls, true));
        let ghost first = params@;
        let mut i: usize = 0;
        assert(entries@.take(0) =~= Seq::empty());
        assert(params@ =~= first + Seq::<Param>::empty());
        assert(errors@ =~= old(errors)@ + Seq::<ReportView>::empty());
        while i < entries.len()
            invariant
                i <= entries@.len(),
                self.wf(),
                self.setters_readable(entries@),
                params@ == first + self.all_replace_params(entries@.take(i as int), *dataclass),
                errors@ == old(errors)@ + self.replace_method_reports(
                    entries@.take(i as int),
                    *dataclass,
                ),
            decreases entries@.len() - i,
        {
            assert(entries@.take(i + 1).drop_last() =~= entries@.take(i as int));
            assert(entries@.take(i + 1).last() == entries@[i as int]);
            self.push_replace_params(&entries[i], dataclass, &mut params, errors);
            assert(params@ =~= first + self.all_replace_params(entries@.take(i + 1), *dataclass));
            assert(errors@ =~= old(errors)@ + self.replace_method_reports(
                entries@.take(i + 1),
                *dataclass,
            ));
            i = i + 1;
        }
        assert(entries@.take(i as int) =~= entries@);
        if dataclass.kws.extra {
            params.push(Param::Kwargs(None, Type::Any(AnyStyle::Implicit)));
        }
        assert(params@ =~= seq![self.self_param(*cls, true)] + self.all_replace_params(
            entries@,
            *dataclass,
        ) + Self::extra_params(*dataclass));
        ClassField::new_synthesized(
            make_method(&self.dunder.replace, params, self.instantiate(cls)),
        )
    }

    /// The names that positional patterns match.
    pub open spec fn dataclass_match_args(
        self,
        cls: Class,
        dataclass: DataclassMetadata,
        sets: Seq<KwOnlyView>,
    ) -> ClassField {
        ClassField::synthesized(
            Type::Tuple(
                Arc::new(
                    List::of(
                        if dataclass.kws.kw_only {
                            Seq::empty()
                        } else {
                            matchable(self.ordered_fields(cls, dataclass, true, sets))
                        },
                    ),
                ),
            ),
            false,
        )
    }

    /// The names that positional patterns match. Keyword-only fields are not among them.
    pub fn get_dataclass_match_args(
        &self,
        cls: &Class,
        dataclass: &DataclassMetadata,
        kw_only_by_class: &Vec<KwOnlyFields>,
    ) -> (r: ClassField)
        ensures
            r == self.dataclass_match_args(*cls, *dataclass, kw_views(kw_only_by_class@)),
    {
        let mut ts: Vec<Type> = Vec::new();
        if !dataclass.kws.kw_only {
            let entries = self.iter_fields(cls, dataclass, true, kw_only_by_class);
            let mut i: usize = 0;
            assert(entries@.take(0) =~= Seq::empty());
            while i < entries.len()
                invariant
                    i <= entries@.len(),
                    ts@ == matchable(entries@.take(i as int)),
                decreases entries@.len() - i,
            {
                assert(entries@.take(i + 1).drop_last() =~= entries@.take(i as int));
                assert(entries@.take(i + 1).last() == entries@[i as int]);
                let entry = &entries[i];
                if !entry.2.is_kw_only() && entry.2.init {
                    ts.push(make_name_literal(&entry.0));
                }
                i = i + 1;
            }
            assert(entries@.take(i as int) =~= entries@);
        }
        ClassField::new_synthesized(Type::Tuple(Arc::new(List::from_vec(ts))))
    }

    /// The names of the fields, as `__slots__` lists them.
    pub open spec fn dataclass_slots(
        self,
        cls: Class,
        dataclass: DataclassMetadata,
        sets: Seq<KwOnlyView>,
    ) -> ClassField {
        ClassField::synthesized(
            Type::Tuple(
                Arc::new(
                    List::of(name_literals(self.ordered_fields(cls, dataclass, false, sets))),
                ),
            ),
            false,
        )
    }

    /// The names of the fields, as `__slots__` lists them.
    pub fn get_dataclass_slots(
        &self,
        cls: &Class,
        dataclass: &DataclassMetadata,
        kw_only_by_class: &Vec<KwOnlyFields>,
    ) -> (r: ClassField)
        ensures
            r == self.dataclass_slots(*cls, *dataclass, kw_views(kw_only_by_class@)),
    {
        let entries = self.iter_fields(cls, dataclass, false, kw_only_by_class);
        let mut ts: Vec<Type> = Vec::new();
        let mut i: usize = 0;
        while i < entries.len()
            invariant
                i <= entries@.len(),
                ts@ == name_literals(entries@.take(i as int)),
            decreases entries@.len() - i,
        {
            ts.push(make_name_literal(&entries[i].0));
            assert(ts@ =~= name_literals(entries@.take(i + 1)));
            i = i + 1;
        }
        assert(entries@.take(i as int) =~= entries@);
        ClassField::new_synthesized(Type::Tuple(Arc::new(List::from_vec(ts))))
    }

    /// A comparison method.
    pub open spec fn comparison(self, cls: Class, name: String, other: Type) -> SynthesizedField {
        SynthesizedField {
            name,
            field: ClassField::synthesized(
                method_type(
                    name,
                    seq![
                        self.self_param(cls, false),
                        Param::Pos(self.dunder.other, other, Required::Required),
                    ],
                    Type::ClassType(self.stdlib.bool_class),
                ),
                false,
            ),
        }
    }

    fn make_comparison(&self, cls: &Class, name: &String, other: Type) -> (r: SynthesizedField)
        ensures
            r == self.comparison(*cls, *name, other),
    {
        let mut params: Vec<Param> = Vec::new();
        params.push(self.class_self_param(cls, false));
        params.push(Param::Pos(self.dunder.other.clone(), other, Required::Required));
        assert(params@ =~= seq![params@[0], params@[1]]);
        SynthesizedField {
            name: name.clone(),
            field: ClassField::new_synthesized(
                make_method(name, params, Type::ClassType(self.stdlib.bool_class.dupe())),
            ),
        }
    }

    /// The comparison methods of an ordered dataclass. Instances of the class are ordered among
    /// themselves, and are equal or unequal to anything.
    pub open spec fn comparisons(self, cls: Class) -> Seq<SynthesizedField> {
        let same = self.instance_of(cls);
        let any = Type::ClassType(self.stdlib.object);
        seq![
            self.comparison(cls, self.dunder.lt, same),
            self.comparison(cls, self.dunder.le, same),
            self.comparison(cls, self.dunder.eq, any),
            self.comparison(cls, self.dunder.ne, any),
            self.comparison(cls, self.dunder.gt, same),
            self.comparison(cls, self.dunder.ge, same),
        ]
    }

    /// The comparison methods of an ordered dataclass.
    pub fn get_dataclass_rich_comparison_methods(&self, cls: &Class) -> (r: Vec<SynthesizedField>)
        ensures
            r@ == self.comparisons(*cls),
    {
        let d = &self.dunder;
        let mut methods: Vec<SynthesizedField> = Vec::new();
        methods.push(self.make_comparison(cls, &d.lt, self.instantiate(cls)));
        methods.push(self.make_comparison(cls, &d.le, self.instantiate(cls)));
        methods.push(
            self.make_comparison(cls, &d.eq, Type::ClassType(self.stdlib.object.dupe())),
        );
        methods.push(
            self.make_comparison(cls, &d.ne, Type::ClassType(self.stdlib.object.dupe())),
        );
        methods.push(self.make_comparison(cls, &d.gt, self.instantiate(cls)));
        methods.push(self.make_comparison(cls, &d.ge, self.instantiate(cls)));
        assert(methods@ =~= self.comparisons(*cls));
        methods
    }

    /// The hash method of a dataclass.
    pub open spec fn dataclass_hash(self, cls: Class) -> ClassField {
        ClassField::synthesized(
            method_type(
                self.dunder.hash,
                seq![self.self_param(cls, false)],
                Type::ClassType(self.stdlib.int_class),
            ),
            false,
        )
    }

    /// The hash method of a dataclass.
    pub fn get_dataclass_hash(&self, cls: &Class) -> (r: ClassField)
        ensures
            r == self.dataclass_hash(*cls),
    {
        let mut params: Vec<Param> = Vec::new();
        params.push(self.class_self_param(cls, false));
        assert(params@ =~= seq![params@[0]]);
        ClassField::new_synthesized(
            make_method(
                &self.dunder.hash,
                params,
                Type::ClassType(self.stdlib.int_class.dupe()),
            ),
        )
    }
}

impl<Ans: LookupAnswer> AnswersSolver<Ans> {
    /// How the constructor of a dataclass that is no root model is made. Values of a pydantic model
    /// are converted, root models can be given as their root values, and settings can all be left
    /// out: they may come from the environment.
    pub open spec fn init_style(
        self,
        cls: Class,
        dataclass: DataclassMetadata,
        sets: Seq<KwOnlyView>,
    ) -> InitStyle {
        let metadata = self.info(cls).metadata;
        if metadata.pydantic() {
            InitStyle {
                strict_default: dataclass.kws.strict,
                transform: ParamTransform::ExpandRootModels,
                force_optional: metadata.pydantic_model_kind == Some(
                    PydanticModelKind::BaseSettings,
                ),
                lax_types: Some(
                    List::of(entry_types(self.ordered_fields(cls, dataclass, false, sets))),
                ),
            }
        } else {
            InitStyle {
                strict_default: dataclass.kws.strict,
                transform: ParamTransform::Keep,
                force_optional: false,
                lax_types: None,
            }
        }
    }

    fn get_init_style(
        &self,
        cls: &Class,
        dataclass: &DataclassMetadata,
        kw_only_by_class: &Vec<KwOnlyFields>,
    ) -> (r: InitStyle)
        ensures
            r == self.init_style(*cls, *dataclass, kw_views(kw_only_by_class@)),
    {
        let metadata = self.get_metadata_for_class(cls);
        if metadata.is_pydantic_model() {
            let entries = self.iter_fields(cls, dataclass, false, kw_only_by_class);
            let mut types: Vec<Type> = Vec::new();
            let mut i: usize = 0;
            while i < entries.len()
                invariant
                    i <= entries@.len(),
                    types@ == entry_types(entries@.take(i as int)),
                decreases entries@.len() - i,
            {
                types.push(entries[i].1.ty());
                assert(types@ =~= entry_types(entries@.take(i + 1)));
                i = i + 1;
            }
            assert(entries@.take(i as int) =~= entries@);
            let force_optional = match metadata.pydantic_model_kind {
                Some(kind) => kind == PydanticModelKind::BaseSettings,
                None => false,
            };
            InitStyle {
                strict_default: dataclass.kws.strict,
                transform: ParamTransform::ExpandRootModels,
                force_optional,
                lax_types: Some(List::from_vec(types)),
            }
        } else {
            InitStyle {
                strict_default: dataclass.kws.strict,
                transform: ParamTransform::Keep,
                force_optional: false,
                lax_types: None,
            }
        }
    }

    /// The constructor that a dataclass gets.
    pub open spec fn init_field(
        self,
        cls: Class,
        dataclass: DataclassMetadata,
        sets: Seq<KwOnlyView>,
    ) -> ClassField {
        match self.root_type(cls, self.info(cls).metadata) {
            Some((root, has_strict)) => self.root_init(cls, root, has_strict),
            None => self.dataclass_init(
                cls,
                dataclass,
                self.init_style(cls, dataclass, sets),
                sets,
            ),
        }
    }

    /// The reports that go with it.
    pub open spec fn init_field_reports(
        self,
        cls: Class,
        dataclass: DataclassMetadata,
        sets: Seq<KwOnlyView>,
    ) -> Seq<ReportView> {
        if self.root_type(cls, self.info(cls).metadata) is Some {
            Seq::empty()
        } else {
            self.init_reports(
                cls,
                self.ordered_fields(cls, dataclass, true, sets),
                dataclass,
                self.init_style(cls, dataclass, sets),
            )
        }
    }

    /// What is added for hashing: a hash method where instances do not change or where it is asked
    /// for, nothing to hash by where only equality is added.
    pub open spec fn hash_fields(self, cls: Class, dataclass: DataclassMetadata) -> Seq<
        SynthesizedField,
    > {
        let kws = dataclass.kws;
        if kws.unsafe_hash || (kws.eq && kws.frozen) {
            seq![SynthesizedField { name: self.dunder.hash, field: self.dataclass_hash(cls) }]
        } else if kws.eq {
            seq![
                SynthesizedField {
                    name: self.dunder.hash,
                    field: ClassField::synthesized(Type::NoneType, false),
                },
            ]
        } else {
            Seq::empty()
        }
    }

    /// The constructor that is added to a dataclass.
    pub open spec fn added_init(
        self,
        cls: Class,
        dataclass: DataclassMetadata,
        sets: Seq<KwOnlyView>,
    ) -> Seq<SynthesizedField> {
        if dataclass.kws.init {
            seq![
                SynthesizedField {
                    name: self.dunder.init,
                    field: self.init_field(cls, dataclass, sets),
                },
            ]
        } else {
            Seq::empty()
        }
    }

    /// What is added to every dataclass, and the comparison methods of an ordered one.
    pub open spec fn added_comparisons(self, cls: Class, dataclass: DataclassMetadata) -> Seq<
        SynthesizedField,
    > {
        seq![
            SynthesizedField {
                name: self.dunder.dataclass_fields,
                field: ClassField::synthesized(
                    Type::ClassType(self.stdlib.dataclass_fields),
                    true,
                ),
            },
        ] + (if dataclass.kws.order {
            self.comparisons(cls)
        } else {
            Seq::empty()
        })
    }

    /// The names for patterns and the slots that are added to a dataclass.
    pub open spec fn added_names(
        self,
        cls: Class,
        dataclass: DataclassMetadata,
        sets: Seq<KwOnlyView>,
    ) -> Seq<SynthesizedField> {
        (if dataclass.kws.match_args {
            seq![
                SynthesizedField {
                    name: self.dunder.match_args,
                    field: self.dataclass_match_args(cls, dataclass, sets),
                },
            ]
        } else {
            Seq::empty()
        }) + (if dataclass.kws.slots && !self.info(cls).declares("__slots__"@) {
            seq![
                SynthesizedField {
                    name: self.dunder.slots,
                    field: self.dataclass_slots(cls, dataclass, sets),
                },
            ]
        } else {
            Seq::empty()
        })
    }

    /// The fields that are added to a dataclass.
    pub open spec fn synthesized_fields(
        self,
        cls: Class,
        dataclass: DataclassMetadata,
        sets: Seq<KwOnlyView>,
    ) -> Seq<SynthesizedField> {
        self.added_init(cls, dataclass, sets) + self.added_comparisons(cls, dataclass)
            + self.added_names(cls, dataclass, sets) + self.hash_fields(cls, dataclass) + seq![
            SynthesizedField {
                name: self.dunder.replace,
                field: self.dataclass_replace(cls, dataclass, sets),
            },
        ]
    }

    /// The report on slots that are asked for and written out as well.
    pub open spec fn slots_report(self, cls: Class, dataclass: DataclassMetadata) -> Seq<ReportView> {
        if dataclass.kws.slots && self.info(cls).declares("__slots__"@) {
            seq![
                report1(
                    cls.range,
                    Rule::BadClassDefinition,
                    "Cannot specify both `slots=True` and `__slots__`"@,
                ),
            ]
        } else {
            Seq::empty()
        }
    }

    /// The reports on a dataclass.
    pub open spec fn synthesis_reports(
        self,
        cls: Class,
        dataclass: DataclassMetadata,
        sets: Seq<KwOnlyView>,
    ) -> Seq<ReportView> {
        self.non_data_reports(cls, name_elements(dataclass.fields)) + self.data_reports(cls, name_elements(dataclass.fields))
            + (if dataclass.kws.init {
            self.init_field_reports(cls, dataclass, sets)
        } else {
            Seq::empty()
        }) + self.slots_report(cls, dataclass) + self.replace_method_reports(
            self.ordered_fields(cls, dataclass, true, sets),
            dataclass,
        )
    }

    /// Whether what the fields of a dataclass accept can be computed.
    pub open spec fn synthesis_computable(
        self,
        cls: Class,
        dataclass: DataclassMetadata,
        sets: Seq<KwOnlyView>,
    ) -> bool {
        let entries = self.ordered_fields(cls, dataclass, true, sets);
        &&& self.setters_readable(entries)
        &&& dataclass.kws.init && self.root_type(cls, self.info(cls).metadata) is None
            ==> self.init_computable(entries, dataclass, self.init_style(cls, dataclass, sets))
    }

    fn push_init(
        &self,
        cls: &Class,
        dataclass: &DataclassMetadata,
        kw_only_by_class: &Vec<KwOnlyFields>,
        fields: &mut Vec<SynthesizedField>,
        errors: &mut ErrorCollector,
    )
        requires
            self.wf(),
            dataclass.kws.init,
            self.synthesis_computable(*cls, *dataclass, kw_views(kw_only_by_class@)),
        ensures
            final(fields)@ == old(fields)@.push(
                SynthesizedField {
                    name: self.dunder.init,
                    field: self.init_field(*cls, *dataclass, kw_views(kw_only_by_class@)),
                },
            ),
            final(errors)@ == old(errors)@ + self.init_field_reports(
                *cls,
                *dataclass,
                kw_views(kw_only_by_class@),
            ),
    {
        let metadata = self.get_metadata_for_class(cls);
        let init = match self.get_pydantic_root_model_type_via_mro(cls, metadata) {
            Some((root, has_strict)) => {
                assert(errors@ + Seq::<ReportView>::empty() =~= errors@);
                self.get_pydantic_root_model_init(cls, root, has_strict)
            },
            None => {
                let style = self.get_init_style(cls, dataclass, kw_only_by_class);
                self.get_dataclass_init(cls, dataclass, &style, kw_only_by_class, errors)
            },
        };
        fields.push(SynthesizedField { name: self.dunder.init.clone(), field: init });
    }

    fn push_hash(&self, cls: &Class, dataclass: &DataclassMetadata, fields: &mut Vec<SynthesizedField>)
        ensures
            final(fields)@ == old(fields)@ + self.hash_fields(*cls, *dataclass),
    {
        let kws = &dataclass.kws;
        if kws.unsafe_hash || (kws.eq && kws.frozen) {
            fields.push(
                SynthesizedField {
                    name: self.dunder.hash.clone(),
                    field: self.get_dataclass_hash(cls),
                },
            );
        } else if kws.eq {
            fields.push(
                SynthesizedField {
                    name: self.dunder.hash.clone(),
                    field: ClassField::new_synthesized(Type::NoneType),
                },
            );
        }
        assert(fields@ =~= old(fields)@ + self.hash_fields(*cls, *dataclass));
    }

    fn push_comparisons(
        &self,
        cls: &Class,
        dataclass: &DataclassMetadata,
        fields: &mut Vec<SynthesizedField>,
    )
        ensures
            final(fields)@ == old(fields)@ + self.added_comparisons(*cls, *dataclass),
    {
        fields.push(
            SynthesizedField {
                name: self.dunder.dataclass_fields.clone(),
                field: ClassField::new_synthesized_classvar(
                    Type::ClassType(self.stdlib.dataclass_fields.dupe()),
                ),
            },
        );
        if dataclass.kws.order {
            let mut methods = self.get_dataclass_rich_comparison_methods(cls);
            fields.append(&mut methods);
        }
        assert(fields@ =~= old(fields)@ + self.added_comparisons(*cls, *dataclass));
    }

    fn push_names(
        &self,
        cls: &Class,
        dataclass: &DataclassMetadata,
        kw_only_by_class: &Vec<KwOnlyFields>,
        fields: &mut Vec<SynthesizedField>,
        errors: &mut ErrorCollector,
    )
        ensures
            final(fields)@ == old(fields)@ + self.added_names(
                *cls,
                *dataclass,
                kw_views(kw_only_by_class@),
            ),
            final(errors)@ == old(errors)@ + self.slots_report(*cls, *dataclass),
    {
        assert(errors@ + Seq::<ReportView>::empty() =~= errors@);
        if dataclass.kws.match_args {
            fields.push(
                SynthesizedField {
                    name: self.dunder.match_args.clone(),
                    field: self.get_dataclass_match_args(cls, dataclass, kw_only_by_class),
                },
            );
        }
        if dataclass.kws.slots {
            if self.get_info(cls).declares_field("__slots__") {
                errors.error(
                    cls.range,
                    Rule::BadClassDefinition,
                    "Cannot specify both `slots=True` and `__slots__`".to_owned(),
                );
            } else {
                fields.push(
                    SynthesizedField {
                        name: self.dunder.slots.clone(),
                        field: self.get_dataclass_slots(cls, dataclass, kw_only_by_class),
                    },
                );
            }
        }
        assert(fields@ =~= old(fields)@ + self.added_names(
            *cls,
            *dataclass,
            kw_views(kw_only_by_class@),
        ));
    }

    /// The fields that are added to a class, where it is a dataclass.
    #[verifier::rlimit(40)]
    pub fn get_dataclass_synthesized_fields(&self, cls: &Class, errors: &mut ErrorCollector) -> (r:
        Option<Vec<SynthesizedField>>)
        requires
            self.wf(),
            self.info(*cls).metadata.dataclass matches Some(dm) ==> self.synthesis_computable(
                *cls,
                dm,
                self.kw_only_of(*cls),
            ),
        ensures
            match self.info(*cls).metadata.dataclass {
                None => r is None && final(errors)@ == old(errors)@,
                Some(dm) => r is Some && (r->0)@ == self.synthesized_fields(
                    *cls,
                    dm,
                    self.kw_only_of(*cls),
                ) && final(errors)@ == old(errors)@ + self.synthesis_reports(
                    *cls,
                    dm,
                    self.kw_only_of(*cls),
                ),
            },
    {
        let info = self.get_info(cls);
        let dataclass = match &info.metadata.dataclass {
            None => {
                return None;
            },
            Some(dm) => dm,
        };
        let kw_only_by_class = self.compute_kw_only_fields_by_class(cls);
        let mut fields: Vec<SynthesizedField> = Vec::new();
        self.check_dataclass_non_data_descriptors(cls, dataclass, errors);
        self.check_dataclass_data_descriptor_defaults(cls, dataclass, errors);
        if dataclass.kws.init {
            self.push_init(cls, dataclass, &kw_only_by_class, &mut fields, errors);
        }
        self.push_comparisons(cls, dataclass, &mut fields);
        self.push_names(cls, dataclass, &kw_only_by_class, &mut fields, errors);
        self.push_hash(cls, dataclass, &mut fields);
        let replace = self.get_dataclass_replace(cls, dataclass, &kw_only_by_class, errors);
        fields.push(SynthesizedField { name: self.dunder.replace.clone(), field: replace });
        assert(fields@ =~= self.synthesized_fields(*cls, *dataclass, self.kw_only_of(*cls)));
        assert(errors@ =~= old(errors)@ + self.synthesis_reports(
            *cls,
            *dataclass,
            self.kw_only_of(*cls),
        ));
        Some(fields)
    }

    /// The parameters that `__post_init__` is called with: the init variables.
    pub open spec fn post_init_params(self, entries: Seq<FieldEntry>) -> Seq<Param>
        decreases entries.len(),
    {
        if entries.len() == 0 {
            Seq::empty()
        } else if entries.last().1.init_var() {
            self.post_init_params(entries.drop_last()).push(
                self.param_of(
                    entries.last().1,
                    entries.last().0,
                    false,
                    false,
                    true,
                    None,
                    ParamTransform::Keep,
                ),
            )
        } else {
            self.post_init_params(entries.drop_last())
        }
    }

    /// The reports that go with them.
    pub open spec fn post_init_param_reports(self, entries: Seq<FieldEntry>) -> Seq<ReportView>
        decreases entries.len(),
    {
        if entries.len() == 0 {
            Seq::empty()
        } else if entries.last().1.init_var() {
            self.post_init_param_reports(entries.drop_last()) + self.accepted_reports(
                entries.last().1,
                true,
                None,
            )
        } else {
            self.post_init_param_reports(entries.drop_last())
        }
    }

    /// What `__post_init__` is called as.
    pub open spec fn post_init_want(
        self,
        cls: Class,
        dataclass: DataclassMetadata,
        sets: Seq<KwOnlyView>,
    ) -> Type {
        Type::Callable(
            Arc::new(
                Callable {
                    params: Params::List(
                        List::of(
                            self.post_init_params(
                                self.ordered_fields(cls, dataclass, true, sets),
                            ),
                        ),
                    ),
                    ret: Type::ClassType(self.stdlib.object),
                },
            ),
        )
    }

    /// The reports on a `__post_init__` of a dataclass.
    pub open spec fn post_init_check_reports(
        self,
        cls: Class,
        dataclass: DataclassMetadata,
        post_init: Type,
        range: TextRange,
    ) -> Seq<ReportView> {
        let sets = self.kw_only_of(cls);
        self.post_init_param_reports(self.ordered_fields(cls, dataclass, true, sets))
            + self.answers.post_init_reports(
            post_init,
            self.post_init_want(cls, dataclass, sets),
            range,
        )
    }

    /// Reports a `__post_init__` that cannot be called with the init variables of the dataclass.
    pub fn validate_post_init(
        &self,
        cls: &Class,
        dataclass_metadata: &DataclassMetadata,
        post_init: &Type,
        range: TextRange,
        errors: &mut ErrorCollector,
    )
        requires
            self.wf(),
            self.setters_readable(
                self.ordered_fields(*cls, *dataclass_metadata, true, self.kw_only_of(*cls)),
            ),
        ensures
            final(errors)@ == old(errors)@ + self.post_init_check_reports(
                *cls,
                *dataclass_metadata,
                *post_init,
                range,
            ),
    {
        let kw_only_by_class = self.compute_kw_only_fields_by_class(cls);
        let entries = self.iter_fields(cls, dataclass_metadata, true, &kw_only_by_class);
        let mut params: Vec<Param> = Vec::new();
        let mut i: usize = 0;
        assert(entries@.take(0) =~= Seq::empty());
        assert(errors@ =~= old(errors)@ + Seq::<ReportView>::empty());
        while i < entries.len()
            invariant
                i <= entries@.len(),
                self.wf(),
                self.setters_readable(entries@),
                params@ == self.post_init_params(entries@.take(i as int)),
                errors@ == old(errors)@ + self.post_init_param_reports(entries@.take(i as int)),
            decreases entries@.len() - i,
        {
            assert(entries@.take(i + 1).drop_last() =~= entries@.take(i as int));
            assert(entries@.take(i + 1).last() == entries@[i as int]);
            let entry = &entries[i];
            if entry.1.is_init_var() {
                params.push(
                    self.as_param(
                        &entry.1,
                        &entry.0,
                        false,
                        false,
                        true,
                        None,
                        ParamTransform::Keep,
                        errors,
                    ),
                );
            }
            assert(errors@ =~= old(errors)@ + self.post_init_param_reports(entries@.take(i + 1)));
            i = i + 1;
        }
        assert(entries@.take(i as int) =~= entries@);
        let want = Type::Callable(
            Arc::new(
                Callable {
                    params: Params::List(List::from_vec(params)),
                    ret: Type::ClassType(self.stdlib.object.dupe()),
                },
            ),
        );
        self.answers.check_post_init(post_init, &want, range, errors);
        assert(errors@ =~= old(errors)@ + self.post_init_check_reports(
            *cls,
            *dataclass_metadata,
            *post_init,
            range,
        ));
    }
}

/// Whether a parameter of the constructor stands for a field: the field takes part in the
/// constructor, and the parameter has its name or its other name.
pub open spec fn stands_for(param: Param, entry: FieldEntry) -> bool {
    &&& entry.2.init
    &&& match param {
        Param::Pos(name, _, _) => (entry.2.init_by_name && name == entry.0)
            || entry.2.init_by_alias == Some(name),
        Param::KwOnly(name, _, _) => (entry.2.init_by_name && name == entry.0)
            || entry.2.init_by_alias == Some(name),
        _ => false,
    }
}

/// Every parameter of the constructor of a dataclass between the receiver and what accepts unknown
/// keywords stands for a field that takes part in the constructor. Keyword-only fields have
/// keyword-only parameters.
pub proof fn law_parameters_stand_for_fields<Ans: LookupAnswer>(
    solver: AnswersSolver<Ans>,
    entries: Seq<FieldEntry>,
    dataclass: DataclassMetadata,
    style: InitStyle,
    k: int,
)
    requires
        0 <= k < solver.all_init_params(entries, dataclass, style).len(),
    ensures
        exists|i: int|
            0 <= i < entries.len() && stands_for(
                solver.all_init_params(entries, dataclass, style)[k],
                #[trigger] entries[i],
            ) && (entries[i].2.keyword_only() ==> solver.all_init_params(
                entries,
                dataclass,
                style,
            )[k] is KwOnly),
    decreases entries.len(),
{
    let before = solver.all_init_params(entries.drop_last(), dataclass, style);
    let all = solver.all_init_params(entries, dataclass, style);
    let last = entries.last();
    if k < before.len() {
        law_parameters_stand_for_fields(solver, entries.drop_last(), dataclass, style, k);
        let i = choose|i: int|
            0 <= i < entries.len() - 1 && stands_for(
                before[k],
                #[trigger] entries.drop_last()[i],
            ) && (entries.drop_last()[i].2.keyword_only() ==> before[k] is KwOnly);
        assert(entries[i] == entries.drop_last()[i]);
        assert(all[k] == before[k]);
    } else {
        assert(all[k] == solver.init_params(last, dataclass, style)[k - before.len()]);
        assert(stands_for(all[k], entries[entries.len() - 1]));
    }
}

/// Where a dataclass asks for keyword-only fields, every field that it defines itself and that does
/// not say otherwise is keyword-only.
pub proof fn law_keyword_only_classes_have_keyword_only_fields<Ans: LookupAnswer>(
    solver: AnswersSolver<Ans>,
    cls: Class,
    dataclass: DataclassMetadata,
    name: String,
    member: WithDefiningClass<ClassField>,
    keywords: DataclassFieldKeywords,
    sets: Seq<KwOnlyView>,
)
    requires
        dataclass.kws.kw_only,
        member.defining_class.id == cls.id,
        keywords.kw_only is None,
    ensures
        solver.entry_of(cls, dataclass, name, member, keywords, sets).2.keyword_only(),
{
}

} // verus!
