use std::sync::Arc;

use vstd::prelude::*;

use crate::access::can_hold;
use crate::annotation::DataclassFieldKeywords;
use crate::attribute::{
    ClassAttribute, ClassBase, Descriptor, DescriptorBase, NoAccessReason, ReadOnlyReason,
};
use crate::attributes::SuperObj;
use crate::class_field::{ClassField, ClassFieldInner};
use crate::dataclass_fields::BaseWithMetadata;
use crate::expr::ArgValue;
use crate::instance::{Instance, InstanceKind};
use crate::list::List;
use crate::reading::DataclassMember;
use crate::report::{Rule, TextRange};
use crate::same::same_class_type;
use crate::solver::{ancestors_from, AnswersSolver, LookupAnswer, Search, WithDefiningClass};
use crate::types::{
    BoundMethod, BoundMethodType, Class, ClassType, Function, Lit, Param, Params, Quantified,
    Required, Restriction, Type,
};
use crate::writing::SetAction;

verus! {

/// `super` looks from the class on that it is given, in the order of the ancestors, and at no class
/// before it. Without a class it looks at all ancestors.
pub proof fn law_super_starts_at_its_class(ancestors: Seq<ClassType>, start: ClassType)
    ensures
        ancestors_from(ancestors, None) == ancestors,
        ({
            let seen = ancestors_from(ancestors, Some(start));
            &&& seen.len() <= ancestors.len()
            &&& seen == ancestors.skip(ancestors.len() - seen.len())
            &&& seen.len() > 0 ==> same_class_type(seen[0], start)
            &&& forall|i: int|
                0 <= i < ancestors.len() - seen.len() ==> !same_class_type(
                    #[trigger] ancestors[i],
                    start,
                )
        }),
    decreases ancestors.len(),
{
    assert(ancestors.skip(0) =~= ancestors);
    if ancestors.len() > 0 && !same_class_type(ancestors[0], start) {
        let rest = ancestors.drop_first();
        law_super_starts_at_its_class(rest, start);
        let seen = ancestors_from(rest, Some(start));
        assert(rest.skip(rest.len() - seen.len()) =~= ancestors.skip(
            ancestors.len() - seen.len(),
        ));
        assert forall|i: int| 0 <= i < ancestors.len() - seen.len() implies !same_class_type(
            #[trigger] ancestors[i],
            start,
        ) by {
            if i > 0 {
                assert(ancestors[i] == rest[i - 1]);
            }
        }
    }
}

/// What `super` finds is read as the instance or the class reads its own members, with `Self` for
/// the class that `super` is called in.
pub proof fn law_super_reads_as_the_object_does<Ans: LookupAnswer>(
    solver: AnswersSolver<Ans>,
    start: ClassType,
    c: ClassType,
    name: String,
)
    ensures
        solver.super_member(c.class, Some(start), name@) is None ==> solver.super_attribute(
            start,
            SuperObj::Instance(c),
            name,
        ) is None && solver.super_attribute(start, SuperObj::Class(c), name) is None,
        solver.super_member(c.class, Some(start), name@) matches Some(member) ==> (
        !solver.missing_implementation(member) && solver.member(c.class, name@) == Some(
            member.value,
        ) ==> solver.super_attribute(start, SuperObj::Instance(c), name) == solver.attribute_on(
            name,
            Instance { kind: InstanceKind::SelfType, class: c.class, targs: c.targs },
        ) && solver.super_attribute(start, SuperObj::Class(c), name) == solver.attribute_on_class(
            ClassBase::SelfType(c),
            name@,
        )),
        solver.super_member(c.class, Some(start), name@) matches Some(member) ==> (
        solver.missing_implementation(member) ==> solver.super_attribute(
            start,
            SuperObj::Instance(c),
            name,
        ) == Some(
            ClassAttribute::NoAccess(
                NoAccessReason::SuperMethodNeedsImplementation(member.defining_class),
            ),
        ) && solver.super_attribute(start, SuperObj::Class(c), name) == solver.super_attribute(
            start,
            SuperObj::Instance(c),
            name,
        )),
{
}

/// A class and an instance have an attribute exactly where the class has a member.
pub proof fn law_members_are_attributes<Ans: LookupAnswer>(
    solver: AnswersSolver<Ans>,
    cls: ClassBase,
    name: String,
    instance: Instance,
)
    ensures
        solver.attribute_on_class(cls, name@) is Some == solver.member(
            cls.applied().class,
            name@,
        ) is Some,
        solver.attribute_on(name, instance) is Some == solver.member(
            instance.class,
            name@,
        ) is Some,
{
}

/// Calling a class goes through its metaclass only where the metaclass has a `__call__` of its own
/// with an annotated return type, and then that method is bound to the class.
pub proof fn law_metaclasses_may_take_calls<Ans: LookupAnswer>(
    solver: AnswersSolver<Ans>,
    cls: ClassType,
    metaclass: ClassType,
    member: WithDefiningClass<ClassField>,
    f: Function,
)
    requires
        solver.info(cls.class).metadata.custom_metaclass == Some(metaclass),
        solver.member_and_class(metaclass.class, "__call__"@) == Some(member),
    ensures
        member.defining_class.toplevel && member.defining_class.module@ == "builtins"@
            && member.defining_class.name@ == "type"@ ==> solver.metaclass_call(cls) is None,
        (member.value.inner matches ClassFieldInner::Method {
            is_function_without_return_annotation: unannotated,
            ..
        } && unannotated) ==> solver.metaclass_call(cls) is None,
        !(member.defining_class.toplevel && member.defining_class.module@ == "builtins"@
            && member.defining_class.name@ == "type"@) && (member.value.inner
            matches ClassFieldInner::Method {
            is_function_without_return_annotation: unannotated,
            ..
        } && !unannotated) && member.value.on_instance(
            Instance {
                kind: InstanceKind::Metaclass(ClassBase::ClassType(cls)),
                class: metaclass.class,
                targs: metaclass.targs,
            },
        ).field_type() == Type::Function(f) && !f.metadata.flags.is_staticmethod
            && !f.metadata.flags.is_classmethod && !f.metadata.flags.is_callback_protocol
            ==> solver.metaclass_call(cls) == Some(
            Type::BoundMethod(
                Arc::new(
                    BoundMethod {
                        obj: Type::TypeOf(Arc::new(Type::ClassType(cls))),
                        func: BoundMethodType::Function(f),
                    },
                ),
            ),
        ),
{
}

/// A class without a metaclass of its own, or with one that has no `__call__`, is called as usual.
pub proof fn law_default_metaclasses_do_not_take_calls<Ans: LookupAnswer>(
    solver: AnswersSolver<Ans>,
    cls: ClassType,
)
    ensures
        solver.info(cls.class).metadata.custom_metaclass is None ==> solver.metaclass_call(cls)
            is None,
        solver.info(cls.class).metadata.custom_metaclass matches Some(metaclass) ==> (
        solver.member_and_class(metaclass.class, "__call__"@) is None ==> solver.metaclass_call(
            cls,
        ) is None),
{
}

/// A type variable is narrowed to a class where it was restricted, and stays the same variable.
pub proof fn law_restricted_variables_stay_restricted<Ans: LookupAnswer>(
    q: Quantified,
    upper_bound: ClassType,
)
    ensures
        ({
            let r = AnswersSolver::<Ans>::restricted_to(q, upper_bound);
            &&& r.id == q.id
            &&& r.name == q.name
            &&& q.restriction is Unrestricted ==> r == q
            &&& q.restriction is Bound ==> r.restriction == Restriction::Bound(
                Arc::new(Type::ClassType(upper_bound)),
            )
            &&& q.restriction is Constraints ==> (r.restriction matches Restriction::Constraints(
                only,
            ) && only@.len() == 1 && only@[0] == Type::ClassType(upper_bound))
        }),
{
    List::view_of(seq![Type::ClassType(upper_bound)]);
}

/// A key of a typed dictionary is no attribute of it. What is not a key is found as on any class.
pub proof fn law_keys_are_no_attributes<Ans: LookupAnswer>(
    solver: AnswersSolver<Ans>,
    td: ClassType,
    name: Seq<char>,
)
    ensures
        solver.info(td.class).metadata.typed_dict_total(name) is None ==> solver.typed_dict_member(
            td,
            name,
        ) == solver.member(td.class, name),
        solver.info(td.class).metadata.typed_dict_total(name) is Some ==> solver.typed_dict_member(
            td,
            name,
        ) is Some == solver.from_mro(td.class, name, Search::NotTypedDictKeys) is Some,
        solver.info(td.class).metadata.typed_dict_total(name) is Some ==> (solver.from_mro(
            td.class,
            name,
            Search::NotTypedDictKeys,
        ) matches Some(member) ==> solver.typed_dict_member(td, name) == Some(member.value)),
        AnswersSolver::<Ans>::typed_dict_instance(td).kind is TypedDict,
        AnswersSolver::<Ans>::typed_dict_instance(td).class == td.class,
        AnswersSolver::<Ans>::typed_dict_instance(td).targs == td.targs,
{
}

/// Instances hold fields of every kind, except that a typed dictionary holds no descriptors.
pub proof fn law_typed_dicts_hold_no_descriptors(instance: Instance, field: ClassField)
    ensures
        !(field.inner is Descriptor) ==> can_hold(instance, field),
        !(instance.kind is TypedDict) ==> can_hold(instance, field),
        instance.kind is TypedDict && field.inner is Descriptor ==> !can_hold(instance, field),
{
}

/// A descriptor on an instance is set through its `__set__`, and cannot be set without one. On the
/// class object the descriptor itself is exchanged.
pub proof fn law_descriptors_are_set_through_set<Ans: LookupAnswer>(
    solver: AnswersSolver<Ans>,
    x: Descriptor,
    cls: ClassType,
    base: ClassBase,
    instance_class: Option<ClassType>,
    class_base: Option<ClassBase>,
    name: Seq<char>,
    allow: bool,
    range: TextRange,
    should_narrow: bool,
)
    ensures
        ({
            let on_instance = solver.set_outcome(
                ClassAttribute::Descriptor(x, DescriptorBase::Instance(cls)),
                instance_class,
                class_base,
                name,
                allow,
                range,
                should_narrow,
            );
            let on_class = solver.set_outcome(
                ClassAttribute::Descriptor(x, DescriptorBase::ClassDef(base)),
                instance_class,
                class_base,
                name,
                allow,
                range,
                should_narrow,
            );
            let setter = solver.resolved_method(x.cls, x.setter, solver.dunder.set);
            &&& setter matches Some(s) ==> on_instance.action == SetAction::CallDescriptorSetter(
                s,
                DescriptorBase::Instance(cls),
            )
            &&& setter is None ==> on_instance.action is Nothing && on_instance.reports.len() == 1
                && on_instance.reports[0].rule == Rule::ReadOnly && on_instance.reports[0].range
                == range && on_instance.reports[0].lines == seq![
                solver.answers.no_access_text(
                    NoAccessReason::SettingReadOnlyDescriptor(cls.class),
                    name,
                ),
            ]
            &&& !on_instance.should_narrow
            &&& on_class.action == SetAction::Assign(Type::ClassType(x.cls), false)
            &&& on_class.reports.len() == 0
        }),
{
}

/// An attribute of an instance takes what its field takes: for a field with a converter what the
/// converter takes, and for any other attribute what its type says. A final field of a dataclass
/// cannot be set.
pub proof fn law_fields_take_what_converters_take<Ans: LookupAnswer>(
    solver: AnswersSolver<Ans>,
    ty: Type,
    cls: ClassType,
    class_base: Option<ClassBase>,
    name: Seq<char>,
    allow: bool,
    range: TextRange,
    should_narrow: bool,
)
    ensures
        ({
            let outcome = solver.set_outcome(
                ClassAttribute::ReadWrite(ty),
                Some(cls),
                class_base,
                name,
                allow,
                range,
                should_narrow,
            );
            match solver.dataclass_member(cls.class, name) {
                DataclassMember::Field(member, kws) => {
                    &&& kws.converter_param matches Some(t) ==> outcome.action == SetAction::Assign(
                        t,
                        should_narrow,
                    )
                    &&& kws.converter_param is None ==> outcome.action == SetAction::Assign(
                        ty,
                        should_narrow,
                    )
                    &&& outcome.reports.len() == if member.value.final_field() {
                        1int
                    } else {
                        0int
                    }
                    &&& member.value.final_field() ==> outcome.reports[0].rule == Rule::ReadOnly
                        && outcome.reports[0].range == range && outcome.reports[0].lines.len() == 2
                        && outcome.reports[0].lines[1] == solver.answers.read_only_text(
                        ReadOnlyReason::Final(false),
                    )
                },
                _ => outcome.action == SetAction::Assign(ty, should_narrow)
                    && outcome.reports.len() == 0,
            }
        }),
{
}

/// The value of an assignment is checked as the attribute says, and only a plain assignment tells
/// what the attribute holds afterwards.
pub proof fn law_values_are_checked_by_their_target<Ans: LookupAnswer>(
    solver: AnswersSolver<Ans>,
    ty: Type,
    narrow: bool,
    setter: Type,
    base: DescriptorBase,
    name: Seq<char>,
    got: ArgValue,
    range: TextRange,
)
    ensures
        solver.assigned_reports(SetAction::Nothing, name, got, range).len() == 0,
        solver.assigned_narrowed(SetAction::Nothing, name, got).len() == 0,
        solver.assigned_reports(SetAction::Assign(ty, narrow), name, got, range)
            == solver.answers.assign_reports(ty, name, got, range),
        solver.assigned_narrowed(SetAction::Assign(ty, narrow), name, got)
            == solver.answers.assign_narrowed(ty, name, got, narrow),
        solver.assigned_reports(SetAction::CallSetter(setter), name, got, range)
            == solver.answers.setter_reports(setter, got, range),
        solver.assigned_narrowed(SetAction::CallSetter(setter), name, got).len() == 0,
        solver.assigned_reports(SetAction::CallDescriptorSetter(setter, base), name, got, range)
            == solver.answers.descriptor_setter_reports(setter, base, got, range),
        solver.assigned_narrowed(SetAction::CallDescriptorSetter(setter, base), name, got).len()
            == 0,
{
}

/// A cached property can be set like an attribute of the type that its getter returns.
pub proof fn law_cached_properties_can_be_set<Ans: LookupAnswer>(
    solver: AnswersSolver<Ans>,
    getter: Type,
    owner: Class,
    instance_class: Option<ClassType>,
    class_base: Option<ClassBase>,
    name: Seq<char>,
    allow: bool,
    range: TextRange,
    should_narrow: bool,
)
    requires
        getter.func_metadata() matches Some(m) && m.flags.is_cached_property,
    ensures
        solver.set_outcome(
            ClassAttribute::Property(getter, None, owner),
            instance_class,
            class_base,
            name,
            allow,
            range,
            should_narrow,
        ).action == SetAction::Assign(solver.answers.getter_result(getter), should_narrow),
{
}

/// A dataclass field that is a descriptor is reported where its `__get__` gives what its `__set__`
/// does not take, and where it has no `__set__` and does not give itself.
pub proof fn law_descriptor_fields_are_consistent<Ans: LookupAnswer>(
    solver: AnswersSolver<Ans>,
    cls: Class,
    name: Seq<char>,
    member: WithDefiningClass<ClassField>,
    kws: DataclassFieldKeywords,
    d: Descriptor,
)
    requires
        solver.dataclass_member(cls, name) == DataclassMember::Field(member, kws),
        member.value.inner matches ClassFieldInner::Descriptor { descriptor, .. } && descriptor
            == d,
        d.getter,
    ensures
        d.setter ==> solver.non_data_report(cls, name).len() == 0,
        !d.setter ==> solver.data_report(cls, name).len() == 0,
        !d.setter ==> solver.non_data_report(cls, name).len() == (if (solver.getter_returns(d.cls)
            matches Some(t) && t is SelfType) {
            0int
        } else {
            1int
        }),
        d.setter ==> (match (solver.getter_returns(d.cls), solver.setter_takes(d.cls)) {
            (Some(got), Some(want)) => solver.data_report(cls, name).len() == (if solver.subset_eq(
                got,
                want,
            ) {
                0int
            } else {
                1int
            }),
            _ => solver.data_report(cls, name).len() == 0,
        }),
        forall|i: int|
            0 <= i < solver.data_report(cls, name).len() ==> (#[trigger] solver.data_report(
                cls,
                name,
            )[i]).rule == Rule::BadClassDefinition && solver.data_report(cls, name)[i].range
                == d.range,
        forall|i: int|
            0 <= i < solver.non_data_report(cls, name).len() ==> (#[trigger] solver.non_data_report(
                cls,
                name,
            )[i]).rule == Rule::BadClassDefinition && solver.non_data_report(cls, name)[i].range
                == d.range,
{
}

/// Fields that are no descriptors, or that have no `__get__`, are not reported for it.
pub proof fn law_plain_fields_are_consistent<Ans: LookupAnswer>(
    solver: AnswersSolver<Ans>,
    cls: Class,
    name: Seq<char>,
)
    requires
        !(solver.dataclass_member(cls, name) matches DataclassMember::Field(member, _) && (
        member.value.inner matches ClassFieldInner::Descriptor { descriptor, .. }
            && descriptor.getter)),
    ensures
        solver.data_report(cls, name).len() == 0,
        solver.non_data_report(cls, name).len() == 0,
{
}

/// What a descriptor gives is what its `__get__` returns; what it takes is the third parameter of
/// its `__set__`, behind the descriptor and the object.
pub proof fn law_descriptors_give_and_take<Ans: LookupAnswer>(
    solver: AnswersSolver<Ans>,
    d: ClassType,
    getter: ClassField,
    setter: ClassField,
    f: Function,
    ps: Seq<Param>,
    value: Type,
)
    requires
        solver.member(d.class, "__get__"@) == Some(getter),
        solver.member(d.class, "__set__"@) == Some(setter),
        setter.field_type() == Type::Function(f),
        f.signature.params matches Params::List(list) && list@ == ps,
        ps.len() > 2,
        (ps[2] matches Param::Pos(_, t, _) && t == value) || (ps[2] matches Param::PosOnly(_, t, _)
            && t == value),
    ensures
        solver.getter_returns(d) == solver.answers.returned(getter.field_type()),
        solver.setter_takes(d) == Some(value),
{
    assert(setter.field_type().signatures().len() == 1);
}

/// A frozen dataclass and one that is not do not inherit from each other, except that the frozen
/// one may where a transform made it; the report names both kinds.
pub proof fn law_frozen_and_thawed_do_not_mix<Ans: LookupAnswer>(
    solver: AnswersSolver<Ans>,
    cls: Class,
    frozen: bool,
    base: BaseWithMetadata,
    transform: bool,
)
    ensures
        ({
            let reports = solver.frozen_report(cls, frozen, base, transform);
            let mixed = base.metadata.dataclass matches Some(dm) && dm.kws.frozen != frozen;
            &&& reports.len() == (if mixed && !(transform && frozen) {
                1int
            } else {
                0int
            })
            &&& reports.len() > 0 ==> {
                &&& reports[0].rule == Rule::InvalidInheritance
                &&& reports[0].range == cls.range
                &&& reports[0].lines.len() == 1
                &&& frozen ==> ("Cannot inherit "@ + "frozen"@).is_prefix_of(reports[0].lines[0])
                &&& !frozen ==> ("Cannot inherit "@ + "non-frozen"@).is_prefix_of(
                    reports[0].lines[0],
                )
            }
        }),
{
    let reports = solver.frozen_report(cls, frozen, base, transform);
    if reports.len() > 0 {
        let head = "Cannot inherit "@ + crate::dataclass::frozen_word(frozen);
        let line = reports[0].lines[0];
        assert(line.subrange(0, head.len() as int) =~= head);
    }
}

/// A field is a member of an enumeration exactly where its type is the literal of a member of that
/// enumeration, and it keeps its name.
pub proof fn law_enum_members_are_literals<Ans: LookupAnswer>(
    solver: AnswersSolver<Ans>,
    field: ClassField,
    enum_cls: Class,
)
    ensures
        solver.enum_member(field, enum_cls) is Some == (field.inner is ClassAttribute && (
        field.field_type() matches Type::Literal(lit) && (lit.value matches Lit::Enum(c, _)
            && c.class.id == enum_cls.id))),
        solver.enum_member(field, enum_cls) matches Some(member) ==> (field.field_type()
            matches Type::Literal(lit) && (lit.value matches Lit::Enum(c, name) && (member
            matches Lit::Enum(d, kept) && kept == name && d.class == c.class))),
{
}

/// The receiver of an added method is a required parameter of the type of the instances; it is called
/// `self`, and it can be passed by position.
pub proof fn law_receivers_are_instances<Ans: LookupAnswer>(solver: AnswersSolver<Ans>, cls: Class)
    ensures
        solver.self_param(cls, false) == Param::Pos(
            solver.dunder.self_name,
            solver.instance_of(cls),
            Required::Required,
        ),
        solver.self_param(cls, true) == Param::PosOnly(
            Some(solver.dunder.self_name),
            solver.instance_of(cls),
            Required::Required,
        ),
        solver.info(cls).metadata.typed_dict is None ==> solver.instance_of(cls) == Type::ClassType(
            solver.info(cls).instance_type,
        ),
        solver.info(cls).metadata.typed_dict is Some ==> solver.instance_of(cls) == Type::TypedDict(
            solver.info(cls).instance_type,
        ),
{
}

} // verus!
