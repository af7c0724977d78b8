use std::sync::Arc;

use vstd::prelude::*;

use crate::attribute::{ClassAttribute, ClassBase, NoAccessReason, ReadOnlyReason};
use crate::class_field::{ClassField, ClassFieldInner};
use crate::instance::{bound, Binding, Instance};
use crate::list::List;
use crate::report::{Rule, TextRange};
use crate::solver::{AnswersSolver, LookupAnswer, WithDefiningClass};
use crate::subst::{subst_type, Subst};
use crate::types::{
    BoundMethod, BoundMethodType, ClassType, Function, Overload, Quantified, TArg, Type,
};
use crate::vars::vars;
use crate::writing::SetAction;

verus! {

/// Whether a type is a function that still has to be bound.
pub open spec fn is_function(ty: Type) -> bool {
    ty is Function || ty is Overload || ty is Forall
}

/// Whether a type mentions a type variable.
pub open spec fn mentions(ty: Type, id: u64) -> bool {
    exists|i: int| 0 <= i < vars(ty).len() && #[trigger] vars(ty)[i].id == id
}

/// The type variables of the class that an attribute of a class object is looked up on.
pub open spec fn open_variables<Ans: LookupAnswer>(
    solver: AnswersSolver<Ans>,
    cls: ClassBase,
) -> Seq<u64> {
    match cls {
        ClassBase::ClassDef(c) => solver.info(c.class).tparams@.map_values(|q: Quantified| q.id),
        ClassBase::ClassType(c) => c.targs@.map_values(|a: TArg| a.param.id),
        ClassBase::Quantified(_, c) => c.targs@.map_values(|a: TArg| a.param.id),
        ClassBase::SelfType(c) => c.targs@.map_values(|a: TArg| a.param.id),
        ClassBase::Protocol(c, _) => c.targs@.map_values(|a: TArg| a.param.id),
    }
}

proof fn lemma_uses_any(tparams: &List<Quantified>, qs: Seq<Quantified>)
    ensures
        crate::vars::uses_any(*tparams, qs) <==> exists|k: int, i: int|
            0 <= k < tparams@.len() && 0 <= i < qs.len() && #[trigger] qs[i].id
                == #[trigger] tparams@[k].id,
    decreases tparams,
{
    match tparams {
        List::Nil => {},
        List::Cons(q, rest) => {
            lemma_uses_any(&**rest, qs);
            assert(tparams@[0] == *q);
            assert forall|k: int| 0 <= k < rest@.len() implies #[trigger] rest@[k] == tparams@[k
                + 1] by {}
            assert forall|k: int| 1 <= k < tparams@.len() implies #[trigger] tparams@[k]
                == rest@[k - 1] by {}
            if crate::vars::has_var(qs, q.id) || exists|k: int, i: int|
                0 <= k < rest@.len() && 0 <= i < qs.len() && #[trigger] qs[i].id
                    == #[trigger] rest@[k].id {
                if crate::vars::has_var(qs, q.id) {
                    let i = choose|i: int| 0 <= i < qs.len() && #[trigger] qs[i].id == q.id;
                    assert(qs[i].id == tparams@[0].id);
                } else {
                    let (k, i) = choose|k: int, i: int|
                        0 <= k < rest@.len() && 0 <= i < qs.len() && #[trigger] qs[i].id
                            == #[trigger] rest@[k].id;
                    assert(qs[i].id == tparams@[k + 1].id);
                }
            }
            if exists|k: int, i: int|
                0 <= k < tparams@.len() && 0 <= i < qs.len() && #[trigger] qs[i].id
                    == #[trigger] tparams@[k].id {
                let (k, i) = choose|k: int, i: int|
                    0 <= k < tparams@.len() && 0 <= i < qs.len() && #[trigger] qs[i].id
                        == #[trigger] tparams@[k].id;
                if k > 0 {
                    assert(qs[i].id == rest@[k - 1].id);
                }
            }
        },
    }
}

proof fn lemma_uses_any_arg(args: &List<TArg>, qs: Seq<Quantified>)
    ensures
        crate::vars::uses_any_arg(*args, qs) <==> exists|k: int, i: int|
            0 <= k < args@.len() && 0 <= i < qs.len() && #[trigger] qs[i].id
                == #[trigger] args@[k].param.id,
    decreases args,
{
    match args {
        List::Nil => {},
        List::Cons(a, rest) => {
            lemma_uses_any_arg(&**rest, qs);
            assert(args@[0] == *a);
            assert forall|k: int| 0 <= k < rest@.len() implies #[trigger] rest@[k] == args@[k
                + 1] by {}
            assert forall|k: int| 1 <= k < args@.len() implies #[trigger] args@[k] == rest@[k
                - 1] by {}
            if crate::vars::has_var(qs, a.param.id) || exists|k: int, i: int|
                0 <= k < rest@.len() && 0 <= i < qs.len() && #[trigger] qs[i].id
                    == #[trigger] rest@[k].param.id {
                if crate::vars::has_var(qs, a.param.id) {
                    let i = choose|i: int| 0 <= i < qs.len() && #[trigger] qs[i].id == a.param.id;
                    assert(qs[i].id == args@[0].param.id);
                } else {
                    let (k, i) = choose|k: int, i: int|
                        0 <= k < rest@.len() && 0 <= i < qs.len() && #[trigger] qs[i].id
                            == #[trigger] rest@[k].param.id;
                    assert(qs[i].id == args@[k + 1].param.id);
                }
            }
            if exists|k: int, i: int|
                0 <= k < args@.len() && 0 <= i < qs.len() && #[trigger] qs[i].id
                    == #[trigger] args@[k].param.id {
                let (k, i) = choose|k: int, i: int|
                    0 <= k < args@.len() && 0 <= i < qs.len() && #[trigger] qs[i].id
                        == #[trigger] args@[k].param.id;
                if k > 0 {
                    assert(qs[i].id == rest@[k - 1].param.id);
                }
            }
        },
    }
}

/// What stands for `Self` where an attribute is looked up on a class object.
pub open spec fn receiver(cls: ClassBase) -> Type {
    match cls {
        ClassBase::ClassDef(c) => Type::ClassType(c),
        ClassBase::ClassType(c) => Type::ClassType(c),
        ClassBase::Quantified(q, _) => Type::Quantified(Arc::new(q)),
        ClassBase::SelfType(c) => Type::SelfType(c),
        ClassBase::Protocol(_, t) => t,
    }
}

/// An attribute that has its value in the class body, or is declared there, can be read through the
/// class where its type holds no type variable of the class, and what is read is its type.
pub proof fn law_class_attributes_are_read_on_the_class<Ans: LookupAnswer>(
    solver: AnswersSolver<Ans>,
    name: Seq<char>,
    field: ClassField,
    cls: ClassBase,
    depth: nat,
)
    requires
        name != "__new__"@,
        field.inner matches ClassFieldInner::ClassAttribute { initialization, .. } && !(
        initialization is Method),
        field.inner matches ClassFieldInner::ClassAttribute { ty, .. } && {
            let own = subst_type(ty, Subst::SelfType(receiver(cls)));
            &&& !is_function(own)
            &&& forall|i: int|
                0 <= i < open_variables(solver, cls).len() ==> !mentions(
                    own,
                    #[trigger] open_variables(solver, cls)[i],
                )
        },
    ensures
        ({
            let attribute = solver.class_attribute(name, field, cls);
            let own = subst_type(
                match field.inner {
                    ClassFieldInner::ClassAttribute { ty, .. } => ty,
                    _ => field.field_type(),
                },
                Subst::SelfType(receiver(cls)),
            );
            let read = solver.normalized(own);
            &&& attribute is ReadWrite || attribute is ReadOnly
            &&& attribute is ReadOnly == (field.inner matches ClassFieldInner::ClassAttribute {
                read_only_reason: Some(_),
                ..
            })
            &&& !is_function(read) && !(read is Union) ==> solver.read(attribute, depth) == Some(
                Ok::<Type, NoAccessReason>(read),
            )
        }),
{
    let own = subst_type(field.field_type(), Subst::SelfType(receiver(cls)));
    match cls {
        ClassBase::ClassDef(c) => {
            let tparams = solver.info(c.class).tparams;
            lemma_uses_any(&*tparams, vars(own));
            assert forall|k: int, i: int|
                0 <= k < tparams@.len() && 0 <= i < vars(own).len() implies #[trigger] vars(
                own,
            )[i].id != #[trigger] tparams@[k].id by {
                assert(open_variables(solver, cls)[k] == tparams@[k].id);
                assert(!mentions(own, open_variables(solver, cls)[k]));
            }
        },
        _ => {
            let targs = cls.applied().targs;
            lemma_uses_any_arg(&*targs, vars(own));
            assert forall|k: int, i: int|
                0 <= k < targs@.len() && 0 <= i < vars(own).len() implies #[trigger] vars(
                own,
            )[i].id != #[trigger] targs@[k].param.id by {
                assert(open_variables(solver, cls)[k] == targs@[k].param.id);
                assert(!mentions(own, open_variables(solver, cls)[k]));
            }
        },
    }
}

/// An attribute whose type holds a type variable of the class cannot be read through the class,
/// unless it is a function.
pub proof fn law_generic_attributes_are_not_read_on_the_class<Ans: LookupAnswer>(
    solver: AnswersSolver<Ans>,
    name: Seq<char>,
    field: ClassField,
    cls: ClassBase,
    i: int,
)
    requires
        name != "__new__"@,
        field.inner matches ClassFieldInner::ClassAttribute { initialization, .. } && !(
        initialization is Method),
        0 <= i < open_variables(solver, cls).len(),
        field.inner matches ClassFieldInner::ClassAttribute { ty, .. } && !is_function(
            subst_type(ty, Subst::SelfType(receiver(cls))),
        ) && mentions(
            subst_type(ty, Subst::SelfType(receiver(cls))),
            open_variables(solver, cls)[i],
        ),
    ensures
        solver.class_attribute(name, field, cls) matches ClassAttribute::NoAccess(reason)
            && reason is ClassAttributeIsGeneric,
{
    let own = subst_type(field.field_type(), Subst::SelfType(receiver(cls)));
    let id = open_variables(solver, cls)[i];
    let j = choose|j: int| 0 <= j < vars(own).len() && #[trigger] vars(own)[j].id == id;
    match cls {
        ClassBase::ClassDef(c) => {
            let tparams = solver.info(c.class).tparams;
            lemma_uses_any(&*tparams, vars(own));
            assert(vars(own)[j].id == tparams@[i].id);
        },
        _ => {
            let targs = cls.applied().targs;
            lemma_uses_any_arg(&*targs, vars(own));
            assert(vars(own)[j].id == targs@[i].param.id);
        },
    }
}

/// An attribute that only instance methods assign cannot be read through the class.
pub proof fn law_instance_attributes_are_not_read_on_the_class<Ans: LookupAnswer>(
    solver: AnswersSolver<Ans>,
    name: Seq<char>,
    field: ClassField,
    cls: ClassBase,
)
    requires
        field.inner is InstanceAttribute || (field.inner matches ClassFieldInner::ClassAttribute {
            initialization,
            ..
        } && initialization is Method),
    ensures
        solver.class_attribute(name, field, cls) == ClassAttribute::NoAccess(
            NoAccessReason::ClassUseOfInstanceAttribute(
                match cls {
                    ClassBase::ClassDef(c) => c.class,
                    ClassBase::ClassType(c) => c.class,
                    ClassBase::Quantified(_, c) => c.class,
                    ClassBase::SelfType(c) => c.class,
                    ClassBase::Protocol(c, _) => c.class,
                },
            ),
        ),
{
}

/// Methods, properties and nested classes can always be reached through the class. A property is
/// its function there, and a nested class cannot be replaced.
pub proof fn law_functions_are_read_on_the_class<Ans: LookupAnswer>(
    solver: AnswersSolver<Ans>,
    name: Seq<char>,
    field: ClassField,
    cls: ClassBase,
)
    ensures
        field.inner is Method || field.inner is Property ==> solver.class_attribute(
            name,
            field,
            cls,
        ) is ReadWrite,
        field.inner is NestedClass ==> (solver.class_attribute(
            name,
            field,
            cls,
        ) matches ClassAttribute::ReadOnly(_, reason) && reason
            == ReadOnlyReason::ClassObjectInitializedOnBody),
        field.inner is Descriptor ==> solver.class_attribute(name, field, cls) is Descriptor,
{
}

/// A class variable is read-only on instances, whatever else is known of it, and only there: on the
/// class it can be written unless there is another reason.
pub proof fn law_class_variables_are_set_on_the_class<Ans: LookupAnswer>(
    solver: AnswersSolver<Ans>,
    name: String,
    field: ClassField,
    instance: Instance,
    cls: ClassBase,
)
    requires
        field.inner matches ClassFieldInner::ClassAttribute { is_classvar, .. } && is_classvar,
    ensures
        solver.instance_attribute(name, field, instance) matches ClassAttribute::ReadOnly(_, reason)
            && reason == ReadOnlyReason::ClassVar,
        (field.inner matches ClassFieldInner::ClassAttribute { read_only_reason: None, .. }) ==> !(
        solver.class_attribute(name@, field, cls) is ReadOnly),
{
}

/// An attribute of instances is read with its own type, and written unless there is a reason why
/// it cannot be.
pub proof fn law_instances_read_their_attributes<Ans: LookupAnswer>(
    solver: AnswersSolver<Ans>,
    name: String,
    field: ClassField,
    instance: Instance,
    depth: nat,
)
    requires
        name@ != "__new__"@,
        field.inner is ClassAttribute || field.inner is InstanceAttribute,
    ensures
        ({
            let attribute = solver.instance_attribute(name, field, instance);
            let ty = subst_type(
                subst_type(
                    match field.inner {
                        ClassFieldInner::ClassAttribute { ty, .. } => ty,
                        ClassFieldInner::InstanceAttribute { ty, .. } => ty,
                        _ => field.field_type(),
                    },
                    Subst::SelfType(instance.own_type()),
                ),
                Subst::Args(instance.targs),
            );
            &&& solver.read(attribute, depth) == Some(
                Ok::<Type, NoAccessReason>(solver.answers.finalized(solver.answers.expanded(ty))),
            )
            &&& attribute is ReadWrite == match field.inner {
                ClassFieldInner::ClassAttribute { read_only_reason, is_classvar, .. } =>
                    read_only_reason is None && !is_classvar,
                ClassFieldInner::InstanceAttribute { read_only_reason, .. } => read_only_reason
                    is None,
                _ => true,
            }
        }),
{
}

/// A plain function is bound to the instance that it is looked up on; a static method is not, and a
/// class method is bound to the class.
pub proof fn law_functions_bind_by_their_decorators(obj: Type, f: Function)
    requires
        !f.metadata.flags.is_callback_protocol,
    ensures
        !f.metadata.flags.is_staticmethod && !f.metadata.flags.is_classmethod ==> bound(
            Binding::ToInstance,
            obj,
            Type::Function(f),
        ) == Ok::<Type, Type>(
            Type::BoundMethod(Arc::new(BoundMethod { obj, func: BoundMethodType::Function(f) })),
        ) && bound(Binding::ToClass, obj, Type::Function(f)) is Err,
        f.metadata.flags.is_staticmethod && !f.metadata.flags.is_classmethod ==> bound(
            Binding::ToInstance,
            obj,
            Type::Function(f),
        ) is Err && bound(Binding::ToClass, obj, Type::Function(f)) is Err,
        f.metadata.flags.is_classmethod ==> bound(Binding::ToInstance, obj, Type::Function(f)) is Err
            && bound(Binding::ToClass, obj, Type::Function(f)) == Ok::<Type, Type>(
            Type::BoundMethod(Arc::new(BoundMethod { obj, func: BoundMethodType::Function(f) })),
        ),
{
}

/// Binding gives back what it does not bind, and whatever it binds is a method of the object.
pub proof fn law_binding_keeps_what_it_does_not_bind(how: Binding, obj: Type, attr: Type)
    ensures
        bound(how, obj, attr) matches Err(same) ==> same == attr,
        !is_function(attr) && !(attr is Union) ==> bound(how, obj, attr) is Err,
        !(attr is Union) ==> (bound(how, obj, attr) matches Ok(t) ==> (t matches Type::BoundMethod(
            m,
        ) && m.obj == obj)),
{
}

/// A method that is looked up on an instance is bound to it, a static method is as it stands, and a
/// class method is bound to the class of the instance.
pub proof fn law_instances_bind_their_methods<Ans: LookupAnswer>(
    solver: AnswersSolver<Ans>,
    name: String,
    field: ClassField,
    instance: Instance,
    f: Function,
)
    requires
        name@ != "__new__"@,
        field.inner is Method,
        solver.normalized(field.on_instance(instance).field_type()) == Type::Function(f),
        !f.metadata.flags.is_callback_protocol,
    ensures
        solver.instance_attribute(name, field, instance) == ClassAttribute::ReadWrite(
            if f.metadata.flags.is_classmethod {
                Type::BoundMethod(
                    Arc::new(
                        BoundMethod {
                            obj: instance.class_base().object_type(),
                            func: BoundMethodType::Function(f),
                        },
                    ),
                )
            } else if f.metadata.flags.is_staticmethod {
                Type::Function(f)
            } else {
                Type::BoundMethod(
                    Arc::new(
                        BoundMethod {
                            obj: solver.answers.expanded(instance.own_type()),
                            func: BoundMethodType::Function(f),
                        },
                    ),
                )
            },
        ),
{
}

/// A property of an instance can be set exactly where its function is a setter, and then it is read
/// through the getter that belongs to the setter.
pub proof fn law_properties_are_set_through_setters<Ans: LookupAnswer>(
    solver: AnswersSolver<Ans>,
    name: String,
    field: ClassField,
    instance: Instance,
)
    requires
        field.inner is Property,
        name@ != "__new__"@,
    ensures
        solver.instance_attribute(name, field, instance) matches ClassAttribute::Property(
            _,
            setter,
            cls,
        ) && cls == instance.class && setter is Some == (field.on_instance(
            instance,
        ).field_type().func_metadata() matches Some(m) && (m.property matches Some(p)
            && p.role is Setter)),
{
}

/// Assigning to what cannot be accessed, or to a property that has no setter and is not cached,
/// gives exactly one report and nothing else. A setter is called, and a writable attribute takes
/// the value.
pub proof fn law_assignments_follow_the_attribute<Ans: LookupAnswer>(
    solver: AnswersSolver<Ans>,
    attr: ClassAttribute,
    instance_class: Option<ClassType>,
    class_base: Option<ClassBase>,
    name: Seq<char>,
    allow_assign_to_final: bool,
    range: TextRange,
    should_narrow: bool,
)
    ensures
        ({
            let outcome = solver.set_outcome(
                attr,
                instance_class,
                class_base,
                name,
                allow_assign_to_final,
                range,
                should_narrow,
            );
            &&& attr matches ClassAttribute::NoAccess(reason) ==> {
                &&& outcome.action is Nothing
                &&& outcome.reports.len() == 1
                &&& outcome.reports[0].rule == Rule::NoAccess
                &&& outcome.reports[0].range == range
                &&& outcome.reports[0].lines == seq![solver.answers.no_access_text(reason, name)]
                &&& !outcome.should_narrow
            }
            &&& attr matches ClassAttribute::Property(getter, None, cls) ==> (!(
            getter.func_metadata() matches Some(m) && m.flags.is_cached_property) ==> {
                &&& outcome.action is Nothing
                &&& outcome.reports.len() == 1
                &&& outcome.reports[0].rule == Rule::ReadOnly
                &&& outcome.reports[0].range == range
                &&& outcome.reports[0].lines == seq![
                    solver.answers.no_access_text(
                        NoAccessReason::SettingReadOnlyProperty(cls),
                        name,
                    ),
                ]
            })
            &&& attr matches ClassAttribute::Property(_, Some(setter), _) ==> outcome.action
                == SetAction::CallSetter(setter) && outcome.reports.len() == 0
            &&& attr matches ClassAttribute::ReadWrite(ty) ==> (outcome.action matches SetAction::Assign(
                want,
                narrow,
            ) && narrow == should_narrow && (instance_class is None ==> want == ty))
                && outcome.should_narrow == should_narrow
            &&& attr is ReadWrite && instance_class is None && class_base is None
                ==> outcome.reports.len() == 0
        }),
{
}

/// A final attribute can be given its value in the constructor exactly where the declaration has
/// none, and its value must fit its type; a reason other than that is reported there too.
pub proof fn law_constructors_initialize_final_attributes<Ans: LookupAnswer>(
    solver: AnswersSolver<Ans>,
    ty: Type,
    reason: ReadOnlyReason,
    class_base: Option<ClassBase>,
    name: Seq<char>,
    allow_assign_to_final: bool,
    range: TextRange,
    should_narrow: bool,
)
    ensures
        ({
            let outcome = solver.set_outcome(
                ClassAttribute::ReadOnly(ty, reason),
                None,
                class_base,
                name,
                allow_assign_to_final,
                range,
                should_narrow,
            );
            let allowed = allow_assign_to_final && reason == ReadOnlyReason::Final(false);
            &&& allowed ==> outcome.reports.len() == 0 && outcome.action == SetAction::Assign(
                ty,
                should_narrow,
            )
            &&& !allowed ==> {
                &&& outcome.reports.len() == 1
                &&& outcome.reports[0].rule == Rule::ReadOnly
                &&& outcome.reports[0].range == range
                &&& outcome.reports[0].lines.len() == 2
                &&& outcome.reports[0].lines[1] == solver.answers.read_only_text(reason)
                &&& outcome.action is Nothing
            }
        }),
{
}

/// Only a pydantic model that is not frozen lets the fields of frozen ancestors be written.
pub proof fn law_only_models_thaw_fields<Ans: LookupAnswer>(
    solver: AnswersSolver<Ans>,
    cls: ClassType,
)
    ensures
        solver.thawed(Some(cls)) ==> {
            let metadata = solver.info(cls.class).metadata;
            &&& metadata.pydantic_model_kind matches Some(kind) && !(kind is DataClass)
            &&& metadata.dataclass matches Some(dm) && !dm.kws.frozen
        },
        (solver.info(cls.class).metadata.pydantic_model_kind matches Some(kind) && !(kind
            is DataClass)) && (solver.info(cls.class).metadata.dataclass matches Some(dm)
            && !dm.kws.frozen) ==> solver.thawed(Some(cls)),
        !solver.thawed(None),
{
}

/// Deleting an attribute is reported exactly where it cannot be accessed or is read-only.
pub proof fn law_deletions_follow_the_attribute<Ans: LookupAnswer>(
    solver: AnswersSolver<Ans>,
    attr: ClassAttribute,
    name: Seq<char>,
    range: TextRange,
)
    ensures
        solver.delete_reports(attr, name, range).len() == (if attr is NoAccess || attr is ReadOnly {
            1nat
        } else {
            0nat
        }),
        attr is NoAccess ==> solver.delete_reports(attr, name, range)[0].rule == Rule::NoAccess,
        attr is ReadOnly ==> solver.delete_reports(attr, name, range)[0].rule == Rule::ReadOnly,
        attr is NoAccess || attr is ReadOnly ==> solver.delete_reports(attr, name, range)[0].range
            == range,
{
}

/// Reading gives the type of an attribute, written or not, and the reason where there is no access.
pub proof fn law_reading_gives_the_type<Ans: LookupAnswer>(
    solver: AnswersSolver<Ans>,
    attr: ClassAttribute,
    depth: nat,
)
    ensures
        attr matches ClassAttribute::NoAccess(reason) ==> solver.read(attr, depth) == Some(
            Err::<Type, NoAccessReason>(reason),
        ),
        attr matches ClassAttribute::ReadWrite(ty) ==> solver.read(attr, depth) == Some(
            Ok::<Type, NoAccessReason>(ty),
        ),
        attr matches ClassAttribute::ReadOnly(ty, _) ==> solver.read(attr, depth) == Some(
            Ok::<Type, NoAccessReason>(ty),
        ),
        attr matches ClassAttribute::Property(getter, _, _) ==> solver.read(attr, depth) == Some(
            Ok::<Type, NoAccessReason>(solver.answers.getter_result(getter)),
        ),
{
}

/// A method that is looked up through `super` is refused exactly where it has no implementation:
/// it is abstract and nothing runs it, or it belongs to a protocol that does not define it.
pub proof fn law_super_calls_need_implementations<Ans: LookupAnswer>(
    solver: AnswersSolver<Ans>,
    member: WithDefiningClass<ClassField>,
)
    ensures
        (member.value.inner matches ClassFieldInner::Method { is_abstract, ty, .. } && !is_abstract
            && !solver.info(member.defining_class).metadata.is_protocol)
            ==> !solver.missing_implementation(member),
        (member.value.inner matches ClassFieldInner::Method { is_abstract, ty, .. } && is_abstract
            && (ty.func_metadata() matches Some(m) && m.flags.lacks_runtime_implementation))
            ==> solver.missing_implementation(member),
        (member.value.inner matches ClassFieldInner::Method { ty, .. } && solver.info(
            member.defining_class,
        ).metadata.is_protocol && (ty.func_metadata() matches Some(m)
            && m.flags.is_non_callable_protocol_method)) ==> solver.missing_implementation(member),
        member.value.inner is Descriptor || member.value.inner is NestedClass
            ==> !solver.missing_implementation(member),
{
}

/// The constructors of `object` are no constructors of a class, unless they are asked for; those
/// that a class body defines elsewhere are.
pub proof fn law_constructors_of_object_do_not_count<Ans: LookupAnswer>(
    solver: AnswersSolver<Ans>,
    cls: ClassType,
    instance: Instance,
    preserve_self: bool,
)
    ensures
        solver.member_and_class(cls.class, "__new__"@) matches Some(member) ==> (
        member.defining_class.toplevel && member.defining_class.module@ == "builtins"@
            && member.defining_class.name@ == "object"@ ==> solver.dunder_new(cls, preserve_self)
            is None),
        solver.member_and_class(cls.class, "__new__"@) matches Some(member) ==> (!(
        member.defining_class.module@ == "builtins"@) && member.value.inner is Method
            ==> solver.dunder_new(cls, preserve_self) is Some),
        solver.member_and_class(instance.class, "__init__"@) matches Some(member) ==> (
        member.defining_class.toplevel && member.defining_class.module@ == "builtins"@
            && member.defining_class.name@ == "object"@ ==> solver.dunder_init(instance, false)
            is None && solver.dunder_init(instance, true) == member.value.special_method(instance)),
        solver.member_and_class(instance.class, "__init__"@) matches Some(member) ==> (!(
        member.defining_class.module@ == "builtins"@) ==> solver.dunder_init(instance, false)
            == member.value.special_method(instance)),
        solver.member_and_class(cls.class, "__new__"@) is None ==> solver.dunder_new(
            cls,
            preserve_self,
        ) is None,
{
}

} // verus!
