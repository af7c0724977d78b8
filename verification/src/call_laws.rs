use std::sync::Arc;

use vstd::prelude::*;

use crate::annotation::Annotation;
use crate::attribute::{ClassAttribute, ReadOnlyReason};
use crate::class_field::{ClassFieldInitialization, ClassFieldInner};
use crate::dataclass_fields::FieldEntry;
use crate::expr::{
    ArgValue, CallArg, CallExpr, CallKeyword, CalleeKind, ClassFieldDefinition, Keyword,
};
use crate::field_value::Analysis;
use crate::instance::{Instance, InstanceKind};
use crate::list::List;
use crate::pydantic::Checked;
use crate::pydantic_args::NamedConstraint;
use crate::reading::params_and_flags;
use crate::report::TextRange;
use crate::solver::{AnswersSolver, LookupAnswer};
use crate::special_type::{argument, first_keyword, with_property};
use crate::types::{
    AnyStyle, Class, ClassType, Function, Param, Params, PropertyMetadata, PropertyRole, Type,
};

verus! {

/// The members of a type are divided into those that are dataclass instances and those that are
/// not, each in their order.
pub proof fn law_dataclasses_are_divided_from_others<Ans: LookupAnswer>(
    solver: AnswersSolver<Ans>,
    types: Seq<Type>,
    ty: Type,
)
    ensures
        solver.dataclasses_among(Seq::empty(), true).len() == 0,
        solver.dataclasses_among(Seq::empty(), false).len() == 0,
        ({
            let is_dataclass = ty matches Type::ClassType(cls) && solver.info(
                cls.class,
            ).metadata.dataclass is Some;
            &&& solver.dataclasses_among(types.push(ty), is_dataclass) == solver.dataclasses_among(
                types,
                is_dataclass,
            ).push(ty)
            &&& solver.dataclasses_among(types.push(ty), !is_dataclass) == solver.dataclasses_among(
                types,
                !is_dataclass,
            )
        }),
{
    assert(types.push(ty).drop_last() =~= types);
}

/// `dataclasses.replace` asks each dataclass for its copy, with all arguments but the first. An
/// object that gives no copy stays as it is.
pub proof fn law_dataclasses_give_their_copies<Ans: LookupAnswer>(
    solver: AnswersSolver<Ans>,
    replace_ty: Type,
    args: Seq<CallArg>,
    kws: Seq<CallKeyword>,
    call: u64,
    value: ArgValue,
    range: TextRange,
)
    requires
        args.len() > 0,
        args[0] == CallArg::Arg(value, range),
    ensures
        ({
            let ty = match value {
                ArgValue::Expr(e) => solver.answers.inferred(e),
                ArgValue::Type(t) => t,
            };
            let members = solver.answers.members(ty);
            let own = solver.dataclasses_among(members, true);
            let copies = solver.each_replaced(own, args.skip(1), kws, call);
            &&& copies.len() == own.len()
            &&& forall|i: int|
                0 <= i < own.len() ==> (#[trigger] copies[i]) == match solver.answers.replaced(
                    own[i],
                    args.skip(1),
                    kws,
                    call,
                ) {
                    Some(t) => t,
                    None => own[i],
                }
            &&& solver.dataclasses_among(members, false).len() == 0 ==> solver.replace_result(
                replace_ty,
                args,
                kws,
                call,
            ) == solver.answers.unioned(copies)
        }),
{
}

/// The members that are no dataclasses are passed to the function together, in place of the first
/// argument, and what it returns joins the copies.
pub proof fn law_other_objects_are_passed_together<Ans: LookupAnswer>(
    solver: AnswersSolver<Ans>,
    replace_ty: Type,
    args: Seq<CallArg>,
    kws: Seq<CallKeyword>,
    call: u64,
    ty: Type,
    range: TextRange,
)
    requires
        args.len() > 0,
        args[0] == CallArg::Arg(ArgValue::Type(ty), range),
        solver.dataclasses_among(solver.answers.members(ty), false).len() > 0,
    ensures
        ({
            let others = solver.dataclasses_among(solver.answers.members(ty), false);
            let own = solver.dataclasses_among(solver.answers.members(ty), true);
            let passed = args.update(
                0,
                CallArg::Arg(ArgValue::Type(solver.answers.unioned(others)), range),
            );
            solver.replace_result(replace_ty, args, kws, call) == solver.answers.unioned(
                solver.each_replaced(own, args.skip(1), kws, call).push(
                    solver.answers.called(replace_ty, passed, kws, call),
                ),
            )
        }),
{
    let others = solver.dataclasses_among(solver.answers.members(ty), false);
    let first = CallArg::Arg(ArgValue::Type(solver.answers.unioned(others)), range);
    assert(seq![first] + args.skip(1) =~= args.update(0, first));
}

/// A call that does not begin with a plain argument is an ordinary call of the function.
pub proof fn law_other_replace_calls_are_ordinary<Ans: LookupAnswer>(
    solver: AnswersSolver<Ans>,
    replace_ty: Type,
    args: Seq<CallArg>,
    kws: Seq<CallKeyword>,
    call: u64,
)
    requires
        args.len() == 0 || args[0] is Star,
    ensures
        solver.replace_result(replace_ty, args, kws, call) == solver.answers.called(
            replace_ty,
            args,
            kws,
            call,
        ),
        solver.replace_reports(replace_ty, args, kws, call) == solver.answers.called_reports(
            replace_ty,
            args,
            kws,
            call,
        ),
{
}

/// The reports are those on the object, those on each copy, and those on the call for the rest.
pub proof fn law_replace_reports_on_every_part<Ans: LookupAnswer>(
    solver: AnswersSolver<Ans>,
    replace_ty: Type,
    args: Seq<CallArg>,
    kws: Seq<CallKeyword>,
    call: u64,
    e: u64,
    range: TextRange,
    types: Seq<Type>,
    ty: Type,
)
    requires
        args.len() > 0,
        args[0] == CallArg::Arg(ArgValue::Expr(e), range),
    ensures
        ({
            let members = solver.answers.members(solver.answers.inferred(e));
            let own = solver.dataclasses_among(members, true);
            solver.dataclasses_among(members, false).len() == 0 ==> solver.replace_reports(
                replace_ty,
                args,
                kws,
                call,
            ) == solver.answers.inferred_reports(e) + solver.each_replaced_reports(
                own,
                args.skip(1),
                kws,
                call,
            )
        }),
        solver.each_replaced_reports(Seq::empty(), args, kws, call).len() == 0,
        solver.each_replaced_reports(types.push(ty), args, kws, call)
            == solver.each_replaced_reports(types, args, kws, call)
            + solver.answers.replaced_reports(ty, args, kws, call),
{
    assert(types.push(ty).drop_last() =~= types);
}

/// A member of an enumeration gets its type as such; a property, a constructor of a root model and a
/// field of a Django model get theirs only where what comes before does not apply.
pub proof fn law_enumerations_decide_first<Ans: LookupAnswer>(
    solver: AnswersSolver<Ans>,
    class: Class,
    name: String,
    annotation: Option<Annotation>,
    ty: Type,
    definition: ClassFieldDefinition,
    is_descriptor: bool,
)
    ensures
        ({
            let got = solver.special_type(class, name, annotation, ty, None, definition, is_descriptor);
            let member = solver.answers.enum_field(
                class,
                name@,
                annotation,
                ty,
                definition,
                is_descriptor,
            );
            let property = solver.property_field(name, definition);
            let root = solver.root_model_field(class, name@);
            let value = match definition.body_expression() {
                Some(e) => Some(e.id),
                None => None,
            };
            &&& member is Some ==> got == member
            &&& member is None && property is Some ==> got == property
            &&& member is None && property is None && root is Some ==> got == root
            &&& member is None && property is None && root is None ==> got
                == solver.answers.django_field(ty, class, name@, value)
        }),
{
}

/// Before its literals were widened, the type of a field is what tells of an enumeration.
pub proof fn law_enumerations_see_literals<Ans: LookupAnswer>(
    solver: AnswersSolver<Ans>,
    class: Class,
    name: String,
    annotation: Option<Annotation>,
    ty: Type,
    unpromoted: Type,
    definition: ClassFieldDefinition,
    is_descriptor: bool,
    range: TextRange,
)
    ensures
        solver.answers.enum_field(class, name@, annotation, unpromoted, definition, is_descriptor)
            is Some ==> solver.special_type(
            class,
            name,
            annotation,
            ty,
            Some(unpromoted),
            definition,
            is_descriptor,
        ) == solver.answers.enum_field(
            class,
            name@,
            annotation,
            unpromoted,
            definition,
            is_descriptor,
        ),
        solver.special_type_reports(
            class,
            name,
            annotation,
            ty,
            Some(unpromoted),
            definition,
            is_descriptor,
            range,
        ) == solver.answers.enum_field_reports(
            class,
            name@,
            annotation,
            unpromoted,
            definition,
            is_descriptor,
            range,
        ),
        solver.special_type_reports(
            class,
            name,
            annotation,
            ty,
            None,
            definition,
            is_descriptor,
            range,
        ) == solver.answers.enum_field_reports(
            class,
            name@,
            annotation,
            ty,
            definition,
            is_descriptor,
            range,
        ),
{
}

/// An argument is the one at its position, or else the first one passed under its name.
pub proof fn law_arguments_have_places_or_names(
    call: CallExpr,
    position: int,
    name: Seq<char>,
    kws: Seq<Keyword>,
    kw: Keyword,
)
    requires
        0 <= position,
    ensures
        position < call.args@.len() ==> argument(call, position, name) == Some(
            call.args@[position].expr,
        ),
        position >= call.args@.len() ==> argument(call, position, name) == first_keyword(
            call.keywords@,
            name,
        ),
        first_keyword(Seq::empty(), name) is None,
        first_keyword(seq![kw] + kws, name) == if (kw.arg matches Some(n) && n@ == name) {
            Some(kw.expr)
        } else {
            first_keyword(kws, name)
        },
{
    assert((seq![kw] + kws).drop_first() =~= kws);
    assert((seq![kw] + kws)[0] == kw);
}

/// `property(get)` is the function `get` as the getter of a property; `property(get, set)` is the
/// function `set` as the setter of one that is read through `get`.
pub proof fn law_property_calls_make_properties<Ans: LookupAnswer>(
    solver: AnswersSolver<Ans>,
    name: String,
    call: CallExpr,
    get: Function,
    set: Function,
)
    requires
        call.args@.len() >= 2,
        solver.answers.inferred(call.args@[0].expr) == Type::Function(get),
    ensures
        solver.answers.inferred(call.args@[1].expr) is NoneType ==> (solver.called_property(
            name,
            call,
        ) matches Some(Type::Function(f)) && f.signature == get.signature && f.metadata.name
            == get.metadata.name && f.metadata.flags == get.metadata.flags && (f.metadata.property
            matches Some(p) && p.role == PropertyRole::Getter && *p.getter == Type::Function(get)
            && p.setter is None)),
        solver.answers.inferred(call.args@[1].expr) == Type::Function(set) ==> (
        solver.called_property(name, call) matches Some(Type::Function(f)) && f.signature
            == set.signature && f.metadata.name == set.metadata.name && f.metadata.flags
            == set.metadata.flags && (f.metadata.property matches Some(p) && p.role
            == PropertyRole::Setter && *p.getter == Type::Function(get) && (p.setter matches Some(s)
            && *s == Type::Function(set)))),
        solver.answers.inferred(call.args@[1].expr) is NoneType && call.args@.len() > 2 ==> (
        solver.called_property(name, call) matches Some(Type::Function(f))
            && f.metadata.property->0.has_deleter == !(solver.answers.inferred(call.args@[2].expr)
            is NoneType)),
{
}

/// Without a getter a call of `property` makes none, and neither does any other call.
pub proof fn law_properties_need_getters<Ans: LookupAnswer>(
    solver: AnswersSolver<Ans>,
    name: String,
    call: CallExpr,
    definition: ClassFieldDefinition,
)
    ensures
        call.args@.len() == 0 && first_keyword(call.keywords@, "fget"@) is None
            ==> solver.called_property(name, call) is None,
        call.args@.len() > 0 && solver.answers.inferred(call.args@[0].expr) is NoneType
            ==> solver.called_property(name, call) is None,
        definition.body_expression() is None ==> solver.property_field(name, definition) is None,
        definition.body_expression() matches Some(e) ==> (e.call() matches Some(c) ==> (
        solver.answers.callee(solver.answers.inferred(c.func)) != Some(CalleeKind::Property)
            ==> solver.property_field(name, definition) is None)),
        definition.body_expression() matches Some(e) ==> (e.call() matches Some(c) ==> (
        solver.answers.callee(solver.answers.inferred(c.func)) == Some(CalleeKind::Property)
            ==> solver.property_field(name, definition) == solver.called_property(name, c))),
{
}

/// A property stays the kind of function that it is made of, and what is no function makes none.
pub proof fn law_properties_are_functions(ty: Type, p: Arc<PropertyMetadata>)
    ensures
        ty is Function ==> (with_property(ty, p) matches Some(t) && t is Function),
        ty is Overload ==> (with_property(ty, p) matches Some(t) && t is Overload && (ty
            matches Type::Overload(o) && (t matches Type::Overload(q) && q.signatures
            == o.signatures && q.metadata.property == Some(p)))),
        ty is BoundMethod ==> (with_property(ty, p) matches Some(t) && (t matches Type::BoundMethod(b)
            && (ty matches Type::BoundMethod(a) && a.obj == b.obj))),
        !(ty is Function || ty is Overload || ty is Forall || ty is BoundMethod) ==> with_property(
            ty,
            p,
        ) is None,
        with_property(ty, p) matches Some(t) ==> (t.func_metadata() matches Some(m)
            && m.property == Some(p)),
{
}

/// Implicit literals are widened exactly in fields without a type of their own that can be written,
/// or are elements of a named tuple.
pub proof fn law_literals_are_widened_where_values_change<Ans: LookupAnswer>(
    found: Analysis,
    initialization: ClassFieldInitialization,
    reason: Option<ReadOnlyReason>,
)
    requires
        found.ty matches Type::Literal(lit) && lit.implicit,
    ensures
        AnswersSolver::<Ans>::widened(found, initialization, reason) == ((found.annotation
            matches Some(a) ==> a.ty is None) && (reason matches Some(r) ==> r
            == ReadOnlyReason::NamedTuple)),
{
}

/// Other types are not widened, but for literals inside of what a method assigns.
pub proof fn law_other_types_are_not_widened<Ans: LookupAnswer>(
    found: Analysis,
    initialization: ClassFieldInitialization,
    reason: Option<ReadOnlyReason>,
)
    requires
        !(found.ty matches Type::Literal(lit) && lit.implicit),
        !(initialization is Method),
    ensures
        !AnswersSolver::<Ans>::widened(found, initialization, reason),
{
}

/// A value of a class with `__get__` or `__set__` is a descriptor exactly in the body of a class or
/// under an annotation that says so; it is known which of the two methods it has.
pub proof fn law_descriptors_stand_in_class_bodies<Ans: LookupAnswer>(
    solver: AnswersSolver<Ans>,
    cls: ClassType,
    initialization: ClassFieldInitialization,
    range: TextRange,
)
    ensures
        ({
            let got = solver.descriptor_of(Type::ClassType(cls), initialization, None, range);
            let getter = solver.member(cls.class, "__get__"@) is Some;
            let setter = solver.member(cls.class, "__set__"@) is Some;
            &&& got is Some == ((getter || setter) && (initialization is ClassBody
                || initialization is Magic))
            &&& got matches Some(d) ==> d.cls == cls && d.range == range && d.getter == getter
                && d.setter == setter
        }),
{
}

/// Only values of classes are descriptors. `Mapped` of sqlalchemy makes one anywhere.
pub proof fn law_only_instances_are_descriptors<Ans: LookupAnswer>(
    solver: AnswersSolver<Ans>,
    ty: Type,
    initialization: ClassFieldInitialization,
    annotation: Annotation,
    mapped: ClassType,
    range: TextRange,
)
    requires
        annotation.ty == Some(Type::ClassType(mapped)),
    ensures
        !(ty is ClassType) ==> solver.descriptor_of(ty, initialization, Some(annotation), range)
            is None,
        ty matches Type::ClassType(cls) ==> (mapped.class.toplevel && mapped.class.module@
            == "sqlalchemy.orm.base"@ && mapped.class.name@ == "Mapped"@ ==> solver.descriptor_of(
            ty,
            initialization,
            Some(annotation),
            range,
        ) is Some == (solver.member(cls.class, "__get__"@) is Some || solver.member(
            cls.class,
            "__set__"@,
        ) is Some)),
{
}

/// An instance is called through `__call__`; a module of a neural network that has none is called
/// through `forward`, and no other instance is.
pub proof fn law_instances_are_called_through_call<Ans: LookupAnswer>(
    solver: AnswersSolver<Ans>,
    class: Class,
    on: spec_fn(String) -> Option<ClassAttribute>,
)
    ensures
        on(solver.dunder.call) is Some ==> solver.call_attribute(class, on) == on(
            solver.dunder.call,
        ),
        on(solver.dunder.call) is None && solver.info(class).is_nn_module ==> solver.call_attribute(
            class,
            on,
        ) == on(solver.dunder.forward),
        on(solver.dunder.call) is None && !solver.info(class).is_nn_module
            ==> solver.call_attribute(class, on) is None,
{
}

/// The signature that a function takes over is that of the first ancestor whose member has a single
/// one.
pub proof fn law_first_signatures_are_taken_over<Ans: LookupAnswer>(
    solver: AnswersSolver<Ans>,
    cls: Class,
    ancestors: Seq<ClassType>,
    ancestor: ClassType,
    name: Seq<char>,
)
    ensures
        solver.first_signature(cls, Seq::empty(), name) is None,
        solver.member(ancestor.class, name) is None ==> solver.first_signature(
            cls,
            seq![ancestor] + ancestors,
            name,
        ) == solver.first_signature(cls, ancestors, name),
        solver.member(ancestor.class, name) matches Some(field) ==> ({
            let seen = params_and_flags(
                field.on_instance(
                    Instance {
                        kind: InstanceKind::Protocol(solver.instance_of(cls)),
                        class: ancestor.class,
                        targs: ancestor.targs,
                    },
                ).field_type(),
            );
            solver.first_signature(cls, seq![ancestor] + ancestors, name) == if seen is Some {
                seen
            } else {
                solver.first_signature(cls, ancestors, name)
            }
        }),
{
    assert((seq![ancestor] + ancestors).drop_first() =~= ancestors);
    assert((seq![ancestor] + ancestors)[0] == ancestor);
}

/// A function with a parameter list has these parameters and its own flags.
pub proof fn law_functions_have_their_parameters(f: Function, ps: List<Param>)
    requires
        f.signature.params == Params::List(ps),
    ensures
        params_and_flags(Type::Function(f)) == Some((ps, f.metadata.flags)),
        params_and_flags(Type::NoneType) is None,
{
}

/// Each keyword argument with a name is looked at once, in order.
pub proof fn law_named_keywords_are_looked_at<Ans: LookupAnswer>(
    solver: AnswersSolver<Ans>,
    kws: Seq<Keyword>,
    kw: Keyword,
)
    ensures
        solver.keyword_reports(Seq::empty()).len() == 0,
        solver.keyword_reports(kws.push(kw)) == if kw.arg is Some {
            solver.keyword_reports(kws) + solver.answers.inferred_reports(kw.expr)
        } else {
            solver.keyword_reports(kws)
        },
{
    assert(kws.push(kw).drop_last() =~= kws);
}

/// Each keyword argument of a constructor keeps to the constraints of the field of its name.
pub proof fn law_keyword_arguments_keep_their_constraints<Ans: LookupAnswer>(
    solver: AnswersSolver<Ans>,
    kws: Seq<CallKeyword>,
    kw: CallKeyword,
    names: Seq<NamedConstraint>,
)
    ensures
        solver.all_keyword_violations(Seq::empty(), names).len() == 0,
        kw.arg is None ==> solver.all_keyword_violations(kws.push(kw), names)
            == solver.all_keyword_violations(kws, names),
        kw.arg matches Some(name) ==> (match crate::pydantic_args::constraint_named(names, name@) {
            None => solver.all_keyword_violations(kws.push(kw), names)
                == solver.all_keyword_violations(kws, names),
            Some(info) => solver.all_keyword_violations(kws.push(kw), names)
                == solver.all_keyword_violations(kws, names) + solver.violations(
                Checked::Argument,
                match kw.value {
                    ArgValue::Expr(e) => solver.answers.inferred(e),
                    ArgValue::Type(t) => t,
                },
                info.constraints,
                info.field_name@,
                kw.range,
            ),
        }),
{
    assert(kws.push(kw).drop_last() =~= kws);
    assert(kws.push(kw).last() == kw);
}

/// A parameter of a constructor is reported on only where it stands for a descriptor whose `__set__`
/// decides what it takes: once under the name of the field, and once under its alias.
pub proof fn law_parameters_are_reported_by_name<Ans: LookupAnswer>(
    solver: AnswersSolver<Ans>,
    entry: FieldEntry,
    strict: bool,
    converter: Option<Type>,
)
    ensures
        !entry.2.init ==> solver.param_reports(entry, strict, converter).len() == 0,
        !(entry.1.inner is Descriptor) || converter is Some || !strict ==> solver.param_reports(
            entry,
            strict,
            converter,
        ).len() == 0,
        entry.1.inner matches ClassFieldInner::Descriptor { descriptor, .. } ==> (entry.2.init
            && converter is None && strict ==> ({
            let once = solver.method_reports(
                descriptor.cls,
                descriptor.setter,
                solver.dunder.set,
                descriptor.range,
            );
            &&& entry.2.init_by_name && entry.2.init_by_alias is None ==> solver.param_reports(
                entry,
                strict,
                converter,
            ) == once
            &&& !entry.2.init_by_name && entry.2.init_by_alias is Some ==> solver.param_reports(
                entry,
                strict,
                converter,
            ) == once
            &&& entry.2.init_by_name && entry.2.init_by_alias is Some ==> solver.param_reports(
                entry,
                strict,
                converter,
            ) == once + once
        })),
{
}

/// A method of a descriptor that cannot be read is reported, and stands for anything.
pub proof fn law_unreadable_methods_are_errors<Ans: LookupAnswer>(
    solver: AnswersSolver<Ans>,
    cls: ClassType,
    present: bool,
    name: String,
)
    ensures
        solver.descriptor_method(cls, present, name) is None ==> solver.resolved_method(
            cls,
            present,
            name,
        ) is None,
        solver.descriptor_method(cls, present, name) matches Some(method) ==> (match solver.read(
            method,
            solver.chain_limit(),
        ) {
            Some(Ok(ty)) => solver.resolved_method(cls, present, name) == Some(ty),
            _ => solver.resolved_method(cls, present, name) == Some(Type::Any(AnyStyle::Error)),
        }),
{
}

} // verus!
