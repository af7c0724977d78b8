use std::sync::Arc;

use vstd::prelude::*;

use crate::access::{
    as_function, generalized_sig, generic_on_class, new_variable, on_class_targs, on_class_tparams,
    prepended, quantified_over, seen_on, unbound_function, ClassView,
};
use crate::class_field::{ClassField, ClassFieldInner, IsInherited};
use crate::expr::ClassFieldDefinition;
use crate::field_calc::unannotated;
use crate::instance::{Instance, InstanceKind};
use crate::list::List;
use crate::metadata::{declared_at, synthesized_named, DeclaredField, SynthesizedField};
use crate::subst::{arg_for, subst_type, Subst};
use crate::types::{
    Callable, Forallable, Function, OverloadType, Quantified, Restriction, TArg, Type,
};
use crate::vars::{has_var, uses_any, vars, vars_function};

verus! {

/// The variables of a class stand before those of a function that uses one of them; a function that
/// uses none is not made generic in them.
pub proof fn law_functions_take_the_variables_they_use(
    cls_tparams: Arc<List<Quantified>>,
    f: Function,
    own: Arc<List<Quantified>>,
)
    ensures
        !uses_any(*cls_tparams, vars_function(f)) ==> prepended(cls_tparams, f, None) is None
            && prepended(cls_tparams, f, Some(own)) is None,
        uses_any(*cls_tparams, vars_function(f)) ==> (prepended(cls_tparams, f, None) matches Some(
            alone,
        ) && alone@ == cls_tparams@ && (prepended(cls_tparams, f, Some(own)) matches Some(both)
            && both@ == cls_tparams@ + own@)),
{
    List::view_of(cls_tparams@ + own@);
}

/// A list of variables is used where one of them is mentioned.
pub proof fn law_variables_are_used_where_mentioned(
    q: Quantified,
    rest: List<Quantified>,
    qs: Seq<Quantified>,
)
    ensures
        !uses_any(List::Nil, qs),
        uses_any(List::Cons(q, Box::new(rest)), qs) <==> has_var(qs, q.id) || uses_any(rest, qs),
{
}

/// A function of a class that is not given its arguments is generic in the variables that it uses;
/// its signature is the one with `Self` filled in.
pub proof fn law_functions_of_open_classes_are_generic(
    t: Type,
    cls_tparams: Arc<List<Quantified>>,
    self_type: Type,
    f: Function,
)
    requires
        subst_type(t, Subst::SelfType(self_type)) == Type::Function(f),
    ensures
        !uses_any(*cls_tparams, vars_function(f)) ==> on_class_tparams(t, cls_tparams, self_type)
            == Type::Function(f),
        uses_any(*cls_tparams, vars_function(f)) ==> (on_class_tparams(t, cls_tparams, self_type)
            matches Type::Forall(g) && g.tparams@ == cls_tparams@ && g.body
            == Forallable::Function(f)),
        generalized_sig(OverloadType::Function(f), cls_tparams) == if uses_any(
            *cls_tparams,
            vars_function(f),
        ) {
            OverloadType::Forall(
                crate::types::GenericFunction { tparams: cls_tparams, body: f },
            )
        } else {
            OverloadType::Function(f)
        },
{
}

/// Arguments of a class go into its functions, and into nothing else.
pub proof fn law_arguments_go_into_functions(
    t: Type,
    targs: Arc<List<TArg>>,
    self_type: Type,
)
    ensures
        ({
            let own = subst_type(t, Subst::SelfType(self_type));
            &&& own is Function || own is Overload ==> on_class_targs(t, targs, self_type)
                == subst_type(own, Subst::Args(targs))
            &&& !(own is Function || own is Overload || own is Forall) ==> on_class_targs(
                t,
                targs,
                self_type,
            ) == own
            &&& own is Function || own is Overload ==> !generic_on_class(
                t,
                ClassView::Targs(targs),
                self_type,
            )
            &&& own is Function ==> unbound_function(own)
        }),
{
}

/// A function becomes generic in a variable exactly where it mentions it, and other types never do.
pub proof fn law_functions_become_generic_in_what_they_mention(f: Function, ty: Type, q: Quantified)
    ensures
        !has_var(vars_function(f), q.id) ==> quantified_over(Type::Function(f), q)
            == Type::Function(f),
        has_var(vars_function(f), q.id) ==> (quantified_over(Type::Function(f), q)
            matches Type::Forall(g) && g.tparams@ == seq![q] && g.body == Forallable::Function(f)),
        !(ty is Function || ty is Forall || ty is Overload) ==> quantified_over(ty, q) == ty,
        ty matches Type::Forall(g) ==> (has_var(vars(ty), q.id) ==> (quantified_over(ty, q)
            matches Type::Forall(h) && h.tparams@ == g.tparams@.push(q) && h.body == g.body)),
        ty is Forall && !has_var(vars(ty), q.id) ==> quantified_over(ty, q) == ty,
{
    List::view_of(seq![q]);
    if let Type::Forall(g) = ty {
        List::view_of(g.tparams@ + seq![q]);
        assert(g.tparams@ + seq![q] =~= g.tparams@.push(q));
    }
}

/// `__new__` on an instance of a class is seen with a variable in place of the class, bounded by the
/// instance; every other member is seen on the instance itself.
pub proof fn law_new_is_seen_with_a_variable(name: Seq<char>, instance: Instance)
    ensures
        name != "__new__"@ || !(instance.kind is ClassType) ==> new_variable(name, instance) is None
            && seen_on(name, instance) == instance,
        name == "__new__"@ && instance.kind is ClassType ==> (new_variable(name, instance)
            matches Some(q) && q.id == instance.class.self_var && q.restriction
            == Restriction::Bound(Arc::new(instance.own_type())) && seen_on(name, instance).kind
            == InstanceKind::TypeVar(q) && seen_on(name, instance).class == instance.class
            && seen_on(name, instance).targs == instance.targs),
{
}

/// A callable is taken as a plain function of its name and signature; other types stay.
pub proof fn law_callables_are_taken_as_functions(ty: Type, c: Arc<Callable>, name: String)
    ensures
        !(ty is Callable) ==> as_function(ty, name) == ty,
        as_function(Type::Callable(c), name) matches Type::Function(f) && f.signature == c
            && f.metadata.name == name && f.metadata.property is None
            && !f.metadata.flags.is_staticmethod && !f.metadata.flags.is_classmethod,
{
}

/// The argument for a variable is the first one that is given for it.
pub proof fn law_first_arguments_count(a: TArg, rest: List<TArg>, id: u64)
    ensures
        arg_for(List::Nil, id) is None,
        arg_for(List::Cons(a, Box::new(rest)), id) == if a.param.id == id {
            Some(a.value)
        } else {
            arg_for(rest, id)
        },
{
}

/// What is added to a class is a property or a method where it is one, and otherwise an attribute
/// that is set in the class body and can be written. It can be overridden.
pub proof fn law_added_fields_are_what_they_are(ty: Type, is_classvar: bool)
    ensures
        ({
            let field = ClassField::synthesized(ty, is_classvar);
            let property = ty.property_getter() || ty.getter_of_setter() is Some;
            &&& field.is_inherited == IsInherited::Maybe
            &&& field.field_type() == ty
            &&& property ==> field.inner is Property
            &&& !property && ty.func_metadata() is Some ==> field.inner is Method
            &&& !property && ty.func_metadata() is None ==> (field.inner
                matches ClassFieldInner::ClassAttribute {
                initialization,
                read_only_reason,
                is_classvar: marked,
                annotation,
                ..
            } && initialization is ClassBody && read_only_reason is None && marked == is_classvar
                && annotation is None)
        }),
{
}

/// Only a method without a return annotation lacks one.
pub proof fn law_only_methods_lack_returns(definition: ClassFieldDefinition)
    ensures
        !(definition is MethodLike) ==> !unannotated(definition),
        definition matches ClassFieldDefinition::MethodLike { has_return_annotation, .. } ==> (
        unannotated(definition) <==> !has_return_annotation),
{
}

/// Fields are found under their names, the first of a name first.
pub proof fn law_first_fields_of_a_name_are_found(
    added: Seq<SynthesizedField>,
    a: SynthesizedField,
    declared: Seq<DeclaredField>,
    d: DeclaredField,
    name: Seq<char>,
)
    ensures
        synthesized_named(Seq::empty(), name) is None,
        synthesized_named(seq![a] + added, name) == if a.name@ == name {
            Some(a.field)
        } else {
            synthesized_named(added, name)
        },
        declared_at(Seq::empty(), name) is None,
        d.name@ == name ==> declared_at(seq![d] + declared, name) == Some(0int),
        d.name@ != name ==> (match declared_at(declared, name) {
            Some(i) => declared_at(seq![d] + declared, name) == Some(i + 1),
            None => declared_at(seq![d] + declared, name) is None,
        }),
{
    assert((seq![a] + added).drop_first() =~= added);
    assert((seq![a] + added)[0] == a);
    assert((seq![d] + declared).drop_first() =~= declared);
    assert((seq![d] + declared)[0] == d);
}

} // verus!
