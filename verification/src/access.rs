use std::sync::Arc;

use vstd::prelude::*;

use crate::attribute::{ClassAttribute, Descriptor, NoAccessReason, ReadOnlyReason};
use crate::class_field::{ClassField, ClassFieldInner};
use crate::instance::{
    bound, bound_or_same, make_bound_classmethod, make_bound_method, Binding, Instance,
    InstanceKind,
};
use crate::list::List;
use crate::solver::{AnswersSolver, LookupAnswer};
use crate::subst::{subst_type, Subst};
use crate::text::is_text;
use crate::types::{
    concat_tparams, Class, ClassType, Forall, Forallable, FuncFlags, FuncMetadata, Function,
    GenericFunction, Overload, OverloadType, Quantified, Restriction, TArg, Type,
};
use crate::vars::{
    function_mentions, function_uses_any, has_var, type_mentions, type_uses_any,
    type_uses_any_arg, uses_any, uses_any_arg, vars, vars_function,
};

verus! {

/// Whether a type is a function, generic or overloaded as it may be, but not bound.
pub open spec fn unbound_function(t: Type) -> bool {
    match t {
        Type::Function(_) => true,
        Type::Overload(_) => true,
        Type::Forall(f) => f.body is Function,
        _ => false,
    }
}

fn is_unbound_function(t: &Type) -> (r: bool)
    ensures
        r == unbound_function(*t),
{
    match t {
        Type::Function(_) => true,
        Type::Overload(_) => true,
        Type::Forall(f) => match &f.body {
            Forallable::Function(_) => true,
            Forallable::Other(_) => false,
        },
        _ => false,
    }
}

/// A type seen on a class with type arguments: the arguments go into functions only, since other
/// attributes of a class object cannot depend on them.
pub open spec fn on_class_targs(t: Type, targs: Arc<List<TArg>>, self_type: Type) -> Type {
    let own = subst_type(t, Subst::SelfType(self_type));
    if unbound_function(own) {
        subst_type(own, Subst::Args(targs))
    } else {
        own
    }
}

fn apply_class_targs(t: &Type, targs: &Arc<List<TArg>>, self_type: &Type) -> (r: Type)
    ensures
        r == on_class_targs(*t, *targs, *self_type),
{
    let own = Subst::SelfType(self_type.dupe()).apply(t);
    if is_unbound_function(&own) {
        Subst::Args(targs.clone()).apply(&own)
    } else {
        own
    }
}

/// The type variables `cls_tparams` put before those of a function, if the function uses them.
pub open spec fn prepended(
    cls_tparams: Arc<List<Quantified>>,
    f: Function,
    own: Option<Arc<List<Quantified>>>,
) -> Option<Arc<List<Quantified>>> {
    if uses_any(*cls_tparams, vars_function(f)) {
        match own {
            None => Some(cls_tparams),
            Some(tparams) => Some(Arc::new(List::of(cls_tparams@ + tparams@))),
        }
    } else {
        None
    }
}

fn prepend_class_tparams_if_used(
    cls_tparams: &Arc<List<Quantified>>,
    f: &Function,
    own: Option<&Arc<List<Quantified>>>,
) -> (r: Option<Arc<List<Quantified>>>)
    ensures
        r == prepended(
            *cls_tparams,
            *f,
            match own {
                Some(t) => Some(*t),
                None => None,
            },
        ),
{
    if function_uses_any(&**cls_tparams, f) {
        match own {
            None => Some(cls_tparams.clone()),
            Some(tparams) => Some(Arc::new(concat_tparams(&**cls_tparams, &**tparams))),
        }
    } else {
        None
    }
}

/// One signature of an overload, generic in the type variables of its class too if it uses them.
pub open spec fn generalized_sig(sig: OverloadType, cls_tparams: Arc<List<Quantified>>) -> OverloadType {
    match sig {
        OverloadType::Function(f) => match prepended(cls_tparams, f, None) {
            Some(tparams) => OverloadType::Forall(GenericFunction { tparams, body: f }),
            None => sig,
        },
        OverloadType::Forall(g) => match prepended(cls_tparams, g.body, Some(g.tparams)) {
            Some(tparams) => OverloadType::Forall(GenericFunction { tparams, body: g.body }),
            None => sig,
        },
    }
}

pub open spec fn generalized_sigs(
    sigs: List<OverloadType>,
    cls_tparams: Arc<List<Quantified>>,
) -> List<OverloadType>
    decreases sigs,
{
    match sigs {
        List::Nil => List::Nil,
        List::Cons(sig, rest) => List::Cons(
            generalized_sig(sig, cls_tparams),
            Box::new(generalized_sigs(*rest, cls_tparams)),
        ),
    }
}

/// A type seen on a class without type arguments: functions that use the type variables of the
/// class become generic in them.
pub open spec fn on_class_tparams(
    t: Type,
    cls_tparams: Arc<List<Quantified>>,
    self_type: Type,
) -> Type {
    let own = subst_type(t, Subst::SelfType(self_type));
    match own {
        Type::Function(f) => match prepended(cls_tparams, f, None) {
            Some(tparams) => Type::Forall(
                Arc::new(Forall { tparams, body: Forallable::Function(f) }),
            ),
            None => own,
        },
        Type::Forall(forall) => match forall.body {
            Forallable::Function(f) => match prepended(cls_tparams, f, Some(forall.tparams)) {
                Some(tparams) => Type::Forall(Arc::new(Forall { tparams, body: forall.body })),
                None => own,
            },
            Forallable::Other(_) => own,
        },
        Type::Overload(o) => Type::Overload(
            Overload {
                signatures: Arc::new(generalized_sigs(*o.signatures, cls_tparams)),
                metadata: o.metadata,
            },
        ),
        _ => own,
    }
}

fn generalize_sigs(sigs: &List<OverloadType>, cls_tparams: &Arc<List<Quantified>>) -> (r: List<
    OverloadType,
>)
    ensures
        r == generalized_sigs(*sigs, *cls_tparams),
    decreases sigs,
{
    match sigs {
        List::Nil => List::Nil,
        List::Cons(sig, rest) => {
            let head = match sig {
                OverloadType::Function(f) => match prepend_class_tparams_if_used(
                    cls_tparams,
                    f,
                    None,
                ) {
                    Some(tparams) => OverloadType::Forall(
                        GenericFunction { tparams, body: f.dupe() },
                    ),
                    None => sig.dupe(),
                },
                OverloadType::Forall(g) => match prepend_class_tparams_if_used(
                    cls_tparams,
                    &g.body,
                    Some(&g.tparams),
                ) {
                    Some(tparams) => OverloadType::Forall(
                        GenericFunction { tparams, body: g.body.dupe() },
                    ),
                    None => sig.dupe(),
                },
            };
            List::Cons(head, Box::new(generalize_sigs(&**rest, cls_tparams)))
        },
    }
}

fn apply_class_tparams(t: &Type, cls_tparams: &Arc<List<Quantified>>, self_type: &Type) -> (r: Type)
    ensures
        r == on_class_tparams(*t, *cls_tparams, *self_type),
{
    let own = Subst::SelfType(self_type.dupe()).apply(t);
    match &own {
        Type::Function(f) => match prepend_class_tparams_if_used(cls_tparams, f, None) {
            Some(tparams) => Type::Forall(
                Arc::new(Forall { tparams, body: Forallable::Function(f.dupe()) }),
            ),
            None => own,
        },
        Type::Forall(forall) => match &forall.body {
            Forallable::Function(f) => match prepend_class_tparams_if_used(
                cls_tparams,
                f,
                Some(&forall.tparams),
            ) {
                Some(tparams) => Type::Forall(
                    Arc::new(Forall { tparams, body: Forallable::Function(f.dupe()) }),
                ),
                None => own,
            },
            Forallable::Other(_) => own,
        },
        Type::Overload(o) => Type::Overload(
            Overload {
                signatures: Arc::new(generalize_sigs(&*o.signatures, cls_tparams)),
                metadata: o.metadata.clone(),
            },
        ),
        _ => own,
    }
}

/// How a class object gives types to its fields.
pub enum ClassView {
    /// With type arguments.
    Targs(Arc<List<TArg>>),
    /// Without, so that the type variables of the class stay.
    Tparams(Arc<List<Quantified>>),
}

/// A type seen on a class object.
pub open spec fn on_class(t: Type, view: ClassView, self_type: Type) -> Type {
    match view {
        ClassView::Targs(targs) => on_class_targs(t, targs, self_type),
        ClassView::Tparams(tparams) => on_class_tparams(t, tparams, self_type),
    }
}

fn see_on_class(t: &Type, view: &ClassView, self_type: &Type) -> (r: Type)
    ensures
        r == on_class(*t, *view, *self_type),
{
    match view {
        ClassView::Targs(targs) => apply_class_targs(t, targs, self_type),
        ClassView::Tparams(tparams) => apply_class_tparams(t, tparams, self_type),
    }
}

pub open spec fn targs_on_class(args: List<TArg>, view: ClassView, self_type: Type) -> List<TArg>
    decreases args,
{
    match args {
        List::Nil => List::Nil,
        List::Cons(a, rest) => List::Cons(
            TArg { param: a.param, value: on_class(a.value, view, self_type) },
            Box::new(targs_on_class(*rest, view, self_type)),
        ),
    }
}

fn see_targs_on_class(args: &List<TArg>, view: &ClassView, self_type: &Type) -> (r: List<TArg>)
    ensures
        r == targs_on_class(*args, *view, *self_type),
    decreases args,
{
    match args {
        List::Nil => List::Nil,
        List::Cons(a, rest) => List::Cons(
            TArg { param: a.param.dupe(), value: see_on_class(&a.value, view, self_type) },
            Box::new(see_targs_on_class(&**rest, view, self_type)),
        ),
    }
}

/// Whether the type of an attribute of a class object depends on the type variables of the class,
/// in a way that no call could settle.
pub open spec fn generic_on_class(t: Type, view: ClassView, self_type: Type) -> bool {
    let own = subst_type(t, Subst::SelfType(self_type));
    match view {
        ClassView::Targs(targs) => !unbound_function(own) && uses_any_arg(*targs, vars(own)),
        ClassView::Tparams(tparams) => match own {
            Type::Function(_) => false,
            Type::Forall(_) => false,
            Type::Overload(_) => false,
            _ => uses_any(*tparams, vars(own)),
        },
    }
}

fn is_generic_on_class(t: &Type, view: &ClassView, self_type: &Type) -> (r: bool)
    ensures
        r == generic_on_class(*t, *view, *self_type),
{
    let own = Subst::SelfType(self_type.dupe()).apply(t);
    match view {
        ClassView::Targs(targs) => !is_unbound_function(&own) && type_uses_any_arg(&**targs, &own),
        ClassView::Tparams(tparams) => match &own {
            Type::Function(_) => false,
            Type::Forall(_) => false,
            Type::Overload(_) => false,
            _ => type_uses_any(&**tparams, &own),
        },
    }
}

impl ClassField {
    /// The field as seen on a class object.
    pub open spec fn on_class_object(self, view: ClassView, self_type: Type) -> ClassField {
        match self.inner {
            ClassFieldInner::Descriptor { ty, annotation, descriptor } => ClassField {
                inner: ClassFieldInner::Descriptor {
                    ty: on_class(ty, view, self_type),
                    annotation,
                    descriptor: Descriptor {
                        range: descriptor.range,
                        cls: ClassType {
                            class: descriptor.cls.class,
                            targs: Arc::new(
                                targs_on_class(*descriptor.cls.targs, view, self_type),
                            ),
                        },
                        getter: descriptor.getter,
                        setter: descriptor.setter,
                    },
                },
                is_inherited: self.is_inherited,
            },
            _ => self.retyped(on_class(self.field_type(), view, self_type)),
        }
    }

    fn instantiate_on_class(&self, view: &ClassView, self_type: &Type) -> (r: ClassField)
        ensures
            r == self.on_class_object(*view, *self_type),
    {
        let ty = see_on_class(&self.ty(), view, self_type);
        match &self.inner {
            ClassFieldInner::Descriptor { annotation, descriptor, .. } => ClassField {
                inner: ClassFieldInner::Descriptor {
                    ty,
                    annotation: crate::annotation::dupe_annotation(annotation),
                    descriptor: Descriptor {
                        range: descriptor.range,
                        cls: ClassType {
                            class: descriptor.cls.class.dupe(),
                            targs: Arc::new(
                                see_targs_on_class(&*descriptor.cls.targs, view, self_type),
                            ),
                        },
                        getter: descriptor.getter,
                        setter: descriptor.setter,
                    },
                },
                is_inherited: self.is_inherited,
            },
            _ => self.with_type(ty),
        }
    }

    /// The field as seen on a class with type arguments, and whether its type depends on the
    /// type variables of the class.
    pub fn instantiate_for_class_targs(&self, targs: &Arc<List<TArg>>, self_type: &Type) -> (r: (
        ClassField,
        bool,
    ))
        ensures
            r.0 == self.on_class_object(ClassView::Targs(*targs), *self_type),
            r.1 == generic_on_class(self.field_type(), ClassView::Targs(*targs), *self_type),
    {
        let view = ClassView::Targs(targs.clone());
        (
            self.instantiate_on_class(&view, self_type),
            is_generic_on_class(&self.ty(), &view, self_type),
        )
    }

    /// The field as seen on a class without type arguments, and whether its type depends on the
    /// type variables of the class.
    pub fn instantiate_for_class_tparams(
        &self,
        cls_tparams: &Arc<List<Quantified>>,
        self_type: &Type,
    ) -> (r: (ClassField, bool))
        ensures
            r.0 == self.on_class_object(ClassView::Tparams(*cls_tparams), *self_type),
            r.1 == generic_on_class(
                self.field_type(),
                ClassView::Tparams(*cls_tparams),
                *self_type,
            ),
    {
        let view = ClassView::Tparams(cls_tparams.clone());
        (
            self.instantiate_on_class(&view, self_type),
            is_generic_on_class(&self.ty(), &view, self_type),
        )
    }
}

/// The type variable that stands for the class passed to `__new__`.
pub open spec fn self_variable(class: Class, instance_type: Type) -> Quantified {
    Quantified {
        id: class.self_var,
        name: class.self_var_name,
        restriction: Restriction::Bound(Arc::new(instance_type)),
    }
}

/// The type variable that stands for the class passed to `__new__`.
pub fn get_self_quantified(class: &Class, instance_type: Type) -> (r: Quantified)
    ensures
        r == self_variable(*class, instance_type),
{
    Quantified {
        id: class.self_var,
        name: class.self_var_name.clone(),
        restriction: Restriction::Bound(Arc::new(instance_type)),
    }
}

/// Type variables with one more at the end.
pub open spec fn with_tparam(
    tparams: Option<Arc<List<Quantified>>>,
    q: Quantified,
) -> Arc<List<Quantified>> {
    match tparams {
        Some(own) => Arc::new(List::of(own@ + seq![q])),
        None => Arc::new(List::of(seq![q])),
    }
}

fn add_tparam(tparams: Option<&Arc<List<Quantified>>>, q: &Quantified) -> (r: Arc<
    List<Quantified>,
>)
    ensures
        r == with_tparam(
            match tparams {
                Some(t) => Some(*t),
                None => None,
            },
            *q,
        ),
{
    let single: List<Quantified> = List::single(q.dupe());
    match tparams {
        Some(own) => Arc::new(concat_tparams(&**own, &single)),
        None => Arc::new(single),
    }
}

pub open spec fn quantified_sigs(sigs: List<OverloadType>, q: Quantified) -> List<OverloadType>
    decreases sigs,
{
    match sigs {
        List::Nil => List::Nil,
        List::Cons(sig, rest) => List::Cons(
            if has_var(vars_function(sig.func()), q.id) {
                OverloadType::Forall(
                    GenericFunction {
                        tparams: with_tparam(
                            match sig {
                                OverloadType::Function(_) => None,
                                OverloadType::Forall(g) => Some(g.tparams),
                            },
                            q,
                        ),
                        body: sig.func(),
                    },
                )
            } else {
                sig
            },
            Box::new(quantified_sigs(*rest, q)),
        ),
    }
}

/// A function made generic in `q`, if it uses it. Other types stay as they are.
pub open spec fn quantified_over(ty: Type, q: Quantified) -> Type {
    match ty {
        Type::Function(f) => if has_var(vars_function(f), q.id) {
            Type::Forall(
                Arc::new(
                    Forall { tparams: with_tparam(None, q), body: Forallable::Function(f) },
                ),
            )
        } else {
            ty
        },
        Type::Forall(forall) => if has_var(vars(ty), q.id) {
            Type::Forall(
                Arc::new(
                    Forall { tparams: with_tparam(Some(forall.tparams), q), body: forall.body },
                ),
            )
        } else {
            ty
        },
        Type::Overload(o) => Type::Overload(
            Overload {
                signatures: Arc::new(quantified_sigs(*o.signatures, q)),
                metadata: o.metadata,
            },
        ),
        _ => ty,
    }
}

fn quantify_sigs(sigs: &List<OverloadType>, q: &Quantified) -> (r: List<OverloadType>)
    ensures
        r == quantified_sigs(*sigs, *q),
    decreases sigs,
{
    match sigs {
        List::Nil => List::Nil,
        List::Cons(sig, rest) => {
            let head = if function_mentions(sig.function(), q.id) {
                OverloadType::Forall(
                    GenericFunction {
                        tparams: match sig {
                            OverloadType::Function(_) => add_tparam(None, q),
                            OverloadType::Forall(g) => add_tparam(Some(&g.tparams), q),
                        },
                        body: sig.function().dupe(),
                    },
                )
            } else {
                sig.dupe()
            };
            List::Cons(head, Box::new(quantify_sigs(&**rest, q)))
        },
    }
}

/// Makes a function generic in `quantified`, if it uses it.
pub fn wrap_with_quantified(ty: Type, quantified: &Quantified) -> (r: Type)
    ensures
        r == quantified_over(ty, *quantified),
{
    match &ty {
        Type::Function(f) => if function_mentions(f, quantified.id) {
            Type::Forall(
                Arc::new(
                    Forall {
                        tparams: add_tparam(None, quantified),
                        body: Forallable::Function(f.dupe()),
                    },
                ),
            )
        } else {
            ty
        },
        Type::Forall(forall) => if type_mentions(&ty, quantified.id) {
            Type::Forall(
                Arc::new(
                    Forall {
                        tparams: add_tparam(Some(&forall.tparams), quantified),
                        body: match &forall.body {
                            Forallable::Function(f) => Forallable::Function(f.dupe()),
                            Forallable::Other(t) => Forallable::Other(t.clone()),
                        },
                    },
                ),
            )
        } else {
            ty
        },
        Type::Overload(o) => Type::Overload(
            Overload {
                signatures: Arc::new(quantify_sigs(&*o.signatures, quantified)),
                metadata: o.metadata.clone(),
            },
        ),
        _ => ty,
    }
}

/// The type variable for `__new__` looked up on an instance.
pub open spec fn new_variable(field_name: Seq<char>, instance: Instance) -> Option<Quantified> {
    if field_name == "__new__"@ && instance.kind is ClassType {
        Some(self_variable(instance.class, instance.own_type()))
    } else {
        None
    }
}

/// The instance that the types of a field are seen on: for `__new__` the type variable stands
/// for it.
pub open spec fn seen_on(field_name: Seq<char>, instance: Instance) -> Instance {
    match new_variable(field_name, instance) {
        Some(q) => Instance {
            kind: InstanceKind::TypeVar(q),
            class: instance.class,
            targs: instance.targs,
        },
        None => instance,
    }
}

/// A callable taken as the function `name`.
pub open spec fn as_function(ty: Type, name: String) -> Type {
    match ty {
        Type::Callable(c) => Type::Function(
            Function {
                signature: c,
                metadata: Arc::new(
                    FuncMetadata { name, flags: FuncFlags::plain(), property: None },
                ),
            },
        ),
        _ => ty,
    }
}

/// A typed dictionary holds no descriptors.
pub open spec fn can_hold(instance: Instance, field: ClassField) -> bool {
    !(instance.kind is TypedDict && field.inner is Descriptor)
}

impl<Ans: LookupAnswer> AnswersSolver<Ans> {
    /// The type of an attribute before it is bound: solved variables are written out, and what
    /// inference has left open of callables is settled.
    pub open spec fn normalized(self, ty: Type) -> Type {
        self.answers.finalized(self.answers.expanded(ty))
    }

    /// The type of an attribute before it is bound.
    pub fn normalize_attr_ty(&self, ty: &Type) -> (r: Type)
        ensures
            r == self.normalized(*ty),
    {
        self.answers.finalize_callable_residuals_at_boundary(&self.answers.expand_vars(ty))
    }

    /// The attribute of an instance that a field gives.
    pub open spec fn instance_attribute(
        self,
        field_name: String,
        field: ClassField,
        instance: Instance,
    ) -> ClassAttribute {
        let variable = new_variable(field_name@, instance);
        let seen = seen_on(field_name@, instance);
        match field.on_instance(seen).inner {
            ClassFieldInner::Property { ty, .. } => match ty.getter_of_setter() {
                Some(getter) => ClassAttribute::Property(
                    bound_or_same(Binding::ToInstance, seen.own_type(), getter),
                    Some(bound_or_same(Binding::ToInstance, seen.own_type(), ty)),
                    seen.class,
                ),
                None => ClassAttribute::Property(
                    bound_or_same(Binding::ToInstance, seen.own_type(), ty),
                    None,
                    seen.class,
                ),
            },
            ClassFieldInner::Descriptor { descriptor, .. } => ClassAttribute::Descriptor(
                descriptor,
                seen.descriptor_base()->0,
            ),
            ClassFieldInner::Method { ty, .. } => {
                let function = as_function(self.normalized(ty), field_name);
                let general = match variable {
                    Some(q) => quantified_over(function, q),
                    None => function,
                };
                ClassAttribute::ReadWrite(
                    match bound(
                        Binding::ToInstance,
                        self.answers.expanded(seen.own_type()),
                        general,
                    ) {
                        Ok(t) => t,
                        Err(t) => bound_or_same(
                            Binding::ToClass,
                            seen.class_base().object_type(),
                            t,
                        ),
                    },
                )
            },
            ClassFieldInner::NestedClass { ty } => ClassAttribute::ReadOnly(
                ty,
                ReadOnlyReason::ClassObjectInitializedOnBody,
            ),
            ClassFieldInner::ClassAttribute { ty, is_classvar, read_only_reason, .. } =>
                if is_classvar {
                    ClassAttribute::ReadOnly(self.normalized(ty), ReadOnlyReason::ClassVar)
                } else {
                    match read_only_reason {
                        Some(reason) => ClassAttribute::ReadOnly(self.normalized(ty), reason),
                        None => ClassAttribute::ReadWrite(self.normalized(ty)),
                    }
                },
            ClassFieldInner::InstanceAttribute { ty, read_only_reason, .. } => match read_only_reason {
                Some(reason) => ClassAttribute::ReadOnly(self.normalized(ty), reason),
                None => ClassAttribute::ReadWrite(self.normalized(ty)),
            },
        }
    }

    /// The attribute of an instance that a field gives.
    pub fn as_instance_attribute(
        &self,
        field_name: &String,
        field: &ClassField,
        instance: &Instance,
    ) -> (r: ClassAttribute)
        requires
            can_hold(*instance, *field),
        ensures
            r == self.instance_attribute(*field_name, *field, *instance),
    {
        let is_class_instance = match &instance.kind {
            InstanceKind::ClassType => true,
            _ => false,
        };
        let self_quantified = if is_text(field_name, "__new__") && is_class_instance {
            Some(get_self_quantified(&instance.class, instance.to_type()))
        } else {
            None
        };
        let variable_instance: Instance;
        let seen = match &self_quantified {
            Some(q) => {
                variable_instance = Instance {
                    kind: InstanceKind::TypeVar(q.dupe()),
                    class: instance.class.dupe(),
                    targs: instance.targs.clone(),
                };
                &variable_instance
            },
            None => instance,
        };
        let obj = seen.to_type();
        match field.instantiate_for(seen).inner {
            ClassFieldInner::Property { ty, .. } => {
                if let Some(getter) = ty.is_property_setter_with_getter() {
                    ClassAttribute::property(
                        either(make_bound_method(&obj, &getter)),
                        Some(either(make_bound_method(&obj, &ty))),
                        seen.class.dupe(),
                    )
                } else {
                    ClassAttribute::property(
                        either(make_bound_method(&obj, &ty)),
                        None,
                        seen.class.dupe(),
                    )
                }
            },
            ClassFieldInner::Descriptor { descriptor, .. } => {
                match seen.to_descriptor_base() {
                    Some(base) => ClassAttribute::descriptor(descriptor, base),
                    None => {
                        assert(false);
                        ClassAttribute::no_access(
                            NoAccessReason::ClassUseOfInstanceAttribute(seen.class.dupe()),
                        )
                    },
                }
            },
            ClassFieldInner::Method { ty, .. } => {
                let function = match self.normalize_attr_ty(&ty) {
                    Type::Callable(c) => Type::Function(
                        Function {
                            signature: c,
                            metadata: Arc::new(FuncMetadata::def(field_name)),
                        },
                    ),
                    other => other,
                };
                let general = match &self_quantified {
                    Some(q) => wrap_with_quantified(function, q),
                    None => function,
                };
                ClassAttribute::read_write(
                    match make_bound_method(&self.answers.expand_vars(&obj), &general) {
                        Ok(t) => t,
                        Err(t) => either(make_bound_classmethod(&seen.to_class_base(), &t)),
                    },
                )
            },
            ClassFieldInner::NestedClass { ty } => ClassAttribute::read_only(
                ty,
                ReadOnlyReason::ClassObjectInitializedOnBody,
            ),
            ClassFieldInner::ClassAttribute { ty, is_classvar, read_only_reason, .. } => {
                let ty = self.normalize_attr_ty(&ty);
                if is_classvar {
                    ClassAttribute::read_only(ty, ReadOnlyReason::ClassVar)
                } else if let Some(reason) = read_only_reason {
                    ClassAttribute::read_only(ty, reason)
                } else {
                    ClassAttribute::read_write(ty)
                }
            },
            ClassFieldInner::InstanceAttribute { ty, read_only_reason, .. } => {
                let ty = self.normalize_attr_ty(&ty);
                if let Some(reason) = read_only_reason {
                    ClassAttribute::read_only(ty, reason)
                } else {
                    ClassAttribute::read_write(ty)
                }
            },
        }
    }
}

fn either(r: Result<Type, Type>) -> (t: Type)
    ensures
        t == match r {
            Ok(x) => x,
            Err(x) => x,
        },
{
    match r {
        Ok(t) => t,
        Err(t) => t,
    }
}

} // verus!
