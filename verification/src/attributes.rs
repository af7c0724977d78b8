use std::sync::Arc;

use vstd::prelude::*;

use crate::access::{
    can_hold, get_self_quantified, quantified_over, self_variable, wrap_with_quantified, ClassView,
};
use crate::attribute::{
    ClassAttribute, ClassBase, Descriptor, DescriptorBase, NoAccessReason, ReadOnlyReason,
};
use crate::class_field::{ClassField, ClassFieldInitialization, ClassFieldInner};
use crate::instance::{
    bind_class_attribute, bound, class_bound, make_bound_method, Binding, Instance, InstanceKind,
};
use crate::list::List;
use crate::solver::{AnswersSolver, LookupAnswer, Search, WithDefiningClass};
use crate::text::{is_text, same_text};
use crate::types::{
    AnyStyle, Class, ClassType, Overload, OverloadType, Quantified, Restriction, TensorType, Type,
};

verus! {

/// Whether one signature of an overload can be called with a receiver of the given type. Where
/// `exempt` says so, static and class methods always can: their first parameter is no receiver.
pub open spec fn applicable<S: LookupAnswer>(
    s: S,
    receiver: Type,
    sig: OverloadType,
    exempt: bool,
) -> bool {
    ||| exempt && (sig.func().metadata.flags.is_staticmethod
        || sig.func().metadata.flags.is_classmethod)
    ||| sig.func().signature.first_param() is None
    ||| s.subset(receiver, sig.func().signature.first_param()->0) is Ok
}

/// The signatures of an overload that can be called with a receiver of the given type.
pub open spec fn applicable_sigs<S: LookupAnswer>(
    s: S,
    receiver: Type,
    sigs: List<OverloadType>,
    exempt: bool,
) -> List<OverloadType>
    decreases sigs,
{
    match sigs {
        List::Nil => List::Nil,
        List::Cons(sig, rest) => if applicable(s, receiver, sig, exempt) {
            List::Cons(sig, Box::new(applicable_sigs(s, receiver, *rest, exempt)))
        } else {
            applicable_sigs(s, receiver, *rest, exempt)
        },
    }
}

/// Keeps the signatures that can be called with a receiver of the given type; the flag says
/// whether some were left out.
pub fn keep_applicable<S: LookupAnswer>(
    s: &S,
    receiver: &Type,
    sigs: &List<OverloadType>,
    exempt: bool,
) -> (r: (List<OverloadType>, bool))
    ensures
        r.0 == applicable_sigs(*s, *receiver, *sigs, exempt),
        r.1 == (r.0@.len() < sigs@.len()),
        r.0@.len() <= sigs@.len(),
    decreases sigs,
{
    match sigs {
        List::Nil => (List::Nil, false),
        List::Cons(sig, rest) => {
            let (kept, fewer) = keep_applicable(s, receiver, &**rest, exempt);
            let flags = &sig.function().metadata.flags;
            let keep = (exempt && (flags.is_staticmethod || flags.is_classmethod))
                || match sig.function().signature.get_first_param() {
                None => true,
                Some(p) => s.is_subset_eq_with_reason(receiver, p).is_ok(),
            };
            if keep {
                (List::Cons(sig.dupe(), Box::new(kept)), fewer)
            } else {
                (kept, true)
            }
        },
    }
}

/// A method looked up on a class, without the overloads whose receiver is narrower than the
/// class; if none would be left, all stay.
pub open spec fn without_narrow_receivers<S: LookupAnswer>(
    s: S,
    class_self_type: Type,
    ty: Type,
) -> Type {
    match ty {
        Type::Overload(o) => {
            let kept = applicable_sigs(s, class_self_type, *o.signatures, true);
            if kept@.len() > 0 && kept@.len() < o.signatures@.len() {
                Type::Overload(Overload { signatures: Arc::new(kept), metadata: o.metadata })
            } else {
                ty
            }
        },
        _ => ty,
    }
}

impl<Ans: LookupAnswer> AnswersSolver<Ans> {
    /// The special names are in place.
    pub open spec fn wf(self) -> bool {
        self.dunder.wf()
    }

    /// Whether one type is a subtype of another.
    pub open spec fn subset_eq(self, got: Type, want: Type) -> bool {
        self.answers.subset(got, want) is Ok
    }

    /// Whether one type is a subtype of another.
    pub fn is_subset_eq(&self, got: &Type, want: &Type) -> (r: bool)
        ensures
            r == self.subset_eq(*got, *want),
    {
        self.answers.is_subset_eq_with_reason(got, want).is_ok()
    }

    /// The type variable for `__new__` looked up on a class by its name.
    pub open spec fn class_new_variable(field_name: Seq<char>, cls: ClassBase) -> Option<
        Quantified,
    > {
        match cls {
            ClassBase::ClassDef(c) => if field_name == "__new__"@ {
                Some(self_variable(c.class, Type::ClassType(c)))
            } else {
                None
            },
            _ => None,
        }
    }

    /// How a class object gives types to its fields.
    pub open spec fn view_of(self, cls: ClassBase) -> ClassView {
        match cls.given_targs() {
            Some(targs) => ClassView::Targs(targs),
            None => ClassView::Tparams(self.info(cls.applied().class).tparams),
        }
    }

    /// The attribute of a class object that a field gives.
    pub open spec fn class_attribute(
        self,
        field_name: Seq<char>,
        field: ClassField,
        cls: ClassBase,
    ) -> ClassAttribute {
        let variable = Self::class_new_variable(field_name, cls);
        let self_type = match variable {
            Some(q) => Type::Quantified(Arc::new(q)),
            None => cls.self_type(),
        };
        let view = self.view_of(cls);
        let class = cls.applied().class;
        match field.on_class_object(view, self_type).inner {
            ClassFieldInner::Property { ty, .. } => class_bound(cls, self.normalized(ty), None),
            ClassFieldInner::Descriptor { descriptor, .. } => ClassAttribute::Descriptor(
                descriptor,
                DescriptorBase::ClassDef(cls),
            ),
            ClassFieldInner::Method { ty, .. } => {
                let narrowed = without_narrow_receivers(
                    self.answers,
                    cls.self_type(),
                    self.normalized(ty),
                );
                let general = match variable {
                    Some(q) => quantified_over(narrowed, q),
                    None => narrowed,
                };
                class_bound(cls, general, None)
            },
            ClassFieldInner::NestedClass { ty } => class_bound(
                cls,
                self.normalized(ty),
                Some(ReadOnlyReason::ClassObjectInitializedOnBody),
            ),
            ClassFieldInner::ClassAttribute { ty, initialization, read_only_reason, .. } =>
                if initialization is Method {
                    ClassAttribute::NoAccess(NoAccessReason::ClassUseOfInstanceAttribute(class))
                } else if crate::access::generic_on_class(field.field_type(), view, self_type) {
                    ClassAttribute::NoAccess(NoAccessReason::ClassAttributeIsGeneric(class))
                } else {
                    class_bound(cls, self.normalized(ty), read_only_reason)
                },
            ClassFieldInner::InstanceAttribute { .. } => ClassAttribute::NoAccess(
                NoAccessReason::ClassUseOfInstanceAttribute(class),
            ),
        }
    }

    /// The attribute of a class object that a field gives.
    pub fn as_class_attribute(&self, field_name: &str, field: &ClassField, cls: &ClassBase) -> (r:
        ClassAttribute)
        ensures
            r == self.class_attribute(field_name@, *field, *cls),
    {
        let self_quantified = match cls {
            ClassBase::ClassDef(c) => if same_text(field_name, "__new__") {
                Some(get_self_quantified(&c.class, Type::ClassType(c.dupe())))
            } else {
                None
            },
            _ => None,
        };
        let self_type = match &self_quantified {
            Some(q) => Type::Quantified(Arc::new(q.dupe())),
            None => cls.to_self_type(),
        };
        let (seen, ambiguous) = match cls.targs() {
            Some(targs) => field.instantiate_for_class_targs(&targs, &self_type),
            None => field.instantiate_for_class_tparams(
                &self.get_info(cls.class_object()).tparams,
                &self_type,
            ),
        };
        match seen.inner {
            ClassFieldInner::Property { ty, .. } => bind_class_attribute(
                cls,
                &self.normalize_attr_ty(&ty),
                None,
            ),
            ClassFieldInner::Descriptor { descriptor, .. } => ClassAttribute::descriptor(
                descriptor,
                DescriptorBase::ClassDef(cls.dupe()),
            ),
            ClassFieldInner::Method { ty, .. } => {
                let ty = self.normalize_attr_ty(&ty);
                let narrowed = match &ty {
                    Type::Overload(overload) => {
                        let class_self_type = cls.to_self_type();
                        let (kept, fewer) = keep_applicable(
                            &self.answers,
                            &class_self_type,
                            &*overload.signatures,
                            true,
                        );
                        if !kept.is_empty() && fewer {
                            Type::Overload(
                                Overload {
                                    signatures: Arc::new(kept),
                                    metadata: overload.metadata.clone(),
                                },
                            )
                        } else {
                            ty
                        }
                    },
                    _ => ty,
                };
                let general = match &self_quantified {
                    Some(q) => wrap_with_quantified(narrowed, q),
                    None => narrowed,
                };
                bind_class_attribute(cls, &general, None)
            },
            ClassFieldInner::NestedClass { ty } => bind_class_attribute(
                cls,
                &self.normalize_attr_ty(&ty),
                Some(ReadOnlyReason::ClassObjectInitializedOnBody),
            ),
            ClassFieldInner::ClassAttribute { ty, initialization, read_only_reason, .. } => {
                match initialization {
                    ClassFieldInitialization::Method => ClassAttribute::no_access(
                        NoAccessReason::ClassUseOfInstanceAttribute(cls.class_object().dupe()),
                    ),
                    _ => if ambiguous {
                        ClassAttribute::no_access(
                            NoAccessReason::ClassAttributeIsGeneric(cls.class_object().dupe()),
                        )
                    } else {
                        bind_class_attribute(cls, &self.normalize_attr_ty(&ty), read_only_reason)
                    },
                }
            },
            ClassFieldInner::InstanceAttribute { .. } => ClassAttribute::no_access(
                NoAccessReason::ClassUseOfInstanceAttribute(cls.class_object().dupe()),
            ),
        }
    }

    /// The attribute of an instance.
    pub open spec fn attribute_on(self, name: String, instance: Instance) -> Option<ClassAttribute> {
        match self.member(instance.class, name@) {
            Some(field) => Some(self.instance_attribute(name, field, instance)),
            None => None,
        }
    }

    /// Whether the member found on an instance can be held by it.
    pub open spec fn holds_member(self, name: Seq<char>, instance: Instance) -> bool {
        self.member(instance.class, name) matches Some(field) ==> can_hold(instance, field)
    }

    fn get_attribute_on(&self, name: &String, instance: &Instance) -> (r: Option<ClassAttribute>)
        requires
            self.holds_member(name@, *instance),
        ensures
            r == self.attribute_on(*name, *instance),
    {
        match self.get_class_member(&instance.class, name.as_str()) {
            Some(field) => Some(self.as_instance_attribute(name, &field, instance)),
            None => None,
        }
    }

    /// The attribute of an instance of a class.
    pub fn get_instance_attribute(&self, cls: &ClassType, name: &String) -> (r: Option<
        ClassAttribute,
    >)
        ensures
            r == self.attribute_on(
                *name,
                (Instance { kind: InstanceKind::ClassType, class: cls.class, targs: cls.targs }),
            ),
    {
        self.get_attribute_on(name, &Instance::of_class(cls))
    }

    /// The attribute of `self`.
    pub fn get_self_attribute(&self, cls: &ClassType, name: &String) -> (r: Option<ClassAttribute>)
        ensures
            r == self.attribute_on(
                *name,
                (Instance { kind: InstanceKind::SelfType, class: cls.class, targs: cls.targs }),
            ),
    {
        self.get_attribute_on(name, &Instance::of_self_type(cls))
    }

    /// The attribute of a tensor, where `Self` is the tensor with its shape.
    pub fn get_tensor_attribute(&self, tensor: &TensorType, name: &String) -> (r: Option<
        ClassAttribute,
    >)
        ensures
            r == self.attribute_on(
                *name,
                (Instance {
                    kind: InstanceKind::Tensor(*tensor),
                    class: tensor.base_class.class,
                    targs: tensor.base_class.targs,
                }),
            ),
    {
        self.get_attribute_on(name, &Instance::of_tensor(tensor))
    }

    /// The attribute of a protocol, where `Self` is the given type.
    pub fn get_protocol_attribute(&self, cls: &ClassType, self_type: Type, name: &String) -> (r:
        Option<ClassAttribute>)
        ensures
            r == self.attribute_on(
                *name,
                (Instance {
                    kind: InstanceKind::Protocol(self_type),
                    class: cls.class,
                    targs: cls.targs,
                }),
            ),
    {
        self.get_attribute_on(name, &Instance::of_protocol(cls, self_type))
    }

    /// The attribute of a class object that its metaclass gives. Calling a class whose metaclass
    /// is `type` itself calls its constructor.
    pub fn get_metaclass_attribute(
        &self,
        cls: &ClassBase,
        metaclass: &ClassType,
        name: &String,
    ) -> (r: Option<ClassAttribute>)
        ensures
            r == (if self.member(metaclass.class, name@) is None {
                None::<ClassAttribute>
            } else if name@ == "__call__"@ && metaclass.class.is_qname("builtins"@, "type"@) {
                Some(ClassAttribute::ReadWrite(self.answers.constructor(cls.applied())))
            } else {
                self.attribute_on(
                    *name,
                    (Instance {
                        kind: InstanceKind::Metaclass(*cls),
                        class: metaclass.class,
                        targs: metaclass.targs,
                    }),
                )
            }),
    {
        let attr = match self.get_attribute_on(
            name,
            &Instance::of_metaclass(cls.dupe(), metaclass),
        ) {
            Some(attr) => attr,
            None => {
                return None;
            },
        };
        if is_text(name, "__call__") && metaclass.class.has_toplevel_qname("builtins", "type") {
            return Some(
                ClassAttribute::read_write(self.answers.constructor_to_callable(cls.class_type())),
            );
        }
        Some(attr)
    }

    /// The attribute of a string literal: methods are bound to `LiteralString`, so that the
    /// overloads for it are chosen.
    pub fn get_literal_string_attribute(&self, name: &String) -> (r: Option<ClassAttribute>)
        ensures
            r == self.attribute_on(
                *name,
                (Instance {
                    kind: InstanceKind::LiteralString,
                    class: self.stdlib.str_class.class,
                    targs: self.stdlib.str_class.targs,
                }),
            ),
    {
        self.get_attribute_on(name, &Instance::literal_string(&self.stdlib.str_class))
    }

    /// A type variable restricted to one class, if it was restricted at all.
    pub open spec fn restricted_to(q: Quantified, upper_bound: ClassType) -> Quantified {
        Quantified {
            id: q.id,
            name: q.name,
            restriction: match q.restriction {
                Restriction::Constraints(_) => Restriction::Constraints(
                    Arc::new(List::of(seq![Type::ClassType(upper_bound)])),
                ),
                Restriction::Bound(_) => Restriction::Bound(
                    Arc::new(Type::ClassType(upper_bound)),
                ),
                Restriction::Unrestricted => Restriction::Unrestricted,
            },
        }
    }

    fn restrict(q: Quantified, upper_bound: &ClassType) -> (r: Quantified)
        ensures
            r == Self::restricted_to(q, *upper_bound),
    {
        let restriction = match q.restriction {
            Restriction::Constraints(_) => Restriction::Constraints(
                Arc::new(List::single(Type::ClassType(upper_bound.dupe()))),
            ),
            Restriction::Bound(_) => Restriction::Bound(
                Arc::new(Type::ClassType(upper_bound.dupe())),
            ),
            Restriction::Unrestricted => Restriction::Unrestricted,
        };
        Quantified { id: q.id, name: q.name, restriction }
    }

    /// The attribute of a value of a type variable, by one of its upper bounds.
    pub fn get_bounded_quantified_attribute(
        &self,
        quantified: Quantified,
        upper_bound: &ClassType,
        name: &String,
    ) -> (r: Option<ClassAttribute>)
        ensures
            r == self.attribute_on(
                *name,
                (Instance {
                    kind: InstanceKind::TypeVar(Self::restricted_to(quantified, *upper_bound)),
                    class: upper_bound.class,
                    targs: upper_bound.targs,
                }),
            ),
    {
        self.get_attribute_on(
            name,
            &Instance::of_type_var(Self::restrict(quantified, upper_bound), upper_bound),
        )
    }

    /// The instance that a typed dictionary is.
    pub open spec fn typed_dict_instance(td: ClassType) -> Instance {
        Instance { kind: InstanceKind::TypedDict, class: td.class, targs: td.targs }
    }

    /// The member that an attribute of a typed dictionary is: keys are no attributes, but a
    /// method that a key shadows is one still.
    pub open spec fn typed_dict_member(self, td: ClassType, name: Seq<char>) -> Option<ClassField> {
        if self.info(td.class).metadata.typed_dict_total(name) is Some {
            match self.from_mro(td.class, name, Search::NotTypedDictKeys) {
                Some(member) => Some(member.value),
                None => None,
            }
        } else {
            self.member(td.class, name)
        }
    }

    /// The attribute of a typed dictionary that is not one of its keys.
    pub fn get_typed_dict_attribute(&self, td: &ClassType, name: &String) -> (r: Option<
        ClassAttribute,
    >)
        requires
            self.typed_dict_member(*td, name@) matches Some(field) ==> !(field.inner
                is Descriptor),
        ensures
            r == match self.typed_dict_member(*td, name@) {
                Some(field) => Some(
                    self.instance_attribute(*name, field, Self::typed_dict_instance(*td)),
                ),
                None => None,
            },
    {
        let instance = Instance::of_typed_dict(td);
        if self.get_metadata_for_class(&td.class).typed_dict_field(name.as_str()).is_some() {
            return match self.get_field_from_mro(
                &td.class,
                name.as_str(),
                Search::NotTypedDictKeys,
            ) {
                Some(member) => Some(self.as_instance_attribute(name, &member.value, &instance)),
                None => None,
            };
        }
        match self.get_class_member(&td.class, name.as_str()) {
            Some(field) => Some(self.as_instance_attribute(name, &field, &instance)),
            None => None,
        }
    }

    /// The type of the value of a key, with the type arguments of the typed dictionary.
    pub fn instantiate_typed_dict_field_type(
        &self,
        td: &ClassType,
        name: &String,
        member: &ClassField,
    ) -> (r: Option<Type>)
        requires
            !(member.inner is Descriptor),
        ensures
            r == self.instance_attribute(
                *name,
                *member,
                Self::typed_dict_instance(*td),
            ).plain_type(),
    {
        self.as_instance_attribute(name, member, &Instance::of_typed_dict(td)).as_instance_method()
    }

    /// Why a method found through `super` cannot be called: it is abstract without an
    /// implementation, or it is a protocol method that only declares.
    pub open spec fn missing_implementation(self, member: WithDefiningClass<ClassField>) -> bool {
        (member.value.abstract_field() && member.value.field_type().unimplemented()) || (self.info(
            member.defining_class,
        ).metadata.is_protocol && member.value.protocol_only())
    }

    fn super_method_needs_impl_reason(&self, member: &WithDefiningClass<ClassField>) -> (r: Option<
        NoAccessReason,
    >)
        ensures
            r == (if self.missing_implementation(*member) {
                Some(NoAccessReason::SuperMethodNeedsImplementation(member.defining_class))
            } else {
                None
            }),
    {
        let lacks_runtime_impl = member.value.ty().lacks_runtime_implementation();
        if member.value.is_abstract() && lacks_runtime_impl {
            return Some(
                NoAccessReason::SuperMethodNeedsImplementation(member.defining_class.dupe()),
            );
        }
        if self.get_metadata_for_class(&member.defining_class).is_protocol
            && member.value.is_non_callable_protocol_method() {
            Some(NoAccessReason::SuperMethodNeedsImplementation(member.defining_class.dupe()))
        } else {
            None
        }
    }

    /// The attribute that `super` gives. A method that has no implementation is found, but cannot
    /// be used.
    pub open spec fn super_attribute(
        self,
        start: ClassType,
        obj: SuperObj,
        name: String,
    ) -> Option<ClassAttribute> {
        let cls = match obj {
            SuperObj::Instance(c) => c,
            SuperObj::Class(c) => c,
        };
        match self.super_member(cls.class, Some(start), name@) {
            None => None,
            Some(member) => Some(
                if self.missing_implementation(member) {
                    ClassAttribute::NoAccess(
                        NoAccessReason::SuperMethodNeedsImplementation(member.defining_class),
                    )
                } else {
                    match obj {
                        SuperObj::Instance(c) => self.instance_attribute(
                            name,
                            member.value,
                            Instance { kind: InstanceKind::SelfType, class: c.class, targs: c.targs },
                        ),
                        SuperObj::Class(c) => self.class_attribute(
                            name@,
                            member.value,
                            ClassBase::SelfType(c),
                        ),
                    }
                },
            ),
        }
    }

    /// The attribute that `super` gives.
    pub fn get_super_attribute(
        &self,
        start_lookup_cls: &ClassType,
        super_obj: &SuperObj,
        name: &String,
    ) -> (r: Option<ClassAttribute>)
        ensures
            r == self.super_attribute(*start_lookup_cls, *super_obj, *name),
    {
        match super_obj {
            SuperObj::Instance(obj) => match self.get_super_class_member(
                &obj.class,
                Some(start_lookup_cls),
                name.as_str(),
            ) {
                Some(member) => Some(
                    match self.super_method_needs_impl_reason(&member) {
                        Some(reason) => ClassAttribute::no_access(reason),
                        None => self.as_instance_attribute(
                            name,
                            &member.value,
                            &Instance::of_self_type(obj),
                        ),
                    },
                ),
                None => None,
            },
            SuperObj::Class(obj) => match self.get_super_class_member(
                &obj.class,
                Some(start_lookup_cls),
                name.as_str(),
            ) {
                Some(member) => Some(
                    match self.super_method_needs_impl_reason(&member) {
                        Some(reason) => ClassAttribute::no_access(reason),
                        None => self.as_class_attribute(
                            name.as_str(),
                            &member.value,
                            &ClassBase::SelfType(obj.dupe()),
                        ),
                    },
                ),
                None => None,
            },
        }
    }

    /// The attribute of a class object.
    pub open spec fn attribute_on_class(self, cls: ClassBase, name: Seq<char>) -> Option<
        ClassAttribute,
    > {
        match self.member(cls.applied().class, name) {
            Some(field) => Some(self.class_attribute(name, field, cls)),
            None => None,
        }
    }

    /// The attribute of a class object.
    pub fn get_class_attribute(&self, cls: &ClassBase, name: &str) -> (r: Option<ClassAttribute>)
        ensures
            r == self.attribute_on_class(*cls, name@),
    {
        match self.get_class_member(cls.class_object(), name) {
            Some(field) => Some(self.as_class_attribute(name, &field, cls)),
            None => None,
        }
    }

    /// The attribute of the class of a value of a type variable.
    pub fn get_bounded_quantified_class_attribute(
        &self,
        quantified: Quantified,
        class: &ClassType,
        name: &str,
    ) -> (r: Option<ClassAttribute>)
        ensures
            r == self.attribute_on_class(ClassBase::Quantified(quantified, *class), name@),
    {
        self.get_class_attribute(&ClassBase::Quantified(quantified, class.dupe()), name)
    }

    /// The `__new__` method of a class, before binding, where the class or an ancestor other than
    /// `object` defines one. With `preserve_self`, `Self` stays.
    pub open spec fn dunder_new(self, cls: ClassType, preserve_self: bool) -> Option<Type> {
        match self.member_and_class(cls.class, "__new__"@) {
            None => None,
            Some(member) => if member.defining_class.is_qname("builtins"@, "object"@) {
                None
            } else {
                member.value.raw_special_method(
                    Instance {
                        kind: if preserve_self {
                            InstanceKind::SelfType
                        } else {
                            InstanceKind::ClassType
                        },
                        class: cls.class,
                        targs: cls.targs,
                    },
                )
            },
        }
    }

    /// The `__new__` method of a class.
    pub fn get_dunder_new(&self, cls: &ClassType, preserve_self: bool) -> (r: Option<Type>)
        ensures
            r == self.dunder_new(*cls, preserve_self),
    {
        match self.get_class_member_with_defining_class(&cls.class, "__new__") {
            None => None,
            Some(member) => {
                if member.is_defined_on("builtins", "object") {
                    None
                } else {
                    let instance = if preserve_self {
                        Instance::of_self_type(cls)
                    } else {
                        Instance::of_class(cls)
                    };
                    member.value.as_raw_special_method_type(&instance)
                }
            },
        }
    }

    /// The `__init__` method of an instance, bound to it. That of `object` counts only where it is
    /// asked for.
    pub open spec fn dunder_init(self, instance: Instance, get_object_init: bool) -> Option<Type> {
        match self.member_and_class(instance.class, "__init__"@) {
            None => None,
            Some(member) => if get_object_init || !member.defining_class.is_qname(
                "builtins"@,
                "object"@,
            ) {
                member.value.special_method(instance)
            } else {
                None
            },
        }
    }

    fn get_dunder_init_helper(&self, instance: &Instance, get_object_init: bool) -> (r: Option<
        Type,
    >)
        ensures
            r == self.dunder_init(*instance, get_object_init),
    {
        match self.get_class_member_with_defining_class(&instance.class, "__init__") {
            None => None,
            Some(member) => {
                if get_object_init || !member.is_defined_on("builtins", "object") {
                    member.value.as_special_method_type(instance)
                } else {
                    None
                }
            },
        }
    }

    /// The `__init__` method of a class, bound to an instance. That of `object` counts only where
    /// it is asked for.
    pub fn get_dunder_init(&self, cls: &ClassType, get_object_init: bool) -> (r: Option<Type>)
        ensures
            r == self.dunder_init(
                (Instance { kind: InstanceKind::ClassType, class: cls.class, targs: cls.targs }),
                get_object_init,
            ),
    {
        self.get_dunder_init_helper(&Instance::of_class(cls), get_object_init)
    }

    /// The `__init__` method of a typed dictionary; an error type where there is none that could
    /// be called.
    pub fn get_typed_dict_dunder_init(&self, td: &ClassType) -> (r: Type)
        ensures
            r == match self.dunder_init(Self::typed_dict_instance(*td), true) {
                Some(t) => t,
                None => Type::Any(AnyStyle::Error),
            },
    {
        match self.get_dunder_init_helper(&Instance::of_typed_dict(td), true) {
            Some(t) => t,
            None => Type::Any(AnyStyle::Error),
        }
    }

    /// The `__call__` method of the metaclass of a class, where calling the class is more than
    /// constructing an instance: the metaclass is not the default one, the method is not that of
    /// `type`, and its return type is annotated.
    pub open spec fn metaclass_call(self, cls: ClassType) -> Option<Type> {
        match self.info(cls.class).metadata.custom_metaclass {
            None => None,
            Some(metaclass) => match self.member_and_class(metaclass.class, "__call__"@) {
                None => None,
                Some(member) => if member.defining_class.is_qname("builtins"@, "type"@)
                    || member.value.unannotated_return() {
                    None
                } else {
                    match member.value.raw_special_method(
                        Instance {
                            kind: InstanceKind::Metaclass(ClassBase::ClassType(cls)),
                            class: metaclass.class,
                            targs: metaclass.targs,
                        },
                    ) {
                        None => None,
                        Some(ty) => match bound(
                            Binding::ToInstance,
                            Type::TypeOf(Arc::new(Type::ClassType(cls))),
                            ty,
                        ) {
                            Ok(t) => Some(t),
                            Err(_) => None,
                        },
                    }
                },
            },
        }
    }

    /// The `__call__` method of the metaclass of a class.
    pub fn get_metaclass_dunder_call(&self, cls: &ClassType) -> (r: Option<Type>)
        ensures
            r == self.metaclass_call(*cls),
    {
        let metaclass = match &self.get_metadata_for_class(&cls.class).custom_metaclass {
            Some(metaclass) => metaclass,
            None => {
                return None;
            },
        };
        let member = match self.get_class_member_with_defining_class(
            &metaclass.class,
            "__call__",
        ) {
            Some(member) => member,
            None => {
                return None;
            },
        };
        if member.is_defined_on("builtins", "type") {
            None
        } else if member.value.is_function_without_return_annotation() {
            None
        } else {
            match member.value.as_raw_special_method_type(
                &Instance::of_metaclass(ClassBase::ClassType(cls.dupe()), metaclass),
            ) {
                None => None,
                Some(ty) => match make_bound_method(
                    &Type::TypeOf(Arc::new(Type::ClassType(cls.dupe()))),
                    &ty,
                ) {
                    Ok(t) => Some(t),
                    Err(_) => None,
                },
            }
        }
    }

    /// The type of an element of a named tuple: a member that is read-only.
    pub fn resolve_named_tuple_element(&self, cls: &ClassType, name: &str) -> (r: Option<Type>)
        ensures
            r == match self.member(cls.class, name@) {
                None => None,
                Some(field) => {
                    let seen = field.on_instance(
                        Instance {
                            kind: InstanceKind::ClassType,
                            class: cls.class,
                            targs: cls.targs,
                        },
                    );
                    match seen.inner {
                        ClassFieldInner::ClassAttribute { read_only_reason, .. } =>
                            if read_only_reason is Some {
                                Some(seen.field_type())
                            } else {
                                None
                            },
                        ClassFieldInner::InstanceAttribute { read_only_reason, .. } =>
                            if read_only_reason is Some {
                                Some(seen.field_type())
                            } else {
                                None
                            },
                        _ => None,
                    }
                },
            },
    {
        match self.get_class_member(&cls.class, name) {
            None => None,
            Some(field) => match field.instantiate_for(&Instance::of_class(cls)).inner {
                ClassFieldInner::ClassAttribute { ty, read_only_reason: Some(_), .. } => Some(ty),
                ClassFieldInner::InstanceAttribute { ty, read_only_reason: Some(_), .. } => Some(
                    ty,
                ),
                _ => None,
            },
        }
    }
}

/// What `super` was called on.
pub enum SuperObj {
    Instance(ClassType),
    Class(ClassType),
}

} // verus!
