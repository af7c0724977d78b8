use std::sync::Arc;

use vstd::prelude::*;

use crate::annotation::{
    annotated_as, dupe_annotation, is_annotated_as, Annotation, DataclassFieldKeywords, Qualifier,
    TypedDictField,
};
use crate::attribute::{Descriptor, ReadOnlyReason};
use crate::report::TextRange;
use crate::subst::{subst_class, subst_type, Subst};
use crate::types::{AnyStyle, ClassType, Required, Type};

verus! {

/// Where the value of a class field comes from.
pub enum ClassFieldInitialization {
    /// The class body gives the value, for a dataclass field with its options.
    ClassBody(Option<Arc<DataclassFieldKeywords>>),
    /// Only an instance method assigns the field.
    Method,
    /// Only a class method assigns the field.
    ClassMethod,
    /// The field is declared without a value.
    Uninitialized,
    /// The field is declared without a value, but counts as having one, as in a stub file.
    Magic,
}

impl ClassFieldInitialization {
    pub fn dupe(&self) -> (r: Self)
        ensures
            r == *self,
    {
        match self {
            ClassFieldInitialization::ClassBody(Some(k)) => ClassFieldInitialization::ClassBody(
                Some(k.clone()),
            ),
            ClassFieldInitialization::ClassBody(None) => ClassFieldInitialization::ClassBody(None),
            ClassFieldInitialization::Method => ClassFieldInitialization::Method,
            ClassFieldInitialization::ClassMethod => ClassFieldInitialization::ClassMethod,
            ClassFieldInitialization::Uninitialized => ClassFieldInitialization::Uninitialized,
            ClassFieldInitialization::Magic => ClassFieldInitialization::Magic,
        }
    }

    /// What a field has while it is still being computed.
    pub fn recursive() -> (r: Self)
        ensures
            r == ClassFieldInitialization::ClassBody(None),
    {
        ClassFieldInitialization::ClassBody(None)
    }

    /// The initialization in words.
    pub open spec fn in_words(self) -> Seq<char> {
        match self {
            ClassFieldInitialization::ClassBody(_) => "initialized on class body"@,
            ClassFieldInitialization::Method => "initialized in method"@,
            ClassFieldInitialization::ClassMethod => "initialized in class method"@,
            ClassFieldInitialization::Uninitialized => "initialized on instances"@,
            ClassFieldInitialization::Magic => "not initialized on class body/method"@,
        }
    }

    /// The initialization in words.
    pub fn describe(&self) -> (r: &'static str)
        ensures
            r@ == self.in_words(),
    {
        match self {
            ClassFieldInitialization::ClassBody(_) => "initialized on class body",
            ClassFieldInitialization::Method => "initialized in method",
            ClassFieldInitialization::ClassMethod => "initialized in class method",
            ClassFieldInitialization::Uninitialized => "initialized on instances",
            ClassFieldInitialization::Magic => "not initialized on class body/method",
        }
    }
}

/// Whether a field is known not to override anything.
#[derive(Clone, Copy, Debug, PartialEq, Eq, Structural)]
pub enum IsInherited {
    No,
    Maybe,
}

/// The kinds of class fields.
pub enum ClassFieldInner {
    /// A property. Whether it can be written depends on its setter.
    Property { ty: Type, is_abstract: bool },
    /// A value set in the class body whose class has `__get__` or `__set__`.
    Descriptor { ty: Type, annotation: Option<Annotation>, descriptor: Descriptor },
    /// A function that is bound on access. It is read-only.
    Method { ty: Type, is_abstract: bool, is_function_without_return_annotation: bool },
    /// A class statement in the class body. It is read-only.
    NestedClass { ty: Type },
    /// An attribute of the class, which instances may shadow unless it is a class variable.
    ClassAttribute {
        ty: Type,
        annotation: Option<Annotation>,
        initialization: ClassFieldInitialization,
        read_only_reason: Option<ReadOnlyReason>,
        is_classvar: bool,
        is_staticmethod: bool,
        is_foreign_key: bool,
        has_choices: bool,
    },
    /// An attribute that only methods assign.
    InstanceAttribute {
        ty: Type,
        annotation: Option<Annotation>,
        read_only_reason: Option<ReadOnlyReason>,
    },
}

/// A field declared somewhere in a class.
pub struct ClassField {
    pub inner: ClassFieldInner,
    pub is_inherited: IsInherited,
}

/// The class attribute that a synthesized field becomes.
pub open spec fn body_attribute(ty: Type, is_classvar: bool) -> ClassFieldInner {
    ClassFieldInner::ClassAttribute {
        ty,
        annotation: None,
        initialization: ClassFieldInitialization::ClassBody(None),
        read_only_reason: None,
        is_classvar,
        is_staticmethod: false,
        is_foreign_key: false,
        has_choices: false,
    }
}

impl ClassField {
    pub fn dupe(&self) -> (r: ClassField)
        ensures
            r == *self,
    {
        self.with_type(self.ty())
    }

    /// The type of the field.
    pub open spec fn field_type(self) -> Type {
        match self.inner {
            ClassFieldInner::Property { ty, .. } => ty,
            ClassFieldInner::Descriptor { ty, .. } => ty,
            ClassFieldInner::Method { ty, .. } => ty,
            ClassFieldInner::NestedClass { ty } => ty,
            ClassFieldInner::ClassAttribute { ty, .. } => ty,
            ClassFieldInner::InstanceAttribute { ty, .. } => ty,
        }
    }

    /// The type of the field.
    pub fn ty(&self) -> (r: Type)
        ensures
            r == self.field_type(),
    {
        match &self.inner {
            ClassFieldInner::Property { ty, .. } => ty.dupe(),
            ClassFieldInner::Descriptor { ty, .. } => ty.dupe(),
            ClassFieldInner::Method { ty, .. } => ty.dupe(),
            ClassFieldInner::NestedClass { ty } => ty.dupe(),
            ClassFieldInner::ClassAttribute { ty, .. } => ty.dupe(),
            ClassFieldInner::InstanceAttribute { ty, .. } => ty.dupe(),
        }
    }

    /// The field with another type.
    pub open spec fn retyped(self, new_ty: Type) -> ClassField {
        ClassField {
            inner: match self.inner {
                ClassFieldInner::Property { is_abstract, .. } => ClassFieldInner::Property {
                    ty: new_ty,
                    is_abstract,
                },
                ClassFieldInner::Descriptor { annotation, descriptor, .. } =>
                    ClassFieldInner::Descriptor { ty: new_ty, annotation, descriptor },
                ClassFieldInner::Method {
                    is_abstract,
                    is_function_without_return_annotation,
                    ..
                } => ClassFieldInner::Method {
                    ty: new_ty,
                    is_abstract,
                    is_function_without_return_annotation,
                },
                ClassFieldInner::NestedClass { .. } => ClassFieldInner::NestedClass { ty: new_ty },
                ClassFieldInner::ClassAttribute {
                    annotation,
                    initialization,
                    read_only_reason,
                    is_classvar,
                    is_staticmethod,
                    is_foreign_key,
                    has_choices,
                    ..
                } => ClassFieldInner::ClassAttribute {
                    ty: new_ty,
                    annotation,
                    initialization,
                    read_only_reason,
                    is_classvar,
                    is_staticmethod,
                    is_foreign_key,
                    has_choices,
                },
                ClassFieldInner::InstanceAttribute { annotation, read_only_reason, .. } =>
                    ClassFieldInner::InstanceAttribute {
                    ty: new_ty,
                    annotation,
                    read_only_reason,
                },
            },
            is_inherited: self.is_inherited,
        }
    }

    pub(crate) fn with_type(&self, new_ty: Type) -> (r: ClassField)
        ensures
            r == self.retyped(new_ty),
    {
        ClassField {
            inner: match &self.inner {
                ClassFieldInner::Property { is_abstract, .. } => ClassFieldInner::Property {
                    ty: new_ty,
                    is_abstract: *is_abstract,
                },
                ClassFieldInner::Descriptor { annotation, descriptor, .. } =>
                    ClassFieldInner::Descriptor {
                    ty: new_ty,
                    annotation: dupe_annotation(annotation),
                    descriptor: descriptor.dupe(),
                },
                ClassFieldInner::Method {
                    is_abstract,
                    is_function_without_return_annotation,
                    ..
                } => ClassFieldInner::Method {
                    ty: new_ty,
                    is_abstract: *is_abstract,
                    is_function_without_return_annotation: *is_function_without_return_annotation,
                },
                ClassFieldInner::NestedClass { .. } => ClassFieldInner::NestedClass { ty: new_ty },
                ClassFieldInner::ClassAttribute {
                    annotation,
                    initialization,
                    read_only_reason,
                    is_classvar,
                    is_staticmethod,
                    is_foreign_key,
                    has_choices,
                    ..
                } => ClassFieldInner::ClassAttribute {
                    ty: new_ty,
                    annotation: dupe_annotation(annotation),
                    initialization: initialization.dupe(),
                    read_only_reason: *read_only_reason,
                    is_classvar: *is_classvar,
                    is_staticmethod: *is_staticmethod,
                    is_foreign_key: *is_foreign_key,
                    has_choices: *has_choices,
                },
                ClassFieldInner::InstanceAttribute { annotation, read_only_reason, .. } =>
                    ClassFieldInner::InstanceAttribute {
                    ty: new_ty,
                    annotation: dupe_annotation(annotation),
                    read_only_reason: *read_only_reason,
                },
            },
            is_inherited: self.is_inherited,
        }
    }

    /// A class attribute that is neither a class variable nor a static method.
    pub open spec fn attribute(
        ty: Type,
        annotation: Option<Annotation>,
        initialization: ClassFieldInitialization,
        read_only_reason: Option<ReadOnlyReason>,
    ) -> ClassField {
        ClassField {
            inner: ClassFieldInner::ClassAttribute {
                ty,
                annotation,
                initialization,
                read_only_reason,
                is_classvar: false,
                is_staticmethod: false,
                is_foreign_key: false,
                has_choices: false,
            },
            is_inherited: IsInherited::Maybe,
        }
    }

    fn new(
        ty: Type,
        annotation: Option<Annotation>,
        initialization: ClassFieldInitialization,
        read_only_reason: Option<ReadOnlyReason>,
    ) -> (r: Self)
        ensures
            r == ClassField::attribute(ty, annotation, initialization, read_only_reason),
    {
        ClassField {
            inner: ClassFieldInner::ClassAttribute {
                ty,
                annotation,
                initialization,
                read_only_reason,
                is_classvar: false,
                is_staticmethod: false,
                is_foreign_key: false,
                has_choices: false,
            },
            is_inherited: IsInherited::Maybe,
        }
    }

    /// What stands for a typed dictionary key that could not be understood.
    pub fn invalid_typed_dict_field() -> (r: Self)
        ensures
            r == ClassField::attribute(
                Type::Any(AnyStyle::Error),
                None,
                ClassFieldInitialization::Magic,
                None,
            ),
    {
        ClassField::new(Type::Any(AnyStyle::Error), None, ClassFieldInitialization::Magic, None)
    }

    /// A key of a typed dictionary.
    pub fn typed_dict_field(
        ty: Type,
        annotation: Annotation,
        read_only_reason: Option<ReadOnlyReason>,
    ) -> (r: Self)
        ensures
            r == ClassField::attribute(
                ty,
                Some(annotation),
                ClassFieldInitialization::Uninitialized,
                read_only_reason,
            ),
    {
        ClassField::new(
            ty,
            Some(annotation),
            ClassFieldInitialization::Uninitialized,
            read_only_reason,
        )
    }

    /// The field that a synthesized value becomes: a property or a method where the type is one,
    /// an attribute of the class otherwise. Only an attribute can be a class variable.
    pub open spec fn synthesized(ty: Type, is_classvar: bool) -> ClassField {
        ClassField {
            inner: if ty.property_getter() || ty.getter_of_setter() is Some {
                ClassFieldInner::Property { ty, is_abstract: false }
            } else if ty.func_metadata() is Some {
                ClassFieldInner::Method {
                    ty,
                    is_abstract: false,
                    is_function_without_return_annotation: false,
                }
            } else {
                body_attribute(ty, is_classvar)
            },
            is_inherited: IsInherited::Maybe,
        }
    }

    fn new_synthesized_inner(ty: Type, is_classvar: bool) -> (r: Self)
        ensures
            r == ClassField::synthesized(ty, is_classvar),
    {
        if ty.is_property_getter() || ty.is_property_setter_with_getter().is_some() {
            ClassField {
                inner: ClassFieldInner::Property { ty, is_abstract: false },
                is_inherited: IsInherited::Maybe,
            }
        } else if ty.has_toplevel_func_metadata() {
            ClassField {
                inner: ClassFieldInner::Method {
                    ty,
                    is_abstract: false,
                    is_function_without_return_annotation: false,
                },
                is_inherited: IsInherited::Maybe,
            }
        } else {
            ClassField {
                inner: ClassFieldInner::ClassAttribute {
                    ty,
                    annotation: None,
                    initialization: ClassFieldInitialization::ClassBody(None),
                    read_only_reason: None,
                    is_classvar,
                    is_staticmethod: false,
                    is_foreign_key: false,
                    has_choices: false,
                },
                is_inherited: IsInherited::Maybe,
            }
        }
    }

    /// A synthesized field.
    pub fn new_synthesized(ty: Type) -> (r: Self)
        ensures
            r == ClassField::synthesized(ty, false),
    {
        ClassField::new_synthesized_inner(ty, false)
    }

    /// A synthesized class variable.
    pub fn new_synthesized_classvar(ty: Type) -> (r: Self)
        ensures
            r == ClassField::synthesized(ty, true),
    {
        ClassField::new_synthesized_inner(ty, true)
    }

    /// What a field is while it is still being computed.
    pub fn recursive() -> (r: Self)
        ensures
            r.inner == body_attribute(Type::Any(AnyStyle::Implicit), false),
            r.is_inherited == IsInherited::Maybe,
    {
        ClassField::new(
            Type::Any(AnyStyle::Implicit),
            None,
            ClassFieldInitialization::recursive(),
            None,
        )
    }

    /// Where the value of the field comes from.
    pub open spec fn initialized(self) -> ClassFieldInitialization {
        match self.inner {
            ClassFieldInner::ClassAttribute { initialization, .. } => initialization,
            ClassFieldInner::InstanceAttribute { .. } => ClassFieldInitialization::Method,
            _ => ClassFieldInitialization::ClassBody(None),
        }
    }

    /// Where the value of the field comes from.
    pub fn initialization(&self) -> (r: ClassFieldInitialization)
        ensures
            r == self.initialized(),
    {
        match &self.inner {
            ClassFieldInner::Property { .. } => ClassFieldInitialization::ClassBody(None),
            ClassFieldInner::Descriptor { .. } => ClassFieldInitialization::ClassBody(None),
            ClassFieldInner::Method { .. } => ClassFieldInitialization::ClassBody(None),
            ClassFieldInner::NestedClass { .. } => ClassFieldInitialization::ClassBody(None),
            ClassFieldInner::ClassAttribute { initialization, .. } => initialization.dupe(),
            ClassFieldInner::InstanceAttribute { .. } => ClassFieldInitialization::Method,
        }
    }

    /// The field with a replacement carried out in its type, and for a descriptor in the class
    /// of the descriptor too.
    pub open spec fn substituted(self, s: Subst) -> ClassField {
        match self.inner {
            ClassFieldInner::Descriptor { ty, annotation, descriptor } => ClassField {
                inner: ClassFieldInner::Descriptor {
                    ty: subst_type(ty, s),
                    annotation,
                    descriptor: Descriptor {
                        range: descriptor.range,
                        cls: subst_class(descriptor.cls, s),
                        getter: descriptor.getter,
                        setter: descriptor.setter,
                    },
                },
                is_inherited: self.is_inherited,
            },
            _ => self.retyped(subst_type(self.field_type(), s)),
        }
    }

    /// Carries out a replacement in the types of the field. Everything else stays as it is.
    pub fn instantiate_helper(&self, s: &Subst) -> (r: Self)
        ensures
            r == self.substituted(*s),
    {
        match &self.inner {
            ClassFieldInner::Property { ty, is_abstract } => ClassField {
                inner: ClassFieldInner::Property { ty: s.apply(ty), is_abstract: *is_abstract },
                is_inherited: self.is_inherited,
            },
            ClassFieldInner::Descriptor { ty, annotation, descriptor } => ClassField {
                inner: ClassFieldInner::Descriptor {
                    ty: s.apply(ty),
                    annotation: dupe_annotation(annotation),
                    descriptor: Descriptor {
                        range: descriptor.range,
                        cls: s.apply_class(&descriptor.cls),
                        getter: descriptor.getter,
                        setter: descriptor.setter,
                    },
                },
                is_inherited: self.is_inherited,
            },
            ClassFieldInner::Method {
                ty,
                is_abstract,
                is_function_without_return_annotation,
            } => ClassField {
                inner: ClassFieldInner::Method {
                    ty: s.apply(ty),
                    is_abstract: *is_abstract,
                    is_function_without_return_annotation: *is_function_without_return_annotation,
                },
                is_inherited: self.is_inherited,
            },
            ClassFieldInner::NestedClass { ty } => ClassField {
                inner: ClassFieldInner::NestedClass { ty: s.apply(ty) },
                is_inherited: self.is_inherited,
            },
            ClassFieldInner::ClassAttribute {
                ty,
                annotation,
                initialization,
                read_only_reason,
                is_classvar,
                is_staticmethod,
                is_foreign_key,
                has_choices,
            } => ClassField {
                inner: ClassFieldInner::ClassAttribute {
                    ty: s.apply(ty),
                    annotation: dupe_annotation(annotation),
                    initialization: initialization.dupe(),
                    read_only_reason: *read_only_reason,
                    is_classvar: *is_classvar,
                    is_staticmethod: *is_staticmethod,
                    is_foreign_key: *is_foreign_key,
                    has_choices: *has_choices,
                },
                is_inherited: self.is_inherited,
            },
            ClassFieldInner::InstanceAttribute { ty, annotation, read_only_reason } => ClassField {
                inner: ClassFieldInner::InstanceAttribute {
                    ty: s.apply(ty),
                    annotation: dupe_annotation(annotation),
                    read_only_reason: *read_only_reason,
                },
                is_inherited: self.is_inherited,
            },
        }
    }

    /// Whether the field is a property.
    pub fn is_property(&self) -> (r: bool)
        ensures
            r == self.inner is Property,
    {
        matches!(&self.inner, ClassFieldInner::Property { .. })
    }

    /// Whether the field is an attribute that only methods assign.
    pub fn is_simple_instance_attribute(&self) -> (r: bool)
        ensures
            r == self.inner is InstanceAttribute,
    {
        matches!(&self.inner, ClassFieldInner::InstanceAttribute { .. })
    }

    pub open spec fn decoratable(self) -> bool {
        self.inner is Property || self.inner is Descriptor || self.inner is Method
    }

    /// Whether the `@override` decorator can be applied to the field.
    pub fn can_have_override_decorator(&self) -> (r: bool)
        ensures
            r == self.decoratable(),
    {
        match &self.inner {
            ClassFieldInner::InstanceAttribute { .. } => false,
            ClassFieldInner::NestedClass { .. } => false,
            ClassFieldInner::ClassAttribute { .. } => false,
            ClassFieldInner::Property { .. } => true,
            ClassFieldInner::Descriptor { .. } => true,
            ClassFieldInner::Method { .. } => true,
        }
    }

    pub open spec fn abstract_field(self) -> bool {
        match self.inner {
            ClassFieldInner::Property { is_abstract, .. } => is_abstract,
            ClassFieldInner::Method { is_abstract, .. } => is_abstract,
            _ => false,
        }
    }

    /// Whether the field is an abstract property or method.
    pub fn is_abstract(&self) -> (r: bool)
        ensures
            r == self.abstract_field(),
    {
        match &self.inner {
            ClassFieldInner::Property { is_abstract, .. } => *is_abstract,
            ClassFieldInner::Method { is_abstract, .. } => *is_abstract,
            _ => false,
        }
    }

    pub open spec fn protocol_only(self) -> bool {
        (self.inner is Method || self.inner is ClassAttribute || self.inner is InstanceAttribute)
            && self.field_type().non_callable_protocol_method()
    }

    /// Whether the field is a protocol method that cannot be called through `super`.
    pub fn is_non_callable_protocol_method(&self) -> (r: bool)
        ensures
            r == self.protocol_only(),
    {
        match &self.inner {
            ClassFieldInner::Property { .. } => false,
            ClassFieldInner::Descriptor { .. } => false,
            ClassFieldInner::Method { ty, .. } => ty.is_non_callable_protocol_method(),
            ClassFieldInner::NestedClass { .. } => false,
            ClassFieldInner::ClassAttribute { ty, .. } => ty.is_non_callable_protocol_method(),
            ClassFieldInner::InstanceAttribute { ty, .. } => ty.is_non_callable_protocol_method(),
        }
    }

    /// Whether the field is a foreign key of a Django model.
    pub fn is_foreign_key(&self) -> (r: bool)
        ensures
            r == (self.inner matches ClassFieldInner::ClassAttribute { is_foreign_key, .. }
                && is_foreign_key),
    {
        match &self.inner {
            ClassFieldInner::ClassAttribute { is_foreign_key, .. } => *is_foreign_key,
            _ => false,
        }
    }

    /// Whether the field is a Django field with choices.
    pub fn has_choices(&self) -> (r: bool)
        ensures
            r == (self.inner matches ClassFieldInner::ClassAttribute { has_choices, .. }
                && has_choices),
    {
        match &self.inner {
            ClassFieldInner::ClassAttribute { has_choices, .. } => *has_choices,
            _ => false,
        }
    }

    /// The type of the field as an element of a named tuple.
    pub fn as_named_tuple_type(&self) -> (r: Type)
        ensures
            r == self.field_type(),
    {
        self.ty()
    }

    /// Whether the field, as an element of a named tuple, must be given: it must unless the
    /// class body gives it a value.
    pub fn as_named_tuple_requiredness(&self) -> (r: Required)
        ensures
            r == (if self.initialized() is ClassBody {
                Required::Optional(None)
            } else {
                Required::Required
            }),
    {
        match &self.inner {
            ClassFieldInner::Property { .. } => Required::Optional(None),
            ClassFieldInner::Descriptor { .. } => Required::Optional(None),
            ClassFieldInner::Method { .. } => Required::Optional(None),
            ClassFieldInner::NestedClass { .. } => Required::Optional(None),
            ClassFieldInner::ClassAttribute {
                initialization: ClassFieldInitialization::ClassBody(_),
                ..
            } => Required::Optional(None),
            ClassFieldInner::ClassAttribute { .. } => Required::Required,
            ClassFieldInner::InstanceAttribute { .. } => Required::Required,
        }
    }

    /// The annotation, where the field can have one.
    pub open spec fn declared(self) -> Option<Annotation> {
        match self.inner {
            ClassFieldInner::Descriptor { annotation, .. } => annotation,
            ClassFieldInner::ClassAttribute { annotation, .. } => annotation,
            ClassFieldInner::InstanceAttribute { annotation, .. } => annotation,
            _ => None,
        }
    }

    /// The field as a key of a typed dictionary: an attribute with an annotated type. `Required`
    /// wins over `NotRequired`, and both over the default of the dictionary.
    pub open spec fn typed_dict_info(self, required_by_default: bool) -> Option<TypedDictField> {
        if (self.inner is ClassAttribute || self.inner is InstanceAttribute) && self.declared()
            is Some && self.declared()->0.ty is Some {
            let annotation = self.declared()->0;
            Some(
                TypedDictField {
                    ty: annotation.ty->0,
                    read_only_reason: if annotation.qualified(Qualifier::ReadOnly) {
                        Some(ReadOnlyReason::ReadOnlyQualifier)
                    } else {
                        None
                    },
                    required: if annotation.qualified(Qualifier::Required) {
                        true
                    } else if annotation.qualified(Qualifier::NotRequired) {
                        false
                    } else {
                        required_by_default
                    },
                },
            )
        } else {
            None
        }
    }

    /// The field as a key of a typed dictionary.
    pub fn as_typed_dict_field_info(&self, required_by_default: bool) -> (r: Option<TypedDictField>)
        ensures
            r == self.typed_dict_info(required_by_default),
    {
        let annotation = match &self.inner {
            ClassFieldInner::ClassAttribute { annotation: Some(annotation), .. } => annotation,
            ClassFieldInner::InstanceAttribute { annotation: Some(annotation), .. } => annotation,
            _ => {
                return None;
            },
        };
        match &annotation.ty {
            Some(ty) => Some(
                TypedDictField {
                    ty: ty.dupe(),
                    read_only_reason: if annotation.has_qualifier(Qualifier::ReadOnly) {
                        Some(ReadOnlyReason::ReadOnlyQualifier)
                    } else {
                        None
                    },
                    required: if annotation.has_qualifier(Qualifier::Required) {
                        true
                    } else if annotation.has_qualifier(Qualifier::NotRequired) {
                        false
                    } else {
                        required_by_default
                    },
                },
            ),
            None => None,
        }
    }

    pub open spec fn kwonly_marker(self) -> bool {
        self.inner is ClassAttribute && self.field_type() is ClassType
            && self.field_type()->ClassType_0.class.is_qname("dataclasses"@, "KW_ONLY"@)
    }

    /// Whether the field is the mark behind which dataclass fields are keyword-only.
    pub fn is_dataclass_kwonly_marker(&self) -> (r: bool)
        ensures
            r == self.kwonly_marker(),
    {
        match &self.inner {
            ClassFieldInner::ClassAttribute { ty, .. } => match ty {
                Type::ClassType(cls) => cls.has_qname("dataclasses", "KW_ONLY"),
                _ => false,
            },
            _ => false,
        }
    }

    pub open spec fn class_var(self) -> bool {
        match self.inner {
            ClassFieldInner::Descriptor { annotation, .. } => annotated_as(
                annotation,
                Qualifier::ClassVar,
            ),
            ClassFieldInner::ClassAttribute { is_classvar, .. } => is_classvar,
            _ => false,
        }
    }

    /// Whether the field is a class variable.
    pub fn is_class_var(&self) -> (r: bool)
        ensures
            r == self.class_var(),
    {
        match &self.inner {
            ClassFieldInner::Descriptor { annotation, .. } => is_annotated_as(
                annotation,
                Qualifier::ClassVar,
            ),
            ClassFieldInner::ClassAttribute { is_classvar, .. } => *is_classvar,
            _ => false,
        }
    }

    /// Whether the field is a data attribute that is neither a class variable nor a static method.
    pub fn is_non_classvar_data_attribute(&self) -> (r: bool)
        ensures
            r == (self.inner matches ClassFieldInner::ClassAttribute {
                is_classvar,
                is_staticmethod,
                ..
            } && !is_classvar && !is_staticmethod),
    {
        match &self.inner {
            ClassFieldInner::ClassAttribute { is_classvar, is_staticmethod, .. } => !*is_classvar
                && !*is_staticmethod,
            _ => false,
        }
    }

    /// Whether the field is a class variable without a value.
    pub fn is_uninit_class_var(&self) -> (r: bool)
        ensures
            r == (self.inner is ClassAttribute && self.class_var() && (self.initialized()
                is Uninitialized || self.initialized() is Magic)),
    {
        match &self.inner {
            ClassFieldInner::ClassAttribute { is_classvar, initialization, .. } => *is_classvar
                && match initialization {
                ClassFieldInitialization::Uninitialized => true,
                ClassFieldInitialization::Magic => true,
                _ => false,
            },
            _ => false,
        }
    }

    pub open spec fn init_var(self) -> bool {
        annotated_as(self.declared(), Qualifier::InitVar)
    }

    /// Whether the field is an argument of the constructor only.
    pub fn is_init_var(&self) -> (r: bool)
        ensures
            r == self.init_var(),
    {
        match &self.inner {
            ClassFieldInner::Property { .. } => false,
            ClassFieldInner::Descriptor { annotation, .. } => is_annotated_as(
                annotation,
                Qualifier::InitVar,
            ),
            ClassFieldInner::Method { .. } => false,
            ClassFieldInner::NestedClass { .. } => false,
            ClassFieldInner::ClassAttribute { annotation, .. } => is_annotated_as(
                annotation,
                Qualifier::InitVar,
            ),
            ClassFieldInner::InstanceAttribute { annotation, .. } => is_annotated_as(
                annotation,
                Qualifier::InitVar,
            ),
        }
    }

    pub open spec fn final_field(self) -> bool {
        !(self.inner is NestedClass) && (annotated_as(self.declared(), Qualifier::Final)
            || self.field_type().final_decoration())
    }

    /// Whether the field must not be overridden.
    pub fn is_final(&self) -> (r: bool)
        ensures
            r == self.final_field(),
    {
        match &self.inner {
            ClassFieldInner::Property { ty, .. } => ty.has_final_decoration(),
            ClassFieldInner::Descriptor { annotation, ty, .. } => is_annotated_as(
                annotation,
                Qualifier::Final,
            ) || ty.has_final_decoration(),
            ClassFieldInner::Method { ty, .. } => ty.has_final_decoration(),
            ClassFieldInner::NestedClass { .. } => false,
            ClassFieldInner::ClassAttribute { annotation, ty, .. } => is_annotated_as(
                annotation,
                Qualifier::Final,
            ) || ty.has_final_decoration(),
            ClassFieldInner::InstanceAttribute { annotation, ty, .. } => is_annotated_as(
                annotation,
                Qualifier::Final,
            ) || ty.has_final_decoration(),
        }
    }

    pub open spec fn explicit_override(self) -> bool {
        !(self.inner is NestedClass) && self.field_type().marked_override()
    }

    /// Whether the field is marked as an override.
    pub fn is_override(&self) -> (r: bool)
        ensures
            r == self.explicit_override(),
    {
        match &self.inner {
            ClassFieldInner::Property { ty, .. } => ty.is_override(),
            ClassFieldInner::Descriptor { ty, .. } => ty.is_override(),
            ClassFieldInner::Method { ty, .. } => ty.is_override(),
            ClassFieldInner::NestedClass { .. } => false,
            ClassFieldInner::ClassAttribute { ty, .. } => ty.is_override(),
            ClassFieldInner::InstanceAttribute { ty, .. } => ty.is_override(),
        }
    }

    pub open spec fn read_only(self) -> bool {
        match self.inner {
            ClassFieldInner::Property { ty, .. } => ty.getter_of_setter() is None,
            ClassFieldInner::Descriptor { descriptor, .. } => !descriptor.setter,
            ClassFieldInner::Method { .. } => true,
            ClassFieldInner::NestedClass { .. } => true,
            ClassFieldInner::ClassAttribute { read_only_reason, is_classvar, .. } =>
                read_only_reason is Some || is_classvar,
            ClassFieldInner::InstanceAttribute { read_only_reason, .. } => read_only_reason is Some,
        }
    }

    /// Whether the field is read-only for any reason.
    pub fn is_read_only(&self) -> (r: bool)
        ensures
            r == self.read_only(),
    {
        match &self.inner {
            ClassFieldInner::Property { ty, .. } => ty.is_property_setter_with_getter().is_none(),
            ClassFieldInner::Descriptor { descriptor, .. } => !descriptor.setter,
            ClassFieldInner::Method { .. } => true,
            ClassFieldInner::NestedClass { .. } => true,
            ClassFieldInner::ClassAttribute { read_only_reason: Some(_), .. } => true,
            ClassFieldInner::ClassAttribute { is_classvar, .. } => *is_classvar,
            ClassFieldInner::InstanceAttribute { read_only_reason: Some(_), .. } => true,
            ClassFieldInner::InstanceAttribute { .. } => false,
        }
    }

    /// What variance inference reads of the field: its type, its annotation, and whether it is
    /// read-only.
    pub fn for_variance_inference(&self) -> (r: (Type, Option<Annotation>, bool))
        ensures
            r == (self.field_type(), self.declared(), self.read_only()),
    {
        let annotation = match &self.inner {
            ClassFieldInner::Property { .. } => None,
            ClassFieldInner::Descriptor { annotation, .. } => dupe_annotation(annotation),
            ClassFieldInner::Method { .. } => None,
            ClassFieldInner::NestedClass { .. } => None,
            ClassFieldInner::ClassAttribute { annotation, .. } => dupe_annotation(annotation),
            ClassFieldInner::InstanceAttribute { annotation, .. } => dupe_annotation(annotation),
        };
        (self.ty(), annotation, self.is_read_only())
    }

    pub open spec fn non_data_descriptor(self) -> bool {
        self.inner matches ClassFieldInner::Descriptor { descriptor, .. } && descriptor.getter
            && !descriptor.setter
    }

    /// Whether the field is a descriptor with `__get__` and without `__set__`.
    pub fn is_non_data_descriptor(&self) -> (r: bool)
        ensures
            r == self.non_data_descriptor(),
    {
        match &self.inner {
            ClassFieldInner::Descriptor { descriptor, .. } => descriptor.getter
                && !descriptor.setter,
            _ => false,
        }
    }

    pub open spec fn non_data_info(self) -> Option<(TextRange, ClassType)> {
        match self.inner {
            ClassFieldInner::Descriptor { descriptor, .. } => if descriptor.getter
                && !descriptor.setter {
                Some((descriptor.range, descriptor.cls))
            } else {
                None
            },
            _ => None,
        }
    }

    /// Where a descriptor with `__get__` and without `__set__` is bound, and its class.
    pub fn non_data_descriptor_info(&self) -> (r: Option<(TextRange, ClassType)>)
        ensures
            r == self.non_data_info(),
    {
        match &self.inner {
            ClassFieldInner::Descriptor { descriptor, .. } => if descriptor.getter
                && !descriptor.setter {
                Some((descriptor.range, descriptor.cls.dupe()))
            } else {
                None
            },
            _ => None,
        }
    }

    pub open spec fn data_info(self) -> Option<(TextRange, ClassType)> {
        match self.inner {
            ClassFieldInner::Descriptor { descriptor, .. } => if descriptor.getter
                && descriptor.setter {
                Some((descriptor.range, descriptor.cls))
            } else {
                None
            },
            _ => None,
        }
    }

    /// Where a descriptor with both `__get__` and `__set__` is bound, and its class.
    pub fn data_descriptor_info(&self) -> (r: Option<(TextRange, ClassType)>)
        ensures
            r == self.data_info(),
    {
        match &self.inner {
            ClassFieldInner::Descriptor { descriptor, .. } => if descriptor.getter
                && descriptor.setter {
                Some((descriptor.range, descriptor.cls.dupe()))
            } else {
                None
            },
            _ => None,
        }
    }

    /// Whether the field has an annotation.
    pub fn has_explicit_annotation(&self) -> (r: bool)
        ensures
            r == self.declared() is Some,
    {
        match &self.inner {
            ClassFieldInner::Property { .. } => false,
            ClassFieldInner::Descriptor { annotation, .. } => annotation.is_some(),
            ClassFieldInner::Method { .. } => false,
            ClassFieldInner::NestedClass { .. } => false,
            ClassFieldInner::ClassAttribute { annotation, .. } => annotation.is_some(),
            ClassFieldInner::InstanceAttribute { annotation, .. } => annotation.is_some(),
        }
    }

    pub open spec fn unannotated_return(self) -> bool {
        self.inner matches ClassFieldInner::Method { is_function_without_return_annotation, .. }
            && is_function_without_return_annotation
    }

    /// Whether the field is a method without a return annotation.
    pub fn is_function_without_return_annotation(&self) -> (r: bool)
        ensures
            r == self.unannotated_return(),
    {
        match &self.inner {
            ClassFieldInner::Method { is_function_without_return_annotation, .. } =>
                *is_function_without_return_annotation,
            _ => false,
        }
    }

    /// The options of the field as a field of a dataclass. One that has a value in the class
    /// body but no options of its own has a default of unknown type.
    pub open spec fn dataclass_flags(self) -> DataclassFieldKeywords {
        let with_default = DataclassFieldKeywords {
            default: Some(Type::Any(AnyStyle::Implicit)),
            ..DataclassFieldKeywords::unset()
        };
        match self.inner {
            ClassFieldInner::Descriptor { .. } => with_default,
            ClassFieldInner::ClassAttribute { initialization, .. } => match initialization {
                ClassFieldInitialization::ClassBody(Some(flags)) => *flags,
                ClassFieldInitialization::ClassBody(None) => with_default,
                _ => DataclassFieldKeywords::unset(),
            },
            _ => DataclassFieldKeywords::unset(),
        }
    }

    /// The options of the field as a field of a dataclass.
    pub fn dataclass_flags_of(&self) -> (r: DataclassFieldKeywords)
        ensures
            r == self.dataclass_flags(),
    {
        match &self.inner {
            ClassFieldInner::Property { .. } => DataclassFieldKeywords::new(),
            ClassFieldInner::Descriptor { .. } => {
                let mut kws = DataclassFieldKeywords::new();
                kws.default = Some(Type::Any(AnyStyle::Implicit));
                kws
            },
            ClassFieldInner::Method { .. } => DataclassFieldKeywords::new(),
            ClassFieldInner::NestedClass { .. } => DataclassFieldKeywords::new(),
            ClassFieldInner::ClassAttribute { initialization, .. } => match initialization {
                ClassFieldInitialization::ClassBody(Some(flags)) => flags.dupe(),
                ClassFieldInitialization::ClassBody(None) => {
                    let mut kws = DataclassFieldKeywords::new();
                    kws.default = Some(Type::Any(AnyStyle::Implicit));
                    kws
                },
                _ => DataclassFieldKeywords::new(),
            },
            ClassFieldInner::InstanceAttribute { .. } => DataclassFieldKeywords::new(),
        }
    }

    pub open spec fn method_only(self) -> bool {
        self.inner is InstanceAttribute || (self.inner is ClassAttribute && self.initialized()
            is ClassMethod)
    }

    /// Whether only methods assign the field.
    pub fn is_initialized_in_method(&self) -> (r: bool)
        ensures
            r == self.method_only(),
    {
        match &self.inner {
            ClassFieldInner::ClassAttribute { initialization, .. } => match initialization {
                ClassFieldInitialization::ClassMethod => true,
                _ => false,
            },
            ClassFieldInner::InstanceAttribute { .. } => true,
            _ => false,
        }
    }
}

/// Replacing types in a field changes its types and nothing else: what kind of field it is,
/// whether it is a class variable, an init variable or a marked declaration, whether it is
/// annotated, and where its value comes from.
pub proof fn law_instantiation_keeps_the_kind(field: ClassField, s: Subst)
    ensures
        field.substituted(s).inner is Property == field.inner is Property,
        field.substituted(s).inner is Descriptor == field.inner is Descriptor,
        field.substituted(s).inner is Method == field.inner is Method,
        field.substituted(s).inner is NestedClass == field.inner is NestedClass,
        field.substituted(s).inner is ClassAttribute == field.inner is ClassAttribute,
        field.substituted(s).inner is InstanceAttribute == field.inner is InstanceAttribute,
        field.substituted(s).field_type() == subst_type(field.field_type(), s),
        field.substituted(s).class_var() == field.class_var(),
        field.substituted(s).init_var() == field.init_var(),
        field.substituted(s).abstract_field() == field.abstract_field(),
        field.substituted(s).declared() == field.declared(),
        field.substituted(s).initialized() == field.initialized(),
        field.substituted(s).non_data_descriptor() == field.non_data_descriptor(),
        field.substituted(s).is_inherited == field.is_inherited,
{
}

/// No field has both kinds of descriptor information. A descriptor field has one of them exactly
/// where it has `__get__`, and any other field has none.
pub proof fn law_descriptor_information_is_exclusive(field: ClassField)
    ensures
        field.non_data_info() is Some == field.non_data_descriptor(),
        !(field.data_info() is Some && field.non_data_info() is Some),
        field.inner matches ClassFieldInner::Descriptor { descriptor, .. } ==> (field.data_info()
            is None && field.non_data_info() is None <==> !descriptor.getter),
        !(field.inner is Descriptor) ==> field.data_info() is None && field.non_data_info() is None,
        field.data_info() is Some ==> !field.read_only(),
{
}

/// Methods and nested classes are never written, and they are never class variables; neither are
/// properties. What stands in the class body has its value from there.
pub proof fn law_methods_are_never_written(field: ClassField)
    ensures
        field.inner is Method || field.inner is NestedClass ==> field.read_only(),
        field.inner is Method || field.inner is NestedClass || field.inner is Property
            ==> !field.class_var() && field.declared() is None,
        field.inner is Method || field.inner is NestedClass || field.inner is Property
            || field.inner is Descriptor ==> field.initialized() is ClassBody,
{
}

} // verus!
