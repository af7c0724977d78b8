use std::sync::Arc;

use vstd::prelude::*;

use crate::annotation::{annotated_as, is_annotated_as, Annotation, Qualifier};
use crate::attribute::{Descriptor, ReadOnlyReason};
use crate::class_field::{ClassField, ClassFieldInitialization, ClassFieldInner, IsInherited};
use crate::expr::{ClassFieldDefinition, Expr, ExprOrBinding, MethodSelfKind};
use crate::field_value::Analysis;
use crate::instance::{has_any_abstract, is_method, is_method_field, some_abstract, Instance};
use crate::metadata::ClassMetadata;
use crate::names::{dunder_name, is_dunder, is_mangled_attr, mangled_name};
use crate::report::{report1, ErrorCollector, ReportView, Rule, TextRange};
use crate::solver::{AnswersSolver, LookupAnswer, Search};
use crate::text::{cat3, is_text};
use crate::types::{Class, ClassType, Type};
use crate::universe::{has_implicit_literal, nodes, some_literal};

verus! {

/// A type that is always treated as a descriptor: `sqlalchemy.orm.Mapped` makes its fields
/// class-level at run time.
pub open spec fn special_descriptor(ty: Type) -> bool {
    match ty {
        Type::ClassType(cls) => cls.class.is_qname("sqlalchemy.orm.base"@, "Mapped"@),
        _ => false,
    }
}

fn is_special_descriptor_type(ty: &Type) -> (r: bool)
    ensures
        r == special_descriptor(*ty),
{
    match ty {
        Type::ClassType(cls) => cls.has_qname("sqlalchemy.orm.base", "Mapped"),
        _ => false,
    }
}

/// Whether an annotation names a type that is always treated as a descriptor.
pub open spec fn special_annotation(annotation: Option<Annotation>) -> bool {
    annotation matches Some(a) && (a.ty matches Some(ty) && special_descriptor(ty))
}

fn is_special_annotation(annotation: &Option<Annotation>) -> (r: bool)
    ensures
        r == special_annotation(*annotation),
{
    match annotation {
        Some(a) => match &a.ty {
            Some(ty) => is_special_descriptor_type(ty),
            None => false,
        },
        None => false,
    }
}

/// Whether an annotation is `ClassVar[Final[..]]`.
pub open spec fn final_in_class_var(annotation: Annotation) -> bool {
    annotation.qualifiers@.len() > 0 && annotation.qualifiers@[0] == Qualifier::ClassVar
        && annotation.qualified(Qualifier::Final)
}

pub(crate) fn is_final_in_class_var(annotation: &Annotation) -> (r: bool)
    ensures
        r == final_in_class_var(*annotation),
{
    match annotation.qualifiers.get(0) {
        Some(q) => *q == Qualifier::ClassVar && annotation.is_final(),
        None => false,
    }
}

impl<Ans: LookupAnswer> AnswersSolver<Ans> {
    /// The field that the definition only repeats: a descriptor of an ancestor whose type the
    /// annotation fits, or a property or descriptor of an ancestor that a method assigns.
    pub open spec fn taken_over(
        self,
        class: Class,
        name: Seq<char>,
        definition: ClassFieldDefinition,
    ) -> Option<ClassField> {
        let parent = self.from_ancestors(
            class,
            self.info(class).ancestors@,
            name,
            Search::All,
        );
        if mangled_name(name) || parent is None {
            None
        } else {
            let field = (parent->0).value;
            match definition {
                ClassFieldDefinition::DeclaredByAnnotation { declared, .. } => if field.inner
                    matches ClassFieldInner::Descriptor { descriptor, .. } && declared.ty matches Some(
                    child,
                ) && self.subset_eq(child, Type::ClassType(descriptor.cls)) {
                    Some(field)
                } else {
                    None
                },
                ClassFieldDefinition::DefinedInMethod { .. } => if field.inner is Property
                    || field.inner is Descriptor {
                    Some(field)
                } else {
                    None
                },
                _ => None,
            }
        }
    }

    pub(crate) fn get_taken_over(&self, class: &Class, name: &str, definition: &ClassFieldDefinition) -> (r:
        Option<ClassField>)
        ensures
            r == self.taken_over(*class, name@, *definition),
    {
        if is_mangled_attr(name) {
            return None;
        }
        let ancestors = &self.get_info(class).ancestors;
        assert(ancestors@.skip(0) =~= ancestors@);
        let field = match self.get_field_from_ancestors(class, ancestors, 0, name, Search::All) {
            Some(parent) => parent.value,
            None => {
                return None;
            },
        };
        match definition {
            ClassFieldDefinition::DeclaredByAnnotation { declared, .. } => {
                let fits = match &field.inner {
                    ClassFieldInner::Descriptor { descriptor, .. } => match &declared.ty {
                        Some(child) => self.is_subset_eq(
                            child,
                            &Type::ClassType(descriptor.cls.dupe()),
                        ),
                        None => false,
                    },
                    _ => false,
                };
                if fits {
                    Some(field)
                } else {
                    None
                }
            },
            ClassFieldDefinition::DefinedInMethod { .. } => {
                let bound = match &field.inner {
                    ClassFieldInner::Property { .. } => true,
                    ClassFieldInner::Descriptor { .. } => true,
                    _ => false,
                };
                if bound {
                    Some(field)
                } else {
                    None
                }
            },
            _ => None,
        }
    }

    /// Where the value of a field comes from.
    pub open spec fn initialization_of(self, class: Class, definition: ClassFieldDefinition) -> ClassFieldInitialization {
        let metadata = self.info(class).metadata;
        match definition {
            ClassFieldDefinition::DeclaredByAnnotation { declared, metadata_calls, .. } =>
            if class.interface || declared.qualified(Qualifier::ClassVar) {
                ClassFieldInitialization::Magic
            } else {
                match self.annotated_options(metadata_calls@, metadata) {
                    Some(flags) => ClassFieldInitialization::ClassBody(Some(Arc::new(flags))),
                    None => ClassFieldInitialization::Uninitialized,
                }
            },
            ClassFieldDefinition::AssignedInBody { value, .. } => match (
                value.expression(),
                metadata.dataclass,
            ) {
                (Some(e), Some(dm)) => match e.call() {
                    Some(call) => match self.specified(call, dm) {
                        Some(flags) => ClassFieldInitialization::ClassBody(Some(Arc::new(flags))),
                        None => ClassFieldInitialization::ClassBody(None),
                    },
                    None => ClassFieldInitialization::ClassBody(None),
                },
                _ => ClassFieldInitialization::ClassBody(None),
            },
            ClassFieldDefinition::DefinedInMethod { method, .. } => match method.instance_or_class {
                MethodSelfKind::Class => ClassFieldInitialization::ClassMethod,
                MethodSelfKind::Instance => ClassFieldInitialization::Method,
            },
            ClassFieldDefinition::DeclaredWithoutAnnotation => if class.interface {
                ClassFieldInitialization::Magic
            } else {
                ClassFieldInitialization::Uninitialized
            },
            _ => ClassFieldInitialization::ClassBody(None),
        }
    }

    pub(crate) fn get_initialization(&self, class: &Class, definition: &ClassFieldDefinition) -> (r:
        ClassFieldInitialization)
        ensures
            r == self.initialization_of(*class, *definition),
    {
        let metadata = self.get_metadata_for_class(class);
        match definition {
            ClassFieldDefinition::DeclaredByAnnotation { declared, metadata_calls, .. } => {
                if class.interface || declared.has_qualifier(Qualifier::ClassVar) {
                    return ClassFieldInitialization::Magic;
                }
                match self.extract_pydantic_field_from_annotation(metadata_calls, metadata) {
                    Some(flags) => ClassFieldInitialization::ClassBody(Some(Arc::new(flags))),
                    None => ClassFieldInitialization::Uninitialized,
                }
            },
            ClassFieldDefinition::AssignedInBody { value, .. } => {
                if let ExprOrBinding::Expr(e) = value {
                    if let Some(dm) = &metadata.dataclass {
                        if let Some(call) = e.as_call_expr() {
                            return match self.compute_dataclass_field_initialization(call, dm) {
                                Some(flags) => ClassFieldInitialization::ClassBody(
                                    Some(Arc::new(flags)),
                                ),
                                None => ClassFieldInitialization::ClassBody(None),
                            };
                        }
                    }
                }
                ClassFieldInitialization::ClassBody(None)
            },
            ClassFieldDefinition::DefinedInMethod { method, .. } => match method.instance_or_class {
                MethodSelfKind::Class => ClassFieldInitialization::ClassMethod,
                MethodSelfKind::Instance => ClassFieldInitialization::Method,
            },
            ClassFieldDefinition::DeclaredWithoutAnnotation => if class.interface {
                ClassFieldInitialization::Magic
            } else {
                ClassFieldInitialization::Uninitialized
            },
            _ => ClassFieldInitialization::ClassBody(None),
        }
    }

    /// What the definition of a field is found to give.
    pub open spec fn found(self, class: Class, name: Seq<char>, definition: ClassFieldDefinition) -> Analysis {
        match definition {
            ClassFieldDefinition::DeclaredByAnnotation { declared, .. } => self.analysis(
                ExprOrBinding::AnyImplicit,
                class,
                name,
                Some(declared),
                false,
            ),
            ClassFieldDefinition::AssignedInBody { value, annotation } => self.analysis(
                value,
                class,
                name,
                annotation,
                false,
            ),
            ClassFieldDefinition::DefinedInMethod { value, annotation, method } => {
                let a = self.analysis(value, class, name, annotation, true);
                if method.instance_or_class == MethodSelfKind::Instance {
                    Analysis {
                        ty: self.sanitized(class, a.ty),
                        annotation: a.annotation,
                        is_inherited: a.is_inherited,
                    }
                } else {
                    a
                }
            },
            ClassFieldDefinition::MethodLike { definition, .. } => Analysis {
                ty: self.answers.solved(definition),
                annotation: None,
                is_inherited: IsInherited::Maybe,
            },
            ClassFieldDefinition::NestedClass { definition } => Analysis {
                ty: self.answers.solved(definition),
                annotation: None,
                is_inherited: IsInherited::Maybe,
            },
            ClassFieldDefinition::DefinedWithoutAssign { definition } => self.analysis(
                ExprOrBinding::Binding(definition),
                class,
                name,
                None,
                false,
            ),
            ClassFieldDefinition::DeclaredWithoutAnnotation => self.analysis(
                ExprOrBinding::AnyImplicit,
                class,
                name,
                None,
                false,
            ),
        }
    }

    /// The report on a `Final` attribute that nothing gives a value. Dataclasses and named tuples
    /// give their fields values in the constructor; members of protocols need none.
    pub open spec fn uninitialized_final_report(
        self,
        class: Class,
        definition: ClassFieldDefinition,
        range: TextRange,
    ) -> Seq<ReportView> {
        let metadata = self.info(class).metadata;
        match definition {
            ClassFieldDefinition::DeclaredByAnnotation {
                declared,
                initialized_in_recognized_method,
                ..
            } => if !initialized_in_recognized_method && declared.qualified(Qualifier::Final)
                && self.initialization_of(class, definition) is Uninitialized
                && metadata.dataclass is None && metadata.named_tuple is None
                && !metadata.is_protocol {
                seq![
                    report1(
                        range,
                        Rule::InvalidAnnotation,
                        "Final attribute declared in class body must be initialized with a value or in `__init__`"@,
                    ),
                ]
            } else {
                Seq::empty()
            },
            _ => Seq::empty(),
        }
    }

    /// The reports that go with what a definition is found to give.
    pub open spec fn found_reports(
        self,
        class: Class,
        name: Seq<char>,
        definition: ClassFieldDefinition,
        range: TextRange,
    ) -> Seq<ReportView> {
        let metadata = self.info(class).metadata;
        match definition {
            ClassFieldDefinition::DeclaredByAnnotation { declared, .. } =>
            self.uninitialized_final_report(class, definition, range),
            ClassFieldDefinition::AssignedInBody { value, annotation } => (
            if metadata.is_protocol && annotation is None && !dunder_name(name) {
                seq![
                    report1(
                        range,
                        Rule::UnannotatedProtocolMember,
                        "Protocol member `"@ + name + "` must have an explicit type annotation"@,
                    ),
                ]
            } else {
                Seq::empty()
            }) + self.analysis_reports(value, class, name, annotation, false, range),
            ClassFieldDefinition::DefinedInMethod { value, annotation, method } =>
            self.analysis_reports(value, class, name, annotation, true, range) + (
            if method.instance_or_class == MethodSelfKind::Instance {
                Self::stray_reports(
                    self.strays(class, self.analysis(value, class, name, annotation, true).ty),
                    name,
                    class,
                    range,
                )
            } else {
                Seq::empty()
            }),
            ClassFieldDefinition::MethodLike { definition, .. } => self.answers.solved_reports(
                definition,
                range,
            ),
            ClassFieldDefinition::NestedClass { definition } => self.answers.solved_reports(
                definition,
                range,
            ),
            ClassFieldDefinition::DefinedWithoutAssign { definition } => self.analysis_reports(
                ExprOrBinding::Binding(definition),
                class,
                name,
                None,
                false,
                range,
            ),
            ClassFieldDefinition::DeclaredWithoutAnnotation => Seq::empty(),
        }
    }

    fn check_uninitialized_final(
        &self,
        class: &Class,
        definition: &ClassFieldDefinition,
        initialization: &ClassFieldInitialization,
        range: TextRange,
        errors: &mut ErrorCollector,
    )
        requires
            *initialization == self.initialization_of(*class, *definition),
        ensures
            final(errors)@ == old(errors)@ + self.uninitialized_final_report(
                *class,
                *definition,
                range,
            ),
    {
        assert(errors@ + Seq::<ReportView>::empty() =~= errors@);
        let metadata = self.get_metadata_for_class(class);
        if let ClassFieldDefinition::DeclaredByAnnotation {
            declared,
            initialized_in_recognized_method,
            ..
        } = definition {
            let uninitialized = match initialization {
                ClassFieldInitialization::Uninitialized => true,
                _ => false,
            };
            if !*initialized_in_recognized_method && declared.is_final() && uninitialized
                && metadata.dataclass.is_none() && metadata.named_tuple.is_none()
                && !metadata.is_protocol {
                errors.error(
                    range,
                    Rule::InvalidAnnotation,
                    "Final attribute declared in class body must be initialized with a value or in `__init__`".to_owned(),
                );
            }
        }
    }

    pub(crate) fn find(
        &self,
        class: &Class,
        name: &str,
        definition: &ClassFieldDefinition,
        initialization: &ClassFieldInitialization,
        range: TextRange,
        errors: &mut ErrorCollector,
    ) -> (r: Analysis)
        requires
            *initialization == self.initialization_of(*class, *definition),
        ensures
            r == self.found(*class, name@, *definition),
            final(errors)@ == old(errors)@ + self.found_reports(*class, name@, *definition, range),
    {
        let ghost start = errors@;
        assert(errors@ + Seq::<ReportView>::empty() =~= errors@);
        match definition {
            ClassFieldDefinition::DeclaredByAnnotation { declared, .. } => {
                self.check_uninitialized_final(class, definition, initialization, range, errors);
                assert(errors@ + Seq::<ReportView>::empty() =~= errors@);
                self.analyze_class_field_value(
                    &ExprOrBinding::AnyImplicit,
                    class,
                    name,
                    &Some(declared.dupe()),
                    false,
                    range,
                    errors,
                )
            },
            ClassFieldDefinition::AssignedInBody { value, annotation } => {
                if self.get_metadata_for_class(class).is_protocol && annotation.is_none()
                    && !is_dunder(name) {
                    let line = cat3(
                        "Protocol member `",
                        name,
                        "` must have an explicit type annotation",
                    );
                    errors.error(range, Rule::UnannotatedProtocolMember, line);
                }
                let r = self.analyze_class_field_value(
                    value,
                    class,
                    name,
                    annotation,
                    false,
                    range,
                    errors,
                );
                assert(errors@ =~= start + self.found_reports(*class, name@, *definition, range));
                r
            },
            ClassFieldDefinition::DefinedInMethod { value, annotation, method } => {
                let a = self.analyze_class_field_value(
                    value,
                    class,
                    name,
                    annotation,
                    true,
                    range,
                    errors,
                );
                if method.instance_or_class == MethodSelfKind::Instance {
                    let ty = self.check_and_sanitize_type_parameters(
                        class,
                        a.ty,
                        name,
                        range,
                        errors,
                    );
                    assert(errors@ =~= start + self.found_reports(
                        *class,
                        name@,
                        *definition,
                        range,
                    ));
                    Analysis { ty, annotation: a.annotation, is_inherited: a.is_inherited }
                } else {
                    assert(errors@ =~= start + self.found_reports(
                        *class,
                        name@,
                        *definition,
                        range,
                    ));
                    a
                }
            },
            ClassFieldDefinition::MethodLike { definition, .. } => Analysis {
                ty: self.answers.solve_binding(*definition, range, errors),
                annotation: None,
                is_inherited: IsInherited::Maybe,
            },
            ClassFieldDefinition::NestedClass { definition } => Analysis {
                ty: self.answers.solve_binding(*definition, range, errors),
                annotation: None,
                is_inherited: IsInherited::Maybe,
            },
            ClassFieldDefinition::DefinedWithoutAssign { definition } =>
            self.analyze_class_field_value(
                &ExprOrBinding::Binding(*definition),
                class,
                name,
                &None,
                false,
                range,
                errors,
            ),
            ClassFieldDefinition::DeclaredWithoutAnnotation => self.analyze_class_field_value(
                &ExprOrBinding::AnyImplicit,
                class,
                name,
                &None,
                false,
                range,
                errors,
            ),
        }
    }

    /// Whether the implicit literals in the type of a field are widened: the field has no type of
    /// its own and can be written, or is an element of a named tuple.
    pub open spec fn widened(
        found: Analysis,
        initialization: ClassFieldInitialization,
        reason: Option<ReadOnlyReason>,
    ) -> bool {
        &&& !(found.ty is NNModule)
        &&& (found.ty.implicit_literal() || (initialization is Method && some_literal(
            nodes(found.ty),
        )))
        &&& !(found.annotation matches Some(a) && a.ty is Some)
        &&& (reason is None || reason == Some(ReadOnlyReason::NamedTuple))
    }

    pub(crate) fn is_widened(
        found: &Analysis,
        initialization: &ClassFieldInitialization,
        reason: Option<ReadOnlyReason>,
    ) -> (r: bool)
        ensures
            r == Self::widened(*found, *initialization, reason),
    {
        if let Type::NNModule(_) = &found.ty {
            return false;
        }
        let in_method = match initialization {
            ClassFieldInitialization::Method => true,
            _ => false,
        };
        let literal = found.ty.is_implicit_literal() || (in_method && has_implicit_literal(
            &found.ty,
        ));
        let typed = match &found.annotation {
            Some(a) => a.ty.is_some(),
            None => false,
        };
        let writable = match reason {
            None => true,
            Some(reason) => reason == ReadOnlyReason::NamedTuple,
        };
        literal && !typed && writable
    }

    /// The descriptor that the value of a field is: the field is class-level, and its class has
    /// `__get__` or `__set__`.
    pub open spec fn descriptor_of(
        self,
        ty: Type,
        initialization: ClassFieldInitialization,
        annotation: Option<Annotation>,
        range: TextRange,
    ) -> Option<Descriptor> {
        match ty {
            Type::ClassType(cls) => {
                let getter = self.member(cls.class, "__get__"@) is Some;
                let setter = self.member(cls.class, "__set__"@) is Some;
                if (initialization is ClassBody || initialization is Magic || special_annotation(
                    annotation,
                )) && (getter || setter) {
                    Some(Descriptor { range, cls, getter, setter })
                } else {
                    None
                }
            },
            _ => None,
        }
    }

    pub(crate) fn get_descriptor(
        &self,
        ty: &Type,
        initialization: &ClassFieldInitialization,
        annotation: &Option<Annotation>,
        range: TextRange,
    ) -> (r: Option<Descriptor>)
        ensures
            r == self.descriptor_of(*ty, *initialization, *annotation, range),
    {
        let class_level = match initialization {
            ClassFieldInitialization::ClassBody(_) => true,
            ClassFieldInitialization::Magic => true,
            _ => false,
        };
        if class_level || is_special_annotation(annotation) {
            if let Type::ClassType(cls) = ty {
                let getter = self.get_class_member(&cls.class, "__get__").is_some();
                let setter = self.get_class_member(&cls.class, "__set__").is_some();
                if getter || setter {
                    return Some(Descriptor { range, cls: cls.dupe(), getter, setter });
                }
            }
        }
        None
    }

    /// Whether a field of a Django model refers to another model.
    pub open spec fn foreign_key(self, metadata: ClassMetadata, ty: Type) -> bool {
        metadata.is_django_model && (ty matches Type::ClassType(cls)
            && self.answers.foreign_key_like(cls.class))
    }

    pub(crate) fn is_foreign_key_field(&self, metadata: &ClassMetadata, ty: &Type) -> (r: bool)
        ensures
            r == self.foreign_key(*metadata, *ty),
    {
        match ty {
            Type::ClassType(cls) => metadata.is_django_model
                && self.answers.is_foreign_key_like_field(&cls.class),
            _ => false,
        }
    }

    /// Whether a field of a Django model lists its choices.
    pub open spec fn choices(self, metadata: ClassMetadata, definition: ClassFieldDefinition) -> bool {
        metadata.is_django_model && (definition.body_expression() matches Some(e)
            && e.call() matches Some(call) && self.answers.lists_choices(call.expr))
    }

    pub(crate) fn get_choices(&self, metadata: &ClassMetadata, definition: &ClassFieldDefinition) -> (r: bool)
        ensures
            r == self.choices(*metadata, *definition),
    {
        if !metadata.is_django_model {
            return false;
        }
        match definition.get_body_expression() {
            Some(e) => match e.as_call_expr() {
                Some(call) => self.answers.has_django_field_choices(call.expr),
                None => false,
            },
            None => false,
        }
    }
}

/// Whether the type of a field makes it a property.
pub open spec fn property_type(ty: Type) -> bool {
    ty.property_getter() || ty.getter_of_setter() is Some
}

/// The field with the given parts. The kind of the definition and the type decide, in this order:
/// a nested class, a property, a descriptor, a method, an attribute of instances, an attribute of
/// the class.
pub open spec fn assembled(
    is_nested_class: bool,
    name: Seq<char>,
    metadata: ClassMetadata,
    ty: Type,
    annotation: Option<Annotation>,
    initialization: ClassFieldInitialization,
    reason: Option<ReadOnlyReason>,
    descriptor: Option<Descriptor>,
    unannotated_function: bool,
    is_foreign_key: bool,
    has_choices: bool,
) -> ClassFieldInner {
    let is_classvar = annotated_as(annotation, Qualifier::ClassVar);
    if is_nested_class {
        ClassFieldInner::NestedClass { ty }
    } else if property_type(ty) {
        ClassFieldInner::Property { ty, is_abstract: ty.abstract_method() }
    } else if descriptor is Some {
        ClassFieldInner::Descriptor { ty, annotation, descriptor: descriptor->0 }
    } else if is_method_field(ty, initialization, name, annotation) {
        ClassFieldInner::Method {
            ty,
            is_abstract: some_abstract(ty),
            is_function_without_return_annotation: unannotated_function,
        }
    } else if (metadata.is_enum && name == "_value_"@) || (initialization is Method
        && !is_classvar) {
        ClassFieldInner::InstanceAttribute { ty, annotation, read_only_reason: reason }
    } else {
        ClassFieldInner::ClassAttribute {
            ty,
            annotation,
            initialization,
            read_only_reason: reason,
            is_classvar,
            is_staticmethod: ty matches Type::ClassType(cls) && cls.class.is_qname(
                "builtins"@,
                "staticmethod"@,
            ),
            is_foreign_key,
            has_choices,
        }
    }
}

pub(crate) fn assemble(
    is_nested_class: bool,
    name: &String,
    metadata: &ClassMetadata,
    ty: Type,
    annotation: Option<Annotation>,
    initialization: ClassFieldInitialization,
    reason: Option<ReadOnlyReason>,
    descriptor: Option<Descriptor>,
    unannotated_function: bool,
    is_foreign_key: bool,
    has_choices: bool,
) -> (r: ClassFieldInner)
    ensures
        r == assembled(
            is_nested_class,
            name@,
            *metadata,
            ty,
            annotation,
            initialization,
            reason,
            descriptor,
            unannotated_function,
            is_foreign_key,
            has_choices,
        ),
{
    if is_nested_class {
        return ClassFieldInner::NestedClass { ty };
    }
    if ty.is_property_getter() || ty.is_property_setter_with_getter().is_some() {
        let is_abstract = ty.is_abstract_method();
        return ClassFieldInner::Property { ty, is_abstract };
    }
    if let Some(descriptor) = descriptor {
        return ClassFieldInner::Descriptor { ty, annotation, descriptor };
    }
    if is_method(&ty, &initialization, name.as_str(), &annotation) {
        let is_abstract = has_any_abstract(&ty);
        return ClassFieldInner::Method {
            ty,
            is_abstract,
            is_function_without_return_annotation: unannotated_function,
        };
    }
    let is_classvar = is_annotated_as(&annotation, Qualifier::ClassVar);
    let in_method = match &initialization {
        ClassFieldInitialization::Method => true,
        _ => false,
    };
    if (metadata.is_enum && is_text(name, "_value_")) || (in_method && !is_classvar) {
        return ClassFieldInner::InstanceAttribute { ty, annotation, read_only_reason: reason };
    }
    let is_staticmethod = match &ty {
        Type::ClassType(cls) => cls.is_builtin("staticmethod"),
        _ => false,
    };
    ClassFieldInner::ClassAttribute {
        ty,
        annotation,
        initialization,
        read_only_reason: reason,
        is_classvar,
        is_staticmethod,
        is_foreign_key,
        has_choices,
    }
}

/// Whether a method without a return annotation defines the field.
pub open spec fn unannotated(definition: ClassFieldDefinition) -> bool {
    definition matches ClassFieldDefinition::MethodLike { has_return_annotation, .. }
        && !has_return_annotation
}

pub(crate) fn is_unannotated(definition: &ClassFieldDefinition) -> (r: bool)
    ensures
        r == unannotated(*definition),
{
    match definition {
        ClassFieldDefinition::MethodLike { has_return_annotation, .. } => !*has_return_annotation,
        _ => false,
    }
}

} // verus!
