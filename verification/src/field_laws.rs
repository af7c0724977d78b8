use vstd::prelude::*;

use crate::annotation::{Annotation, Qualifier};
use crate::attribute::{ClassAttribute, ClassBase, ReadOnlyReason};
use crate::class_field::{ClassField, ClassFieldInitialization, ClassFieldInner};
use crate::expr::{ClassFieldDefinition, ExprOrBinding, MethodSelfKind};
use crate::instance::Instance;
use crate::metadata::ClassMetadata;
use crate::ordered::name_texts;
use crate::report::{Rule, TextRange};
use crate::solver::{AnswersSolver, LookupAnswer};
use crate::text::texts;
use crate::types::{Class, ClassType, Type};

verus! {

/// Whether an annotation that may be missing has a qualifier.
pub open spec fn carries(annotation: Option<Annotation>, q: Qualifier) -> bool {
    annotation matches Some(a) && a.qualifiers@.contains(q)
}

/// Whether a class is a dataclass that is frozen and has a field of the given name.
pub open spec fn freezes(metadata: ClassMetadata, name: Seq<char>) -> bool {
    metadata.dataclass matches Some(dm) && dm.kws.frozen && name_texts(dm.fields).contains(name)
}

/// Whether a class is a named tuple with an element of the given name.
pub open spec fn has_element(metadata: ClassMetadata, name: Seq<char>) -> bool {
    metadata.named_tuple matches Some(names) && texts(names@).contains(name)
}

/// The reason for which an attribute that holds a value cannot be written; `None` also where the
/// field is no such attribute.
pub open spec fn stored_reason(field: ClassField) -> Option<ReadOnlyReason> {
    match field.inner {
        ClassFieldInner::ClassAttribute { read_only_reason, .. } => read_only_reason,
        ClassFieldInner::InstanceAttribute { read_only_reason, .. } => read_only_reason,
        _ => None,
    }
}

/// Whether a field is an attribute that holds a value.
pub open spec fn stores_value(field: ClassField) -> bool {
    field.inner is ClassAttribute || field.inner is InstanceAttribute
}

/// Every field that a frozen dataclass lists and that is no class variable comes out read-only,
/// unless it is a property or a descriptor, which decide for themselves through their setters.
pub proof fn law_frozen_dataclasses_freeze_their_fields<Ans: LookupAnswer>(
    solver: AnswersSolver<Ans>,
    class: Class,
    name: String,
    definition: ClassFieldDefinition,
    range: TextRange,
)
    requires
        solver.info(class).metadata.typed_dict is None,
        solver.taken_over(class, name@, definition) is None,
        freezes(solver.info(class).metadata, name@),
        !carries(solver.found(class, name@, definition).annotation, Qualifier::ClassVar),
    ensures
        ({
            let field = solver.calculated(class, name, definition, range);
            &&& stores_value(field) ==> stored_reason(field) is Some
            &&& field.read_only() || field.inner is Property || field.inner is Descriptor
        }),
{
}

/// Assigning on an instance to a field that a frozen dataclass lists gives exactly one report.
/// Properties and descriptors go through their setters; a class with its own pydantic model that
/// is not frozen is left out.
pub proof fn law_frozen_fields_cannot_be_assigned<Ans: LookupAnswer>(
    solver: AnswersSolver<Ans>,
    class: Class,
    name: String,
    definition: ClassFieldDefinition,
    instance: Instance,
    instance_class: Option<ClassType>,
    class_base: Option<ClassBase>,
    range: TextRange,
    should_narrow: bool,
)
    requires
        solver.info(class).metadata.typed_dict is None,
        solver.taken_over(class, name@, definition) is None,
        freezes(solver.info(class).metadata, name@),
        !carries(solver.found(class, name@, definition).annotation, Qualifier::ClassVar),
        stores_value(solver.calculated(class, name, definition, range)),
        instance_class matches Some(cls) ==> (solver.info(
            cls.class,
        ).metadata.pydantic_model_kind is None || freezes(
            solver.info(cls.class).metadata,
            name@,
        )),
    ensures
        ({
            let field = solver.calculated(class, name, definition, range);
            let outcome = solver.set_outcome(
                solver.instance_attribute(name, field, instance),
                instance_class,
                class_base,
                name@,
                false,
                range,
                should_narrow,
            );
            &&& outcome.reports.len() == 1
            &&& outcome.reports[0].rule == Rule::ReadOnly
            &&& outcome.reports[0].range == range
            &&& outcome.action is Nothing
            &&& !outcome.should_narrow
        }),
{
}

/// What a frozen dataclass gives as the reason says whether it is a pydantic model. Its own
/// qualifiers and the elements of named tuples give other reasons.
pub proof fn law_frozen_reason_names_the_kind<Ans: LookupAnswer>(
    solver: AnswersSolver<Ans>,
    class: Class,
    name: String,
    definition: ClassFieldDefinition,
    range: TextRange,
)
    requires
        solver.info(class).metadata.typed_dict is None,
        solver.taken_over(class, name@, definition) is None,
        freezes(solver.info(class).metadata, name@),
        !has_element(solver.info(class).metadata, name@),
        ({
            let annotation = solver.found(class, name@, definition).annotation;
            &&& !carries(annotation, Qualifier::ClassVar)
            &&& !carries(annotation, Qualifier::Final)
            &&& !carries(annotation, Qualifier::ReadOnly)
        }),
        stores_value(solver.calculated(class, name, definition, range)),
    ensures
        stored_reason(solver.calculated(class, name, definition, range)) == Some(
            match solver.info(class).metadata.pydantic_model_kind {
                None => ReadOnlyReason::FrozenDataclass,
                Some(kind) => if kind is DataClass {
                    ReadOnlyReason::FrozenDataclass
                } else {
                    ReadOnlyReason::PydanticFrozen
                },
            },
        ),
{
}

/// A field that is declared final or read-only, or that is an element of a named tuple, says so as
/// the reason for which it cannot be written.
pub proof fn law_declared_reasons_are_kept<Ans: LookupAnswer>(
    solver: AnswersSolver<Ans>,
    class: Class,
    name: String,
    definition: ClassFieldDefinition,
    range: TextRange,
)
    requires
        solver.info(class).metadata.typed_dict is None,
        solver.taken_over(class, name@, definition) is None,
        stores_value(solver.calculated(class, name, definition, range)),
    ensures
        ({
            let annotation = solver.found(class, name@, definition).annotation;
            let reason = stored_reason(solver.calculated(class, name, definition, range));
            &&& carries(annotation, Qualifier::Final) ==> reason == Some(
                ReadOnlyReason::Final(definition is AssignedInBody),
            )
            &&& carries(annotation, Qualifier::ReadOnly) && !carries(annotation, Qualifier::Final)
                ==> reason == Some(ReadOnlyReason::ReadOnlyQualifier)
            &&& has_element(solver.info(class).metadata, name@) ==> reason is Some
            &&& reason == Some(ReadOnlyReason::NamedTuple) ==> has_element(
                solver.info(class).metadata,
                name@,
            )
        }),
{
}

/// A field that nothing makes read-only can be written: it is not declared final or read-only, is
/// no element of a named tuple, and no field of a frozen dataclass, or it is a class variable of
/// one.
pub proof fn law_other_fields_can_be_written<Ans: LookupAnswer>(
    solver: AnswersSolver<Ans>,
    class: Class,
    name: String,
    definition: ClassFieldDefinition,
    instance: Instance,
    range: TextRange,
)
    requires
        solver.info(class).metadata.typed_dict is None,
        solver.taken_over(class, name@, definition) is None,
        !has_element(solver.info(class).metadata, name@),
        ({
            let annotation = solver.found(class, name@, definition).annotation;
            &&& !carries(annotation, Qualifier::Final)
            &&& !carries(annotation, Qualifier::ReadOnly)
            &&& !freezes(solver.info(class).metadata, name@) || carries(
                annotation,
                Qualifier::ClassVar,
            )
        }),
        stores_value(solver.calculated(class, name, definition, range)),
    ensures
        ({
            let annotation = solver.found(class, name@, definition).annotation;
            let field = solver.calculated(class, name, definition, range);
            let class_variable = field.inner is ClassAttribute && carries(
                annotation,
                Qualifier::ClassVar,
            );
            &&& stored_reason(field) is None
            &&& field.read_only() == class_variable
            &&& solver.instance_attribute(name, field, instance) is ReadWrite == !class_variable
        }),
{
}

/// What a field is follows from its definition: a class statement gives a nested class, what only an
/// instance method assigns belongs to instances unless it is declared as a class variable, and what
/// stands in the class body or is assigned by a class method belongs to the class. The value of an
/// enumeration member belongs to instances in any case.
pub proof fn law_definitions_decide_where_fields_belong<Ans: LookupAnswer>(
    solver: AnswersSolver<Ans>,
    class: Class,
    name: String,
    definition: ClassFieldDefinition,
    range: TextRange,
)
    requires
        solver.info(class).metadata.typed_dict is None,
        solver.taken_over(class, name@, definition) is None,
    ensures
        ({
            let annotation = solver.found(class, name@, definition).annotation;
            let field = solver.calculated(class, name, definition, range);
            let enum_value = solver.info(class).metadata.is_enum && name@ == "_value_"@;
            &&& field.inner is NestedClass == definition is NestedClass
            &&& definition matches ClassFieldDefinition::DefinedInMethod { method, .. } ==> (
            method.instance_or_class == MethodSelfKind::Instance && !carries(
                annotation,
                Qualifier::ClassVar,
            ) ==> !(field.inner is ClassAttribute) && !(field.inner is Method))
            &&& definition matches ClassFieldDefinition::DefinedInMethod { method, .. } ==> (
            method.instance_or_class == MethodSelfKind::Class && !enum_value ==> !(field.inner
                is InstanceAttribute))
            &&& definition is AssignedInBody && !enum_value ==> !(field.inner is InstanceAttribute)
            &&& definition is DeclaredByAnnotation && !enum_value ==> !(field.inner
                is InstanceAttribute)
            &&& definition is MethodLike && !enum_value ==> !(field.inner is InstanceAttribute)
        }),
{
}

/// A field keeps the annotation that holds for it, whether it may be inherited, and, as an attribute
/// of the class, whether it is a class variable.
pub proof fn law_fields_keep_their_annotation<Ans: LookupAnswer>(
    solver: AnswersSolver<Ans>,
    class: Class,
    name: String,
    definition: ClassFieldDefinition,
    range: TextRange,
)
    requires
        solver.info(class).metadata.typed_dict is None,
        solver.taken_over(class, name@, definition) is None,
    ensures
        ({
            let found = solver.found(class, name@, definition);
            let field = solver.calculated(class, name, definition, range);
            &&& field.is_inherited == found.is_inherited
            &&& field.inner matches ClassFieldInner::ClassAttribute { annotation, is_classvar, .. }
                ==> annotation == found.annotation && is_classvar == carries(
                found.annotation,
                Qualifier::ClassVar,
            )
            &&& field.inner matches ClassFieldInner::InstanceAttribute { annotation, .. }
                ==> annotation == found.annotation
            &&& field.inner matches ClassFieldInner::Descriptor { annotation, .. } ==> annotation
                == found.annotation
        }),
{
}

/// Where an attribute of the class has its value from follows from its definition. A declaration
/// without a value counts as having one in an interface file and as a class variable.
pub proof fn law_definitions_decide_where_values_come_from<Ans: LookupAnswer>(
    solver: AnswersSolver<Ans>,
    class: Class,
    name: String,
    definition: ClassFieldDefinition,
    range: TextRange,
)
    requires
        solver.info(class).metadata.typed_dict is None,
        solver.taken_over(class, name@, definition) is None,
        solver.calculated(class, name, definition, range).inner is ClassAttribute,
    ensures
        solver.calculated(class, name, definition, range).inner matches ClassFieldInner::ClassAttribute {
            initialization,
            ..
        } && {
            &&& definition is AssignedInBody || definition is MethodLike || definition
                is DefinedWithoutAssign ==> initialization is ClassBody
            &&& definition matches ClassFieldDefinition::DefinedInMethod { method, .. } ==> (
            method.instance_or_class == MethodSelfKind::Class <==> initialization is ClassMethod)
            &&& definition matches ClassFieldDefinition::DeclaredByAnnotation { declared, .. } ==> (
            class.interface || declared.qualifiers@.contains(Qualifier::ClassVar)
                <==> initialization is Magic)
            &&& definition matches ClassFieldDefinition::DeclaredByAnnotation {
                declared,
                metadata_calls,
                ..
            } ==> (!class.interface && !declared.qualifiers@.contains(Qualifier::ClassVar)
                && metadata_calls@.len() == 0 ==> initialization is Uninitialized)
            &&& definition is DeclaredWithoutAnnotation ==> (if class.interface {
                initialization is Magic
            } else {
                initialization is Uninitialized
            })
        },
{
}

/// A type that is written at a field decides on what is found of it, whatever its value is and
/// whatever it inherits.
pub proof fn law_written_types_decide<Ans: LookupAnswer>(
    solver: AnswersSolver<Ans>,
    class: Class,
    name: Seq<char>,
    definition: ClassFieldDefinition,
    written: Annotation,
    ty: Type,
)
    requires
        written.ty == Some(ty),
        (definition matches ClassFieldDefinition::DeclaredByAnnotation { declared, .. } && declared
            == written) || (definition matches ClassFieldDefinition::AssignedInBody {
            annotation: Some(a),
            ..
        } && a == written),
    ensures
        solver.found(class, name, definition).ty == ty,
        solver.found(class, name, definition).annotation == Some(written),
        solver.settled_type(class, name, definition) == ty,
{
}

/// Without a written type a field has the type that its ancestors declare for it; its own
/// qualifiers stay.
pub proof fn law_inherited_types_decide_next<Ans: LookupAnswer>(
    solver: AnswersSolver<Ans>,
    class: Class,
    name: Seq<char>,
    value: ExprOrBinding,
    direct: Option<Annotation>,
    inherited: Annotation,
    ty: Type,
)
    requires
        direct matches Some(a) ==> a.ty is None,
        solver.inherited(class, name).1 == Some(inherited),
        inherited.ty == Some(ty),
    ensures
        ({
            let found = solver.found(
                class,
                name,
                ClassFieldDefinition::AssignedInBody { value, annotation: direct },
            );
            &&& found.ty == ty
            &&& found.annotation matches Some(a) && a.ty == Some(ty) && a.qualifiers == (
            match direct {
                Some(d) => d.qualifiers,
                None => inherited.qualifiers,
            })
        }),
{
}

/// A field that nothing declares has the type of its value. An implicit literal is widened where the
/// field can be written.
pub proof fn law_values_decide_last<Ans: LookupAnswer>(
    solver: AnswersSolver<Ans>,
    class: Class,
    name: Seq<char>,
    e: crate::expr::Expr,
)
    requires
        e.kind is Other || e.kind is Call,
        solver.inherited(class, name) == (None::<Type>, None::<Annotation>),
    ensures
        ({
            let definition = ClassFieldDefinition::AssignedInBody {
                value: ExprOrBinding::Expr(e),
                annotation: None,
            };
            let found = solver.found(class, name, definition);
            let metadata = solver.info(class).metadata;
            let literal = found.ty matches Type::Literal(l) && l.implicit;
            &&& found.ty == solver.answers.expanded(solver.answers.inferred(e.id))
            &&& found.annotation is None
            &&& found.is_inherited is No
            &&& literal && !freezes(metadata, name) ==> solver.settled_type(class, name, definition)
                == solver.answers.promoted(found.ty)
            &&& !literal ==> solver.settled_type(class, name, definition) == found.ty
        }),
{
}

/// A field is taken over from an ancestor only where a method assigns a property or descriptor, or
/// an annotation repeats a descriptor. What has a value in the class body is always new, and so are
/// names that are private to the class.
pub proof fn law_only_repetitions_are_taken_over<Ans: LookupAnswer>(
    solver: AnswersSolver<Ans>,
    class: Class,
    name: Seq<char>,
    definition: ClassFieldDefinition,
)
    ensures
        solver.taken_over(class, name, definition) matches Some(field) ==> {
            &&& definition is DeclaredByAnnotation || definition is DefinedInMethod
            &&& definition is DeclaredByAnnotation ==> field.inner is Descriptor
            &&& field.inner is Descriptor || field.inner is Property
        },
        name.len() >= 2 && name[0] == '_' && name[1] == '_' && name.last() != '_'
            ==> solver.taken_over(class, name, definition) is None,
        (solver.from_ancestors(
            class,
            solver.info(class).ancestors@,
            name,
            crate::solver::Search::All,
        ) matches Some(parent) && (parent.value.inner is Property || parent.value.inner
            is Descriptor) && definition is DefinedInMethod && name.len() > 0 && name[0] != '_')
            ==> solver.taken_over(class, name, definition) is Some,
{
}

/// A final attribute that is declared without a value must be given one in a constructor: exactly
/// where it is not, and the class is an ordinary one in a source file, that is reported.
pub proof fn law_final_attributes_get_a_value<Ans: LookupAnswer>(
    solver: AnswersSolver<Ans>,
    class: Class,
    name: Seq<char>,
    declared: Annotation,
    metadata_calls: Vec<crate::expr::CallExpr>,
    initialized_in_recognized_method: bool,
    range: TextRange,
)
    requires
        metadata_calls@.len() == 0,
    ensures
        ({
            let definition = ClassFieldDefinition::DeclaredByAnnotation {
                declared,
                metadata_calls,
                initialized_in_recognized_method,
            };
            let metadata = solver.info(class).metadata;
            let reports = solver.found_reports(class, name, definition, range);
            let missing = declared.qualifiers@.contains(Qualifier::Final)
                && !declared.qualifiers@.contains(Qualifier::ClassVar)
                && !initialized_in_recognized_method && !class.interface && metadata.dataclass
                is None && metadata.named_tuple is None && !metadata.is_protocol;
            &&& missing ==> reports.len() == 1 && reports[0].rule == Rule::InvalidAnnotation
                && reports[0].range == range
            &&& !missing ==> reports.len() == 0
        }),
{
}

/// A member of a protocol that has a value needs an annotation, but for special names.
pub proof fn law_protocol_members_are_annotated<Ans: LookupAnswer>(
    solver: AnswersSolver<Ans>,
    class: Class,
    name: Seq<char>,
    range: TextRange,
    annotation: Option<Annotation>,
)
    requires
        name.len() > 0,
        name[0] != '_',
    ensures
        ({
            let definition = ClassFieldDefinition::AssignedInBody {
                value: ExprOrBinding::AnyImplicit,
                annotation,
            };
            let reports = solver.found_reports(class, name, definition, range);
            if solver.info(class).metadata.is_protocol && annotation is None {
                reports.len() == 1 && reports[0].rule == Rule::UnannotatedProtocolMember
                    && reports[0].range == range
            } else {
                reports.len() == 0
            }
        }),
{
}

/// An attribute that a method introduces is reported in a protocol, and elsewhere where the method
/// is no constructor; not where a base has it already.
pub proof fn law_attributes_are_introduced_in_constructors<Ans: LookupAnswer>(
    solver: AnswersSolver<Ans>,
    class: Class,
    name: Seq<char>,
    definition: ClassFieldDefinition,
    range: TextRange,
)
    ensures
        ({
            let metadata = solver.info(class).metadata;
            let reports = solver.implicit_definition_report(class, name, definition, range);
            let known = exists|i: int|
                0 <= i < metadata.base_class_objects@.len() && #[trigger] solver.member(
                    metadata.base_class_objects@[i],
                    name,
                ) is Some;
            &&& !(definition is DefinedInMethod) || known ==> reports.len() == 0
            &&& !known ==> (definition matches ClassFieldDefinition::DefinedInMethod { method, .. }
                ==> {
                &&& metadata.is_protocol ==> reports.len() == 1 && reports[0].rule
                    == Rule::ProtocolImplicitlyDefinedAttribute
                &&& !metadata.is_protocol && !method.recognized_attribute_defining_method
                    ==> reports.len() == 1 && reports[0].rule == Rule::ImplicitlyDefinedAttribute
                &&& !metadata.is_protocol && method.recognized_attribute_defining_method
                    ==> reports.len() == 0
            })
        }),
{
}

/// An attribute that a method assigns must have room in the slots of its class, where it has slots.
pub proof fn law_attributes_need_slots<Ans: LookupAnswer>(
    solver: AnswersSolver<Ans>,
    class: Class,
    name: Seq<char>,
    definition: ClassFieldDefinition,
    range: TextRange,
)
    requires
        name != "__slots__"@,
    ensures
        ({
            let reports = solver.slot_report(class, name, definition, range);
            let missing = definition is DefinedInMethod && (solver.info(
                class,
            ).instance_slots matches Some(slots) && !texts(slots@).contains(name));
            &&& missing ==> reports.len() == 1 && reports[0].rule == Rule::MissingAttribute
                && reports[0].range == range
            &&& !missing ==> reports.len() == 0
        }),
{
}

/// The name of an element of a named tuple that is written as a class does not begin with an
/// underscore.
pub proof fn law_elements_have_public_names<Ans: LookupAnswer>(
    solver: AnswersSolver<Ans>,
    class: Class,
    name: Seq<char>,
    functional_class_def: bool,
    range: TextRange,
)
    ensures
        ({
            let reports = solver.underscore_report(class, name, functional_class_def, range);
            let bad = has_element(solver.info(class).metadata, name) && !functional_class_def
                && name.len() > 0 && name[0] == '_';
            &&& bad ==> reports.len() == 1 && reports[0].rule == Rule::BadClassDefinition
            &&& !bad ==> reports.len() == 0
        }),
{
}

/// `Final` inside `ClassVar` is reported exactly outside dataclasses.
pub proof fn law_only_dataclasses_nest_final<Ans: LookupAnswer>(
    solver: AnswersSolver<Ans>,
    class: Class,
    declared: Annotation,
    metadata_calls: Vec<crate::expr::CallExpr>,
    in_method: bool,
    range: TextRange,
)
    ensures
        ({
            let definition = ClassFieldDefinition::DeclaredByAnnotation {
                declared,
                metadata_calls,
                initialized_in_recognized_method: in_method,
            };
            let reports = solver.nested_final_report(class, definition, range);
            let nested = declared.qualifiers@.len() > 0 && declared.qualifiers@[0]
                == Qualifier::ClassVar && declared.qualifiers@.contains(Qualifier::Final);
            &&& nested && solver.info(class).metadata.dataclass is None ==> reports.len() == 1
                && reports[0].rule == Rule::InvalidAnnotation
            &&& !nested || solver.info(class).metadata.dataclass is Some ==> reports.len() == 0
        }),
{
}

/// The number of qualifiers out of three that an annotation has.
pub open spec fn how_many(annotation: Annotation, a: Qualifier, b: Qualifier, c: Qualifier) -> int {
    (if annotation.qualifiers@.contains(a) {
        1int
    } else {
        0int
    }) + (if annotation.qualifiers@.contains(b) {
        1int
    } else {
        0int
    }) + (if annotation.qualifiers@.contains(c) {
        1int
    } else {
        0int
    })
}

/// The qualifiers of typed dictionaries are reported in every other class, each of them, and those
/// that elements of named tuples cannot have are reported for such elements.
pub proof fn law_misplaced_qualifiers_are_reported<Ans: LookupAnswer>(
    solver: AnswersSolver<Ans>,
    annotation: Annotation,
    metadata: ClassMetadata,
    initialization: ClassFieldInitialization,
    name: Seq<char>,
    range: TextRange,
)
    requires
        metadata.pydantic_model_kind is None,
    ensures
        ({
            let reports = solver.annotation_reports(
                annotation,
                metadata,
                initialization,
                name,
                range,
            );
            let keys = how_many(
                annotation,
                Qualifier::Required,
                Qualifier::NotRequired,
                Qualifier::ReadOnly,
            );
            let elements = how_many(
                annotation,
                Qualifier::Final,
                Qualifier::ClassVar,
                Qualifier::ClassVar,
            ) - (if annotation.qualifiers@.contains(Qualifier::ClassVar) {
                1int
            } else {
                0int
            });
            &&& reports.len() == keys + if has_element(metadata, name) {
                elements
            } else {
                0int
            }
            &&& forall|i: int|
                0 <= i < reports.len() ==> (#[trigger] reports[i]).rule == Rule::InvalidAnnotation
                    && reports[i].range == range
        }),
{
}

} // verus!
