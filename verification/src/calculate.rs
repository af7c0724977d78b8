use vstd::prelude::*;

use crate::annotation::Annotation;
use crate::attribute::{Descriptor, ReadOnlyReason};
use crate::class_field::ClassField;
use crate::expr::ClassFieldDefinition;
use crate::field_calc::{
    assemble, assembled, final_in_class_var, is_final_in_class_var, is_unannotated, unannotated,
};
use crate::instance::Instance;
use crate::names::starts_with_underscore;
use crate::reading::plain_instance;
use crate::report::{report1, ErrorCollector, ReportView, Rule, TextRange};
use crate::solver::{AnswersSolver, LookupAnswer};
use crate::text::{cat3, cat5, contains_name, is_text, texts};
use crate::types::{Class, Type};

verus! {

impl<Ans: LookupAnswer> AnswersSolver<Ans> {
    /// Why the field that a definition gives cannot be written.
    pub open spec fn reason_of(self, class: Class, name: Seq<char>, definition: ClassFieldDefinition) -> Option<
        ReadOnlyReason,
    > {
        Self::read_only_by(
            name,
            self.found(class, name, definition).annotation,
            self.info(class).metadata,
            definition,
        )
    }

    /// The type of a field before the kind of its class is looked at, implicit literals widened
    /// where that is due.
    pub open spec fn settled_type(
        self,
        class: Class,
        name: Seq<char>,
        definition: ClassFieldDefinition,
    ) -> Type {
        let found = self.found(class, name, definition);
        if Self::widened(
            found,
            self.initialization_of(class, definition),
            self.reason_of(class, name, definition),
        ) {
            self.answers.promoted(found.ty)
        } else {
            found.ty
        }
    }

    /// The type of a field before its implicit literals were widened, where they were.
    pub open spec fn unwidened_type(
        self,
        class: Class,
        name: Seq<char>,
        definition: ClassFieldDefinition,
    ) -> Option<Type> {
        let found = self.found(class, name, definition);
        if Self::widened(
            found,
            self.initialization_of(class, definition),
            self.reason_of(class, name, definition),
        ) {
            Some(found.ty)
        } else {
            None
        }
    }

    /// The descriptor that a field is found to be.
    pub open spec fn found_descriptor(
        self,
        class: Class,
        name: Seq<char>,
        definition: ClassFieldDefinition,
        range: TextRange,
    ) -> Option<Descriptor> {
        self.descriptor_of(
            self.settled_type(class, name, definition),
            self.initialization_of(class, definition),
            definition.direct_annotation(),
            range,
        )
    }

    /// The type that a field gets because of the kind of its class or definition.
    pub open spec fn special_type_of(
        self,
        class: Class,
        name: String,
        definition: ClassFieldDefinition,
        range: TextRange,
    ) -> Option<Type> {
        self.special_type(
            class,
            name,
            definition.direct_annotation(),
            self.settled_type(class, name@, definition),
            self.unwidened_type(class, name@, definition),
            definition,
            self.found_descriptor(class, name@, definition, range) is Some,
        )
    }

    /// The field that a definition gives in a class that is no typed dictionary, where it does not
    /// only repeat a field of an ancestor. Variables in its type are given a solution first, so that
    /// all uses of the field see the same one.
    pub open spec fn new_field(
        self,
        class: Class,
        name: String,
        definition: ClassFieldDefinition,
        range: TextRange,
    ) -> ClassField {
        let metadata = self.info(class).metadata;
        let found = self.found(class, name@, definition);
        let settled = self.settled_type(class, name@, definition);
        let special = self.special_type_of(class, name, definition, range);
        ClassField {
            inner: assembled(
                definition is NestedClass,
                name@,
                metadata,
                self.answers.forced(
                    if special is Some {
                        special->0
                    } else {
                        settled
                    },
                ),
                found.annotation,
                self.initialization_of(class, definition),
                self.reason_of(class, name@, definition),
                if special is Some {
                    None
                } else {
                    self.found_descriptor(class, name@, definition, range)
                },
                unannotated(definition),
                self.foreign_key(metadata, settled),
                self.choices(metadata, definition),
            ),
            is_inherited: found.is_inherited,
        }
    }

    /// The field that a definition gives.
    pub open spec fn calculated(
        self,
        class: Class,
        name: String,
        definition: ClassFieldDefinition,
        range: TextRange,
    ) -> ClassField {
        if self.info(class).metadata.typed_dict is Some {
            self.answers.key_field(class, name@, definition)
        } else {
            match self.taken_over(class, name@, definition) {
                Some(field) => field,
                None => self.new_field(class, name, definition, range),
            }
        }
    }

    /// The reports on the annotation of a field.
    pub open spec fn direct_annotation_reports(
        self,
        class: Class,
        name: Seq<char>,
        definition: ClassFieldDefinition,
        range: TextRange,
    ) -> Seq<ReportView> {
        match definition.direct_annotation() {
            Some(a) => self.annotation_reports(
                a,
                self.info(class).metadata,
                self.initialization_of(class, definition),
                name,
                range,
            ),
            None => Seq::empty(),
        }
    }

    /// The report on `Final` inside `ClassVar`, which only dataclasses may use.
    pub open spec fn nested_final_report(
        self,
        class: Class,
        definition: ClassFieldDefinition,
        range: TextRange,
    ) -> Seq<ReportView> {
        match definition.direct_annotation() {
            Some(a) => if self.info(class).metadata.dataclass is None && final_in_class_var(a) {
                seq![
                    report1(
                        range,
                        Rule::InvalidAnnotation,
                        "`Final` may not be nested inside `ClassVar`"@,
                    ),
                ]
            } else {
                Seq::empty()
            },
            None => Seq::empty(),
        }
    }

    fn check_nested_final(
        &self,
        class: &Class,
        definition: &ClassFieldDefinition,
        direct: &Option<Annotation>,
        range: TextRange,
        errors: &mut ErrorCollector,
    )
        requires
            *direct == definition.direct_annotation(),
        ensures
            final(errors)@ == old(errors)@ + self.nested_final_report(*class, *definition, range),
    {
        assert(errors@ + Seq::<ReportView>::empty() =~= errors@);
        if let Some(a) = direct {
            if self.get_metadata_for_class(class).dataclass.is_none() && is_final_in_class_var(a) {
                errors.error(
                    range,
                    Rule::InvalidAnnotation,
                    "`Final` may not be nested inside `ClassVar`".to_owned(),
                );
            }
        }
    }

    /// Whether some of the classes has a member.
    pub open spec fn defined_in(self, classes: Seq<Class>, name: Seq<char>) -> bool {
        exists|i: int| 0 <= i < classes.len() && #[trigger] self.member(classes[i], name) is Some
    }

    fn is_defined_in(&self, classes: &Vec<Class>, name: &str) -> (r: bool)
        ensures
            r == self.defined_in(classes@, name@),
    {
        let mut i: usize = 0;
        while i < classes.len()
            invariant
                i <= classes@.len(),
                forall|k: int| 0 <= k < i ==> #[trigger] self.member(classes@[k], name@) is None,
            decreases classes@.len() - i,
        {
            if self.get_class_member(&classes[i], name).is_some() {
                return true;
            }
            i = i + 1;
        }
        false
    }

    /// The report on an attribute that only a method introduces: in a protocol never, elsewhere only
    /// in constructors and the like.
    pub open spec fn implicit_definition_report(
        self,
        class: Class,
        name: Seq<char>,
        definition: ClassFieldDefinition,
        range: TextRange,
    ) -> Seq<ReportView> {
        let metadata = self.info(class).metadata;
        match definition {
            ClassFieldDefinition::DefinedInMethod { method, .. } => if self.defined_in(
                metadata.base_class_objects@,
                name,
            ) {
                Seq::empty()
            } else if metadata.is_protocol {
                seq![
                    report1(
                        range,
                        Rule::ProtocolImplicitlyDefinedAttribute,
                        "Protocol variables must be explicitly declared in the class body"@,
                    ),
                ]
            } else if !method.recognized_attribute_defining_method {
                seq![
                    report1(
                        range,
                        Rule::ImplicitlyDefinedAttribute,
                        "Attribute `"@ + name + "` is implicitly defined by assignment in method `"@
                            + method.method_name@ + "`, which is not a constructor"@,
                    ),
                ]
            } else {
                Seq::empty()
            },
            _ => Seq::empty(),
        }
    }

    fn check_implicit_definition(
        &self,
        class: &Class,
        name: &str,
        definition: &ClassFieldDefinition,
        range: TextRange,
        errors: &mut ErrorCollector,
    )
        ensures
            final(errors)@ == old(errors)@ + self.implicit_definition_report(
                *class,
                name@,
                *definition,
                range,
            ),
    {
        assert(errors@ + Seq::<ReportView>::empty() =~= errors@);
        let metadata = self.get_metadata_for_class(class);
        if let ClassFieldDefinition::DefinedInMethod { method, .. } = definition {
            if !self.is_defined_in(&metadata.base_class_objects, name) {
                if metadata.is_protocol {
                    errors.error(
                        range,
                        Rule::ProtocolImplicitlyDefinedAttribute,
                        "Protocol variables must be explicitly declared in the class body".to_owned(),
                    );
                } else if !method.recognized_attribute_defining_method {
                    let line = cat5(
                        "Attribute `",
                        name,
                        "` is implicitly defined by assignment in method `",
                        method.method_name.as_str(),
                        "`, which is not a constructor",
                    );
                    errors.error(range, Rule::ImplicitlyDefinedAttribute, line);
                }
            }
        }
    }

    /// The reports on a `__post_init__` of a dataclass.
    pub open spec fn post_init_field_reports(
        self,
        class: Class,
        name: Seq<char>,
        field: ClassField,
        range: TextRange,
    ) -> Seq<ReportView> {
        match self.info(class).metadata.dataclass {
            Some(dm) => if name == "__post_init__"@ {
                match field.special_method(plain_instance(self.info(class).instance_type)) {
                    Some(post_init) => self.post_init_check_reports(class, dm, post_init, range),
                    None => Seq::empty(),
                }
            } else {
                Seq::empty()
            },
            None => Seq::empty(),
        }
    }

    /// Whether the fields of a dataclass that has a `__post_init__` can be computed.
    pub open spec fn post_init_computable(self, class: Class, name: Seq<char>) -> bool {
        name == "__post_init__"@ ==> (self.info(class).metadata.dataclass matches Some(dm)
            ==> self.setters_readable(
            self.ordered_fields(class, dm, true, self.kw_only_of(class)),
        ))
    }

    fn check_post_init_field(
        &self,
        class: &Class,
        name: &String,
        field: &ClassField,
        range: TextRange,
        errors: &mut ErrorCollector,
    )
        requires
            self.wf(),
            self.post_init_computable(*class, name@),
        ensures
            final(errors)@ == old(errors)@ + self.post_init_field_reports(
                *class,
                name@,
                *field,
                range,
            ),
    {
        assert(errors@ + Seq::<ReportView>::empty() =~= errors@);
        let info = self.get_info(class);
        if let Some(dm) = &info.metadata.dataclass {
            if is_text(name, "__post_init__") {
                let instance = Instance::of_class(&info.instance_type);
                assert(instance == plain_instance(info.instance_type));
                if let Some(post_init) = field.as_special_method_type(&instance) {
                    self.validate_post_init(class, dm, &post_init, range, errors);
                }
            }
        }
    }

    /// The report on an element of a named tuple whose name begins with an underscore. The
    /// functional form reports it elsewhere.
    pub open spec fn underscore_report(
        self,
        class: Class,
        name: Seq<char>,
        functional_class_def: bool,
        range: TextRange,
    ) -> Seq<ReportView> {
        if self.info(class).metadata.named_tuple_element(name) && !functional_class_def && name.len()
            > 0 && name[0] == '_' {
            seq![
                report1(
                    range,
                    Rule::BadClassDefinition,
                    "NamedTuple field name may not start with an underscore: `"@ + name + "`"@,
                ),
            ]
        } else {
            Seq::empty()
        }
    }

    /// The report on an attribute that `__slots__` leaves no room for.
    pub open spec fn slot_report(
        self,
        class: Class,
        name: Seq<char>,
        definition: ClassFieldDefinition,
        range: TextRange,
    ) -> Seq<ReportView> {
        match self.info(class).instance_slots {
            Some(slots) => if definition is DefinedInMethod && name != "__slots__"@ && !texts(
                slots@,
            ).contains(name) {
                seq![
                    report1(
                        range,
                        Rule::MissingAttribute,
                        "Object of class `"@ + class.name@ + "` has no attribute `"@ + name
                            + "` (not declared in `__slots__`)"@,
                    ),
                ]
            } else {
                Seq::empty()
            },
            None => Seq::empty(),
        }
    }

    fn check_names(
        &self,
        class: &Class,
        name: &String,
        definition: &ClassFieldDefinition,
        functional_class_def: bool,
        range: TextRange,
        errors: &mut ErrorCollector,
    )
        ensures
            final(errors)@ == old(errors)@ + self.underscore_report(
                *class,
                name@,
                functional_class_def,
                range,
            ) + self.slot_report(*class, name@, *definition, range),
    {
        let info = self.get_info(class);
        if !functional_class_def && info.metadata.is_named_tuple_element(name.as_str())
            && starts_with_underscore(name.as_str()) {
            let line = cat3(
                "NamedTuple field name may not start with an underscore: `",
                name.as_str(),
                "`",
            );
            errors.error(range, Rule::BadClassDefinition, line);
        }
        assert(errors@ =~= old(errors)@ + self.underscore_report(
            *class,
            name@,
            functional_class_def,
            range,
        ));
        let in_method = match definition {
            ClassFieldDefinition::DefinedInMethod { .. } => true,
            _ => false,
        };
        if in_method && !is_text(name, "__slots__") {
            if let Some(slots) = &info.instance_slots {
                if !contains_name(slots, name.as_str()) {
                    let line = cat5(
                        "Object of class `",
                        class.name.as_str(),
                        "` has no attribute `",
                        name.as_str(),
                        "` (not declared in `__slots__`)",
                    );
                    errors.error(range, Rule::MissingAttribute, line);
                }
            }
        }
        assert(errors@ =~= old(errors)@ + self.underscore_report(
            *class,
            name@,
            functional_class_def,
            range,
        ) + self.slot_report(*class, name@, *definition, range));
    }

    /// The reports on a type that a field gets because of the kind of its class.
    pub open spec fn kind_reports(
        self,
        class: Class,
        name: String,
        definition: ClassFieldDefinition,
        range: TextRange,
    ) -> Seq<ReportView> {
        self.special_type_reports(
            class,
            name,
            definition.direct_annotation(),
            self.settled_type(class, name@, definition),
            self.unwidened_type(class, name@, definition),
            definition,
            self.found_descriptor(class, name@, definition, range) is Some,
            range,
        )
    }

    /// The reports on the field that a definition gives in a class that is no typed dictionary,
    /// where it does not only repeat a field of an ancestor.
    pub open spec fn new_field_reports(
        self,
        class: Class,
        name: String,
        definition: ClassFieldDefinition,
        functional_class_def: bool,
        range: TextRange,
    ) -> Seq<ReportView> {
        self.found_reports(class, name@, definition, range) + self.direct_annotation_reports(
            class,
            name@,
            definition,
            range,
        ) + self.nested_final_report(class, definition, range) + self.kind_reports(
            class,
            name,
            definition,
            range,
        ) + self.implicit_definition_report(class, name@, definition, range)
            + self.post_init_field_reports(
            class,
            name@,
            self.new_field(class, name, definition, range),
            range,
        ) + self.underscore_report(class, name@, functional_class_def, range) + self.slot_report(
            class,
            name@,
            definition,
            range,
        )
    }

    /// The reports on the field that a definition gives.
    pub open spec fn calculated_reports(
        self,
        class: Class,
        name: String,
        definition: ClassFieldDefinition,
        functional_class_def: bool,
        range: TextRange,
    ) -> Seq<ReportView> {
        if self.info(class).metadata.typed_dict is Some {
            self.answers.key_field_reports(class, name@, definition, range)
        } else if self.taken_over(class, name@, definition) is Some {
            Seq::empty()
        } else {
            self.new_field_reports(class, name, definition, functional_class_def, range)
        }
    }

    fn make_field(
        &self,
        class: &Class,
        name: &String,
        range: TextRange,
        definition: &ClassFieldDefinition,
        errors: &mut ErrorCollector,
    ) -> (r: ClassField)
        ensures
            r == self.new_field(*class, *name, *definition, range),
            final(errors)@ == old(errors)@ + self.found_reports(*class, name@, *definition, range)
                + self.direct_annotation_reports(*class, name@, *definition, range)
                + self.nested_final_report(*class, *definition, range) + self.kind_reports(
                *class,
                *name,
                *definition,
                range,
            ),
    {
        let metadata = self.get_metadata_for_class(class);
        let direct = definition.get_direct_annotation();
        let initialization = self.get_initialization(class, definition);
        let found = self.find(class, name.as_str(), definition, &initialization, range, errors);
        let ghost after_found = errors@;
        if let Some(a) = &direct {
            self.validate_direct_annotation(
                a,
                metadata,
                &initialization,
                name.as_str(),
                range,
                errors,
            );
        }
        assert(errors@ =~= after_found + self.direct_annotation_reports(
            *class,
            name@,
            *definition,
            range,
        ));
        let reason = Self::determine_read_only_reason(
            name.as_str(),
            &found.annotation,
            metadata,
            definition,
        );
        let widened = Self::is_widened(&found, &initialization, reason);
        let settled = if widened {
            self.answers.promote_implicit_literals(&found.ty)
        } else {
            found.ty.dupe()
        };
        let unwidened = if widened {
            Some(found.ty)
        } else {
            None
        };
        self.check_nested_final(class, definition, &direct, range, errors);
        let descriptor = self.get_descriptor(&settled, &initialization, &direct, range);
        let is_foreign_key = self.is_foreign_key_field(metadata, &settled);
        let has_choices = self.get_choices(metadata, definition);
        let special = self.get_special_class_field_type(
            class,
            name,
            &direct,
            &settled,
            &unwidened,
            definition,
            descriptor.is_some(),
            range,
            errors,
        );
        let (ty, descriptor) = match special {
            Some(t) => (t, None),
            None => (settled, descriptor),
        };
        let ty = self.answers.deep_force(&ty);
        let is_nested_class = match definition {
            ClassFieldDefinition::NestedClass { .. } => true,
            _ => false,
        };
        ClassField {
            inner: assemble(
                is_nested_class,
                name,
                metadata,
                ty,
                found.annotation,
                initialization,
                reason,
                descriptor,
                is_unannotated(definition),
                is_foreign_key,
                has_choices,
            ),
            is_inherited: found.is_inherited,
        }
    }

    /// The field that a definition in a class gives. `functional_class_def` tells a named tuple
    /// that is made by a call from one that is written as a class.
    pub fn calculate_class_field(
        &self,
        class: &Class,
        name: &String,
        range: TextRange,
        field_definition: &ClassFieldDefinition,
        functional_class_def: bool,
        errors: &mut ErrorCollector,
    ) -> (r: ClassField)
        requires
            self.wf(),
            self.post_init_computable(*class, name@),
        ensures
            r == self.calculated(*class, *name, *field_definition, range),
            final(errors)@ == old(errors)@ + self.calculated_reports(
                *class,
                *name,
                *field_definition,
                functional_class_def,
                range,
            ),
    {
        if self.get_metadata_for_class(class).typed_dict.is_some() {
            return self.answers.calculate_typed_dict_field(
                class,
                name.as_str(),
                field_definition,
                range,
                errors,
            );
        }
        if let Some(field) = self.get_taken_over(class, name.as_str(), field_definition) {
            assert(errors@ + Seq::<ReportView>::empty() =~= errors@);
            return field;
        }
        let field = self.make_field(class, name, range, field_definition, errors);
        self.check_implicit_definition(class, name.as_str(), field_definition, range, errors);
        self.check_post_init_field(class, name, &field, range, errors);
        self.check_names(class, name, field_definition, functional_class_def, range, errors);
        proof {
            lemma_regroup(
                old(errors)@,
                self.found_reports(*class, name@, *field_definition, range),
                self.direct_annotation_reports(*class, name@, *field_definition, range),
                self.nested_final_report(*class, *field_definition, range),
                self.kind_reports(*class, *name, *field_definition, range),
                self.implicit_definition_report(*class, name@, *field_definition, range),
                self.post_init_field_reports(*class, name@, field, range),
                self.underscore_report(*class, name@, functional_class_def, range),
                self.slot_report(*class, name@, *field_definition, range),
            );
        }
        field
    }
}

proof fn lemma_regroup(
    start: Seq<ReportView>,
    a: Seq<ReportView>,
    b: Seq<ReportView>,
    c: Seq<ReportView>,
    d: Seq<ReportView>,
    e: Seq<ReportView>,
    f: Seq<ReportView>,
    g: Seq<ReportView>,
    h: Seq<ReportView>,
)
    ensures
        start + a + b + c + d + e + f + g + h == start + (a + b + c + d + e + f + g + h),
{
    assert(start + a + b + c + d + e + f + g + h =~= start + (a + b + c + d + e + f + g + h));
}

/// A class statement inside a class is always a nested class, and can never be written.
pub proof fn law_nested_classes_stay_nested<Ans: LookupAnswer>(
    solver: AnswersSolver<Ans>,
    class: Class,
    name: String,
    definition: u64,
    range: TextRange,
)
    requires
        solver.info(class).metadata.typed_dict is None,
    ensures
        ({
            let d = ClassFieldDefinition::NestedClass { definition };
            let field = solver.calculated(class, name, d, range);
            field.inner is NestedClass && field.read_only()
        }),
{
}

/// A method that assigns an attribute which an ancestor has as a property or a descriptor adds
/// nothing: the field of the ancestor stays in force, and nothing is reported.
pub proof fn law_assignments_keep_inherited_setters<Ans: LookupAnswer>(
    solver: AnswersSolver<Ans>,
    class: Class,
    name: String,
    definition: ClassFieldDefinition,
    functional_class_def: bool,
    range: TextRange,
)
    requires
        solver.info(class).metadata.typed_dict is None,
        definition is DefinedInMethod,
        !crate::names::mangled_name(name@),
        solver.from_ancestors(
            class,
            solver.info(class).ancestors@,
            name@,
            crate::solver::Search::All,
        ) matches Some(parent) && (parent.value.inner is Property || parent.value.inner
            is Descriptor),
    ensures
        solver.calculated(class, name, definition, range) == solver.from_ancestors(
            class,
            solver.info(class).ancestors@,
            name@,
            crate::solver::Search::All,
        )->0.value,
        solver.calculated_reports(
            class,
            name,
            definition,
            functional_class_def,
            range,
        ).len() == 0,
{
}

} // verus!
