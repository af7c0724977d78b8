use vstd::prelude::*;

use crate::attribute::{
    ClassAttribute, ClassBase, Descriptor, DescriptorBase, NoAccessReason, ReadOnlyReason,
};
use crate::expr::ArgValue;
use crate::reading::DataclassMember;
use crate::report::{report1, report2, ErrorCollector, ReportView, Rule, TextRange};
use crate::solver::{AnswersSolver, LookupAnswer};
use crate::text::cat3;
use crate::types::{Class, ClassType, Type};

verus! {

/// What is left to check of an assignment once the attribute has been looked at.
pub enum SetAction {
    /// Nothing.
    Nothing,
    /// The value must be assignable to the type; the flag says whether the attribute is then
    /// known to have the narrower type of the value.
    Assign(Type, bool),
    /// The value is passed to the setter of a property.
    CallSetter(Type),
    /// The value is passed to the `__set__` method of a descriptor.
    CallDescriptorSetter(Type, DescriptorBase),
}

/// The outcome of looking at an attribute that is assigned to.
pub struct SetOutcome {
    pub action: SetAction,
    pub reports: Seq<ReportView>,
    /// Whether the attribute may still be narrowed afterwards.
    pub should_narrow: bool,
}

/// The headline of a report about a field that cannot be set.
pub open spec fn cannot_set(name: Seq<char>) -> Seq<char> {
    "Cannot set field `"@ + name + "`"@
}

/// The headline of a report about a field that cannot be deleted.
pub open spec fn cannot_delete(name: Seq<char>) -> Seq<char> {
    "Cannot delete field `"@ + name + "`"@
}

impl<Ans: LookupAnswer> AnswersSolver<Ans> {
    /// Whether a pydantic model that is not frozen makes the fields of frozen ancestors writable.
    pub open spec fn thawed(self, instance_class: Option<ClassType>) -> bool {
        instance_class matches Some(cls) && {
            let metadata = self.info(cls.class).metadata;
            metadata.pydantic() && metadata.dataclass is Some && !metadata.dataclass->0.kws.frozen
        }
    }

    fn is_thawed(&self, instance_class: Option<&ClassType>) -> (r: bool)
        ensures
            r == self.thawed(
                match instance_class {
                    Some(c) => Some(*c),
                    None => None,
                },
            ),
    {
        match instance_class {
            Some(cls) => {
                let metadata = self.get_metadata_for_class(&cls.class);
                metadata.is_pydantic_model() && match &metadata.dataclass {
                    Some(dm) => !dm.kws.frozen,
                    None => false,
                }
            },
            None => false,
        }
    }

    /// The report on setting a final field of a dataclass.
    pub open spec fn final_field_reports(
        self,
        cls: Option<Class>,
        name: Seq<char>,
        range: TextRange,
    ) -> Seq<ReportView> {
        match cls {
            None => Seq::empty(),
            Some(class) => match self.dataclass_member(class, name) {
                DataclassMember::Field(member, _) => if member.value.final_field() {
                    seq![
                        report2(
                            range,
                            Rule::ReadOnly,
                            cannot_set(name),
                            self.answers.read_only_text(ReadOnlyReason::Final(false)),
                        ),
                    ]
                } else {
                    Seq::empty()
                },
                _ => Seq::empty(),
            },
        }
    }

    /// Reports the setting of a final field of a dataclass.
    pub fn check_dataclass_field_final(
        &self,
        cls: &Class,
        attr_name: &str,
        errors: &mut ErrorCollector,
        range: TextRange,
    )
        ensures
            final(errors)@ == old(errors)@ + self.final_field_reports(
                Some(*cls),
                attr_name@,
                range,
            ),
    {
        match self.get_dataclass_member(cls, attr_name) {
            DataclassMember::Field(member, _) => {
                if member.value.is_final() {
                    errors.error2(
                        range,
                        Rule::ReadOnly,
                        cat3("Cannot set field `", attr_name, "`"),
                        self.answers.read_only_message(ReadOnlyReason::Final(false)),
                    );
                }
            },
            _ => {},
        }
        assert(errors@ =~= old(errors)@ + self.final_field_reports(Some(*cls), attr_name@, range));
    }

    /// The type that an assigned value must have: for a field with a converter, the type that the
    /// converter takes.
    pub open spec fn accepted_type(
        self,
        attr_ty: Type,
        instance_class: Option<ClassType>,
        name: Seq<char>,
    ) -> Type {
        match instance_class {
            None => attr_ty,
            Some(cls) => match self.dataclass_member(cls.class, name) {
                DataclassMember::Field(_, kws) => match kws.converter_param {
                    Some(t) => t,
                    None => attr_ty,
                },
                _ => attr_ty,
            },
        }
    }

    /// What assigning to an attribute comes to.
    pub open spec fn set_outcome(
        self,
        attr: ClassAttribute,
        instance_class: Option<ClassType>,
        class_base: Option<ClassBase>,
        name: Seq<char>,
        allow_assign_to_final: bool,
        range: TextRange,
        should_narrow: bool,
    ) -> SetOutcome {
        match attr {
            ClassAttribute::NoAccess(reason) => SetOutcome {
                action: SetAction::Nothing,
                reports: seq![
                    report1(range, Rule::NoAccess, self.answers.no_access_text(reason, name)),
                ],
                should_narrow: false,
            },
            ClassAttribute::ReadOnly(attr_ty, reason) => if allow_assign_to_final && reason
                == ReadOnlyReason::Final(false) {
                SetOutcome {
                    action: SetAction::Assign(attr_ty, should_narrow),
                    reports: Seq::empty(),
                    should_narrow,
                }
            } else if self.thawed(instance_class) {
                SetOutcome { action: SetAction::Nothing, reports: Seq::empty(), should_narrow }
            } else {
                SetOutcome {
                    action: SetAction::Nothing,
                    reports: seq![
                        report2(
                            range,
                            Rule::ReadOnly,
                            cannot_set(name),
                            self.answers.read_only_text(reason),
                        ),
                    ],
                    should_narrow: false,
                }
            },
            ClassAttribute::ReadWrite(attr_ty) => SetOutcome {
                action: SetAction::Assign(
                    self.accepted_type(attr_ty, instance_class, name),
                    should_narrow,
                ),
                reports: self.final_field_reports(
                    match (instance_class, class_base) {
                        (Some(cls), _) => Some(cls.class),
                        (None, Some(base)) => Some(base.applied().class),
                        (None, None) => None,
                    },
                    name,
                    range,
                ),
                should_narrow,
            },
            ClassAttribute::Property(getter, None, cls) => if getter.cached_property() {
                SetOutcome {
                    action: SetAction::Assign(self.answers.getter_result(getter), should_narrow),
                    reports: self.answers.getter_reports(getter, range),
                    should_narrow: false,
                }
            } else {
                SetOutcome {
                    action: SetAction::Nothing,
                    reports: seq![
                        report1(
                            range,
                            Rule::ReadOnly,
                            self.answers.no_access_text(
                                NoAccessReason::SettingReadOnlyProperty(cls),
                                name,
                            ),
                        ),
                    ],
                    should_narrow: false,
                }
            },
            ClassAttribute::Property(_, Some(setter), _) => SetOutcome {
                action: SetAction::CallSetter(setter),
                reports: Seq::empty(),
                should_narrow: false,
            },
            ClassAttribute::Descriptor(x, base) => match base {
                DescriptorBase::ClassDef(_) => SetOutcome {
                    action: SetAction::Assign(Type::ClassType(x.cls), false),
                    reports: Seq::empty(),
                    should_narrow: false,
                },
                DescriptorBase::Instance(cls) => self.set_descriptor_outcome(
                    x,
                    base,
                    cls,
                    name,
                    range,
                ),
                DescriptorBase::SelfInstance(cls) => self.set_descriptor_outcome(
                    x,
                    base,
                    cls,
                    name,
                    range,
                ),
            },
        }
    }

    /// What assigning to a descriptor of an instance comes to.
    pub open spec fn set_descriptor_outcome(
        self,
        x: Descriptor,
        base: DescriptorBase,
        cls: ClassType,
        name: Seq<char>,
        range: TextRange,
    ) -> SetOutcome {
        match self.resolved_method(x.cls, x.setter, self.dunder.set) {
            Some(setter) => SetOutcome {
                action: SetAction::CallDescriptorSetter(setter, base),
                reports: self.method_reports(x.cls, x.setter, self.dunder.set, x.range),
                should_narrow: false,
            },
            None => SetOutcome {
                action: SetAction::Nothing,
                reports: seq![
                    report1(
                        range,
                        Rule::ReadOnly,
                        self.answers.no_access_text(
                            NoAccessReason::SettingReadOnlyDescriptor(cls.class),
                            name,
                        ),
                    ),
                ],
                should_narrow: false,
            },
        }
    }

    /// Whether the `__set__` method of an assigned descriptor can be found.
    pub open spec fn settable(self, attr: ClassAttribute) -> bool {
        attr matches ClassAttribute::Descriptor(x, _) ==> (self.descriptor_method(
            x.cls,
            x.setter,
            self.dunder.set,
        ) matches Some(m) ==> self.readable(m))
    }

    fn set_descriptor(
        &self,
        x: &Descriptor,
        base: &DescriptorBase,
        cls: &ClassType,
        attr_name: &str,
        range: TextRange,
        errors: &mut ErrorCollector,
    ) -> (action: SetAction)
        requires
            self.wf(),
            self.descriptor_method(x.cls, x.setter, self.dunder.set) matches Some(m)
                ==> self.readable(m),
        ensures
            ({
                let outcome = self.set_descriptor_outcome(*x, *base, *cls, attr_name@, range);
                &&& action == outcome.action
                &&& final(errors)@ == old(errors)@ + outcome.reports
            }),
    {
        let action = match self.resolve_descriptor_setter(x, errors) {
            Some(setter) => SetAction::CallDescriptorSetter(setter, base.dupe()),
            None => {
                let reason = NoAccessReason::SettingReadOnlyDescriptor(cls.class.dupe());
                errors.error(
                    range,
                    Rule::ReadOnly,
                    self.answers.no_access_message(&reason, attr_name),
                );
                SetAction::Nothing
            },
        };
        assert(errors@ =~= old(errors)@ + self.set_descriptor_outcome(
            *x,
            *base,
            *cls,
            attr_name@,
            range,
        ).reports);
        action
    }

    /// The reports on the value of an assignment, once the attribute has been looked at.
    pub open spec fn assigned_reports(
        self,
        action: SetAction,
        name: Seq<char>,
        got: ArgValue,
        range: TextRange,
    ) -> Seq<ReportView> {
        match action {
            SetAction::Nothing => Seq::empty(),
            SetAction::Assign(ty, _) => self.answers.assign_reports(ty, name, got, range),
            SetAction::CallSetter(setter) => self.answers.setter_reports(setter, got, range),
            SetAction::CallDescriptorSetter(setter, base) => self.answers.descriptor_setter_reports(
                setter,
                base,
                got,
                range,
            ),
        }
    }

    /// The types that the attribute is known to have after an assignment.
    pub open spec fn assigned_narrowed(self, action: SetAction, name: Seq<char>, got: ArgValue) -> Seq<
        Type,
    > {
        match action {
            SetAction::Assign(ty, narrow) => self.answers.assign_narrowed(ty, name, got, narrow),
            _ => Seq::empty(),
        }
    }

    /// Checks an assignment to an attribute: reports what is wrong with the attribute and with the
    /// value, collects the types that the attribute is known to have afterwards, and says whether
    /// it may still be narrowed.
    pub fn check_class_attr_set_and_infer_narrow(
        &self,
        class_attr: &ClassAttribute,
        instance_class: Option<&ClassType>,
        class_base: Option<&ClassBase>,
        attr_name: &str,
        got: &ArgValue,
        allow_assign_to_final: bool,
        range: TextRange,
        errors: &mut ErrorCollector,
        should_narrow: &mut bool,
        narrowed_types: &mut Vec<Type>,
    )
        requires
            self.wf(),
            self.settable(*class_attr),
        ensures
            ({
                let outcome = self.set_outcome(
                    *class_attr,
                    match instance_class {
                        Some(c) => Some(*c),
                        None => None,
                    },
                    match class_base {
                        Some(b) => Some(*b),
                        None => None,
                    },
                    attr_name@,
                    allow_assign_to_final,
                    range,
                    *old(should_narrow),
                );
                &&& final(errors)@ == old(errors)@ + outcome.reports + self.assigned_reports(
                    outcome.action,
                    attr_name@,
                    *got,
                    range,
                )
                &&& *final(should_narrow) == outcome.should_narrow
                &&& final(narrowed_types)@ == old(narrowed_types)@ + self.assigned_narrowed(
                    outcome.action,
                    attr_name@,
                    *got,
                )
            }),
    {
        let action = self.check_class_attr_set(
            class_attr,
            instance_class,
            class_base,
            attr_name,
            allow_assign_to_final,
            range,
            errors,
            should_narrow,
        );
        assert(errors@ + Seq::<ReportView>::empty() =~= errors@);
        assert(narrowed_types@ + Seq::<Type>::empty() =~= narrowed_types@);
        match &action {
            SetAction::Nothing => {},
            SetAction::Assign(ty, narrow) => {
                self.answers.check_set_read_write_and_infer_narrow(
                    ty,
                    attr_name,
                    got,
                    range,
                    errors,
                    *narrow,
                    narrowed_types,
                );
            },
            SetAction::CallSetter(setter) => {
                self.answers.call_property_setter(setter, got, range, errors);
            },
            SetAction::CallDescriptorSetter(setter, base) => {
                self.answers.call_descriptor_setter(setter, base, got, range, errors);
            },
        }
    }

    /// Looks at an attribute that is assigned to: reports what is wrong with it, says what is
    /// left to check of the value, and whether the attribute may still be narrowed.
    fn check_class_attr_set(
        &self,
        class_attr: &ClassAttribute,
        instance_class: Option<&ClassType>,
        class_base: Option<&ClassBase>,
        attr_name: &str,
        allow_assign_to_final: bool,
        range: TextRange,
        errors: &mut ErrorCollector,
        should_narrow: &mut bool,
    ) -> (action: SetAction)
        requires
            self.wf(),
            self.settable(*class_attr),
        ensures
            ({
                let outcome = self.set_outcome(
                    *class_attr,
                    match instance_class {
                        Some(c) => Some(*c),
                        None => None,
                    },
                    match class_base {
                        Some(b) => Some(*b),
                        None => None,
                    },
                    attr_name@,
                    allow_assign_to_final,
                    range,
                    *old(should_narrow),
                );
                &&& action == outcome.action
                &&& final(errors)@ == old(errors)@ + outcome.reports
                &&& *final(should_narrow) == outcome.should_narrow
            }),
    {
        let ghost before = errors@;
        assert(before + Seq::<ReportView>::empty() =~= before);
        match class_attr {
            ClassAttribute::NoAccess(reason) => {
                errors.error(
                    range,
                    Rule::NoAccess,
                    self.answers.no_access_message(reason, attr_name),
                );
                *should_narrow = false;
                SetAction::Nothing
            },
            ClassAttribute::ReadOnly(attr_ty, reason) => {
                let assigns_final = allow_assign_to_final && *reason == ReadOnlyReason::Final(
                    false,
                );
                if assigns_final {
                    SetAction::Assign(attr_ty.dupe(), *should_narrow)
                } else if !self.is_thawed(instance_class) {
                    errors.error2(
                        range,
                        Rule::ReadOnly,
                        cat3("Cannot set field `", attr_name, "`"),
                        self.answers.read_only_message(*reason),
                    );
                    *should_narrow = false;
                    SetAction::Nothing
                } else {
                    SetAction::Nothing
                }
            },
            ClassAttribute::ReadWrite(attr_ty) => {
                let accepted = match instance_class {
                    Some(cls) => match self.get_dataclass_member(&cls.class, attr_name) {
                        DataclassMember::Field(_, kws) => match kws.converter_param {
                            Some(t) => t,
                            None => attr_ty.dupe(),
                        },
                        _ => attr_ty.dupe(),
                    },
                    None => attr_ty.dupe(),
                };
                match instance_class {
                    Some(cls) => {
                        self.check_dataclass_field_final(&cls.class, attr_name, errors, range);
                    },
                    None => match class_base {
                        Some(base) => {
                            self.check_dataclass_field_final(
                                base.class_object(),
                                attr_name,
                                errors,
                                range,
                            );
                        },
                        None => {},
                    },
                }
                SetAction::Assign(accepted, *should_narrow)
            },
            ClassAttribute::Property(getter, None, cls) => {
                if getter.is_cached_property() {
                    let attr_ty = self.answers.call_property_getter(getter, range, errors);
                    let narrow = *should_narrow;
                    *should_narrow = false;
                    SetAction::Assign(attr_ty, narrow)
                } else {
                    let reason = NoAccessReason::SettingReadOnlyProperty(cls.dupe());
                    errors.error(
                        range,
                        Rule::ReadOnly,
                        self.answers.no_access_message(&reason, attr_name),
                    );
                    *should_narrow = false;
                    SetAction::Nothing
                }
            },
            ClassAttribute::Property(_, Some(setter), _) => {
                *should_narrow = false;
                SetAction::CallSetter(setter.dupe())
            },
            ClassAttribute::Descriptor(x, base) => {
                *should_narrow = false;
                match base {
                    DescriptorBase::Instance(cls) => self.set_descriptor(
                        x,
                        base,
                        cls,
                        attr_name,
                        range,
                        errors,
                    ),
                    DescriptorBase::SelfInstance(cls) => self.set_descriptor(
                        x,
                        base,
                        cls,
                        attr_name,
                        range,
                        errors,
                    ),
                    DescriptorBase::ClassDef(_) => SetAction::Assign(
                        Type::ClassType(x.cls.dupe()),
                        false,
                    ),
                }
            },
        }
    }

    /// The reports on deleting an attribute: one that cannot be accessed or is read-only cannot be
    /// deleted, every other one can.
    pub open spec fn delete_reports(
        self,
        attr: ClassAttribute,
        name: Seq<char>,
        range: TextRange,
    ) -> Seq<ReportView> {
        match attr {
            ClassAttribute::NoAccess(reason) => seq![
                report1(range, Rule::NoAccess, self.answers.no_access_text(reason, name)),
            ],
            ClassAttribute::ReadOnly(_, reason) => seq![
                report2(
                    range,
                    Rule::ReadOnly,
                    cannot_delete(name),
                    self.answers.read_only_text(reason),
                ),
            ],
            _ => Seq::empty(),
        }
    }

    /// Reports the deletion of an attribute that cannot be deleted.
    pub fn check_class_attr_delete(
        &self,
        class_attr: &ClassAttribute,
        attr_name: &str,
        range: TextRange,
        errors: &mut ErrorCollector,
    )
        ensures
            final(errors)@ == old(errors)@ + self.delete_reports(*class_attr, attr_name@, range),
    {
        match class_attr {
            ClassAttribute::NoAccess(reason) => {
                errors.error(
                    range,
                    Rule::NoAccess,
                    self.answers.no_access_message(reason, attr_name),
                );
            },
            ClassAttribute::ReadOnly(_, reason) => {
                errors.error2(
                    range,
                    Rule::ReadOnly,
                    cat3("Cannot delete field `", attr_name, "`"),
                    self.answers.read_only_message(*reason),
                );
            },
            ClassAttribute::ReadWrite(_) => {},
            ClassAttribute::Property(_, _, _) => {},
            ClassAttribute::Descriptor(_, _) => {},
        }
        assert(errors@ =~= old(errors)@ + self.delete_reports(*class_attr, attr_name@, range));
    }
}

/// Assigning to a plain attribute without a setter that is not writable is never let through: either it is
/// reported, or it is a final attribute in its constructor, or the pydantic model is not frozen.
pub proof fn law_read_only_writes_are_reported<Ans: LookupAnswer>(
    solver: AnswersSolver<Ans>,
    ty: Type,
    reason: ReadOnlyReason,
    instance_class: Option<ClassType>,
    class_base: Option<ClassBase>,
    name: Seq<char>,
    allow_assign_to_final: bool,
    range: TextRange,
    should_narrow: bool,
)
    ensures
        ({
            let outcome = solver.set_outcome(
                ClassAttribute::ReadOnly(ty, reason),
                instance_class,
                class_base,
                name,
                allow_assign_to_final,
                range,
                should_narrow,
            );
            ||| outcome.reports.len() == 1 && outcome.action is Nothing && !outcome.should_narrow
            ||| allow_assign_to_final && reason == ReadOnlyReason::Final(false)
            ||| solver.thawed(instance_class)
        }),
{
}

/// An attribute is never narrowed after an assignment that calls a method of the attribute.
pub proof fn law_no_narrowing_through_methods<Ans: LookupAnswer>(
    solver: AnswersSolver<Ans>,
    attr: ClassAttribute,
    instance_class: Option<ClassType>,
    class_base: Option<ClassBase>,
    name: Seq<char>,
    allow_assign_to_final: bool,
    range: TextRange,
    should_narrow: bool,
)
    requires
        attr is Property || attr is Descriptor,
    ensures
        !solver.set_outcome(
            attr,
            instance_class,
            class_base,
            name,
            allow_assign_to_final,
            range,
            should_narrow,
        ).should_narrow,
{
}

} // verus!
