use std::sync::Arc;

use vstd::prelude::*;

use crate::attribute::{ClassAttribute, ReadOnlyReason};
use crate::attributes::applicable_sigs;
use crate::class_field::ClassField;
use crate::instance::{Instance, InstanceKind};
use crate::metadata::ClassMetadata;
use crate::override_check::{
    checked_for_overrides, for_child, key_override_reports, relaxed, relaxed_attribute,
    renamed_signature,
};
use crate::overrides::{attribute_subset, AttrSubsetError};
use crate::reading::plain_instance;
use crate::report::{ReportView, Rule, TextRange};
use crate::solver::{AnswersSolver, LookupAnswer, SubsetError};
use crate::text::{first_index, texts};
use crate::types::{
    AnyStyle, BoundMethod, BoundMethodType, Class, ClassType, Function, Overload,
    PlaceholderBodyKind, Type,
};

verus! {

/// Whether a rule is about an override that does not fit.
pub open spec fn unfit(rule: Rule) -> bool {
    rule == Rule::BadOverride || rule == Rule::BadOverrideParamName || rule
        == Rule::BadOverrideMutableAttribute
}

/// The member of a parent as the child sees it.
pub open spec fn seen_by_child<Ans: LookupAnswer>(
    solver: AnswersSolver<Ans>,
    cls: Class,
    name: String,
    parent: ClassType,
    want: ClassField,
) -> ClassAttribute {
    solver.instance_attribute(
        name,
        want,
        Instance {
            kind: InstanceKind::Protocol(solver.instance_of(cls)),
            class: parent.class,
            targs: parent.targs,
        },
    )
}

/// Whether a type says all that an override is compared with: it is no overloaded method, and what
/// it returns was written down.
pub open spec fn says_all(ty: Type) -> bool {
    &&& !(ty matches Type::BoundMethod(m) && m.func is Overload)
    &&& ty.func_metadata() matches Some(m) ==> !m.flags.is_return_inferred
}

/// Whether an attribute says all that an override is compared with.
pub open spec fn attribute_says_all(attr: ClassAttribute) -> bool {
    match attr {
        ClassAttribute::ReadOnly(ty, _) => says_all(ty),
        ClassAttribute::ReadWrite(ty) => says_all(ty),
        ClassAttribute::Property(getter, setter, _) => says_all(getter) && (setter matches Some(t)
            ==> says_all(t)),
        _ => true,
    }
}

/// What a field needs to be compared with the member of its only base: it may be inherited, its
/// name takes part in the checks and is declared in the class, and neither class has it as an
/// element of a named tuple or as the key of a typed dictionary.
pub open spec fn comparable<Ans: LookupAnswer>(
    solver: AnswersSolver<Ans>,
    cls: Class,
    name: String,
    class_field: ClassField,
    base: ClassType,
) -> bool {
    &&& class_field.is_inherited is Maybe
    &&& checked_for_overrides(
        name@,
        solver.info(cls).metadata,
        class_field.explicit_override(),
    )
    &&& solver.info(cls).decl_range(name@) is Some
    &&& solver.info(cls).metadata.named_tuple is None
    &&& solver.info(base.class).metadata.named_tuple is None
    &&& solver.info(cls).metadata.typed_dict is None
    &&& solver.info(base.class).metadata.typed_dict is None
}

proof fn lemma_single_parent<Ans: LookupAnswer>(
    solver: AnswersSolver<Ans>,
    cls: Class,
    name: String,
    class_field: ClassField,
    base: ClassType,
)
    requires
        solver.info(cls).decl_range(name@) is Some,
    ensures
        ({
            let parents = solver.compared_with(seq![base]);
            let range = solver.info(cls).decl_range(name@)->0;
            &&& parents == seq![base]
            &&& solver.all_parent_reports(cls, name, class_field, parents, range)
                == solver.parent_reports(cls, name, class_field, base, range)
            &&& (exists|i: int|
                0 <= i < parents.len() && solver.overrides_in(cls, name@, #[trigger] parents[i]))
                == solver.overrides_in(cls, name@, base)
            &&& (exists|i: int|
                0 <= i < parents.len() && solver.info(
                    (#[trigger] parents[i]).class,
                ).metadata.has_base_any) == solver.info(base.class).metadata.has_base_any
        }),
{
    let parents = solver.compared_with(seq![base]);
    let range = solver.info(cls).decl_range(name@)->0;
    assert(parents[0] == base);
    assert(parents.drop_last() =~= Seq::empty());
    assert(parents.last() == base);
    assert(solver.all_parent_reports(cls, name, class_field, parents.drop_last(), range)
        =~= Seq::empty());
    assert(solver.all_parent_reports(cls, name, class_field, parents, range)
        =~= solver.parent_reports(cls, name, class_field, base, range));
}

/// A field that overrides a member of its only base is reported as unfit exactly where what
/// instances of the class see of it cannot stand in for what they see of the member of the base.
/// It does not matter whether the member has an annotation: methods are compared too. Only a
/// member without one that is `None` says nothing.
pub proof fn law_overrides_are_compared<Ans: LookupAnswer>(
    solver: AnswersSolver<Ans>,
    cls: Class,
    name: String,
    class_field: ClassField,
    base: ClassType,
    want: ClassField,
)
    requires
        comparable(solver, cls, name, class_field, base),
        solver.member(base.class, name@) == Some(want),
        !want.final_field(),
        want.class_var() == class_field.class_var(),
        !(want.field_type() is NoneType),
        attribute_says_all(seen_by_child(solver, cls, name, base, want)),
    ensures
        ({
            let reports = solver.override_reports(cls, name, class_field, seq![base]);
            let fits = attribute_subset(
                solver.answers,
                solver.instance_attribute(
                    name,
                    class_field,
                    plain_instance(solver.info(cls).instance_type),
                ),
                seen_by_child(solver, cls, name, base, want),
            ) is Ok;
            &&& !fits ==> reports.len() >= 1 && unfit(reports[0].rule) && reports[0].range
                == solver.info(cls).decl_range(name@)->0
            &&& fits ==> forall|i: int| 0 <= i < reports.len() ==> !unfit((#[trigger] reports[i]).rule)
            &&& forall|i: int|
                1 <= i < reports.len() ==> (#[trigger] reports[i]).rule
                    == Rule::MissingOverrideDecorator
        }),
{
    lemma_single_parent(solver, cls, name, class_field, base);
}

/// Every comparison of an override with what the child sees of the member of the base, overloads
/// and unwritten return types included, leads to a report where it fails.
pub proof fn law_unfit_overrides_are_reported<Ans: LookupAnswer>(
    solver: AnswersSolver<Ans>,
    cls: Class,
    name: String,
    class_field: ClassField,
    base: ClassType,
    want: ClassField,
    wanted: ClassAttribute,
)
    requires
        comparable(solver, cls, name, class_field, base),
        solver.member(base.class, name@) == Some(want),
        !want.final_field(),
        want.class_var() == class_field.class_var(),
        !(want.field_type() is NoneType),
        solver.wanted_attribute(cls, name, base, want) == Some(wanted),
        attribute_subset(
            solver.answers,
            solver.instance_attribute(
                name,
                class_field,
                plain_instance(solver.info(cls).instance_type),
            ),
            wanted,
        ) is Err,
    ensures
        ({
            let reports = solver.override_reports(cls, name, class_field, seq![base]);
            &&& reports.len() >= 1
            &&& unfit(reports[0].rule)
            &&& reports[0].range == solver.info(cls).decl_range(name@)->0
        }),
{
    lemma_single_parent(solver, cls, name, class_field, base);
}

/// A member that is `None` and has no annotation can be overridden by anything.
pub proof fn law_none_can_be_overridden<Ans: LookupAnswer>(
    solver: AnswersSolver<Ans>,
    cls: Class,
    name: String,
    class_field: ClassField,
    base: ClassType,
    want: ClassField,
)
    requires
        comparable(solver, cls, name, class_field, base),
        solver.member(base.class, name@) == Some(want),
        want.field_type() is NoneType,
        want.declared() is None,
    ensures
        ({
            let reports = solver.override_reports(cls, name, class_field, seq![base]);
            forall|i: int|
                0 <= i < reports.len() ==> (#[trigger] reports[i]).rule
                    == Rule::MissingOverrideDecorator
        }),
{
    lemma_single_parent(solver, cls, name, class_field, base);
}

/// An annotated field and an annotated member of the base must agree on being class variables;
/// where they do not, that is the one thing that is reported of the two.
pub proof fn law_class_variables_override_class_variables<Ans: LookupAnswer>(
    solver: AnswersSolver<Ans>,
    cls: Class,
    name: String,
    class_field: ClassField,
    base: ClassType,
    want: ClassField,
)
    requires
        comparable(solver, cls, name, class_field, base),
        solver.member(base.class, name@) == Some(want),
        !want.final_field(),
        want.declared() is Some,
        class_field.declared() is Some,
        want.class_var() != class_field.class_var(),
    ensures
        ({
            let reports = solver.override_reports(cls, name, class_field, seq![base]);
            &&& reports.len() >= 1
            &&& reports[0].rule == Rule::BadOverride
            &&& forall|i: int|
                1 <= i < reports.len() ==> (#[trigger] reports[i]).rule
                    == Rule::MissingOverrideDecorator
        }),
{
    lemma_single_parent(solver, cls, name, class_field, base);
}

/// A field that is marked as an override and overrides nothing is reported once; one that is not
/// marked and overrides nothing is not reported.
pub proof fn law_marked_overrides_override_something<Ans: LookupAnswer>(
    solver: AnswersSolver<Ans>,
    cls: Class,
    name: String,
    class_field: ClassField,
    base: ClassType,
)
    requires
        comparable(solver, cls, name, class_field, base),
        solver.member(base.class, name@) is None,
        !solver.info(base.class).metadata.has_base_any,
    ensures
        ({
            let reports = solver.override_reports(cls, name, class_field, seq![base]);
            if class_field.explicit_override() {
                reports.len() == 1 && reports[0].rule == Rule::BadOverride && reports[0].range
                    == solver.info(cls).decl_range(name@)->0
            } else {
                reports.len() == 0
            }
        }),
{
    lemma_single_parent(solver, cls, name, class_field, base);
}

/// A function, property or descriptor that overrides a member of a known base should be marked as
/// an override; attributes and nested classes need no mark, and nothing is said below an unknown
/// base.
pub proof fn law_overrides_are_marked<Ans: LookupAnswer>(
    solver: AnswersSolver<Ans>,
    cls: Class,
    name: String,
    class_field: ClassField,
    base: ClassType,
)
    requires
        comparable(solver, cls, name, class_field, base),
        solver.member(base.class, name@) is Some,
    ensures
        ({
            let reports = solver.override_reports(cls, name, class_field, seq![base]);
            let due = !class_field.explicit_override() && !solver.info(
                base.class,
            ).metadata.has_base_any && (class_field.inner is Method || class_field.inner is Property
                || class_field.inner is Descriptor);
            &&& due ==> reports.len() >= 1 && reports.last().rule
                == Rule::MissingOverrideDecorator
            &&& !due ==> forall|i: int|
                0 <= i < reports.len() ==> (#[trigger] reports[i]).rule
                    != Rule::MissingOverrideDecorator
        }),
{
    lemma_single_parent(solver, cls, name, class_field, base);
}

/// A class without bases is compared with `object`.
pub proof fn law_classes_without_bases_extend_object<Ans: LookupAnswer>(
    solver: AnswersSolver<Ans>,
    cls: Class,
    name: String,
    class_field: ClassField,
)
    ensures
        solver.override_reports(cls, name, class_field, Seq::empty()) == solver.override_reports(
            cls,
            name,
            class_field,
            seq![solver.stdlib.object],
        ),
{
}

/// Overriding an element of a named tuple is reported.
pub proof fn law_named_tuple_elements_stay<Ans: LookupAnswer>(
    solver: AnswersSolver<Ans>,
    cls: Class,
    name: String,
    class_field: ClassField,
    base: ClassType,
)
    requires
        class_field.is_inherited is Maybe,
        checked_for_overrides(
            name@,
            solver.info(cls).metadata,
            class_field.explicit_override(),
        ),
        solver.info(cls).decl_range(name@) is Some,
        solver.info(base.class).metadata.named_tuple matches Some(names) && texts(
            names@,
        ).contains(name@),
    ensures
        ({
            let reports = solver.override_reports(cls, name, class_field, seq![base]);
            reports.len() >= 1 && reports[0].rule == Rule::BadOverride
        }),
{
    lemma_single_parent(solver, cls, name, class_field, base);
}

/// A name that does not begin with an underscore takes part in the checks, but for the options
/// class of a framework. Constructors take part only where they are marked as overrides, and
/// `__hash__`, `__slots__` and names that are private to the class never do.
pub proof fn law_ordinary_names_are_checked(
    name: Seq<char>,
    metadata: ClassMetadata,
    is_explicit_override: bool,
)
    ensures
        name.len() > 0 && name[0] != '_' && name != "Meta"@ ==> checked_for_overrides(
            name,
            metadata,
            is_explicit_override,
        ),
        name == "Meta"@ && !metadata.is_django_model && !metadata.is_marshmallow_schema
            && !metadata.is_factory_boy_factory ==> checked_for_overrides(
            name,
            metadata,
            is_explicit_override,
        ),
        name == "Meta"@ && (metadata.is_django_model || metadata.is_marshmallow_schema
            || metadata.is_factory_boy_factory) ==> !checked_for_overrides(
            name,
            metadata,
            is_explicit_override,
        ),
        name == "__init__"@ || name == "__new__"@ || name == "__init_subclass__"@
            ==> checked_for_overrides(name, metadata, is_explicit_override)
            == is_explicit_override,
        name.len() >= 2 && name[0] == '_' && name[1] != '_' && name != "_ignore_"@
            ==> checked_for_overrides(name, metadata, is_explicit_override),
        name.len() >= 2 && name[0] == '_' && name[1] == '_' && name.last() == '_' && name[name.len()
            - 2] == '_' && name != "__init__"@ && name != "__new__"@ && name
            != "__init_subclass__"@ && name != "__hash__"@ && name != "__slots__"@ && name
            != "__call__"@ && name != "__post_init__"@ ==> checked_for_overrides(
            name,
            metadata,
            is_explicit_override,
        ),
        name == "__hash__"@ || name == "__slots__"@ || name == "__call__"@ || name
            == "__post_init__"@ || name == "_ignore_"@ ==> !checked_for_overrides(
            name,
            metadata,
            is_explicit_override,
        ),
        name.len() >= 3 && name[0] == '_' && name[1] == '_' && name.last() != '_'
            ==> !checked_for_overrides(name, metadata, is_explicit_override),
{
    reveal_strlit("Meta");
    reveal_strlit("__new__");
    reveal_strlit("__init__");
    reveal_strlit("__init_subclass__");
    reveal_strlit("__hash__");
    reveal_strlit("__call__");
    reveal_strlit("__post_init__");
    reveal_strlit("_ignore_");
    reveal_strlit("__slots__");
    assert("Meta"@[0] == 'M');
    assert("__new__"@.len() == 7 && "__new__"@[0] == '_' && "__new__"@[1] == '_' && "__new__"@[5]
        == '_' && "__new__"@[6] == '_');
    assert("__init__"@.len() == 8 && "__init__"@[0] == '_' && "__init__"@[1] == '_'
        && "__init__"@[2] == 'i' && "__init__"@[6] == '_' && "__init__"@[7] == '_');
    assert("__init_subclass__"@.len() == 17 && "__init_subclass__"@[0] == '_'
        && "__init_subclass__"@[1] == '_' && "__init_subclass__"@[15] == '_'
        && "__init_subclass__"@[16] == '_');
    assert("__hash__"@[0] == '_' && "__hash__"@[2] == 'h' && "__hash__"@.len() == 8);
    assert("__call__"@[0] == '_' && "__call__"@[2] == 'c' && "__call__"@.len() == 8);
    assert("__post_init__"@[0] == '_' && "__post_init__"@.len() == 13);
    assert("_ignore_"@[0] == '_' && "_ignore_"@[1] == 'i' && "_ignore_"@.len() == 8);
    assert("__slots__"@[0] == '_' && "__slots__"@.len() == 9);
}

/// What can stand in for a plain attribute gives values of its type, and where the attribute can be
/// written and is no function, takes all values that the attribute takes.
pub proof fn law_fitting_attributes_are_substitutable<S: LookupAnswer>(
    s: S,
    got: ClassAttribute,
    want: ClassAttribute,
)
    requires
        attribute_subset(s, got, want) is Ok,
    ensures
        want matches ClassAttribute::ReadOnly(w, _) ==> match got {
            ClassAttribute::ReadOnly(g, _) => s.subset(g, w) is Ok,
            ClassAttribute::ReadWrite(g) => s.subset(g, w) is Ok,
            _ => false,
        },
        want matches ClassAttribute::ReadWrite(w) ==> (got matches ClassAttribute::ReadWrite(g)
            && s.subset(g, w) is Ok && (g.func_metadata() is None || w.func_metadata() is None
            ==> s.subset(w, g) is Ok)),
        want matches ClassAttribute::Property(getter, setter, _) ==> match got {
            ClassAttribute::Property(g, gs, _) => s.subset(g, getter) is Ok && (setter matches Some(
                w,
            ) ==> (gs matches Some(t) && s.subset(t, w) is Ok)),
            ClassAttribute::ReadWrite(g) => s.subset(Type::any_call(g), getter) is Ok,
            ClassAttribute::ReadOnly(g, _) => s.subset(Type::any_call(g), getter) is Ok && setter
                is None,
            _ => false,
        },
        want is Descriptor ==> got is Descriptor,
        got is NoAccess ==> want is NoAccess,
{
}

/// Plain attributes that agree on belonging to the class fit as soon as their types do: both ways
/// where values are written, in one direction where they are only read.
pub proof fn law_matching_attributes_fit<S: LookupAnswer>(
    s: S,
    g: Type,
    w: Type,
    reason: ReadOnlyReason,
)
    ensures
        s.subset(g, w) is Ok && s.subset(w, g) is Ok ==> attribute_subset(
            s,
            ClassAttribute::ReadWrite(g),
            ClassAttribute::ReadWrite(w),
        ) is Ok,
        s.subset(g, w) is Ok && g.func_metadata() is Some && w.func_metadata() is Some
            ==> attribute_subset(s, ClassAttribute::ReadWrite(g), ClassAttribute::ReadWrite(w)) is Ok,
        s.subset(g, w) is Ok && !(reason is ClassVar) && !(reason is ClassObjectInitializedOnBody)
            ==> attribute_subset(
            s,
            ClassAttribute::ReadWrite(g),
            ClassAttribute::ReadOnly(w, reason),
        ) is Ok,
        s.subset(g, w) is Ok ==> attribute_subset(
            s,
            ClassAttribute::ReadOnly(g, reason),
            ClassAttribute::ReadOnly(w, reason),
        ) is Ok,
{
}

/// A key of a typed dictionary that overrides one of a base keeps what the base promises: a key
/// that can be written stays so and keeps being required or not, and a required key stays
/// required. Every change of these is reported once, and nothing else is.
pub proof fn law_typed_dict_keys_keep_their_promises(
    child_cls: Class,
    child_metadata: ClassMetadata,
    parent_cls: Class,
    parent_metadata: ClassMetadata,
    name: Seq<char>,
    child_field: ClassField,
    parent_field: ClassField,
    range: TextRange,
    child_total: bool,
    parent_total: bool,
    child: crate::annotation::TypedDictField,
    parent: crate::annotation::TypedDictField,
)
    requires
        child_metadata.typed_dict_total(name) == Some(child_total),
        parent_metadata.typed_dict_total(name) == Some(parent_total),
        child_field.typed_dict_info(child_total) == Some(child),
        parent_field.typed_dict_info(parent_total) == Some(parent),
    ensures
        ({
            let reports = key_override_reports(
                child_cls,
                child_metadata,
                parent_cls,
                parent_metadata,
                name,
                child_field,
                parent_field,
                range,
            );
            let kept = (parent.read_only_reason is None ==> child.read_only_reason is None
                && child.required == parent.required) && (parent.required ==> child.required);
            &&& kept ==> reports.len() == 0
            &&& !kept ==> reports.len() == 1 && reports[0].rule == Rule::BadTypedDictKey
                && reports[0].range == range
        }),
{
}

/// A method whose body only raises `NotImplementedError`, and whose return type nobody wrote, may
/// return anything in an override, or any coroutine where it is asynchronous. Everything else is
/// compared as it is.
pub proof fn law_unwritten_returns_are_open(f: Function, any_coroutine: ClassType)
    ensures
        ({
            let r = relaxed(Type::Function(f), any_coroutine);
            let open = f.metadata.flags.is_return_inferred && f.metadata.flags.placeholder_body_kind
                == Some(PlaceholderBodyKind::RaiseNotImplementedError);
            &&& !open ==> r == Type::Function(f)
            &&& open ==> (r matches Type::Function(g) && g.metadata == f.metadata
                && g.signature.params == f.signature.params && g.signature.ret
                == if f.metadata.flags.is_async {
                Type::ClassType(any_coroutine)
            } else {
                Type::Any(AnyStyle::Implicit)
            })
        }),
{
}

/// Each part of an attribute is opened on its own, and the attribute stays what it is.
pub proof fn law_opened_attributes_stay_attributes(
    ty: Type,
    reason: ReadOnlyReason,
    setter: Type,
    cls: Class,
    attr: ClassAttribute,
    any_coroutine: ClassType,
)
    ensures
        relaxed_attribute(ClassAttribute::ReadWrite(ty), any_coroutine)
            == ClassAttribute::ReadWrite(relaxed(ty, any_coroutine)),
        relaxed_attribute(ClassAttribute::ReadOnly(ty, reason), any_coroutine)
            == ClassAttribute::ReadOnly(relaxed(ty, any_coroutine), reason),
        relaxed_attribute(ClassAttribute::Property(ty, Some(setter), cls), any_coroutine)
            == ClassAttribute::Property(
            relaxed(ty, any_coroutine),
            Some(relaxed(setter, any_coroutine)),
            cls,
        ),
        relaxed_attribute(ClassAttribute::Property(ty, None, cls), any_coroutine)
            == ClassAttribute::Property(relaxed(ty, any_coroutine), None, cls),
        attr is NoAccess || attr is Descriptor ==> relaxed_attribute(attr, any_coroutine) == attr,
{
}

/// Of an overloaded method only the signatures that the child can be passed to count. Where there
/// are none, there is nothing to compare; a method that is not overloaded counts as it is.
pub proof fn law_only_usable_overloads_count<S: LookupAnswer>(
    s: S,
    obj: Type,
    o: Overload,
    f: Function,
    child: Type,
)
    ensures
        ({
            let kept = applicable_sigs(s, child, *o.signatures, false);
            let r = for_child(
                s,
                Type::BoundMethod(Arc::new(BoundMethod { obj, func: BoundMethodType::Overload(o) })),
                child,
            );
            &&& r is None == (kept@.len() == 0)
            &&& r matches Some(ty) ==> (ty matches Type::BoundMethod(b) && b.obj == obj && (b.func
                matches BoundMethodType::Overload(q) && *q.signatures == kept && q.metadata
                == o.metadata))
        }),
        for_child(
            s,
            Type::BoundMethod(Arc::new(BoundMethod { obj, func: BoundMethodType::Function(f) })),
            child,
        ) == Some(
            Type::BoundMethod(Arc::new(BoundMethod { obj, func: BoundMethodType::Function(f) })),
        ),
        for_child(s, Type::Function(f), child) == Some(Type::Function(f)),
{
}

/// A parameter that was merely renamed is reported as such and both names are shown; any other
/// misfit is reported with its reason, as one about what can be written where that is the reason.
pub proof fn law_misfits_are_explained<Ans: LookupAnswer>(
    solver: AnswersSolver<Ans>,
    got: Type,
    want: Type,
    subset_error: SubsetError,
    cls: Class,
    parent: Class,
    name: Seq<char>,
    range: TextRange,
)
    requires
        got.signatures().len() == 1,
        want.signatures().len() == 1,
        got.signatures()[0].params == want.signatures()[0].params,
    ensures
        ({
            let error = AttrSubsetError::Covariant {
                got,
                want,
                got_is_property: false,
                want_is_property: false,
                subset_error,
            };
            let report = solver.mismatch_report(error, cls, parent, name, range);
            let headline = "Class member `"@ + cls.name@ + "."@ + name
                + "` overrides parent class `"@ + parent.name@ + "` in an inconsistent manner"@;
            &&& report.range == range
            &&& report.lines[0] == headline
            &&& subset_error matches SubsetError::PosParamName(child_name, parent_name) ==> {
                &&& report.rule == Rule::BadOverrideParamName
                &&& report.lines.len() == 2
                &&& report.lines[1] == "Got parameter name `"@ + child_name@ + "`, expected `"@
                    + parent_name@ + "`"@
            }
            &&& subset_error is Other ==> {
                &&& report.rule == Rule::BadOverride
                &&& report.lines.len() >= 2
                &&& report.lines[1] == solver.answers.subset_text(
                    error,
                    cls.name@,
                    parent.name@,
                    name,
                )
            }
        }),
{
}

/// Where an override takes or gives fewer arguments by position, or there is more than one signature,
/// a name alone is not the matter.
pub proof fn law_renaming_needs_matching_signatures<Ans: LookupAnswer>(
    solver: AnswersSolver<Ans>,
    error: AttrSubsetError,
    cls: Class,
    parent: Class,
    name: Seq<char>,
    range: TextRange,
)
    requires
        match error {
            AttrSubsetError::Covariant { got, want, .. } => got.signatures().len() != 1
                || want.signatures().len() != 1,
            AttrSubsetError::Invariant { got, want, .. } => got.signatures().len() != 1
                || want.signatures().len() != 1,
            AttrSubsetError::Contravariant { got, want, .. } => got.signatures().len() != 1
                || want.signatures().len() != 1,
            _ => true,
        },
    ensures
        ({
            let report = solver.mismatch_report(error, cls, parent, name, range);
            &&& report.lines.len() == 2
            &&& error is Invariant ==> report.rule == Rule::BadOverrideMutableAttribute
            &&& error is Covariant || error is ReadOnly || error is Property || error is NoAccess
                || error is ClassVarMismatch || error is Descriptor ==> report.rule
                == Rule::BadOverride
            &&& error matches AttrSubsetError::Contravariant { got_is_property, want_is_property, .. }
                ==> (report.rule == if want_is_property && !got_is_property {
                Rule::BadOverrideMutableAttribute
            } else {
                Rule::BadOverride
            })
        }),
{
}

/// Of a signature that is shown the name is exchanged, and the parameters and the rest stay.
pub proof fn law_shown_signatures_are_renamed(head: Seq<char>, rest: Seq<char>, name: Seq<char>)
    requires
        forall|i: int| 0 <= i < head.len() ==> head[i] != '(',
    ensures
        renamed_signature("def "@ + head + seq!['('] + rest, name) == "def "@ + name + (seq!['(']
            + rest),
{
    reveal_strlit("def ");
    let sig = "def "@ + head + seq!['('] + rest;
    assert("def "@.len() == 4);
    assert(sig.take(4) =~= "def "@);
    let tail = head + seq!['('] + rest;
    assert(sig.skip(4) =~= tail);
    lemma_first_bracket(head, rest);
    assert(tail.skip(head.len() as int) =~= seq!['('] + rest);
}

proof fn lemma_first_bracket(head: Seq<char>, rest: Seq<char>)
    requires
        forall|i: int| 0 <= i < head.len() ==> head[i] != '(',
    ensures
        first_index(head + seq!['('] + rest, '(') == Some(head.len() as int),
    decreases head.len(),
{
    let s = head + seq!['('] + rest;
    if head.len() > 0 {
        lemma_first_bracket(head.drop_first(), rest);
        assert(s.drop_first() =~= head.drop_first() + seq!['('] + rest);
        assert(s[0] == head[0]);
    } else {
        assert(s[0] == '(');
    }
}

/// What a signature is compared with is shown first, then the signature itself, both under the name
/// of the member.
pub proof fn law_single_signatures_are_set_against_each_other<Ans: LookupAnswer>(
    solver: AnswersSolver<Ans>,
    got: Type,
    want: Type,
    subset_error: SubsetError,
    name: Seq<char>,
)
    ensures
        ({
            let shown = solver.signature_difference(
                AttrSubsetError::Invariant { got, want, subset_error },
                name,
            );
            &&& got.signatures().len() == 1 && want.signatures().len() == 1 ==> shown
                == solver.answers.diff_lines(
                renamed_signature(solver.answers.signature_shown(want, got, want), name),
                renamed_signature(solver.answers.signature_shown(got, got, want), name),
            )
            &&& got.signatures().len() != 1 || want.signatures().len() != 1 ==> shown.len() == 0
        }),
{
}

/// A key of a typed dictionary is compared as a key with the key that it overrides; where only one
/// of the two is a key, they are not compared.
pub proof fn law_keys_override_keys<Ans: LookupAnswer>(
    solver: AnswersSolver<Ans>,
    cls: Class,
    name: String,
    class_field: ClassField,
    parent: ClassType,
    want: ClassField,
    range: TextRange,
)
    requires
        !want.final_field(),
        want.class_var() == class_field.class_var(),
    ensures
        ({
            let own = solver.info(cls).metadata;
            let theirs = solver.info(parent.class).metadata;
            let reports = solver.member_override_reports(
                cls,
                name,
                class_field,
                parent,
                want,
                range,
            );
            let keys = key_override_reports(
                cls,
                own,
                parent.class,
                theirs,
                name@,
                class_field,
                want,
                range,
            );
            &&& own.typed_dict_total(name@) is Some != theirs.typed_dict_total(name@) is Some
                ==> reports.len() == 0
            &&& own.typed_dict_total(name@) is Some && theirs.typed_dict_total(name@) is Some
                && keys.len() > 0 ==> reports == keys
        }),
{
}

/// A final member is reported with its class, and nothing else is compared.
pub proof fn law_final_members_are_not_overridden<Ans: LookupAnswer>(
    solver: AnswersSolver<Ans>,
    cls: Class,
    name: String,
    class_field: ClassField,
    parent: ClassType,
    want: ClassField,
    range: TextRange,
)
    requires
        want.final_field(),
    ensures
        solver.member_override_reports(cls, name, class_field, parent, want, range) == seq![
            ReportView {
                range,
                rule: Rule::BadOverride,
                lines: seq![
                    seq!['`'] + name@ + "` is declared as final in parent class `"@
                        + parent.class.name@ + seq!['`'],
                ],
            },
        ],
{
    reveal_strlit("`");
    assert("`"@ =~= seq!['`']);
}

/// Each parent is looked at in turn; an element that the class itself has as a named tuple is not
/// compared with the members of its parents.
pub proof fn law_parents_are_looked_at_in_turn<Ans: LookupAnswer>(
    solver: AnswersSolver<Ans>,
    cls: Class,
    name: String,
    class_field: ClassField,
    parents: Seq<ClassType>,
    parent: ClassType,
    range: TextRange,
)
    ensures
        solver.all_parent_reports(cls, name, class_field, Seq::empty(), range).len() == 0,
        solver.all_parent_reports(cls, name, class_field, parents.push(parent), range)
            == solver.all_parent_reports(cls, name, class_field, parents, range)
            + solver.parent_reports(cls, name, class_field, parent, range),
        !solver.info(parent.class).metadata.named_tuple_element(name@) && solver.info(
            cls,
        ).metadata.named_tuple_element(name@) ==> solver.parent_reports(
            cls,
            name,
            class_field,
            parent,
            range,
        ).len() == 0,
        !solver.info(parent.class).metadata.named_tuple_element(name@) && !solver.info(
            cls,
        ).metadata.named_tuple_element(name@) ==> (match solver.member(parent.class, name@) {
            None => solver.parent_reports(cls, name, class_field, parent, range).len() == 0,
            Some(want) => solver.parent_reports(cls, name, class_field, parent, range)
                == solver.member_override_reports(cls, name, class_field, parent, want, range),
        }),
{
    assert(parents.push(parent).drop_last() =~= parents);
}

} // verus!
