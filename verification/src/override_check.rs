use std::sync::Arc;

use vstd::prelude::*;

use crate::attribute::ClassAttribute;
use crate::attributes::{applicable_sigs, keep_applicable};
use crate::class_field::{ClassField, IsInherited};
use crate::instance::{Instance, InstanceKind};
use crate::metadata::ClassMetadata;
use crate::names::{is_mangled_attr, mangled_name};
use crate::overrides::{attribute_subset, AttrSubsetError};
use crate::reading::plain_instance;
use crate::report::{report1, ErrorCollector, ReportView, Rule, TextRange};
use crate::solver::{AnswersSolver, LookupAnswer, SubsetError};
use crate::text::{
    begins_with, cat3, cat5, cat7, chars_of, find_char, first_index, matches_at, same_text,
    string_of, texts,
};
use crate::types::{
    positional_limit, same_positional_limit, AnyStyle, BoundMethod, BoundMethodType, Class,
    ClassType, Overload, Params, PlaceholderBodyKind, Type,
};

verus! {

/// Whether a field takes part in override checks. Constructors only do so on request; some names
/// are overridden with other types by convention; private names never meet; and some frameworks
/// use an inner class `Meta` for configuration.
pub open spec fn checked_for_overrides(
    name: Seq<char>,
    metadata: ClassMetadata,
    is_explicit_override: bool,
) -> bool {
    &&& is_explicit_override || (name != "__new__"@ && name != "__init__"@ && name
        != "__init_subclass__"@)
    &&& name != "__hash__"@
    &&& name != "__call__"@
    &&& !mangled_name(name)
    &&& name != "__post_init__"@
    &&& name != "_ignore_"@
    &&& name != "__slots__"@
    &&& !((metadata.is_django_model || metadata.is_marshmallow_schema
        || metadata.is_factory_boy_factory) && name == "Meta"@)
}

/// Whether a field takes part in override checks.
pub fn should_check_field_for_override_consistency(
    field_name: &str,
    class_metadata: &ClassMetadata,
    is_explicit_override: bool,
) -> (r: bool)
    ensures
        r == checked_for_overrides(field_name@, *class_metadata, is_explicit_override),
{
    if !is_explicit_override && (same_text(field_name, "__new__") || same_text(
        field_name,
        "__init__",
    ) || same_text(field_name, "__init_subclass__")) {
        return false;
    }
    if same_text(field_name, "__hash__") {
        return false;
    }
    if same_text(field_name, "__call__") {
        return false;
    }
    if is_mangled_attr(field_name) {
        return false;
    }
    if same_text(field_name, "__post_init__") {
        return false;
    }
    if same_text(field_name, "_ignore_") {
        return false;
    }
    if same_text(field_name, "__slots__") {
        return false;
    }
    if (class_metadata.is_django_model || class_metadata.is_marshmallow_schema
        || class_metadata.is_factory_boy_factory) && same_text(field_name, "Meta") {
        return false;
    }
    true
}

/// The report on a typed dictionary key that changes in a way its parent rules out.
pub open spec fn key_report(
    range: TextRange,
    name: Seq<char>,
    child: Seq<char>,
    change: Seq<char>,
    parent: Seq<char>,
    definition: Seq<char>,
) -> ReportView {
    report1(
        range,
        Rule::BadTypedDictKey,
        "TypedDict field `"@ + name + "` in `"@ + child + change + parent + definition,
    )
}

/// The reports on a typed dictionary key that overrides one of a parent: a mutable key stays
/// mutable and keeps its requiredness, and a required key stays required.
pub open spec fn key_override_reports(
    child_cls: Class,
    child_metadata: ClassMetadata,
    parent_cls: Class,
    parent_metadata: ClassMetadata,
    name: Seq<char>,
    child_field: ClassField,
    parent_field: ClassField,
    range: TextRange,
) -> Seq<ReportView> {
    match (key_info(child_metadata, name, child_field), key_info(
        parent_metadata,
        name,
        parent_field,
    )) {
        (Some(child), Some(parent)) => {
            let parent_mutable = parent.read_only_reason is None;
            let child_mutable = child.read_only_reason is None;
            if parent_mutable && !child_mutable {
                seq![
                    key_report(
                        range,
                        name,
                        child_cls.name@,
                        "` cannot be marked read-only; parent TypedDict `"@,
                        parent_cls.name@,
                        "` defines it as mutable"@,
                    ),
                ]
            } else if parent_mutable && parent.required && !child.required {
                seq![
                    key_report(
                        range,
                        name,
                        child_cls.name@,
                        "` must remain required because parent TypedDict `"@,
                        parent_cls.name@,
                        "` defines it as required"@,
                    ),
                ]
            } else if parent_mutable && !parent.required && child.required {
                seq![
                    key_report(
                        range,
                        name,
                        child_cls.name@,
                        "` cannot be made required; parent TypedDict `"@,
                        parent_cls.name@,
                        "` defines it as non-required"@,
                    ),
                ]
            } else if !parent_mutable && parent.required && !child.required {
                seq![
                    key_report(
                        range,
                        name,
                        child_cls.name@,
                        "` cannot be made non-required; parent TypedDict `"@,
                        parent_cls.name@,
                        "` defines it as required"@,
                    ),
                ]
            } else {
                Seq::empty()
            }
        },
        _ => Seq::empty(),
    }
}

/// A field as a key of the typed dictionary that its class is.
pub open spec fn key_info(metadata: ClassMetadata, name: Seq<char>, field: ClassField) -> Option<
    crate::annotation::TypedDictField,
> {
    match metadata.typed_dict_total(name) {
        Some(is_total) => field.typed_dict_info(is_total),
        None => None,
    }
}

/// A field as a key of the typed dictionary that its class is.
pub fn typed_dict_field_info(metadata: &ClassMetadata, field_name: &str, field: &ClassField) -> (r:
    Option<crate::annotation::TypedDictField>)
    ensures
        r == key_info(*metadata, field_name@, *field),
{
    match metadata.typed_dict_field(field_name) {
        Some(is_total) => field.as_typed_dict_field_info(is_total),
        None => None,
    }
}

/// Whether a name is a key of the typed dictionary that the class is.
pub fn is_typed_dict_field(metadata: &ClassMetadata, field_name: &str) -> (r: bool)
    ensures
        r == metadata.typed_dict_total(field_name@) is Some,
{
    metadata.typed_dict_field(field_name).is_some()
}

fn report_key(
    errors: &mut ErrorCollector,
    range: TextRange,
    name: &str,
    child: &str,
    change: &str,
    parent: &str,
    definition: &str,
)
    ensures
        final(errors)@ == old(errors)@ + seq![
            key_report(range, name@, child@, change@, parent@, definition@),
        ],
{
    errors.error(
        range,
        Rule::BadTypedDictKey,
        cat7("TypedDict field `", name, "` in `", child, change, parent, definition),
    );
    assert(errors@ =~= old(errors)@ + seq![
        key_report(range, name@, child@, change@, parent@, definition@),
    ]);
}

/// Reports a typed dictionary key that changes in a way its parent rules out; says whether there
/// was nothing to report.
pub fn validate_typed_dict_field_override(
    child_cls: &Class,
    child_metadata: &ClassMetadata,
    parent_cls: &Class,
    parent_metadata: &ClassMetadata,
    field_name: &str,
    child_field: &ClassField,
    parent_field: &ClassField,
    range: TextRange,
    errors: &mut ErrorCollector,
) -> (r: bool)
    ensures
        ({
            let reports = key_override_reports(
                *child_cls,
                *child_metadata,
                *parent_cls,
                *parent_metadata,
                field_name@,
                *child_field,
                *parent_field,
                range,
            );
            &&& r == (reports.len() == 0)
            &&& final(errors)@ == old(errors)@ + reports
        }),
{
    assert(errors@ + Seq::<ReportView>::empty() =~= errors@);
    let child_info = match typed_dict_field_info(child_metadata, field_name, child_field) {
        Some(info) => info,
        None => {
            return true;
        },
    };
    let parent_info = match typed_dict_field_info(parent_metadata, field_name, parent_field) {
        Some(info) => info,
        None => {
            return true;
        },
    };
    let child_name = child_cls.name.as_str();
    let parent_name = parent_cls.name.as_str();
    let parent_mutable = !parent_info.is_read_only();
    let child_mutable = !child_info.is_read_only();
    if parent_mutable {
        if !child_mutable {
            report_key(
                errors,
                range,
                field_name,
                child_name,
                "` cannot be marked read-only; parent TypedDict `",
                parent_name,
                "` defines it as mutable",
            );
            return false;
        }
        if parent_info.required && !child_info.required {
            report_key(
                errors,
                range,
                field_name,
                child_name,
                "` must remain required because parent TypedDict `",
                parent_name,
                "` defines it as required",
            );
            return false;
        }
        if !parent_info.required && child_info.required {
            report_key(
                errors,
                range,
                field_name,
                child_name,
                "` cannot be made required; parent TypedDict `",
                parent_name,
                "` defines it as non-required",
            );
            return false;
        }
    } else if parent_info.required && !child_info.required {
        report_key(
            errors,
            range,
            field_name,
            child_name,
            "` cannot be made non-required; parent TypedDict `",
            parent_name,
            "` defines it as required",
        );
        return false;
    }
    true
}

/// A signature with the attribute's name in place of the function's own.
pub open spec fn renamed_signature(sig: Seq<char>, name: Seq<char>) -> Seq<char> {
    if begins_with(sig, "def "@) && first_index(sig.skip(4), '(') is Some {
        "def "@ + name + sig.skip(4).skip(first_index(sig.skip(4), '(')->0)
    } else {
        sig
    }
}

fn normalize_name(sig: &str, name: &str) -> (r: String)
    ensures
        r@ == renamed_signature(sig@, name@),
{
    let chars = chars_of(sig);
    let def = chars_of("def ");
    proof {
        reveal_strlit("def ");
    }
    assert(chars@.skip(0) =~= sig@);
    if matches_at(&chars, 0, &def) {
        match find_char(&chars, 4, '(') {
            Some(paren) => {
                let rest = string_of(&chars, paren, chars.len());
                assert(rest@ =~= sig@.skip(4).skip(paren - 4));
                return cat3("def ", name, rest.as_str());
            },
            None => {},
        }
    }
    sig.to_owned()
}

/// A parent method that only raises `NotImplementedError`, and whose return type nobody wrote
/// down, says nothing about what it returns: an override may return anything. An asynchronous
/// one still returns a coroutine.
pub open spec fn relaxed(ty: Type, any_coroutine: ClassType) -> Type {
    match ty.func_metadata() {
        Some(m) => if m.flags.placeholder_body_kind == Some(
            PlaceholderBodyKind::RaiseNotImplementedError,
        ) && m.flags.is_return_inferred {
            ty.returning(
                if m.flags.is_async {
                    Type::ClassType(any_coroutine)
                } else {
                    Type::Any(AnyStyle::Implicit)
                },
            )
        } else {
            ty
        },
        None => ty,
    }
}

fn relax(ty: Type, any_coroutine: &ClassType) -> (r: Type)
    ensures
        r == relaxed(ty, *any_coroutine),
{
    let flags = match ty.toplevel_flags() {
        Some(flags) => flags,
        None => {
            return ty;
        },
    };
    let raises = match flags.placeholder_body_kind {
        Some(kind) => kind == PlaceholderBodyKind::RaiseNotImplementedError,
        None => false,
    };
    if !raises || !flags.is_return_inferred {
        return ty;
    }
    if flags.is_async {
        ty.with_return(&Type::ClassType(any_coroutine.dupe()))
    } else {
        ty.with_return(&Type::Any(AnyStyle::Implicit))
    }
}

/// The attribute of a parent, with the return types that nobody wrote down left open.
pub open spec fn relaxed_attribute(attr: ClassAttribute, any_coroutine: ClassType) -> ClassAttribute {
    match attr {
        ClassAttribute::ReadOnly(ty, reason) => ClassAttribute::ReadOnly(
            relaxed(ty, any_coroutine),
            reason,
        ),
        ClassAttribute::ReadWrite(ty) => ClassAttribute::ReadWrite(relaxed(ty, any_coroutine)),
        ClassAttribute::Property(getter, setter, cls) => ClassAttribute::Property(
            relaxed(getter, any_coroutine),
            match setter {
                Some(t) => Some(relaxed(t, any_coroutine)),
                None => None,
            },
            cls,
        ),
        _ => attr,
    }
}

fn relax_attribute(attr: ClassAttribute, any_coroutine: &ClassType) -> (r: ClassAttribute)
    ensures
        r == relaxed_attribute(attr, *any_coroutine),
{
    match attr {
        ClassAttribute::ReadOnly(ty, reason) => ClassAttribute::ReadOnly(
            relax(ty, any_coroutine),
            reason,
        ),
        ClassAttribute::ReadWrite(ty) => ClassAttribute::ReadWrite(relax(ty, any_coroutine)),
        ClassAttribute::Property(getter, setter, cls) => ClassAttribute::Property(
            relax(getter, any_coroutine),
            match setter {
                Some(t) => Some(relax(t, any_coroutine)),
                None => None,
            },
            cls,
        ),
        other => other,
    }
}

/// A bound overload without the signatures that the child class cannot be passed to; `None` where
/// none is left. Other types stay as they are.
pub open spec fn for_child<S: LookupAnswer>(s: S, ty: Type, child_type: Type) -> Option<Type> {
    match ty {
        Type::BoundMethod(b) => match b.func {
            BoundMethodType::Overload(o) => {
                let kept = applicable_sigs(s, child_type, *o.signatures, false);
                if kept@.len() == 0 {
                    None
                } else {
                    Some(
                        Type::BoundMethod(
                            Arc::new(
                                BoundMethod {
                                    obj: b.obj,
                                    func: BoundMethodType::Overload(
                                        Overload {
                                            signatures: Arc::new(kept),
                                            metadata: o.metadata,
                                        },
                                    ),
                                },
                            ),
                        ),
                    )
                }
            },
            _ => Some(ty),
        },
        _ => Some(ty),
    }
}

/// The attribute of a parent, without the overloads that the child class cannot be passed to;
/// `None` where none is left.
pub open spec fn attribute_for_child<S: LookupAnswer>(
    s: S,
    attr: ClassAttribute,
    child_type: Type,
) -> Option<ClassAttribute> {
    match attr {
        ClassAttribute::ReadWrite(ty) => match for_child(s, ty, child_type) {
            Some(t) => Some(ClassAttribute::ReadWrite(t)),
            None => None,
        },
        ClassAttribute::ReadOnly(ty, reason) => match for_child(s, ty, child_type) {
            Some(t) => Some(ClassAttribute::ReadOnly(t, reason)),
            None => None,
        },
        _ => Some(attr),
    }
}

fn filter_type<S: LookupAnswer>(s: &S, ty: Type, child_type: &Type) -> (r: Option<Type>)
    ensures
        r == for_child(*s, ty, *child_type),
{
    match &ty {
        Type::BoundMethod(b) => match &b.func {
            BoundMethodType::Overload(o) => {
                let (kept, _) = keep_applicable(s, child_type, &*o.signatures, false);
                if kept.is_empty() {
                    None
                } else {
                    Some(
                        Type::BoundMethod(
                            Arc::new(
                                BoundMethod {
                                    obj: b.obj.dupe(),
                                    func: BoundMethodType::Overload(
                                        Overload {
                                            signatures: Arc::new(kept),
                                            metadata: o.metadata.clone(),
                                        },
                                    ),
                                },
                            ),
                        ),
                    )
                }
            },
            _ => Some(ty),
        },
        _ => Some(ty),
    }
}

/// Leaves out the overloads of a parent's attribute that the child class cannot be passed to.
pub fn filter_overloads_for_override<S: LookupAnswer>(
    s: &S,
    attr: ClassAttribute,
    child_type: &Type,
) -> (r: Option<ClassAttribute>)
    ensures
        r == attribute_for_child(*s, attr, *child_type),
{
    match attr {
        ClassAttribute::ReadWrite(ty) => match filter_type(s, ty, child_type) {
            Some(t) => Some(ClassAttribute::ReadWrite(t)),
            None => None,
        },
        ClassAttribute::ReadOnly(ty, reason) => match filter_type(s, ty, child_type) {
            Some(t) => Some(ClassAttribute::ReadOnly(t, reason)),
            None => None,
        },
        other => Some(other),
    }
}

/// The two types that did not fit, and why, where the mismatch is one between types.
pub open spec fn mismatch(error: AttrSubsetError) -> Option<(Type, Type, SubsetError)> {
    match error {
        AttrSubsetError::Covariant { got, want, subset_error, .. } => Some(
            (got, want, subset_error),
        ),
        AttrSubsetError::Invariant { got, want, subset_error } => Some((got, want, subset_error)),
        AttrSubsetError::Contravariant { want, got, subset_error, .. } => Some(
            (got, want, subset_error),
        ),
        _ => None,
    }
}

/// How many arguments a signature takes by position.
pub open spec fn positional_max(params: Params) -> Option<nat> {
    match params {
        Params::List(ps) => positional_limit(ps),
        _ => None,
    }
}

fn same_positional_max(a: &Params, b: &Params) -> (r: bool)
    ensures
        r == (positional_max(*a) == positional_max(*b)),
{
    match (a, b) {
        (Params::List(p), Params::List(q)) => same_positional_limit(p, q),
        (Params::List(p), _) => !crate::types::has_positional_limit(p),
        (_, Params::List(q)) => !crate::types::has_positional_limit(q),
        _ => true,
    }
}

/// Whether two types have a single signature each, and the two take as many arguments by
/// position. Otherwise parameter names are compared out of step.
pub open spec fn in_step(got: Type, want: Type) -> bool {
    got.signatures().len() == 1 && want.signatures().len() == 1 && positional_max(
        got.signatures()[0].params,
    ) == positional_max(want.signatures()[0].params)
}

/// Whether a mismatch is that of an attribute that can be written.
pub open spec fn mutable_mismatch(error: AttrSubsetError) -> bool {
    match error {
        AttrSubsetError::Invariant { .. } => true,
        AttrSubsetError::Contravariant { got_is_property, want_is_property, .. } =>
            !got_is_property && want_is_property,
        _ => false,
    }
}

/// The names of a mismatch that is one of parameter names only.
pub open spec fn name_mismatch(error: AttrSubsetError) -> Option<(Seq<char>, Seq<char>)> {
    match mismatch(error) {
        Some((got, want, SubsetError::PosParamName(child, parent))) => if in_step(got, want) {
            Some((child@, parent@))
        } else {
            None
        },
        _ => None,
    }
}

/// The headline of a report on an override that does not fit.
pub open spec fn override_headline(
    cls: Seq<char>,
    name: Seq<char>,
    parent: Seq<char>,
) -> Seq<char> {
    "Class member `"@ + cls + "."@ + name + "` overrides parent class `"@ + parent
        + "` in an inconsistent manner"@
}

impl<Ans: LookupAnswer> AnswersSolver<Ans> {
    /// The lines that show how the signatures of two types differ, where each has a single one.
    pub open spec fn signature_difference(
        self,
        error: AttrSubsetError,
        name: Seq<char>,
    ) -> Seq<Seq<char>> {
        match mismatch(error) {
            Some((got, want, _)) => if got.signatures().len() == 1 && want.signatures().len() == 1 {
                self.answers.diff_lines(
                    renamed_signature(self.answers.signature_shown(want, got, want), name),
                    renamed_signature(self.answers.signature_shown(got, got, want), name),
                )
            } else {
                Seq::empty()
            },
            None => Seq::empty(),
        }
    }

    fn signature_diff(&self, error: &AttrSubsetError, name: &str) -> (r: Vec<String>)
        ensures
            texts(r@) == self.signature_difference(*error, name@),
    {
        let (got, want) = match error {
            AttrSubsetError::Covariant { got, want, .. } => (got, want),
            AttrSubsetError::Invariant { got, want, .. } => (got, want),
            AttrSubsetError::Contravariant { want, got, .. } => (got, want),
            _ => {
                let none: Vec<String> = Vec::new();
                assert(texts(none@) =~= Seq::empty());
                return none;
            },
        };
        if got.callable_signatures().len() == 1 && want.callable_signatures().len() == 1 {
            let got_sig = self.answers.signature_text(got, got, want);
            let want_sig = self.answers.signature_text(want, got, want);
            self.answers.render_signature_diff(
                normalize_name(want_sig.as_str(), name).as_str(),
                normalize_name(got_sig.as_str(), name).as_str(),
            )
        } else {
            let none: Vec<String> = Vec::new();
            assert(texts(none@) =~= Seq::empty());
            none
        }
    }

    /// The report on an attribute that does not fit that of a parent.
    pub open spec fn mismatch_report(
        self,
        error: AttrSubsetError,
        cls: Class,
        parent: Class,
        name: Seq<char>,
        range: TextRange,
    ) -> ReportView {
        let headline = override_headline(cls.name@, name, parent.name@);
        match name_mismatch(error) {
            Some((child_param, parent_param)) => ReportView {
                range,
                rule: Rule::BadOverrideParamName,
                lines: seq![
                    headline,
                    "Got parameter name `"@ + child_param + "`, expected `"@ + parent_param + "`"@,
                ],
            },
            None => ReportView {
                range,
                rule: if mutable_mismatch(error) {
                    Rule::BadOverrideMutableAttribute
                } else {
                    Rule::BadOverride
                },
                lines: seq![
                    headline,
                    self.answers.subset_text(error, cls.name@, parent.name@, name),
                ] + self.signature_difference(error, name),
            },
        }
    }

    fn report_mismatch(
        &self,
        error: &AttrSubsetError,
        cls: &Class,
        parent: &Class,
        name: &str,
        range: TextRange,
        errors: &mut ErrorCollector,
    )
        ensures
            final(errors)@ == old(errors)@.push(
                self.mismatch_report(*error, *cls, *parent, name@, range),
            ),
    {
        let headline = cat7(
            "Class member `",
            cls.name.as_str(),
            ".",
            name,
            "` overrides parent class `",
            parent.name.as_str(),
            "` in an inconsistent manner",
        );
        let found = match error {
            AttrSubsetError::Covariant { got, want, subset_error, .. } => Some(
                (got, want, subset_error),
            ),
            AttrSubsetError::Invariant { got, want, subset_error } => Some(
                (got, want, subset_error),
            ),
            AttrSubsetError::Contravariant { want, got, subset_error, .. } => Some(
                (got, want, subset_error),
            ),
            _ => None,
        };
        if let Some((got, want, SubsetError::PosParamName(child, wanted))) = found {
            let got_sigs = got.callable_signatures();
            let want_sigs = want.callable_signatures();
            if got_sigs.len() == 1 && want_sigs.len() == 1 && same_positional_max(
                &got_sigs[0].params,
                &want_sigs[0].params,
            ) {
                errors.error2(
                    range,
                    Rule::BadOverrideParamName,
                    headline,
                    cat5(
                        "Got parameter name `",
                        child.as_str(),
                        "`, expected `",
                        wanted.as_str(),
                        "`",
                    ),
                );
                return ;
            }
        }
        assert(name_mismatch(*error) is None);
        let is_mutable_attribute = match error {
            AttrSubsetError::Invariant { .. } => true,
            AttrSubsetError::Contravariant { got_is_property, want_is_property, .. } =>
                !*got_is_property && *want_is_property,
            _ => false,
        };
        let mut lines: Vec<String> = Vec::new();
        lines.push(headline);
        lines.push(
            self.answers.subset_message(error, cls.name.as_str(), parent.name.as_str(), name),
        );
        let mut diff = self.signature_diff(error, name);
        let ghost more = diff@;
        lines.append(&mut diff);
        assert(texts(lines@) =~= seq![
            override_headline(cls.name@, name@, parent.name@),
            self.answers.subset_text(*error, cls.name@, parent.name@, name@),
        ] + texts(more));
        errors.add(
            range,
            if is_mutable_attribute {
                Rule::BadOverrideMutableAttribute
            } else {
                Rule::BadOverride
            },
            lines,
        );
    }

    /// The attribute that an override must fit: that of the parent, seen on the child class.
    pub open spec fn wanted_attribute(
        self,
        cls: Class,
        name: String,
        parent: ClassType,
        want: ClassField,
    ) -> Option<ClassAttribute> {
        let child = Type::ClassType(self.info(cls).instance_type);
        let derived = self.instance_of(cls);
        attribute_for_child(
            self.answers,
            relaxed_attribute(
                self.instance_attribute(
                    name,
                    want,
                    Instance {
                        kind: InstanceKind::Protocol(derived),
                        class: parent.class,
                        targs: parent.targs,
                    },
                ),
                self.stdlib.any_coroutine,
            ),
            child,
        )
    }

    /// The reports on a field that overrides the member `want` of a parent.
    pub open spec fn member_override_reports(
        self,
        cls: Class,
        name: String,
        class_field: ClassField,
        parent: ClassType,
        want: ClassField,
        range: TextRange,
    ) -> Seq<ReportView> {
        let metadata = self.info(cls).metadata;
        let parent_metadata = self.info(parent.class).metadata;
        let both_annotated = want.declared() is Some && class_field.declared() is Some;
        let is_key = metadata.typed_dict_total(name@) is Some;
        let key_reports = key_override_reports(
            cls,
            metadata,
            parent.class,
            parent_metadata,
            name@,
            class_field,
            want,
            range,
        );
        if want.final_field() {
            seq![
                report1(
                    range,
                    Rule::BadOverride,
                    "`"@ + name@ + "` is declared as final in parent class `"@ + parent.class.name@
                        + "`"@,
                ),
            ]
        } else if both_annotated && want.class_var() && !class_field.class_var() {
            seq![
                report1(
                    range,
                    Rule::BadOverride,
                    "Instance variable `"@ + cls.name@ + "."@ + name@
                        + "` overrides ClassVar of the same name in parent class `"@
                        + parent.class.name@ + "`"@,
                ),
            ]
        } else if both_annotated && !want.class_var() && class_field.class_var() {
            seq![
                report1(
                    range,
                    Rule::BadOverride,
                    "ClassVar `"@ + cls.name@ + "."@ + name@
                        + "` overrides instance variable of the same name in parent class `"@
                        + parent.class.name@ + "`"@,
                ),
            ]
        } else if is_key != (parent_metadata.typed_dict_total(name@) is Some) {
            Seq::empty()
        } else if is_key && key_reports.len() > 0 {
            key_reports
        } else if want.declared() is None && want.field_type() is NoneType {
            Seq::empty()
        } else {
            match self.wanted_attribute(cls, name, parent, want) {
                None => Seq::empty(),
                Some(wanted) => match attribute_subset(
                    self.answers,
                    self.instance_attribute(
                        name,
                        class_field,
                        plain_instance(self.info(cls).instance_type),
                    ),
                    wanted,
                ) {
                    Ok(_) => Seq::empty(),
                    Err(error) => seq![
                        self.mismatch_report(error, cls, parent.class, name@, range),
                    ],
                },
            }
        }
    }

    /// The reports on a field with respect to one parent.
    pub open spec fn parent_reports(
        self,
        cls: Class,
        name: String,
        class_field: ClassField,
        parent: ClassType,
        range: TextRange,
    ) -> Seq<ReportView> {
        let element_report = if self.info(parent.class).metadata.named_tuple_element(name@) {
            seq![
                report1(
                    range,
                    Rule::BadOverride,
                    "Cannot override named tuple element `"@ + name@ + "`"@,
                ),
            ]
        } else {
            Seq::empty()
        };
        if self.info(cls).metadata.named_tuple_element(name@) {
            element_report
        } else {
            match self.member(parent.class, name@) {
                None => element_report,
                Some(want) => element_report + self.member_override_reports(
                    cls,
                    name,
                    class_field,
                    parent,
                    want,
                    range,
                ),
            }
        }
    }

    /// Whether a parent has a member that the field overrides.
    pub open spec fn overrides_in(self, cls: Class, name: Seq<char>, parent: ClassType) -> bool {
        !self.info(cls).metadata.named_tuple_element(name) && self.member(parent.class, name) is Some
    }

    /// The reports on a field with respect to each of the parents.
    pub open spec fn all_parent_reports(
        self,
        cls: Class,
        name: String,
        class_field: ClassField,
        parents: Seq<ClassType>,
        range: TextRange,
    ) -> Seq<ReportView>
        decreases parents.len(),
    {
        if parents.len() == 0 {
            Seq::empty()
        } else {
            self.all_parent_reports(cls, name, class_field, parents.drop_last(), range)
                + self.parent_reports(cls, name, class_field, parents.last(), range)
        }
    }

    /// The classes that a field is compared with: the bases, or else `object`.
    pub open spec fn compared_with(self, bases: Seq<ClassType>) -> Seq<ClassType> {
        if bases.len() == 0 {
            seq![self.stdlib.object]
        } else {
            bases
        }
    }

    /// The reports on how a field fits the fields that it overrides.
    pub open spec fn override_reports(
        self,
        cls: Class,
        name: String,
        class_field: ClassField,
        bases: Seq<ClassType>,
    ) -> Seq<ReportView> {
        let explicit = class_field.explicit_override();
        let range = self.info(cls).decl_range(name@);
        if (class_field.is_inherited is No && !explicit) || !checked_for_overrides(
            name@,
            self.info(cls).metadata,
            explicit,
        ) || range is None {
            Seq::empty()
        } else {
            let parents = self.compared_with(bases);
            let found = exists|i: int|
                0 <= i < parents.len() && self.overrides_in(cls, name@, #[trigger] parents[i]);
            let unknown = exists|i: int|
                0 <= i < parents.len() && self.info(
                    (#[trigger] parents[i]).class,
                ).metadata.has_base_any;
            self.all_parent_reports(cls, name, class_field, parents, range->0) + (if explicit
                && !found && !unknown {
                seq![
                    report1(
                        range->0,
                        Rule::BadOverride,
                        "Class member `"@ + cls.name@ + "."@ + name@
                            + "` is marked as an override, but no parent class has a matching attribute"@,
                    ),
                ]
            } else {
                Seq::empty()
            }) + (if !explicit && found && !unknown && class_field.decoratable() {
                seq![
                    report1(
                        range->0,
                        Rule::MissingOverrideDecorator,
                        "Class member `"@ + cls.name@ + "."@ + name@
                            + "` overrides a member in a parent class but is missing an `@override` decorator"@,
                    ),
                ]
            } else {
                Seq::empty()
            })
        }
    }
}

impl<Ans: LookupAnswer> AnswersSolver<Ans> {
    fn check_member_override(
        &self,
        cls: &Class,
        field_name: &String,
        class_field: &ClassField,
        parent: &ClassType,
        want: &ClassField,
        range: TextRange,
        errors: &mut ErrorCollector,
    )
        ensures
            final(errors)@ == old(errors)@ + self.member_override_reports(
                *cls,
                *field_name,
                *class_field,
                *parent,
                *want,
                range,
            ),
    {
        let ghost expected = self.member_override_reports(
            *cls,
            *field_name,
            *class_field,
            *parent,
            *want,
            range,
        );
        assert(errors@ + Seq::<ReportView>::empty() =~= errors@);
        let name = field_name.as_str();
        let info = self.get_info(cls);
        let metadata = &info.metadata;
        let parent_metadata = self.get_metadata_for_class(&parent.class);
        if want.is_final() {
            errors.error(
                range,
                Rule::BadOverride,
                cat5(
                    "`",
                    name,
                    "` is declared as final in parent class `",
                    parent.class.name.as_str(),
                    "`",
                ),
            );
            assert(errors@ =~= old(errors)@ + expected);
            return ;
        }
        if want.has_explicit_annotation() && class_field.has_explicit_annotation() {
            let want_is_class_var = want.is_class_var();
            let got_is_class_var = class_field.is_class_var();
            if want_is_class_var && !got_is_class_var {
                errors.error(
                    range,
                    Rule::BadOverride,
                    cat7(
                        "Instance variable `",
                        cls.name.as_str(),
                        ".",
                        name,
                        "` overrides ClassVar of the same name in parent class `",
                        parent.class.name.as_str(),
                        "`",
                    ),
                );
                assert(errors@ =~= old(errors)@ + expected);
                return ;
            } else if !want_is_class_var && got_is_class_var {
                errors.error(
                    range,
                    Rule::BadOverride,
                    cat7(
                        "ClassVar `",
                        cls.name.as_str(),
                        ".",
                        name,
                        "` overrides instance variable of the same name in parent class `",
                        parent.class.name.as_str(),
                        "`",
                    ),
                );
                assert(errors@ =~= old(errors)@ + expected);
                return ;
            }
        }
        let is_key = is_typed_dict_field(metadata, name);
        if is_key != is_typed_dict_field(parent_metadata, name) {
            return ;
        }
        if is_key && !validate_typed_dict_field_override(
            cls,
            metadata,
            &parent.class,
            parent_metadata,
            name,
            class_field,
            want,
            range,
            errors,
        ) {
            return ;
        }
        assert(errors@ =~= old(errors)@);
        let want_is_none = match want.ty() {
            Type::NoneType => true,
            _ => false,
        };
        if !want.has_explicit_annotation() && want_is_none {
            return ;
        }
        let child = Type::ClassType(info.instance_type.dupe());
        let attr = self.as_instance_attribute(
            field_name,
            want,
            &Instance::of_protocol(parent, self.instantiate(cls)),
        );
        let attr = relax_attribute(attr, &self.stdlib.any_coroutine);
        let wanted = match filter_overloads_for_override(&self.answers, attr, &child) {
            Some(wanted) => wanted,
            None => {
                return ;
            },
        };
        let got = self.as_instance_attribute(
            field_name,
            class_field,
            &Instance::of_class(&info.instance_type),
        );
        match self.is_class_attribute_subset(&got, &wanted, &self.answers) {
            Ok(_) => {},
            Err(error) => {
                self.report_mismatch(&error, cls, &parent.class, name, range, errors);
            },
        }
        assert(errors@ =~= old(errors)@ + expected);
    }

    fn check_parent(
        &self,
        cls: &Class,
        field_name: &String,
        class_field: &ClassField,
        parent: &ClassType,
        range: TextRange,
        errors: &mut ErrorCollector,
    ) -> (found: bool)
        ensures
            found == self.overrides_in(*cls, field_name@, *parent),
            final(errors)@ == old(errors)@ + self.parent_reports(
                *cls,
                *field_name,
                *class_field,
                *parent,
                range,
            ),
    {
        let name = field_name.as_str();
        if self.get_metadata_for_class(&parent.class).is_named_tuple_element(name) {
            errors.error(
                range,
                Rule::BadOverride,
                cat3("Cannot override named tuple element `", name, "`"),
            );
        }
        let found = if self.get_metadata_for_class(cls).is_named_tuple_element(name) {
            false
        } else {
            match self.get_class_member(&parent.class, name) {
                None => false,
                Some(want) => {
                    self.check_member_override(
                        cls,
                        field_name,
                        class_field,
                        parent,
                        &want,
                        range,
                        errors,
                    );
                    true
                },
            }
        };
        assert(errors@ =~= old(errors)@ + self.parent_reports(
            *cls,
            *field_name,
            *class_field,
            *parent,
            range,
        ));
        found
    }

    fn check_parents(
        &self,
        cls: &Class,
        field_name: &String,
        class_field: &ClassField,
        parents: &Vec<ClassType>,
        range: TextRange,
        errors: &mut ErrorCollector,
    ) -> (r: (bool, bool))
        ensures
            final(errors)@ == old(errors)@ + self.all_parent_reports(
                *cls,
                *field_name,
                *class_field,
                parents@,
                range,
            ),
            r.0 == exists|i: int|
                0 <= i < parents@.len() && self.overrides_in(
                    *cls,
                    field_name@,
                    #[trigger] parents@[i],
                ),
            r.1 == exists|i: int|
                0 <= i < parents@.len() && self.info(
                    (#[trigger] parents@[i]).class,
                ).metadata.has_base_any,
    {
        let mut parent_attr_found = false;
        let mut parent_has_any = false;
        let mut i: usize = 0;
        assert(parents@.take(0) =~= Seq::empty());
        assert(errors@ + Seq::<ReportView>::empty() =~= errors@);
        while i < parents.len()
            invariant
                i <= parents@.len(),
                errors@ == old(errors)@ + self.all_parent_reports(
                    *cls,
                    *field_name,
                    *class_field,
                    parents@.take(i as int),
                    range,
                ),
                parent_attr_found == exists|k: int|
                    0 <= k < i && self.overrides_in(*cls, field_name@, #[trigger] parents@[k]),
                parent_has_any == exists|k: int|
                    0 <= k < i && self.info(
                        (#[trigger] parents@[k]).class,
                    ).metadata.has_base_any,
            decreases parents@.len() - i,
        {
            let parent = &parents[i];
            if self.get_metadata_for_class(&parent.class).has_base_any {
                parent_has_any = true;
            }
            let found = self.check_parent(
                cls,
                field_name,
                class_field,
                parent,
                range,
                errors,
            );
            if found {
                parent_attr_found = true;
            }
            assert(parents@.take(i + 1).drop_last() =~= parents@.take(i as int));
            assert(parents@.take(i + 1).last() == parents@[i as int]);
            assert(errors@ =~= old(errors)@ + self.all_parent_reports(
                *cls,
                *field_name,
                *class_field,
                parents@.take(i + 1),
                range,
            ));
            i = i + 1;
        }
        assert(parents@.take(i as int) =~= parents@);
        (parent_attr_found, parent_has_any)
    }

    /// Reports how a field does not fit the fields of the bases that it overrides.
    pub fn check_consistent_override_for_field(
        &self,
        cls: &Class,
        field_name: &String,
        class_field: &ClassField,
        bases: &Vec<ClassType>,
        errors: &mut ErrorCollector,
    )
        ensures
            final(errors)@ == old(errors)@ + self.override_reports(
                *cls,
                *field_name,
                *class_field,
                bases@,
            ),
    {
        let name = field_name.as_str();
        assert(errors@ + Seq::<ReportView>::empty() =~= errors@);
        let is_explicit_override = class_field.is_override();
        if class_field.is_inherited == IsInherited::No && !is_explicit_override {
            return ;
        }
        let info = self.get_info(cls);
        if !should_check_field_for_override_consistency(
            name,
            &info.metadata,
            is_explicit_override,
        ) {
            return ;
        }
        let range = match info.field_decl_range(name) {
            Some(range) => range,
            None => {
                return ;
            },
        };
        let (parent_attr_found, parent_has_any) = if bases.len() == 0 {
            let mut only_object: Vec<ClassType> = Vec::new();
            only_object.push(self.stdlib.object.dupe());
            assert(only_object@ =~= seq![self.stdlib.object]);
            self.check_parents(cls, field_name, class_field, &only_object, range, errors)
        } else {
            self.check_parents(cls, field_name, class_field, bases, range, errors)
        };
        if is_explicit_override && !parent_attr_found && !parent_has_any {
            errors.error(
                range,
                Rule::BadOverride,
                cat5(
                    "Class member `",
                    cls.name.as_str(),
                    ".",
                    name,
                    "` is marked as an override, but no parent class has a matching attribute",
                ),
            );
        }
        if !is_explicit_override && parent_attr_found && !parent_has_any
            && class_field.can_have_override_decorator() {
            errors.error(
                range,
                Rule::MissingOverrideDecorator,
                cat5(
                    "Class member `",
                    cls.name.as_str(),
                    ".",
                    name,
                    "` overrides a member in a parent class but is missing an `@override` decorator",
                ),
            );
        }
        assert(errors@ =~= old(errors)@ + self.override_reports(
            *cls,
            *field_name,
            *class_field,
            bases@,
        ));
    }
}

/// A field that is known not to be inherited and is not marked as an override is never reported.
pub proof fn law_uninherited_fields_pass<Ans: LookupAnswer>(
    solver: AnswersSolver<Ans>,
    cls: Class,
    name: String,
    class_field: ClassField,
    bases: Seq<ClassType>,
)
    requires
        class_field.is_inherited is No,
        !class_field.explicit_override(),
    ensures
        solver.override_reports(cls, name, class_field, bases).len() == 0,
{
}

/// Overriding a final field of the only base is always reported, and reported once, unless the
/// class or the base is a named tuple with such an element, or overriding that name is not checked
/// at all. A decorator that is missing is a report of its own.
pub proof fn law_final_overrides_are_reported<Ans: LookupAnswer>(
    solver: AnswersSolver<Ans>,
    cls: Class,
    name: String,
    class_field: ClassField,
    base: ClassType,
)
    requires
        class_field.is_inherited is Maybe,
        checked_for_overrides(
            name@,
            solver.info(cls).metadata,
            class_field.explicit_override(),
        ),
        solver.info(cls).decl_range(name@) is Some,
        !solver.info(cls).metadata.named_tuple_element(name@),
        !solver.info(base.class).metadata.named_tuple_element(name@),
        solver.member(base.class, name@) is Some,
        solver.member(base.class, name@)->0.final_field(),
    ensures
        ({
            let reports = solver.override_reports(cls, name, class_field, seq![base]);
            &&& reports.len() >= 1
            &&& reports[0].rule == Rule::BadOverride
            &&& forall|i: int|
                1 <= i < reports.len() ==> (#[trigger] reports[i]).rule
                    == Rule::MissingOverrideDecorator
        }),
{
    let parents = solver.compared_with(seq![base]);
    assert(parents[0] == base);
    assert(solver.overrides_in(cls, name@, parents[0]));
    assert(parents.drop_last() =~= Seq::empty());
    assert(parents.last() == base);
    let range = solver.info(cls).decl_range(name@)->0;
    assert(solver.all_parent_reports(cls, name, class_field, parents.drop_last(), range)
        =~= Seq::empty());
}

} // verus!
