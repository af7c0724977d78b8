use vstd::prelude::*;

use crate::annotation::Qualifier;
use crate::class_field::{ClassField, ClassFieldInitialization, ClassFieldInner};
use crate::counts::counted;
use crate::dataclass_fields::{BaseWithMetadata, FieldEntry};
use crate::edits::actions_report;
use crate::error::Tool;
use crate::expr::ClassFieldDefinition;
use crate::metadata::ClassMetadata;
use crate::multiple_inheritance::InheritedFieldInfo;
use crate::order::{part_before, parts_before};
use crate::outcome::{full_summary_text, RunSize};
use crate::override_check::{checked_for_overrides, key_override_reports};
use crate::pydantic::{Bound, Checked};
use crate::pydantic_config::{
    gives, is_pydantic_decorator, ClassKeyword, FunctionId, Setting, Trait,
};
use crate::quick_fixes::removal_title;
use crate::report::{Rule, TextRange};
use crate::reports::is_javascript_name;
use crate::solver::{AnswersSolver, LookupAnswer};
use crate::synthesis::InitStyle;
use crate::timings::{timings_text, Timings};
use crate::types::{Class, ClassType, Type};
use crate::upsell::{
    migrated_from, upsell_text, MigratedConfigSource, MigratedFromKind, SynthesizedPresetReason,
};
use crate::writing::{cannot_delete, cannot_set};
use crate::xml::attr_char;

verus! {

/// Qualifiers are called what they are written as.
pub proof fn law_qualifiers_are_written_as_in_typing()
    ensures
        Qualifier::Required.written() == "Required"@,
        Qualifier::NotRequired.written() == "NotRequired"@,
        Qualifier::ReadOnly.written() == "ReadOnly"@,
        Qualifier::ClassVar.written() == "ClassVar"@,
        Qualifier::Final.written() == "Final"@,
        Qualifier::InitVar.written() == "InitVar"@,
        Qualifier::TypeAlias.written() == "TypeAlias"@,
        Qualifier::Annotated.written() == "Annotated"@,
{
}

/// What kind of member a field is can be said in words, for an attribute by where its value comes
/// from.
pub proof fn law_kinds_of_fields_have_words(field: ClassField)
    ensures
        field.inner is Property ==> field.kind_in_words() == "property"@,
        field.inner is Descriptor ==> field.kind_in_words() == "descriptor"@,
        field.inner is Method ==> field.kind_in_words() == "method"@,
        field.inner is NestedClass ==> field.kind_in_words() == "nested class"@,
        field.inner is InstanceAttribute ==> field.kind_in_words() == "instance attribute"@,
        field.inner matches ClassFieldInner::ClassAttribute { initialization, .. } ==> (
        field.kind_in_words() == match initialization {
            ClassFieldInitialization::ClassBody(_) => "initialized on class body"@,
            ClassFieldInitialization::Method => "initialized in method"@,
            ClassFieldInitialization::ClassMethod => "initialized in class method"@,
            ClassFieldInitialization::Uninitialized => "initialized on instances"@,
            ClassFieldInitialization::Magic => "not initialized on class body/method"@,
        }),
{
}

/// An attribute that a method introduces where it should not is reported with the method.
pub proof fn law_introduced_attributes_name_the_method<Ans: LookupAnswer>(
    solver: AnswersSolver<Ans>,
    class: Class,
    name: Seq<char>,
    definition: ClassFieldDefinition,
    range: TextRange,
)
    ensures
        ({
            let reports = solver.implicit_definition_report(class, name, definition, range);
            reports.len() > 0 ==> (definition matches ClassFieldDefinition::DefinedInMethod {
                method,
                ..
            } && reports[0].range == range && reports[0].lines == seq![
                if solver.info(class).metadata.is_protocol {
                    "Protocol variables must be explicitly declared in the class body"@
                } else {
                    "Attribute `"@ + name + "` is implicitly defined by assignment in method `"@
                        + method.method_name@ + "`, which is not a constructor"@
                },
            ] && reports[0].rule == if solver.info(class).metadata.is_protocol {
                Rule::ProtocolImplicitlyDefinedAttribute
            } else {
                Rule::ImplicitlyDefinedAttribute
            })
        }),
{
}

/// The other reports on the definition of a field say what is wrong with it.
pub proof fn law_wrong_definitions_are_told<Ans: LookupAnswer>(
    solver: AnswersSolver<Ans>,
    class: Class,
    name: Seq<char>,
    definition: ClassFieldDefinition,
    functional: bool,
    range: TextRange,
)
    ensures
        ({
            let nested = solver.nested_final_report(class, definition, range);
            let slots = solver.slot_report(class, name, definition, range);
            let underscore = solver.underscore_report(class, name, functional, range);
            let unset = solver.uninitialized_final_report(class, definition, range);
            &&& nested.len() > 0 ==> nested[0].rule == Rule::InvalidAnnotation && nested[0].lines
                == seq!["`Final` may not be nested inside `ClassVar`"@]
            &&& slots.len() > 0 ==> slots[0].rule == Rule::MissingAttribute && slots[0].lines
                == seq![
                "Object of class `"@ + class.name@ + "` has no attribute `"@ + name
                    + "` (not declared in `__slots__`)"@,
            ]
            &&& underscore.len() > 0 ==> underscore[0].rule == Rule::BadClassDefinition
                && underscore[0].lines == seq![
                "NamedTuple field name may not start with an underscore: `"@ + name + "`"@,
            ]
            &&& unset.len() > 0 ==> unset[0].rule == Rule::InvalidAnnotation && unset[0].lines
                == seq![
                "Final attribute declared in class body must be initialized with a value or in `__init__`"@,
            ]
        }),
{
}

/// The reports on descriptors as dataclass fields name the field, the descriptor and the types.
pub proof fn law_descriptor_reports_name_the_types<Ans: LookupAnswer>(
    solver: AnswersSolver<Ans>,
    cls: Class,
    name: Seq<char>,
    member: crate::solver::WithDefiningClass<ClassField>,
    kws: crate::annotation::DataclassFieldKeywords,
    d: crate::attribute::Descriptor,
    got: Type,
    want: Type,
)
    requires
        solver.dataclass_member(cls, name) == crate::reading::DataclassMember::Field(member, kws),
        member.value.inner matches ClassFieldInner::Descriptor { descriptor, .. } && descriptor
            == d,
    ensures
        solver.non_data_report(cls, name).len() > 0 ==> solver.non_data_report(cls, name)[0].lines
            == seq![
            "Cannot set field `"@ + name + "` to non-data descriptor `"@ + d.cls.class.name@ + "`"@,
            "Hint: add a `__set__` method to make `"@ + d.cls.class.name@ + "` a data descriptor"@,
        ],
        solver.data_report(cls, name).len() > 0 && solver.getter_returns(d.cls) == Some(got)
            && solver.setter_takes(d.cls) == Some(want) ==> solver.data_report(cls, name)[0].lines
            == seq![
            "Cannot set field `"@ + name + "` to data descriptor `"@ + d.cls.class.name@
                + "` with inconsistent types"@,
            "Return type `"@ + solver.answers.as_it_stands(got) + "` of `"@ + d.cls.class.name@
                + ".__get__` is not assignable to value type `"@ + solver.answers.as_it_stands(
                want,
            ) + "` of `"@ + d.cls.class.name@ + ".__set__`"@,
        ],
{
}

/// The reports on the order of fields and on slots say what is wrong.
pub proof fn law_dataclass_reports_say_what_is_wrong<Ans: LookupAnswer>(
    solver: AnswersSolver<Ans>,
    cls: Class,
    frozen: bool,
    base: BaseWithMetadata,
    transform: bool,
    before: Seq<FieldEntry>,
    entry: FieldEntry,
    style: InitStyle,
    dataclass: crate::metadata::DataclassMetadata,
)
    ensures
        solver.order_report(cls, before, entry, style).len() > 0 ==> solver.order_report(
            cls,
            before,
            entry,
            style,
        )[0].lines == seq![
            "Dataclass field `"@ + entry.0@
                + "` without a default may not follow dataclass field with a default"@,
        ],
        solver.slots_report(cls, dataclass).len() > 0 ==> solver.slots_report(
            cls,
            dataclass,
        )[0].lines == seq!["Cannot specify both `slots=True` and `__slots__`"@],
        solver.frozen_report(cls, frozen, base, transform).len() > 0 ==> solver.frozen_report(
            cls,
            frozen,
            base,
            transform,
        )[0].lines == seq![
            "Cannot inherit "@ + (if frozen {
                "frozen"@
            } else {
                "non-frozen"@
            }) + " dataclass `"@ + solver.answers.class_beside(cls, base.class) + "` from "@ + (
            if frozen {
                "non-frozen"@
            } else {
                "frozen"@
            }) + " dataclass `"@ + solver.answers.class_beside(base.class, cls) + "`"@,
        ],
{
}

/// Values that cannot be set or deleted are told apart.
pub proof fn law_refusals_name_the_field(name: Seq<char>)
    ensures
        cannot_set(name) == "Cannot set field `"@ + name + "`"@,
        cannot_delete(name) == "Cannot delete field `"@ + name + "`"@,
{
}

/// Limits and values of pydantic fields are reported with the keyword of the constraint.
pub proof fn law_pydantic_reports_name_the_constraint<Ans: LookupAnswer>(
    solver: AnswersSolver<Ans>,
    what: Checked,
    value: Type,
    bound: Bound,
    limit: Type,
    field_ty: Type,
    field_name: Seq<char>,
    range: TextRange,
)
    ensures
        ({
            let keyword = match bound {
                Bound::Gt => "gt"@,
                Bound::Ge => "ge"@,
                Bound::Lt => "lt"@,
                Bound::Le => "le"@,
            };
            let opening = match what {
                Checked::Default => "Default value `"@,
                Checked::Argument => "Argument value `"@,
            };
            let wrong = solver.violation(what, value, bound, Some(limit), field_name, range);
            let unfit = solver.limit_report(bound, Some(limit), field_ty, range);
            &&& wrong.len() > 0 ==> wrong[0].rule == Rule::BadArgumentType && wrong[0].lines
                == seq![
                opening + solver.answers.shown(value) + "` violates Pydantic `"@ + keyword
                    + "` constraint `"@ + solver.answers.shown(limit) + "` for field `"@
                    + field_name + "`"@,
            ]
            &&& unfit.len() > 0 ==> unfit[0].rule == Rule::BadArgumentType && unfit[0].lines
                == seq![
                "Pydantic `"@ + keyword + "` value has type `"@ + solver.answers.shown(limit)
                    + "`, which is not assignable to field type `"@ + solver.answers.shown(field_ty)
                    + "`"@,
            ]
        }),
{
}

/// Pydantic is known by the names of its modules, and its settings by their keywords.
pub proof fn law_pydantic_is_known_by_name<Ans: LookupAnswer>(
    base: BaseWithMetadata,
    id: FunctionId,
    keywords: Seq<ClassKeyword>,
    range: TextRange,
)
    ensures
        Setting::ValidateByName.keyword() == "validate_by_name"@,
        Setting::ValidateByAlias.keyword() == "validate_by_alias"@,
        Setting::Extra.keyword() == "extra"@,
        Setting::Frozen.keyword() == "frozen"@,
        Setting::Strict.keyword() == "strict"@,
        base.class.toplevel && base.class.name@ == "BaseModel"@ && (base.class.module@
            == "pydantic.main"@ || base.class.module@ == "pydantic"@) ==> gives(base, Trait::Model),
        base.class.toplevel && base.class.name@ == "RootModel"@ && base.class.module@
            == "pydantic.root_model"@ ==> gives(base, Trait::RootModel),
        base.class.toplevel && base.class.name@ == "BaseSettings"@ && base.class.module@
            == "pydantic_settings.main"@ ==> gives(base, Trait::Settings),
        is_pydantic_decorator(Some(id)) == (id.module@ == "pydantic.dataclasses"@ && id.name@
            == "dataclass"@),
        !is_pydantic_decorator(None),
        AnswersSolver::<Ans>::extra_report(keywords, range).len() > 0 ==> AnswersSolver::<
            Ans,
        >::extra_report(keywords, range)[0].lines == seq![
            "Invalid value for `extra`. Expected one of 'allow', 'ignore', or 'forbid'"@,
        ],
{
}

/// A field that multiple inheritance narrows is reported with its class and both types.
pub proof fn law_narrowed_fields_are_told<Ans: LookupAnswer>(
    solver: AnswersSolver<Ans>,
    name: Seq<char>,
    infos: Seq<InheritedFieldInfo>,
    info: InheritedFieldInfo,
    common: Type,
    range: TextRange,
)
    ensures
        ({
            let before = solver.narrowed_reports(name, infos, common, range);
            let after = solver.narrowed_reports(name, infos.push(info), common, range);
            &&& after == before || (after.drop_last() == before && after.last().lines == seq![
                "Field `"@ + name + "` is declared `"@ + solver.answers.as_it_stands(info.ty)
                    + "` in ancestor `"@ + solver.answers.class_shown(info.class)
                    + "`, which is not assignable to the type `"@ + solver.answers.as_it_stands(
                    common,
                ) + "` implied by multiple inheritance"@,
            ])
        }),
{
    assert(infos.push(info).drop_last() =~= infos);
    assert(infos.push(info).last() == info);
    let before = solver.narrowed_reports(name, infos, common, range);
    let after = solver.narrowed_reports(name, infos.push(info), common, range);
    if after != before {
        assert(after.drop_last() =~= before);
    }
}

/// Keys of typed dictionaries that break the promises of a base are told which one.
pub proof fn law_broken_promises_are_told(
    child_cls: Class,
    child_metadata: ClassMetadata,
    parent_cls: Class,
    parent_metadata: ClassMetadata,
    name: Seq<char>,
    child_field: ClassField,
    parent_field: ClassField,
    range: TextRange,
    child_total: bool,
    parent_total: bool,
    child: crate::annotation::TypedDictField,
    parent: crate::annotation::TypedDictField,
)
    requires
        child_metadata.typed_dict_total(name) == Some(child_total),
        parent_metadata.typed_dict_total(name) == Some(parent_total),
        child_field.typed_dict_info(child_total) == Some(child),
        parent_field.typed_dict_info(parent_total) == Some(parent),
    ensures
        ({
            let reports = key_override_reports(
                child_cls,
                child_metadata,
                parent_cls,
                parent_metadata,
                name,
                child_field,
                parent_field,
                range,
            );
            let head = "TypedDict field `"@ + name + "` in `"@ + child_cls.name@;
            let mutable = parent.read_only_reason is None;
            let frozen = mutable && child.read_only_reason is Some;
            &&& frozen ==> reports[0].lines == seq![
                head + "` cannot be marked read-only; parent TypedDict `"@ + parent_cls.name@
                    + "` defines it as mutable"@,
            ]
            &&& !frozen && mutable && parent.required && !child.required ==> reports[0].lines
                == seq![
                head + "` must remain required because parent TypedDict `"@ + parent_cls.name@
                    + "` defines it as required"@,
            ]
            &&& !frozen && mutable && !parent.required && child.required ==> reports[0].lines
                == seq![
                head + "` cannot be made required; parent TypedDict `"@ + parent_cls.name@
                    + "` defines it as non-required"@,
            ]
            &&& !mutable && parent.required && !child.required ==> reports[0].lines == seq![
                head + "` cannot be made non-required; parent TypedDict `"@ + parent_cls.name@
                    + "` defines it as required"@,
            ]
        }),
{
}

/// Overrides that disagree on being class variables are told which of the two is one.
pub proof fn law_class_variable_conflicts_are_told<Ans: LookupAnswer>(
    solver: AnswersSolver<Ans>,
    cls: Class,
    name: String,
    class_field: ClassField,
    parent: ClassType,
    want: ClassField,
    range: TextRange,
)
    requires
        !want.final_field(),
        want.declared() is Some,
        class_field.declared() is Some,
        want.class_var() != class_field.class_var(),
    ensures
        ({
            let reports = solver.member_override_reports(
                cls,
                name,
                class_field,
                parent,
                want,
                range,
            );
            &&& reports.len() == 1
            &&& want.class_var() ==> reports[0].lines == seq![
                "Instance variable `"@ + cls.name@ + "."@ + name@
                    + "` overrides ClassVar of the same name in parent class `"@
                    + parent.class.name@ + "`"@,
            ]
            &&& class_field.class_var() ==> reports[0].lines == seq![
                "ClassVar `"@ + cls.name@ + "."@ + name@
                    + "` overrides instance variable of the same name in parent class `"@
                    + parent.class.name@ + "`"@,
            ]
        }),
{
}

/// Marks that are missing or out of place, and elements of named tuples, are told with the member.
pub proof fn law_marks_of_overrides_are_told<Ans: LookupAnswer>(
    solver: AnswersSolver<Ans>,
    cls: Class,
    name: String,
    class_field: ClassField,
    base: ClassType,
    range: TextRange,
)
    requires
        class_field.is_inherited is Maybe,
        checked_for_overrides(
            name@,
            solver.info(cls).metadata,
            class_field.explicit_override(),
        ),
        solver.info(cls).decl_range(name@) == Some(range),
        solver.info(cls).metadata.named_tuple is None,
        !solver.info(base.class).metadata.has_base_any,
    ensures
        ({
            let reports = solver.override_reports(cls, name, class_field, seq![base]);
            let member = "Class member `"@ + cls.name@ + "."@ + name@;
            &&& class_field.explicit_override() && solver.member(base.class, name@) is None
                ==> reports.len() > 0 && reports.last().lines == seq![
                member + "` is marked as an override, but no parent class has a matching attribute"@,
            ]
            &&& !class_field.explicit_override() && solver.member(base.class, name@) is Some
                && class_field.inner is Method ==> reports.len() > 0 && reports.last().lines
                == seq![
                member
                    + "` overrides a member in a parent class but is missing an `@override` decorator"@,
            ]
        }),
        solver.info(base.class).metadata.named_tuple_element(name@) ==> ({
            let reports = solver.parent_reports(cls, name, class_field, base, range);
            &&& reports.len() > 0
            &&& reports[0].rule == Rule::BadOverride
            &&& reports[0].range == range
            &&& reports[0].lines == seq!["Cannot override named tuple element `"@ + name@ + "`"@]
        }),
{
    let parents = solver.compared_with(seq![base]);
    assert(parents =~= seq![base]);
    assert(parents[0] == base);
    assert(solver.overrides_in(cls, name@, parents[0]) == (solver.member(base.class, name@)
        is Some));
}

/// The summary counts the modules and lines, those of the project and of its dependencies, and gives
/// the time and the memory.
pub proof fn law_summaries_tell_size_time_and_memory(
    size: RunSize,
    timings: Timings,
    memory: Seq<char>,
)
    ensures
        full_summary_text(size, timings, memory) == counted(size.modules as nat, "module"@) + " ("@
            + counted((size.all_modules - size.modules) as nat, "dependent module"@) + "); "@
            + counted((size.user_lines + size.dependency_lines) as nat, "line"@) + " ("@ + counted(
            size.user_lines as nat,
            "line"@,
        ) + " in your project, "@ + counted(size.dependency_lines as nat, "line"@)
            + " in dependencies); took "@ + timings_text(timings) + "; memory ("@ + memory + ")"@,
{
}

/// A user without a configuration is told where the settings come from, which preset they are, and
/// how to go on.
pub proof fn law_hints_tell_where_settings_come_from(kind: MigratedFromKind)
    ensures
        ("No `pyrefly.toml` found — using settings imported from "@ + migrated_from(kind).0
            + " (preset: "@ + migrated_from(kind).1 + ").\n"@).is_prefix_of(
            upsell_text(SynthesizedPresetReason::Migrated(kind)),
        ),
        "No `pyrefly.toml` found — using preset `basic`.\n"@.is_prefix_of(
            upsell_text(SynthesizedPresetReason::NoNearbyConfig),
        ),
        ("Run `pyrefly init` to continue setting up Pyrefly.\nDocs: "@
            + "https://pyrefly.org/en/docs/installation/"@ + "\n"@).is_suffix_of(
            upsell_text(SynthesizedPresetReason::NoNearbyConfig),
        ),
        kind is Mypy ==> migrated_from(kind).1 == "legacy"@,
        kind is Pyright ==> migrated_from(kind).1 == "default"@,
        migrated_from(MigratedFromKind::Mypy(MigratedConfigSource::DedicatedFile)).0
            == "your `mypy.ini`"@,
        migrated_from(MigratedFromKind::Mypy(MigratedConfigSource::PyprojectToml)).0
            == "`[tool.mypy]` in your `pyproject.toml`"@,
        migrated_from(MigratedFromKind::Pyright(MigratedConfigSource::DedicatedFile)).0
            == "your `pyrightconfig.json`"@,
        migrated_from(MigratedFromKind::Pyright(MigratedConfigSource::PyprojectToml)).0
            == "`[tool.pyright]` in your `pyproject.toml`"@,
{
    let steps = "Run `pyrefly init` to continue setting up Pyrefly.\nDocs: "@
        + "https://pyrefly.org/en/docs/installation/"@ + "\n"@;
    let head = "No `pyrefly.toml` found — using settings imported from "@ + migrated_from(kind).0
        + " (preset: "@ + migrated_from(kind).1 + ").\n"@;
    let text = upsell_text(SynthesizedPresetReason::Migrated(kind));
    assert(text.subrange(0, head.len() as int) =~= head);
    let basic = "No `pyrefly.toml` found — using preset `basic`.\n"@;
    let plain = upsell_text(SynthesizedPresetReason::NoNearbyConfig);
    assert(plain.subrange(0, basic.len() as int) =~= basic);
    assert(plain.subrange(plain.len() - steps.len(), plain.len() as int) =~= steps);
}

/// A suppression for any other tool is removed under that name.
pub proof fn law_removals_name_the_tool(tool: Tool)
    ensures
        tool != Tool::Type && tool != Tool::Pyrefly ==> removal_title(tool, Seq::empty())
            == "Remove unused Pyre suppression"@,
{
}

/// Line breaks and tabs stand as numbers in attributes.
pub proof fn law_breaks_stand_as_numbers()
    ensures
        attr_char('\n') == "&#10;"@,
        attr_char('\r') == "&#13;"@,
        attr_char('\t') == "&#9;"@,
{
}

/// A report on actions begins with its headline, and each action adds to it.
pub proof fn law_action_reports_have_a_headline()
    ensures
        actions_report(Seq::empty()) == "Code Actions Results:\n"@,
{
}

/// In a path the way up comes before every name; the first difference decides, and a path comes
/// before the paths below it.
pub proof fn law_paths_are_ordered_by_their_first_difference(
    a: Seq<char>,
    b: Seq<char>,
    x: Seq<Seq<char>>,
    y: Seq<Seq<char>>,
)
    ensures
        b != ".."@ ==> part_before(".."@, b),
        !part_before(a, ".."@),
        a != b && a != ".."@ && b != ".."@ ==> part_before(a, b) == crate::order::text_before(a, b),
        a != b ==> parts_before(seq![a] + x, seq![b] + y) == part_before(a, b),
        parts_before(seq![a] + x, seq![a] + y) == parts_before(x, y),
        parts_before(Seq::empty(), seq![b] + y),
        !parts_before(x, Seq::empty()),
{
    assert((seq![a] + x)[0] == a);
    assert((seq![b] + y)[0] == b);
    assert((seq![a] + y)[0] == a);
    assert((seq![a] + x).drop_first() =~= x);
    assert((seq![b] + y).drop_first() =~= y);
    assert((seq![a] + y).drop_first() =~= y);
}

/// A name is that of a script where it ends in `.js` and has something in front of it.
pub proof fn law_scripts_end_in_js(stem: Seq<char>)
    ensures
        stem.len() > 0 ==> is_javascript_name(stem + seq!['.', 'j', 's']),
        !is_javascript_name(seq!['.', 'j', 's']),
{
    reveal_strlit(".js");
    assert(".js"@ =~= seq!['.', 'j', 's']);
    let name = stem + seq!['.', 'j', 's'];
    assert(name.skip(name.len() - 3) =~= ".js"@);
}

} // verus!
