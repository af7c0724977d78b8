use vstd::prelude::*;

use crate::annotation::{DataclassFieldKeywords, Qualifier};
use crate::class_field::{ClassField, ClassFieldInitialization, ClassFieldInner};
use crate::dataclass_fields::{
    annotated_names, behind_marker, gathered, said_kw_only, selected_entries, FieldEntry,
    KwOnlyView,
};
use crate::dataclass_laws::{held_type, init_only};
use crate::field_laws::carries;
use crate::metadata::{ClassInfo, DataclassMetadata, DeclaredField};
use crate::reading::DataclassMember;
use crate::solver::{found_in, AnswersSolver, LookupAnswer, Search, WithDefiningClass};
use crate::subst::Subst;
use crate::types::{Class, ClassType, Type};

verus! {

/// Whether only a method assigns a field.
pub open spec fn assigned_in_method(field: ClassField) -> bool {
    match field.inner {
        ClassFieldInner::InstanceAttribute { .. } => true,
        ClassFieldInner::ClassAttribute { initialization, .. } => initialization is Method
            || initialization is ClassMethod,
        _ => false,
    }
}

/// Whether a field is a class variable.
pub open spec fn belongs_to_class(field: ClassField) -> bool {
    match field.inner {
        ClassFieldInner::ClassAttribute { is_classvar, .. } => is_classvar,
        ClassFieldInner::Descriptor { annotation, .. } => carries(annotation, Qualifier::ClassVar),
        _ => false,
    }
}

/// Whether a field is annotated.
pub open spec fn is_annotated(field: ClassField) -> bool {
    match field.inner {
        ClassFieldInner::Descriptor { annotation, .. } => annotation is Some,
        ClassFieldInner::ClassAttribute { annotation, .. } => annotation is Some,
        ClassFieldInner::InstanceAttribute { annotation, .. } => annotation is Some,
        _ => false,
    }
}

/// What a field is asked for is read off its kind, its annotation and the function it holds: whether
/// it is final, an override, a class variable, an init variable, abstract or annotated.
pub proof fn law_fields_say_what_they_are(field: ClassField)
    ensures
        field.field_type() == held_type(field),
        field.class_var() == belongs_to_class(field),
        field.init_var() == init_only(field),
        field.declared() is Some == is_annotated(field),
        !(field.inner is NestedClass) ==> field.explicit_override() == (held_type(
            field,
        ).func_metadata() matches Some(m) && m.flags.is_override),
        !(field.inner is NestedClass) && (held_type(field).func_metadata() matches Some(m)
            && m.flags.is_final) ==> field.final_field(),
        (field.inner matches ClassFieldInner::ClassAttribute { annotation, .. } && carries(
            annotation,
            Qualifier::Final,
        )) ==> field.final_field(),
        (field.inner matches ClassFieldInner::InstanceAttribute { annotation, .. } && carries(
            annotation,
            Qualifier::Final,
        )) ==> field.final_field(),
        (field.inner matches ClassFieldInner::ClassAttribute { annotation, ty, .. } && !carries(
            annotation,
            Qualifier::Final,
        ) && ty.func_metadata() is None) ==> !field.final_field(),
        field.inner is NestedClass ==> !field.final_field() && !field.explicit_override(),
        field.abstract_field() == match field.inner {
            ClassFieldInner::Property { is_abstract, .. } => is_abstract,
            ClassFieldInner::Method { is_abstract, .. } => is_abstract,
            _ => false,
        },
        field.decoratable() == !(field.inner is InstanceAttribute || field.inner is ClassAttribute
            || field.inner is NestedClass),
{
}

/// A field is read-only where it has no setter, where it is a method or a nested class, where there
/// is a reason, or where it is a class variable; otherwise it can be written.
pub proof fn law_read_only_fields_have_a_reason(field: ClassField)
    ensures
        field.inner matches ClassFieldInner::ClassAttribute { read_only_reason, is_classvar, .. }
            ==> field.read_only() == (read_only_reason is Some || is_classvar),
        field.inner matches ClassFieldInner::InstanceAttribute { read_only_reason, .. }
            ==> field.read_only() == read_only_reason is Some,
        field.inner matches ClassFieldInner::Descriptor { descriptor, .. } ==> field.read_only()
            == !descriptor.setter,
        field.inner matches ClassFieldInner::Property { ty, .. } ==> field.read_only() == !(
        ty.func_metadata() matches Some(m) && (m.property matches Some(p) && p.role is Setter)),
        field.inner is Method || field.inner is NestedClass ==> field.read_only(),
{
}

/// A key of a typed dictionary has the type of its annotation. It cannot be written where that says
/// `ReadOnly`, and it is required where that says so, or where it says nothing and keys are required
/// by default.
pub proof fn law_keys_follow_their_annotation(field: ClassField, required_by_default: bool)
    ensures
        field.inner is Method || field.inner is Property || field.inner is NestedClass || field.inner
            is Descriptor ==> field.typed_dict_info(required_by_default) is None,
        field.inner matches ClassFieldInner::ClassAttribute { annotation: None, .. }
            ==> field.typed_dict_info(required_by_default) is None,
        field.inner matches ClassFieldInner::ClassAttribute { annotation: Some(a), .. } ==> (
        a.ty matches Some(ty) ==> (field.typed_dict_info(required_by_default) matches Some(key)
            && key.ty == ty && key.read_only_reason is Some == a.qualifiers@.contains(
            Qualifier::ReadOnly,
        ) && (a.qualifiers@.contains(Qualifier::Required) ==> key.required) && (
        a.qualifiers@.contains(Qualifier::NotRequired) && !a.qualifiers@.contains(
            Qualifier::Required,
        ) ==> !key.required) && (!a.qualifiers@.contains(Qualifier::Required)
            && !a.qualifiers@.contains(Qualifier::NotRequired) ==> key.required
            == required_by_default))),
{
}

/// A class has its own field where it declares or is given one; a declared one comes first. Only then
/// its ancestors are asked.
pub proof fn law_own_fields_come_first<Ans>(
    solver: AnswersSolver<Ans>,
    cls: Class,
    name: Seq<char>,
    how: Search,
)
    ensures
        solver.info(cls).declared_field(name) matches Some(f) ==> solver.info(cls).own_field(name)
            == Some(f),
        found_in(solver.info(cls), name, how) matches Some(f) ==> (solver.from_mro(
            cls,
            name,
            how,
        ) matches Some(member) && member.value == f && member.defining_class == cls),
        found_in(solver.info(cls), name, how) is None && solver.info(cls).ancestors@.len() == 0
            ==> solver.from_mro(cls, name, how) is None,
{
}

/// What a search finds in a class: all fields, or none that are init variables, none that only
/// methods assign, and none that were added to the class, as it is asked.
pub proof fn law_searches_leave_out_fields(info: ClassInfo, name: Seq<char>)
    ensures
        found_in(info, name, Search::All) == info.own_field(name),
        found_in(info, name, Search::AllButInitVars) matches Some(f) ==> !init_only(f)
            && info.own_field(name) == Some(f),
        info.own_field(name) matches Some(f) ==> (!init_only(f) ==> found_in(
            info,
            name,
            Search::AllButInitVars,
        ) == Some(f)),
        found_in(info, name, Search::DeclaredButInitVars) matches Some(f) ==> !init_only(f)
            && info.declared_field(name) == Some(f),
        info.declared_field(name) matches Some(f) ==> (!init_only(f) ==> found_in(
            info,
            name,
            Search::DeclaredButInitVars,
        ) == Some(f)),
        found_in(info, name, Search::DeclaredInBody) matches Some(f) ==> !assigned_in_method(f)
            && info.declared_field(name) == Some(f),
        info.declared_field(name) matches Some(f) ==> (!assigned_in_method(f) ==> found_in(
            info,
            name,
            Search::DeclaredInBody,
        ) == Some(f)),
        info.metadata.typed_dict is None ==> found_in(info, name, Search::NotTypedDictKeys)
            == info.own_field(name),
{
}

/// Init variables are no members.
pub proof fn law_init_variables_are_no_members<Ans>(
    solver: AnswersSolver<Ans>,
    cls: Class,
    name: Seq<char>,
)
    ensures
        solver.member_and_class(cls, name) matches Some(member) ==> !init_only(member.value)
            && solver.from_mro(cls, name, Search::All) == Some(member),
        solver.from_mro(cls, name, Search::All) matches Some(member) ==> (!init_only(member.value)
            ==> solver.member_and_class(cls, name) == Some(member)),
        solver.from_mro(cls, name, Search::All) is None ==> solver.member_and_class(cls, name)
            is None,
{
}

/// What an ancestor gives has its type arguments filled in. Below an unknown base the constructors
/// of `object` say nothing.
pub proof fn law_ancestors_fill_in_arguments<Ans>(
    solver: AnswersSolver<Ans>,
    cls: Class,
    ancestor: ClassType,
    name: Seq<char>,
    how: Search,
)
    ensures
        name != "__new__"@ && name != "__init__"@ || !solver.info(cls).extends_any ==> (
        solver.contributed(cls, ancestor, name, how) == match found_in(
            solver.info(ancestor.class),
            name,
            how,
        ) {
            Some(f) => Some(
                WithDefiningClass {
                    value: f.substituted(Subst::Args(ancestor.targs)),
                    defining_class: ancestor.class,
                },
            ),
            None => None,
        }),
        (name == "__new__"@ || name == "__init__"@) && solver.info(cls).extends_any
            && ancestor.class.toplevel && ancestor.class.module@ == "builtins"@
            && ancestor.class.name@ == "object"@ ==> (solver.contributed(
            cls,
            ancestor,
            name,
            how,
        ) matches Some(member) && member.value.inner is ClassAttribute),
{
    reveal_strlit("__new__");
}

/// A member of the body of a dataclass is a field, an init variable or no field: methods, class
/// variables and what only methods assign are none.
pub proof fn law_members_of_dataclasses_are_sorted<Ans: LookupAnswer>(
    solver: AnswersSolver<Ans>,
    cls: Class,
    name: Seq<char>,
    member: WithDefiningClass<ClassField>,
)
    requires
        solver.from_mro(cls, name, Search::DeclaredInBody) == Some(member),
        !(held_type(member.value) is ClassType),
    ensures
        ({
            let field = member.value;
            let none = field.inner is Method || belongs_to_class(field) || field.inner
                is InstanceAttribute;
            let sorted = solver.dataclass_member(cls, name);
            &&& none ==> sorted is NotAField
            &&& !none && is_annotated(field) && !assigned_in_method(field) && init_only(field)
                ==> sorted == DataclassMember::InitVar(member, field.dataclass_flags())
            &&& !none && is_annotated(field) && !assigned_in_method(field) && !init_only(field)
                ==> sorted == DataclassMember::Field(member, field.dataclass_flags())
        }),
{
}

/// The mark for keyword-only fields is no field, and a name that the class body does not hold is
/// none either.
pub proof fn law_marks_are_no_fields<Ans: LookupAnswer>(
    solver: AnswersSolver<Ans>,
    cls: Class,
    name: Seq<char>,
)
    ensures
        solver.from_mro(cls, name, Search::DeclaredInBody) is None ==> solver.dataclass_member(
            cls,
            name,
        ) is NotAField,
        (solver.from_mro(cls, name, Search::DeclaredInBody) matches Some(member) && (
        member.value.inner matches ClassFieldInner::ClassAttribute { ty: Type::ClassType(c), .. }
            && c.class.toplevel && c.class.module@ == "dataclasses"@ && c.class.name@
            == "KW_ONLY"@)) ==> solver.dataclass_member(cls, name) is KwOnlyMarker,
{
}

/// A field whose value is written out in the class body has a default, one that a field specifier
/// describes has the options of that, and one without a value has no default.
pub proof fn law_values_are_defaults(field: ClassField)
    ensures
        field.inner matches ClassFieldInner::ClassAttribute { initialization, .. } ==> {
            let flags = field.dataclass_flags();
            &&& initialization matches ClassFieldInitialization::ClassBody(Some(kws)) ==> flags
                == *kws
            &&& initialization matches ClassFieldInitialization::ClassBody(None) ==> flags.default
                is Some && flags.init && flags.init_by_name && flags.kw_only is None
                && flags.init_by_alias is None && flags.converter_param is None
            &&& !(initialization is ClassBody) ==> flags.default is None && flags.init
                && flags.init_by_name && flags.kw_only is None && flags.init_by_alias is None
                && flags.converter_param is None
        },
{
}

/// Whether a field is keyword-only is what it says itself; otherwise what stands in front of it and
/// the options of the class that defines it decide.
pub proof fn law_fields_decide_on_keywords<Ans: LookupAnswer>(
    solver: AnswersSolver<Ans>,
    cls: Class,
    dataclass: DataclassMetadata,
    name: String,
    member: WithDefiningClass<ClassField>,
    keywords: DataclassFieldKeywords,
    sets: Seq<KwOnlyView>,
)
    ensures
        ({
            let entry = solver.entry_of(cls, dataclass, name, member, keywords, sets);
            let marked = said_kw_only(sets, member.defining_class, name@);
            &&& entry.0 == name
            &&& entry.1 == member.value
            &&& keywords.kw_only is Some ==> entry.2 == keywords
            &&& keywords.kw_only is None && marked ==> entry.2.kw_only == Some(true)
            &&& keywords.kw_only is None && !marked && member.defining_class.id == cls.id
                ==> entry.2.kw_only == Some(dataclass.kws.kw_only)
            &&& keywords.kw_only is None && !marked && member.defining_class.id != cls.id
                ==> entry.2.kw_only == Some(
                match solver.info(member.defining_class).metadata.dataclass {
                    Some(dm) => dm.kws.kw_only,
                    None => false,
                },
            )
            &&& entry.2.init == keywords.init
            &&& entry.2.default == keywords.default
            &&& entry.2.init_by_name == keywords.init_by_name
            &&& entry.2.init_by_alias == keywords.init_by_alias
            &&& entry.2.converter_param == keywords.converter_param
            &&& entry.2.strict == keywords.strict
        }),
{
}

/// Fields come into a constructor where they are fields, and init variables where these are asked
/// for.
pub proof fn law_init_variables_come_on_request<Ans: LookupAnswer>(
    solver: AnswersSolver<Ans>,
    cls: Class,
    dataclass: DataclassMetadata,
    name: String,
    include_initvar: bool,
    sets: Seq<KwOnlyView>,
)
    ensures
        solver.field_entry(cls, dataclass, name, include_initvar, sets) is Some == match solver.dataclass_member(
            cls,
            name@,
        ) {
            DataclassMember::Field(_, _) => true,
            DataclassMember::InitVar(_, _) => include_initvar,
            DataclassMember::KwOnlyMarker => false,
            DataclassMember::NotAField => false,
        },
{
}

proof fn lemma_selected(entries: Seq<FieldEntry>, entry: FieldEntry, kw_only: bool)
    ensures
        selected_entries(entries, kw_only).contains(entry) <==> entries.contains(entry) && (
        entry.2.kw_only == Some(true)) == kw_only,
    decreases entries.len(),
{
    if entries.len() > 0 {
        let rest = entries.drop_last();
        let last = entries.last();
        lemma_selected(rest, entry, kw_only);
        let before = selected_entries(rest, kw_only);
        let all = selected_entries(entries, kw_only);
        assert(entries =~= rest.push(last));
        if entries.contains(entry) && !rest.contains(entry) {
            let i = choose|i: int| 0 <= i < entries.len() && entries[i] == entry;
            if i < rest.len() {
                assert(rest[i] == entry);
            }
            assert(entry == last);
        }
        if rest.contains(entry) {
            let i = choose|i: int| 0 <= i < rest.len() && rest[i] == entry;
            assert(entries[i] == entry);
        }
        assert(entries[entries.len() - 1] == last);
        if last.2.keyword_only() == kw_only {
            assert(all[before.len() as int] == last);
            if before.contains(entry) {
                let i = choose|i: int| 0 <= i < before.len() && before[i] == entry;
                assert(all[i] == entry);
            }
            if all.contains(entry) {
                let i = choose|i: int| 0 <= i < all.len() && all[i] == entry;
                if i < before.len() {
                    assert(before[i] == entry);
                }
            }
        }
    }
}

/// The constructor lists exactly the fields of the dataclass, none left out and none added.
pub proof fn law_constructors_list_all_fields<Ans: LookupAnswer>(
    solver: AnswersSolver<Ans>,
    cls: Class,
    dataclass: DataclassMetadata,
    include_initvar: bool,
    sets: Seq<KwOnlyView>,
    entry: FieldEntry,
)
    ensures
        solver.ordered_fields(cls, dataclass, include_initvar, sets).contains(entry)
            == solver.field_entries(
            cls,
            dataclass,
            crate::ordered::name_elements(dataclass.fields),
            include_initvar,
            sets,
        ).contains(entry),
{
    let entries = solver.field_entries(
        cls,
        dataclass,
        crate::ordered::name_elements(dataclass.fields),
        include_initvar,
        sets,
    );
    lemma_selected(entries, entry, false);
    lemma_selected(entries, entry, true);
    let a = selected_entries(entries, false);
    let b = selected_entries(entries, true);
    let all = solver.ordered_fields(cls, dataclass, include_initvar, sets);
    assert(all =~= a + b);
    if a.contains(entry) {
        let i = choose|i: int| 0 <= i < a.len() && a[i] == entry;
        assert(all[i] == entry);
    }
    if b.contains(entry) {
        let i = choose|i: int| 0 <= i < b.len() && b[i] == entry;
        assert(all[a.len() + i] == entry);
    }
    if all.contains(entry) {
        let i = choose|i: int| 0 <= i < all.len() && all[i] == entry;
        if i < a.len() {
            assert(a[i] == entry);
        } else {
            assert(b[i - a.len()] == entry);
        }
    }
}

/// A field comes into the list under its name where it is one, in the order of the names.
pub proof fn law_fields_are_listed_in_turn<Ans: LookupAnswer>(
    solver: AnswersSolver<Ans>,
    cls: Class,
    dataclass: DataclassMetadata,
    names: Seq<String>,
    name: String,
    include_initvar: bool,
    sets: Seq<KwOnlyView>,
)
    ensures
        solver.field_entries(cls, dataclass, Seq::empty(), include_initvar, sets).len() == 0,
        solver.field_entries(cls, dataclass, names.push(name), include_initvar, sets)
            == match solver.field_entry(cls, dataclass, name, include_initvar, sets) {
            Some(entry) => solver.field_entries(
                cls,
                dataclass,
                names,
                include_initvar,
                sets,
            ).push(entry),
            None => solver.field_entries(cls, dataclass, names, include_initvar, sets),
        },
{
    assert(names.push(name).drop_last() =~= names);
}

/// The own fields of a dataclass are its annotated names, and a name that comes again keeps its
/// place.
pub proof fn law_annotated_names_are_fields(
    fields: Seq<DeclaredField>,
    field: DeclaredField,
    names: Seq<Seq<char>>,
    name: Seq<char>,
)
    ensures
        annotated_names(fields.push(field)) == if field.annotated {
            annotated_names(fields).push(field.name@)
        } else {
            annotated_names(fields)
        },
        gathered(names.push(name)) == if gathered(names).contains(name) {
            gathered(names)
        } else {
            gathered(names).push(name)
        },
        gathered(Seq::empty()).len() == 0,
{
    assert(fields.push(field).drop_last() =~= fields);
    assert(names.push(name).drop_last() =~= names);
}

/// Only annotated fields behind the mark for keyword-only fields stand behind it.
pub proof fn law_marks_divide_the_fields(
    info: ClassInfo,
    fields: Seq<DeclaredField>,
    field: DeclaredField,
    known: ClassField,
)
    requires
        info.declared_field(field.name@) == Some(known),
        !(held_type(known) is ClassType),
        field.annotated,
    ensures
        behind_marker(info, fields.push(field)).contains(field.name@) == (behind_marker(
            info,
            fields,
        ).contains(field.name@) || crate::dataclass_fields::marked(info, fields)),
{
    assert(fields.push(field).drop_last() =~= fields);
    let before = behind_marker(info, fields);
    let after = behind_marker(info, fields.push(field));
    if crate::dataclass_fields::marked(info, fields) && !before.contains(field.name@) {
        assert(after[before.len() as int] == field.name@);
    }
}

} // verus!
