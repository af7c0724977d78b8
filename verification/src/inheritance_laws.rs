use vstd::prelude::*;

use crate::attribute::{ClassAttribute, Descriptor, DescriptorBase, NoAccessReason, ReadOnlyReason};
use crate::class_field::ClassField;
use crate::dataclass_fields::{entry_for, selected_entries, FieldEntry, KwOnlyView};
use crate::expr::ClassFieldDefinition;
use crate::keywords::{by_name, Fillable};
use crate::list::List;
use crate::multiple_inheritance::{joined_group, GroupView, InheritedFieldInfo};
use crate::override_check::checked_for_overrides;
use crate::pydantic_args::{constrained_positions, own_names};
use crate::report::TextRange;
use crate::root_model::is_root_model;
use crate::solver::{AnswersSolver, LookupAnswer};
use crate::types::{AnyStyle, Class, ClassType, Param, Required, TArg, Type};

verus! {

/// A field joins the group of its name behind the fields that are there, or starts a new group behind
/// all others. No other group changes.
pub proof fn law_fields_of_one_name_are_grouped(
    groups: Seq<GroupView>,
    name: Seq<char>,
    info: InheritedFieldInfo,
    i: int,
)
    requires
        0 <= i <= groups.len(),
        forall|k: int| 0 <= k < i ==> (#[trigger] groups[k]).name != name,
        i < groups.len() ==> groups[i].name == name,
    ensures
        i == groups.len() ==> joined_group(groups, name, info) == groups.push(
            GroupView { name, infos: seq![info] },
        ),
        i < groups.len() ==> joined_group(groups, name, info) == groups.update(
            i,
            GroupView { name, infos: groups[i].infos.push(info) },
        ),
    decreases groups.len(),
{
    if groups.len() > 0 {
        let rest = groups.drop_first();
        if i > 0 {
            assert(groups[0].name != name);
            assert forall|k: int| 0 <= k < i - 1 implies (#[trigger] rest[k]).name != name by {
                assert(rest[k] == groups[k + 1]);
            }
            law_fields_of_one_name_are_grouped(rest, name, info, i - 1);
            if i == groups.len() {
                assert(seq![groups[0]] + rest.push(GroupView { name, infos: seq![info] })
                    =~= groups.push(GroupView { name, infos: seq![info] }));
            } else {
                let g = GroupView { name, infos: groups[i].infos.push(info) };
                assert(seq![groups[0]] + rest.update(i - 1, g) =~= groups.update(i, g));
            }
        } else {
            let g = GroupView { name, infos: groups[0].infos.push(info) };
            assert(seq![g] + rest =~= groups.update(0, g));
        }
    } else {
        let g = GroupView { name, infos: seq![info] };
        assert(seq![g] =~= groups.push(g));
    }
}

/// A base passes on each member that takes part in the checks and that the class does not declare
/// itself, with the type that it is read with; an unknown type is not compared.
pub proof fn law_bases_pass_on_their_members<Ans: LookupAnswer>(
    solver: AnswersSolver<Ans>,
    cls: Class,
    parent: ClassType,
    name: String,
    field: ClassField,
    ty: Type,
)
    requires
        checked_for_overrides(name@, solver.info(cls).metadata, false),
        !solver.info(cls).declares(name@),
        solver.member(parent.class, name@) == Some(field),
    ensures
        solver.inherited_attribute(cls, parent, name, field) == ClassAttribute::ReadWrite(ty) && ty
            != Type::Any(AnyStyle::Error) ==> solver.passed_on(cls, parent, name) == Some(
            InheritedFieldInfo { class: parent.class, field, ty, read_only: false },
        ),
        (solver.inherited_attribute(cls, parent, name, field) matches ClassAttribute::ReadOnly(t, _)
            && t == ty) && ty != Type::Any(AnyStyle::Error) ==> solver.passed_on(cls, parent, name)
            == Some(InheritedFieldInfo { class: parent.class, field, ty, read_only: true }),
        solver.inherited_attribute(cls, parent, name, field) == ClassAttribute::ReadWrite(
            Type::Any(AnyStyle::Error),
        ) ==> solver.passed_on(cls, parent, name) is None,
        solver.inherited_attribute(cls, parent, name, field) is NoAccess ==> solver.passed_on(
            cls,
            parent,
            name,
        ) is None,
{
}

/// The report on types that exclude each other names the field and lists each type with its class.
pub proof fn law_excluded_types_are_listed<Ans: LookupAnswer>(
    solver: AnswersSolver<Ans>,
    cls: Class,
    group: GroupView,
    infos: Seq<InheritedFieldInfo>,
    info: InheritedFieldInfo,
)
    requires
        group.infos.len() > 1,
        solver.answers.intersection(group.infos.map_values(|i: InheritedFieldInfo| i.ty)) is Never,
    ensures
        ({
            let reports = solver.group_reports(cls, group);
            &&& reports.len() >= 1
            &&& reports[0].lines == seq![
                "Field `"@ + group.name
                    + "` has inconsistent types inherited from multiple base classes"@,
                "Inherited types include:"@,
            ] + solver.listed(group.infos)
        }),
        solver.listed(Seq::empty()).len() == 0,
        solver.listed(infos.push(info)) == solver.listed(infos).push(
            seq![' ', ' ', '`'] + solver.answers.shown(info.ty) + "` from `"@ + info.class.name@
                + seq!['`'],
        ),
{
    reveal_strlit("  `");
    reveal_strlit("`");
    assert("  `"@ =~= seq![' ', ' ', '`']);
    assert("`"@ =~= seq!['`']);
    assert(infos.push(info).drop_last() =~= infos);
    assert(infos.push(info).last() == info);
}

/// The entry for a class is the first one with its identity.
pub proof fn law_entries_are_found_by_class(sets: Seq<KwOnlyView>, entry: KwOnlyView, cls: Class)
    ensures
        entry_for(Seq::empty(), cls) is None,
        entry.class.id == cls.id ==> entry_for(seq![entry] + sets, cls) == Some(0int),
        entry.class.id != cls.id ==> entry_for(seq![entry] + sets, cls) is Some == entry_for(
            sets,
            cls,
        ) is Some,
{
    assert((seq![entry] + sets).drop_first() =~= sets);
    assert((seq![entry] + sets)[0] == entry);
}

/// The class itself and each ancestor but `object` has one entry.
pub proof fn law_each_class_divides_its_own_fields<Ans: LookupAnswer>(
    solver: AnswersSolver<Ans>,
    cls: Class,
    ancestors: Seq<ClassType>,
    ancestor: ClassType,
)
    ensures
        solver.kw_only_in(cls, Seq::empty()) == seq![solver.kw_only_set(cls)],
        ({
            let before = solver.kw_only_in(cls, ancestors);
            let is_object = ancestor.class.toplevel && ancestor.class.module@ == "builtins"@
                && ancestor.class.name@ == "object"@;
            solver.kw_only_in(cls, ancestors.push(ancestor)) == if is_object || entry_for(
                before,
                ancestor.class,
            ) is Some {
                before
            } else {
                before.push(solver.kw_only_set(ancestor.class))
            }
        }),
{
    assert(ancestors.push(ancestor).drop_last() =~= ancestors);
    assert(ancestors.push(ancestor).last() == ancestor);
}

/// Entries are divided into those that are keyword-only and those that are not.
pub proof fn law_entries_are_divided(entries: Seq<FieldEntry>, entry: FieldEntry)
    ensures
        selected_entries(Seq::empty(), true).len() == 0,
        selected_entries(Seq::empty(), false).len() == 0,
        selected_entries(entries.push(entry), entry.2.keyword_only()) == selected_entries(
            entries,
            entry.2.keyword_only(),
        ).push(entry),
        selected_entries(entries.push(entry), !entry.2.keyword_only()) == selected_entries(
            entries,
            !entry.2.keyword_only(),
        ),
{
    assert(entries.push(entry).drop_last() =~= entries);
    assert(entries.push(entry).last() == entry);
}

/// The parameters of a specifier tell only what the call does not: a converter that is known stays,
/// and a parameter of another name changes nothing.
pub proof fn law_specifiers_fill_in_what_is_missing<Ans: LookupAnswer>(
    solver: AnswersSolver<Ans>,
    known: Fillable,
    name: String,
    ty: Type,
    required: Required,
    alias_keyword: Option<Seq<char>>,
)
    ensures
        ({
            let after = solver.filled_by(known, Param::KwOnly(name, ty, required), alias_keyword);
            &&& name@ != "init"@ ==> after.init == known.init
            &&& name@ != "kw_only"@ ==> after.kw_only == known.kw_only
            &&& alias_keyword != Some(name@) ==> after.alias == known.alias
            &&& known.converter_param is Some ==> after.converter_param == known.converter_param
            &&& name@ != "converter"@ ==> after.converter_param == known.converter_param
            &&& name@ == "converter"@ && known.converter_param is None ==> after.converter_param
                == Some(solver.converter_input(ty))
        }),
{
}

/// Only parameters that have a name to pass them by tell anything, and they are looked at in turn.
pub proof fn law_specifier_parameters_have_names<Ans: LookupAnswer>(
    solver: AnswersSolver<Ans>,
    known: Fillable,
    p: Param,
    rest: List<Param>,
    alias_keyword: Option<Seq<char>>,
)
    ensures
        p is PosOnly || p is VarArg || p is Kwargs ==> solver.filled_by(known, p, alias_keyword)
            == known,
        p matches Param::Pos(name, ty, _) ==> (by_name(p) matches Some((n, t, _)) && n == name && t
            == ty),
        p matches Param::KwOnly(name, ty, _) ==> (by_name(p) matches Some((n, t, _)) && n == name
            && t == ty),
        solver.filled(known, List::Nil, alias_keyword) == known,
        solver.filled(known, List::Cons(p, Box::new(rest)), alias_keyword) == solver.filled(
            solver.filled_by(known, p, alias_keyword),
            rest,
            alias_keyword,
        ),
{
}

/// A root model is its last argument, and unknown without one.
pub proof fn law_root_models_hold_their_argument<Ans: LookupAnswer>(
    solver: AnswersSolver<Ans>,
    cls: ClassType,
    ancestors: Seq<ClassType>,
    arg: TArg,
)
    ensures
        is_root_model(cls.class) && cls.targs@.len() == 0 ==> solver.direct_root(cls) == Some(
            Type::Any(AnyStyle::Implicit),
        ),
        is_root_model(cls.class) && cls.targs@.len() > 0 && cls.targs@.last() == arg
            ==> solver.direct_root(cls) == Some(arg.value),
        AnswersSolver::<Ans>::root_argument(Seq::empty()) is None,
        is_root_model(cls.class) && cls.targs@.len() > 0 && cls.targs@.last() == arg
            ==> AnswersSolver::<Ans>::root_argument(seq![cls] + ancestors) == Some(arg.value),
        !is_root_model(cls.class) ==> AnswersSolver::<Ans>::root_argument(seq![cls] + ancestors)
            == AnswersSolver::<Ans>::root_argument(ancestors),
{
    assert((seq![cls] + ancestors).drop_first() =~= ancestors);
    assert((seq![cls] + ancestors)[0] == cls);
}

/// A value of a root model can be given as its root type, and as what that can be given as. Types
/// that are no root models have nothing in their place.
pub proof fn law_root_models_can_be_given_as_their_roots<Ans: LookupAnswer>(
    solver: AnswersSolver<Ans>,
    cls: ClassType,
    root: Type,
    depth: nat,
)
    ensures
        solver.direct_root(cls) is None ==> solver.root_inner(Type::ClassType(cls), depth) == Some(
            None::<Type>,
        ),
        solver.direct_root(cls) == Some(root) && depth > 0 ==> (match solver.root_inner(
            root,
            (depth - 1) as nat,
        ) {
            Some(None) => solver.root_inner(Type::ClassType(cls), depth) == Some(Some(root)),
            Some(Some(nested)) => solver.root_inner(Type::ClassType(cls), depth) == Some(
                Some(solver.answers.unioned(seq![root, nested])),
            ),
            None => solver.root_inner(Type::ClassType(cls), depth) is None,
        }),
        solver.root_inner(Type::NoneType, depth) == Some(None::<Type>),
{
}

/// Constraints have a position for every name of a field that can be passed by position.
pub proof fn law_positional_fields_have_constraints(entries: Seq<FieldEntry>, entry: FieldEntry)
    ensures
        constrained_positions(Seq::empty()).len() == 0,
        entry.2.keyword_only() ==> constrained_positions(entries.push(entry))
            == constrained_positions(entries),
        !entry.2.keyword_only() ==> constrained_positions(entries.push(entry)).len()
            == constrained_positions(entries).len() + own_names(entry).len(),
{
    assert(entries.push(entry).drop_last() =~= entries);
    assert(entries.push(entry).last() == entry);
}

/// Reading gives the type of a plain attribute, the result of the getter of a property, and for a
/// descriptor without `__get__` the descriptor itself.
pub proof fn law_attributes_are_read_as_they_are<Ans: LookupAnswer>(
    solver: AnswersSolver<Ans>,
    ty: Type,
    reason: ReadOnlyReason,
    refusal: NoAccessReason,
    setter: Option<Type>,
    owner: Class,
    x: Descriptor,
    base: DescriptorBase,
    range: TextRange,
    depth: nat,
)
    ensures
        solver.read(ClassAttribute::ReadWrite(ty), depth) == Some(Ok::<Type, NoAccessReason>(ty)),
        solver.read(ClassAttribute::ReadOnly(ty, reason), depth) == Some(
            Ok::<Type, NoAccessReason>(ty),
        ),
        solver.read(ClassAttribute::NoAccess(refusal), depth) == Some(
            Err::<Type, NoAccessReason>(refusal),
        ),
        solver.read(ClassAttribute::Property(ty, setter, owner), depth) == Some(
            Ok::<Type, NoAccessReason>(solver.answers.getter_result(ty)),
        ),
        solver.descriptor_method(x.cls, x.getter, solver.dunder.get) is None ==> solver.read(
            ClassAttribute::Descriptor(x, base),
            depth,
        ) == Some(Ok::<Type, NoAccessReason>(Type::ClassType(x.cls))),
        solver.read_reports(ClassAttribute::ReadWrite(ty), range, depth).len() == 0,
        solver.read_reports(ClassAttribute::ReadOnly(ty, reason), range, depth).len() == 0,
        solver.read_reports(ClassAttribute::Property(ty, setter, owner), range, depth)
            == solver.answers.getter_reports(ty, range),
{
}

/// A descriptor is read through its `__get__`, which gives a result for the object that it is read
/// on.
pub proof fn law_descriptors_are_read_through_get<Ans: LookupAnswer>(
    solver: AnswersSolver<Ans>,
    x: Descriptor,
    base: DescriptorBase,
    method: ClassAttribute,
    ty: Type,
    range: TextRange,
    depth: nat,
)
    requires
        solver.descriptor_method(x.cls, x.getter, solver.dunder.get) == Some(method),
        depth > 0,
        method == ClassAttribute::ReadWrite(ty),
    ensures
        solver.read(ClassAttribute::Descriptor(x, base), depth) == Some(
            Ok::<Type, NoAccessReason>(solver.answers.descriptor_result(ty, base)),
        ),
        solver.read_reports(ClassAttribute::Descriptor(x, base), range, depth)
            == solver.answers.descriptor_reports(ty, base, range),
{
    let result = solver.read(method, (depth - 1) as nat);
    assert(result == Some(Ok::<Type, NoAccessReason>(ty)));
    assert(solver.read_reports(method, x.range, (depth - 1) as nat).len() == 0);
    assert(solver.refusal_reports(result, solver.dunder.get, x.range).len() == 0);
}

/// A field that gets a type because of its class has that type and is no descriptor; any other has
/// the type that was found for it.
pub proof fn law_special_fields_have_special_types<Ans: LookupAnswer>(
    solver: AnswersSolver<Ans>,
    class: Class,
    name: String,
    definition: ClassFieldDefinition,
    range: TextRange,
    ty: Type,
)
    requires
        definition is NestedClass,
    ensures
        solver.special_type_of(class, name, definition, range) == Some(ty) ==> solver.new_field(
            class,
            name,
            definition,
            range,
        ).field_type() == solver.answers.forced(ty),
        solver.special_type_of(class, name, definition, range) is None ==> solver.new_field(
            class,
            name,
            definition,
            range,
        ).field_type() == solver.answers.forced(solver.settled_type(class, name@, definition)),
{
}

} // verus!
