use vstd::prelude::*;

use crate::annotation::Qualifier;
use crate::class_field::{ClassField, ClassFieldInner};
use crate::dataclass::ParamTransform;
use crate::dataclass_fields::{FieldEntry, KwOnlyView};
use crate::field_laws::carries;
use crate::list::List;
use crate::metadata::{DataclassMetadata, PydanticModelKind, SynthesizedField};
use crate::report::Rule;
use crate::solver::{AnswersSolver, LookupAnswer};
use crate::synthesis::{matchable, InitStyle};
use crate::text::texts;
use crate::types::{AnyStyle, Class, Lit, Param, Params, Required, Type};

verus! {

/// The type that a field holds.
pub open spec fn held_type(field: ClassField) -> Type {
    match field.inner {
        ClassFieldInner::Property { ty, .. } => ty,
        ClassFieldInner::Descriptor { ty, .. } => ty,
        ClassFieldInner::Method { ty, .. } => ty,
        ClassFieldInner::NestedClass { ty } => ty,
        ClassFieldInner::ClassAttribute { ty, .. } => ty,
        ClassFieldInner::InstanceAttribute { ty, .. } => ty,
    }
}

/// Whether values of a field are taken as they are.
pub open spec fn taken_as_is(entry: FieldEntry, by_default: bool) -> bool {
    entry.2.strict == Some(true) || (entry.2.strict is None && by_default)
}

/// Whether a field is an argument of the constructor only.
pub open spec fn init_only(field: ClassField) -> bool {
    match field.inner {
        ClassFieldInner::Descriptor { annotation, .. } => carries(annotation, Qualifier::InitVar),
        ClassFieldInner::ClassAttribute { annotation, .. } => carries(
            annotation,
            Qualifier::InitVar,
        ),
        ClassFieldInner::InstanceAttribute { annotation, .. } => carries(
            annotation,
            Qualifier::InitVar,
        ),
        _ => false,
    }
}

/// The parameter for a field: by keyword only or not, and to be given or not.
pub open spec fn parameter(name: String, ty: Type, by_keyword: bool, optional: bool) -> Param {
    let required = if optional {
        Required::Optional(None)
    } else {
        Required::Required
    };
    if by_keyword {
        Param::KwOnly(name, ty, required)
    } else {
        Param::Pos(name, ty, required)
    }
}

/// The parameters of a method that was added to a class.
pub open spec fn parameters_of(field: ClassField) -> Option<Seq<Param>> {
    match field.inner {
        ClassFieldInner::Method { ty, .. } => match ty {
            Type::Function(f) => match f.signature.params {
                Params::List(ps) => Some(ps@),
                _ => None,
            },
            _ => None,
        },
        _ => None,
    }
}

/// What a method that was added to a class returns.
pub open spec fn result_of(field: ClassField) -> Option<Type> {
    match field.inner {
        ClassFieldInner::Method { ty, .. } => match ty {
            Type::Function(f) => Some(f.signature.ret),
            _ => None,
        },
        _ => None,
    }
}

proof fn lemma_init_params_are_kept<Ans: LookupAnswer>(
    solver: AnswersSolver<Ans>,
    entries: Seq<FieldEntry>,
    dataclass: DataclassMetadata,
    style: InitStyle,
    i: int,
    param: Param,
)
    requires
        0 <= i < entries.len(),
        solver.init_params(entries[i], dataclass, style).contains(param),
    ensures
        solver.all_init_params(entries, dataclass, style).contains(param),
    decreases entries.len(),
{
    let before = solver.all_init_params(entries.drop_last(), dataclass, style);
    let own = solver.init_params(entries.last(), dataclass, style);
    let all = solver.all_init_params(entries, dataclass, style);
    assert(all =~= before + own);
    if i == entries.len() - 1 {
        let k = choose|k: int| 0 <= k < own.len() && own[k] == param;
        assert(all[before.len() + k] == param);
    } else {
        assert(entries.drop_last()[i] == entries[i]);
        lemma_init_params_are_kept(solver, entries.drop_last(), dataclass, style, i, param);
        let k = choose|k: int| 0 <= k < before.len() && before[k] == param;
        assert(all[k] == param);
    }
}

proof fn lemma_replace_params_are_kept<Ans: LookupAnswer>(
    solver: AnswersSolver<Ans>,
    entries: Seq<FieldEntry>,
    dataclass: DataclassMetadata,
    i: int,
    param: Param,
)
    requires
        0 <= i < entries.len(),
        solver.replace_params(entries[i], dataclass).contains(param),
    ensures
        solver.all_replace_params(entries, dataclass).contains(param),
    decreases entries.len(),
{
    let before = solver.all_replace_params(entries.drop_last(), dataclass);
    let own = solver.replace_params(entries.last(), dataclass);
    let all = solver.all_replace_params(entries, dataclass);
    assert(all =~= before + own);
    if i == entries.len() - 1 {
        let k = choose|k: int| 0 <= k < own.len() && own[k] == param;
        assert(all[before.len() + k] == param);
    } else {
        assert(entries.drop_last()[i] == entries[i]);
        lemma_replace_params_are_kept(solver, entries.drop_last(), dataclass, i, param);
        let k = choose|k: int| 0 <= k < before.len() && before[k] == param;
        assert(all[k] == param);
    }
}

/// A field that takes part in the constructor by its name, that is no descriptor, has no converter
/// and takes values as they are is a parameter of the constructor with the name and the type of the
/// field. It must be given unless it has a default, can be given under another name instead, or
/// everything may be left out; and it is passed by keyword only where the field says so.
pub proof fn law_init_takes_the_types_of_the_fields<Ans: LookupAnswer>(
    solver: AnswersSolver<Ans>,
    entries: Seq<FieldEntry>,
    dataclass: DataclassMetadata,
    style: InitStyle,
    i: int,
)
    requires
        0 <= i < entries.len(),
        entries[i].2.init,
        entries[i].2.init_by_name,
        entries[i].2.converter_param is None,
        !(entries[i].1.inner is Descriptor),
        !texts(dataclass.pydantic_before_validator_fields@).contains(entries[i].0@),
        taken_as_is(entries[i], style.strict_default),
        style.transform == ParamTransform::Keep,
    ensures
        solver.all_init_params(entries, dataclass, style).contains(
            parameter(
                entries[i].0,
                held_type(entries[i].1),
                entries[i].2.kw_only == Some(true),
                style.force_optional || entries[i].2.default is Some || entries[i].2.init_by_alias
                    is Some,
            ),
        ),
{
    let own = solver.init_params(entries[i], dataclass, style);
    let param = parameter(
        entries[i].0,
        held_type(entries[i].1),
        entries[i].2.kw_only == Some(true),
        style.force_optional || entries[i].2.default is Some || entries[i].2.init_by_alias is Some,
    );
    assert(own[0] == param);
    assert(own.contains(param));
    lemma_init_params_are_kept(solver, entries, dataclass, style, i, param);
}

/// A field that takes part in the constructor under another name, that is no descriptor, has no
/// converter and takes values as they are is a parameter of that name. Where it is not known under
/// its own name too, it is passed by keyword only.
pub proof fn law_aliases_are_parameters<Ans: LookupAnswer>(
    solver: AnswersSolver<Ans>,
    entries: Seq<FieldEntry>,
    dataclass: DataclassMetadata,
    style: InitStyle,
    i: int,
    alias: String,
)
    requires
        0 <= i < entries.len(),
        entries[i].2.init,
        entries[i].2.init_by_alias == Some(alias),
        entries[i].2.converter_param is None,
        !(entries[i].1.inner is Descriptor),
        !texts(dataclass.pydantic_before_validator_fields@).contains(entries[i].0@),
        taken_as_is(entries[i], style.strict_default),
        style.transform == ParamTransform::Keep,
    ensures
        solver.all_init_params(entries, dataclass, style).contains(
            parameter(
                alias,
                held_type(entries[i].1),
                entries[i].2.kw_only == Some(true) || !entries[i].2.init_by_name,
                style.force_optional || entries[i].2.default is Some || entries[i].2.init_by_name,
            ),
        ),
{
    let own = solver.init_params(entries[i], dataclass, style);
    let param = parameter(
        alias,
        held_type(entries[i].1),
        entries[i].2.kw_only == Some(true) || !entries[i].2.init_by_name,
        style.force_optional || entries[i].2.default is Some || entries[i].2.init_by_name,
    );
    assert(own.last() == param);
    assert(own.contains(param));
    lemma_init_params_are_kept(solver, entries, dataclass, style, i, param);
}

/// A field with a converter takes what the converter takes, one that a validator transforms first
/// takes anything, and one that converts values without saying from what takes anything too.
pub proof fn law_converters_decide_what_init_takes<Ans: LookupAnswer>(
    solver: AnswersSolver<Ans>,
    entry: FieldEntry,
    dataclass: DataclassMetadata,
    style: InitStyle,
)
    requires
        entry.2.init,
        entry.2.init_by_name,
        style.transform == ParamTransform::Keep,
    ensures
        ({
            let params = solver.init_params(entry, dataclass, style);
            let by_keyword = entry.2.kw_only == Some(true);
            let optional = style.force_optional || entry.2.default is Some || entry.2.init_by_alias
                is Some;
            let first = texts(dataclass.pydantic_before_validator_fields@).contains(entry.0@);
            let any = parameter(entry.0, Type::Any(AnyStyle::Explicit), by_keyword, optional);
            &&& params.len() == (if entry.2.init_by_alias is Some {
                2nat
            } else {
                1nat
            })
            &&& first ==> params[0] == any
            &&& !first ==> (entry.2.converter_param matches Some(ty) ==> params[0] == parameter(
                entry.0,
                ty,
                by_keyword,
                optional,
            ))
            &&& !first && entry.2.converter_param is None && !taken_as_is(
                entry,
                style.strict_default,
            ) && style.lax_types is None ==> params[0] == any
            &&& !first && entry.2.converter_param is None && !taken_as_is(
                entry,
                style.strict_default,
            ) ==> (style.lax_types matches Some(types) ==> (solver.answers.lax(
                types@,
                held_type(entry.1),
            ) matches Some(ty) ==> params[0] == parameter(entry.0, ty, by_keyword, optional)))
        }),
{
}

/// A field that does not take part in the constructor is no parameter of it, nor of the method that
/// copies instances; one that does has a parameter for each of its names.
pub proof fn law_only_init_fields_are_parameters<Ans: LookupAnswer>(
    solver: AnswersSolver<Ans>,
    entry: FieldEntry,
    dataclass: DataclassMetadata,
    style: InitStyle,
)
    ensures
        ({
            let names = (if entry.2.init_by_name {
                1int
            } else {
                0int
            }) + (if entry.2.init_by_alias is Some {
                1int
            } else {
                0int
            });
            &&& !entry.2.init ==> solver.init_params(entry, dataclass, style).len() == 0
                && solver.replace_params(entry, dataclass).len() == 0
            &&& entry.2.init ==> solver.init_params(entry, dataclass, style).len() == names
                && solver.replace_params(entry, dataclass).len() == names
        }),
{
}

/// The method that copies an instance takes every field of the constructor by keyword, and only an
/// init variable without a default must be given to it.
pub proof fn law_copies_take_fields_by_keyword<Ans: LookupAnswer>(
    solver: AnswersSolver<Ans>,
    entries: Seq<FieldEntry>,
    dataclass: DataclassMetadata,
    i: int,
)
    requires
        0 <= i < entries.len(),
        entries[i].2.init,
        entries[i].2.init_by_name,
        entries[i].2.converter_param is None,
        !(entries[i].1.inner is Descriptor),
        taken_as_is(entries[i], dataclass.kws.strict),
    ensures
        solver.all_replace_params(entries, dataclass).contains(
            parameter(
                entries[i].0,
                held_type(entries[i].1),
                true,
                entries[i].2.default is Some || !init_only(entries[i].1),
            ),
        ),
{
    let own = solver.replace_params(entries[i], dataclass);
    let param = parameter(
        entries[i].0,
        held_type(entries[i].1),
        true,
        entries[i].2.default is Some || !init_only(entries[i].1),
    );
    assert(own[0] == param);
    assert(own.contains(param));
    lemma_replace_params_are_kept(solver, entries, dataclass, i, param);
}

/// All parameters of the method that copies an instance are keyword-only.
pub proof fn law_copies_take_nothing_by_position<Ans: LookupAnswer>(
    solver: AnswersSolver<Ans>,
    entries: Seq<FieldEntry>,
    dataclass: DataclassMetadata,
    k: int,
)
    requires
        0 <= k < solver.all_replace_params(entries, dataclass).len(),
    ensures
        solver.all_replace_params(entries, dataclass)[k] is KwOnly,
    decreases entries.len(),
{
    let before = solver.all_replace_params(entries.drop_last(), dataclass);
    let own = solver.replace_params(entries.last(), dataclass);
    if k < before.len() {
        law_copies_take_nothing_by_position(solver, entries.drop_last(), dataclass, k);
    } else {
        assert(solver.all_replace_params(entries, dataclass)[k] == own[k - before.len()]);
    }
}

/// The init variables, and only they, are handed to `__post_init__`, each with its own type and in
/// the order of the fields.
pub proof fn law_post_init_takes_the_init_variables<Ans: LookupAnswer>(
    solver: AnswersSolver<Ans>,
    entries: Seq<FieldEntry>,
    entry: FieldEntry,
)
    requires
        !(entry.1.inner is Descriptor),
    ensures
        solver.post_init_params(Seq::empty()).len() == 0,
        solver.post_init_params(entries.push(entry)) == (if init_only(entry.1) {
            solver.post_init_params(entries).push(
                Param::Pos(entry.0, held_type(entry.1), Required::Required),
            )
        } else {
            solver.post_init_params(entries)
        }),
{
    assert(entries.push(entry).drop_last() =~= entries);
}

/// The constructor of a dataclass takes the receiver, the fields in their order and, exactly where
/// the class asks for it, any other keywords. It returns nothing.
pub proof fn law_constructors_take_the_fields<Ans: LookupAnswer>(
    solver: AnswersSolver<Ans>,
    cls: Class,
    dataclass: DataclassMetadata,
    style: InitStyle,
    sets: Seq<KwOnlyView>,
)
    ensures
        ({
            let init = solver.dataclass_init(cls, dataclass, style, sets);
            let fields = solver.all_init_params(
                solver.ordered_fields(cls, dataclass, true, sets),
                dataclass,
                style,
            );
            &&& parameters_of(init) matches Some(params) && {
                &&& params.len() == 1 + fields.len() + (if dataclass.kws.extra {
                    1int
                } else {
                    0int
                })
                &&& params[0] == Param::Pos(
                    solver.dunder.self_name,
                    solver.instance_of(cls),
                    Required::Required,
                )
                &&& params.subrange(1, fields.len() + 1int) == fields
                &&& dataclass.kws.extra ==> params.last() is Kwargs
            }
            &&& result_of(init) == Some(Type::NoneType)
        }),
{
    let fields = solver.all_init_params(
        solver.ordered_fields(cls, dataclass, true, sets),
        dataclass,
        style,
    );
    let all = seq![solver.self_param(cls, false)] + fields
        + AnswersSolver::<Ans>::extra_params(dataclass);
    List::<Param>::view_of(all);
    assert(all.subrange(1, fields.len() + 1int) =~= fields);
}

/// The method that copies an instance returns an instance of the class, and takes other keywords
/// exactly where the constructor does.
pub proof fn law_copies_are_of_the_same_class<Ans: LookupAnswer>(
    solver: AnswersSolver<Ans>,
    cls: Class,
    dataclass: DataclassMetadata,
    sets: Seq<KwOnlyView>,
)
    ensures
        ({
            let copy = solver.dataclass_replace(cls, dataclass, sets);
            let fields = solver.all_replace_params(
                solver.ordered_fields(cls, dataclass, true, sets),
                dataclass,
            );
            &&& parameters_of(copy) matches Some(params) && {
                &&& params.len() == 1 + fields.len() + (if dataclass.kws.extra {
                    1int
                } else {
                    0int
                })
                &&& params[0] is PosOnly
                &&& params.subrange(1, fields.len() + 1int) == fields
            }
            &&& result_of(copy) == Some(solver.instance_of(cls))
        }),
{
    let fields = solver.all_replace_params(
        solver.ordered_fields(cls, dataclass, true, sets),
        dataclass,
    );
    let all = seq![solver.self_param(cls, true)] + fields
        + AnswersSolver::<Ans>::extra_params(dataclass);
    List::<Param>::view_of(all);
    assert(all.subrange(1, fields.len() + 1int) =~= fields);
}

/// A positional pattern matches exactly the fields that the constructor takes by position, in their
/// order.
pub proof fn law_patterns_match_positional_fields(entries: Seq<FieldEntry>, entry: FieldEntry)
    ensures
        matchable(Seq::empty()).len() == 0,
        entry.2.init && entry.2.kw_only != Some(true) ==> {
            &&& matchable(entries.push(entry)).len() == matchable(entries).len() + 1
            &&& matchable(entries.push(entry)).drop_last() == matchable(entries)
            &&& matchable(entries.push(entry)).last() matches Type::Literal(lit) && (
            lit.value matches Lit::Str(text) && text == entry.0)
        },
        !entry.2.init || entry.2.kw_only == Some(true) ==> matchable(entries.push(entry))
            == matchable(entries),
{
    assert(entries.push(entry).drop_last() =~= entries);
    assert(matchable(entries.push(entry)).drop_last() =~= matchable(entries) || !(entry.2.init
        && entry.2.kw_only != Some(true)));
}

/// Where all fields of a dataclass are keyword-only by default, no positional pattern matches any.
pub proof fn law_keyword_only_classes_match_nothing<Ans: LookupAnswer>(
    solver: AnswersSolver<Ans>,
    cls: Class,
    dataclass: DataclassMetadata,
    sets: Seq<KwOnlyView>,
)
    ensures
        ({
            let names = held_type(solver.dataclass_match_args(cls, dataclass, sets));
            let all = matchable(solver.ordered_fields(cls, dataclass, true, sets));
            &&& names matches Type::Tuple(ts) && (if dataclass.kws.kw_only {
                ts@.len() == 0
            } else {
                ts@ == all
            })
        }),
{
    List::<Type>::view_of(matchable(solver.ordered_fields(cls, dataclass, true, sets)));
    List::<Type>::view_of(Seq::empty());
}

/// The slots of a dataclass are the names of its fields, in their order; init variables are not
/// stored and have none.
pub proof fn law_slots_are_the_fields<Ans: LookupAnswer>(
    solver: AnswersSolver<Ans>,
    cls: Class,
    dataclass: DataclassMetadata,
    sets: Seq<KwOnlyView>,
    i: int,
)
    requires
        0 <= i < solver.ordered_fields(cls, dataclass, false, sets).len(),
    ensures
        ({
            let stored = solver.ordered_fields(cls, dataclass, false, sets);
            held_type(solver.dataclass_slots(cls, dataclass, sets)) matches Type::Tuple(ts)
                && ts@.len() == stored.len() && (ts@[i] matches Type::Literal(lit)
                && (lit.value matches Lit::Str(text) && text == stored[i].0))
        }),
{
    List::<Type>::view_of(
        crate::synthesis::name_literals(solver.ordered_fields(cls, dataclass, false, sets)),
    );
}

/// Whether a field of the given name is among the added ones.
pub open spec fn adds(fields: Seq<SynthesizedField>, name: String) -> bool {
    exists|i: int| 0 <= i < fields.len() && (#[trigger] fields[i]).name == name
}

/// What a dataclass is given beside what it defines: a constructor, names for patterns and slots
/// each where it asks for them, comparisons where it is ordered, something for hashing where it
/// compares by value or is told to hash, and always the table of its fields and a method that
/// copies instances. Nothing else is added.
pub proof fn law_dataclasses_get_what_they_ask_for<Ans: LookupAnswer>(
    solver: AnswersSolver<Ans>,
    cls: Class,
    dataclass: DataclassMetadata,
    sets: Seq<KwOnlyView>,
    name: String,
)
    ensures
        adds(solver.synthesized_fields(cls, dataclass, sets), name) == {
            let d = solver.dunder;
            let kws = dataclass.kws;
            ||| kws.init && name == d.init
            ||| name == d.dataclass_fields
            ||| kws.order && (name == d.lt || name == d.le || name == d.gt || name == d.ge || name
                == d.eq || name == d.ne)
            ||| kws.match_args && name == d.match_args
            ||| kws.slots && !solver.info(cls).declares("__slots__"@) && name == d.slots
            ||| (kws.unsafe_hash || kws.eq) && name == d.hash
            ||| name == d.replace
        },
{
    let init = solver.added_init(cls, dataclass, sets);
    let comparisons = solver.added_comparisons(cls, dataclass);
    let names = solver.added_names(cls, dataclass, sets);
    let hash = solver.hash_fields(cls, dataclass);
    let copy = seq![
        SynthesizedField {
            name: solver.dunder.replace,
            field: solver.dataclass_replace(cls, dataclass, sets),
        },
    ];
    lemma_adds_either(init, comparisons, name);
    lemma_adds_either(init + comparisons, names, name);
    lemma_adds_either(init + comparisons + names, hash, name);
    lemma_adds_either(init + comparisons + names + hash, copy, name);
    lemma_adds_init(solver, cls, dataclass, sets, name);
    lemma_adds_comparisons(solver, cls, dataclass, name);
    lemma_adds_names(solver, cls, dataclass, sets, name);
    lemma_adds_hash(solver, cls, dataclass, name);
    assert(copy[0].name == solver.dunder.replace);
}

proof fn lemma_adds_either(a: Seq<SynthesizedField>, b: Seq<SynthesizedField>, name: String)
    ensures
        adds(a + b, name) == (adds(a, name) || adds(b, name)),
{
    if adds(a, name) {
        let i = choose|i: int| 0 <= i < a.len() && (#[trigger] a[i]).name == name;
        assert((a + b)[i].name == name);
    }
    if adds(b, name) {
        let i = choose|i: int| 0 <= i < b.len() && (#[trigger] b[i]).name == name;
        assert((a + b)[a.len() + i].name == name);
    }
    if adds(a + b, name) {
        let i = choose|i: int| 0 <= i < (a + b).len() && (#[trigger] (a + b)[i]).name == name;
        if i < a.len() {
            assert(a[i].name == name);
        } else {
            assert(b[i - a.len()].name == name);
        }
    }
}

proof fn lemma_adds_init<Ans: LookupAnswer>(
    solver: AnswersSolver<Ans>,
    cls: Class,
    dataclass: DataclassMetadata,
    sets: Seq<KwOnlyView>,
    name: String,
)
    ensures
        adds(solver.added_init(cls, dataclass, sets), name) == (dataclass.kws.init && name
            == solver.dunder.init),
{
    let added = solver.added_init(cls, dataclass, sets);
    assert(dataclass.kws.init ==> added[0].name == solver.dunder.init);
}

proof fn lemma_adds_comparisons<Ans: LookupAnswer>(
    solver: AnswersSolver<Ans>,
    cls: Class,
    dataclass: DataclassMetadata,
    name: String,
)
    ensures
        adds(solver.added_comparisons(cls, dataclass), name) == {
            let d = solver.dunder;
            ||| name == d.dataclass_fields
            ||| dataclass.kws.order && (name == d.lt || name == d.le || name == d.gt || name == d.ge
                || name == d.eq || name == d.ne)
        },
{
    let added = solver.added_comparisons(cls, dataclass);
    let d = solver.dunder;
    assert(added[0].name == d.dataclass_fields);
    if dataclass.kws.order {
        assert(added.len() == 7);
        assert(added[1].name == d.lt);
        assert(added[2].name == d.le);
        assert(added[3].name == d.eq);
        assert(added[4].name == d.ne);
        assert(added[5].name == d.gt);
        assert(added[6].name == d.ge);
    } else {
        assert(added.len() == 1);
    }
}

proof fn lemma_adds_names<Ans: LookupAnswer>(
    solver: AnswersSolver<Ans>,
    cls: Class,
    dataclass: DataclassMetadata,
    sets: Seq<KwOnlyView>,
    name: String,
)
    ensures
        adds(solver.added_names(cls, dataclass, sets), name) == {
            let d = solver.dunder;
            ||| dataclass.kws.match_args && name == d.match_args
            ||| dataclass.kws.slots && !solver.info(cls).declares("__slots__"@) && name == d.slots
        },
{
    let added = solver.added_names(cls, dataclass, sets);
    let d = solver.dunder;
    let slots = dataclass.kws.slots && !solver.info(cls).declares("__slots__"@);
    if dataclass.kws.match_args {
        assert(added[0].name == d.match_args);
        assert(slots ==> added[1].name == d.slots);
    } else {
        assert(slots ==> added[0].name == d.slots);
    }
}

proof fn lemma_adds_hash<Ans: LookupAnswer>(
    solver: AnswersSolver<Ans>,
    cls: Class,
    dataclass: DataclassMetadata,
    name: String,
)
    ensures
        adds(solver.hash_fields(cls, dataclass), name) == ((dataclass.kws.unsafe_hash
            || dataclass.kws.eq) && name == solver.dunder.hash),
{
    let added = solver.hash_fields(cls, dataclass);
    assert(dataclass.kws.unsafe_hash || dataclass.kws.eq ==> added[0].name == solver.dunder.hash);
}

proof fn lemma_names_differ<Ans: LookupAnswer>(solver: AnswersSolver<Ans>)
    requires
        solver.wf(),
    ensures
        ({
            let d = solver.dunder;
            &&& d.init@.len() == 8 && d.init@[2] == 'i'
            &&& d.hash@.len() == 8 && d.hash@[2] == 'h'
            &&& d.replace@.len() == 11
            &&& d.match_args@.len() == 14
            &&& d.slots@.len() == 9
            &&& d.dataclass_fields@.len() == 20
            &&& d.lt@.len() == 6 && d.lt@[2] == 'l' && d.lt@[3] == 't'
            &&& d.le@.len() == 6 && d.le@[2] == 'l' && d.le@[3] == 'e'
            &&& d.eq@.len() == 6 && d.eq@[2] == 'e' && d.eq@[3] == 'q'
            &&& d.ne@.len() == 6 && d.ne@[2] == 'n' && d.ne@[3] == 'e'
            &&& d.gt@.len() == 6 && d.gt@[2] == 'g' && d.gt@[3] == 't'
            &&& d.ge@.len() == 6 && d.ge@[2] == 'g' && d.ge@[3] == 'e'
        }),
{
    reveal_strlit("__init__");
    reveal_strlit("__hash__");
    reveal_strlit("__replace__");
    reveal_strlit("__match_args__");
    reveal_strlit("__slots__");
    reveal_strlit("__dataclass_fields__");
    reveal_strlit("__lt__");
    reveal_strlit("__le__");
    reveal_strlit("__eq__");
    reveal_strlit("__ne__");
    reveal_strlit("__gt__");
    reveal_strlit("__ge__");
}

/// A dataclass hashes its instances where it is told to, or where they compare by value and do not
/// change. Where they compare by value and can change, they have no hash; where they compare by
/// identity, nothing is added.
pub proof fn law_changing_values_have_no_hash<Ans: LookupAnswer>(
    solver: AnswersSolver<Ans>,
    cls: Class,
    dataclass: DataclassMetadata,
)
    ensures
        ({
            let added = solver.hash_fields(cls, dataclass);
            let kws = dataclass.kws;
            &&& !kws.eq && !kws.unsafe_hash ==> added.len() == 0
            &&& kws.eq && !kws.frozen && !kws.unsafe_hash ==> added.len() == 1 && added[0].name
                == solver.dunder.hash && held_type(added[0].field) is NoneType
            &&& kws.unsafe_hash || (kws.eq && kws.frozen) ==> added.len() == 1 && added[0].name
                == solver.dunder.hash && result_of(added[0].field) == Some(
                Type::ClassType(solver.stdlib.int_class),
            ) && (parameters_of(added[0].field) matches Some(params) && params.len() == 1)
        }),
{
    List::<Param>::view_of(seq![solver.self_param(cls, false)]);
}

/// Instances of an ordered dataclass are ordered among themselves only, and compared for equality
/// with anything; every comparison gives a truth value.
pub proof fn law_instances_are_ordered_among_themselves<Ans: LookupAnswer>(
    solver: AnswersSolver<Ans>,
    cls: Class,
    name: String,
)
    requires
        name == solver.dunder.lt || name == solver.dunder.le || name == solver.dunder.gt || name
            == solver.dunder.ge || name == solver.dunder.eq || name == solver.dunder.ne,
        solver.wf(),
    ensures
        exists|i: int|
            {
                &&& 0 <= i < solver.comparisons(cls).len()
                &&& (#[trigger] solver.comparisons(cls)[i]).name == name
                &&& result_of(solver.comparisons(cls)[i].field) == Some(
                    Type::ClassType(solver.stdlib.bool_class),
                )
                &&& parameters_of(solver.comparisons(cls)[i].field) matches Some(params)
                    && params.len() == 2 && (params[1] matches Param::Pos(_, ty, _) && ty == (
                if name == solver.dunder.eq || name == solver.dunder.ne {
                    Type::ClassType(solver.stdlib.object)
                } else {
                    solver.instance_of(cls)
                }))
            },
{
    lemma_names_differ(solver);
    let same = solver.instance_of(cls);
    let any = Type::ClassType(solver.stdlib.object);
    let of_same = seq![
        solver.self_param(cls, false),
        Param::Pos(solver.dunder.other, same, Required::Required),
    ];
    let of_any = seq![
        solver.self_param(cls, false),
        Param::Pos(solver.dunder.other, any, Required::Required),
    ];
    List::<Param>::view_of(of_same);
    List::<Param>::view_of(of_any);
    let all = solver.comparisons(cls);
    assert(all[0].name == solver.dunder.lt);
    assert(all[1].name == solver.dunder.le);
    assert(all[2].name == solver.dunder.eq);
    assert(all[3].name == solver.dunder.ne);
    assert(all[4].name == solver.dunder.gt);
    assert(all[5].name == solver.dunder.ge);
}

/// A field without a default that the constructor takes by position is reported exactly where
/// another positional field in front of it has a default, at the place of its declaration.
pub proof fn law_defaults_come_last<Ans: LookupAnswer>(
    solver: AnswersSolver<Ans>,
    cls: Class,
    before: Seq<FieldEntry>,
    entry: FieldEntry,
    style: InitStyle,
)
    requires
        !style.force_optional,
        entry.2.init_by_alias is None,
        forall|i: int| 0 <= i < before.len() ==> (#[trigger] before[i]).2.init_by_alias is None,
        solver.info(cls).decl_range(entry.0@) is Some,
    ensures
        ({
            let reports = solver.order_report(cls, before, entry, style);
            let misplaced = entry.2.init && entry.2.kw_only != Some(true) && entry.2.default is None
                && exists|i: int|
                {
                    &&& 0 <= i < before.len()
                    &&& (#[trigger] before[i]).2.init
                    &&& before[i].2.kw_only != Some(true)
                    &&& before[i].2.default is Some
                };
            &&& misplaced ==> reports.len() == 1 && reports[0].rule == Rule::BadClassDefinition
                && reports[0].range == solver.info(cls).decl_range(entry.0@)->0
            &&& !misplaced ==> reports.len() == 0
        }),
{
    lemma_seen_default::<Ans>(before, style);
}

proof fn lemma_seen_default<Ans: LookupAnswer>(before: Seq<FieldEntry>, style: InitStyle)
    requires
        !style.force_optional,
        forall|i: int| 0 <= i < before.len() ==> (#[trigger] before[i]).2.init_by_alias is None,
    ensures
        AnswersSolver::<Ans>::seen_default(before, style) <==> exists|i: int|
            {
                &&& 0 <= i < before.len()
                &&& (#[trigger] before[i]).2.init
                &&& before[i].2.kw_only != Some(true)
                &&& before[i].2.default is Some
            },
    decreases before.len(),
{
    if before.len() > 0 {
        let rest = before.drop_last();
        assert forall|i: int| 0 <= i < rest.len() implies (#[trigger] rest[i]).2.init_by_alias
            is None by {
            assert(rest[i] == before[i]);
        }
        lemma_seen_default::<Ans>(rest, style);
        if AnswersSolver::<Ans>::seen_default(rest, style) {
            let i = choose|i: int|
                {
                    &&& 0 <= i < rest.len()
                    &&& (#[trigger] rest[i]).2.init
                    &&& rest[i].2.kw_only != Some(true)
                    &&& rest[i].2.default is Some
                };
            assert(rest[i] == before[i]);
        }
        assert(before.last() == before[before.len() - 1]);
        assert forall|i: int| 0 <= i < before.len() - 1 implies #[trigger] before[i] == rest[i] by {}
    }
}

/// Settings can all be left out, and values of models are converted; in any other dataclass values
/// are taken as its own options say, and a field is left out only where it has a default.
pub proof fn law_only_models_convert<Ans: LookupAnswer>(
    solver: AnswersSolver<Ans>,
    cls: Class,
    dataclass: DataclassMetadata,
    sets: Seq<KwOnlyView>,
)
    ensures
        ({
            let style = solver.init_style(cls, dataclass, sets);
            let kind = solver.info(cls).metadata.pydantic_model_kind;
            &&& style.strict_default == dataclass.kws.strict
            &&& style.force_optional == (kind == Some(PydanticModelKind::BaseSettings))
            &&& kind is None || kind == Some(PydanticModelKind::DataClass) ==> style.transform
                == ParamTransform::Keep && style.lax_types is None
            &&& kind == Some(PydanticModelKind::BaseModel) || kind == Some(
                PydanticModelKind::RootModel,
            ) || kind == Some(PydanticModelKind::BaseSettings) ==> style.transform
                == ParamTransform::ExpandRootModels && style.lax_types is Some
        }),
{
}

/// Slots that are asked for and written out as well are reported once.
pub proof fn law_slots_are_given_once<Ans: LookupAnswer>(
    solver: AnswersSolver<Ans>,
    cls: Class,
    dataclass: DataclassMetadata,
)
    ensures
        ({
            let reports = solver.slots_report(cls, dataclass);
            if dataclass.kws.slots && solver.info(cls).declares("__slots__"@) {
                reports.len() == 1 && reports[0].rule == Rule::BadClassDefinition
                    && reports[0].range == cls.range
            } else {
                reports.len() == 0
            }
        }),
{
}

} // verus!
