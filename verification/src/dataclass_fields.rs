use std::sync::Arc;

use starlark_map::small_set::SmallSet;
use vstd::prelude::*;

use crate::annotation::DataclassFieldKeywords;
use crate::class_field::ClassField;
use crate::metadata::{ClassInfo, ClassMetadata, DataclassMetadata, DeclaredField};
use crate::ordered::{
    name_elements, name_set_contains, name_set_insert, name_set_list, name_texts, new_name_set,
    with_element,
};
use crate::reading::DataclassMember;
use crate::solver::{AnswersSolver, LookupAnswer, WithDefiningClass};
use crate::text::texts;
use crate::types::{Class, ClassType, Type};

verus! {

/// A base class with what is known of it.
pub struct BaseWithMetadata {
    pub class: Class,
    pub metadata: Arc<ClassMetadata>,
}

/// The names without repetitions, each where it comes first.
pub open spec fn gathered(names: Seq<Seq<char>>) -> Seq<Seq<char>>
    decreases names.len(),
{
    if names.len() == 0 {
        Seq::empty()
    } else {
        with_element(gathered(names.drop_last()), names.last())
    }
}

proof fn lemma_gathered_extends(a: Seq<Seq<char>>, b: Seq<Seq<char>>, x: Seq<char>)
    ensures
        gathered(a + b.push(x)) == with_element(gathered(a + b), x),
{
    assert((a + b.push(x)).drop_last() =~= a + b);
    assert((a + b.push(x)).last() == x);
}

fn add_all(set: &mut SmallSet<String>, names: &Vec<String>, Ghost(before): Ghost<Seq<Seq<char>>>)
    requires
        name_texts(*old(set)) == gathered(before),
    ensures
        name_texts(*final(set)) == gathered(before + texts(names@)),
{
    let mut i: usize = 0;
    assert(before + texts(names@.take(0)) =~= before);
    while i < names.len()
        invariant
            i <= names@.len(),
            name_texts(*set) == gathered(before + texts(names@.take(i as int))),
        decreases names@.len() - i,
    {
        proof {
            lemma_gathered_extends(before, texts(names@.take(i as int)), names@[i as int]@);
            assert(texts(names@.take(i + 1)) =~= texts(names@.take(i as int)).push(
                names@[i as int]@,
            ));
        }
        name_set_insert(set, names[i].clone());
        i = i + 1;
    }
    assert(names@.take(i as int) =~= names@);
}

/// The names of the dataclass fields of the bases, those of the last base first.
pub open spec fn base_fields(bases: Seq<BaseWithMetadata>) -> Seq<Seq<char>>
    decreases bases.len(),
{
    if bases.len() == 0 {
        Seq::empty()
    } else {
        (match bases.last().metadata.dataclass {
            Some(dm) => name_texts(dm.fields),
            None => Seq::empty(),
        }) + base_fields(bases.drop_last())
    }
}

/// The names of the annotated fields.
pub open spec fn annotated_names(fields: Seq<DeclaredField>) -> Seq<Seq<char>>
    decreases fields.len(),
{
    if fields.len() == 0 {
        Seq::empty()
    } else if fields.last().annotated {
        annotated_names(fields.drop_last()).push(fields.last().name@)
    } else {
        annotated_names(fields.drop_last())
    }
}

/// The names that a dataclass takes from its bases and its own annotations.
pub open spec fn own_annotated(info: ClassInfo) -> Seq<Seq<char>> {
    match info.fields {
        Some(fields) => annotated_names(fields@),
        None => Seq::empty(),
    }
}

/// The fields of one class that stand behind the mark for keyword-only fields.
pub struct KwOnlyFields {
    pub class: Class,
    pub names: SmallSet<String>,
}

/// The fields of one class that stand behind the mark for keyword-only fields, as plain names.
pub struct KwOnlyView {
    pub class: Class,
    pub names: Seq<Seq<char>>,
}

impl View for KwOnlyFields {
    type V = KwOnlyView;

    open spec fn view(&self) -> KwOnlyView {
        KwOnlyView { class: self.class, names: name_texts(self.names) }
    }
}

pub open spec fn kw_views(sets: Seq<KwOnlyFields>) -> Seq<KwOnlyView> {
    sets.map_values(|s: KwOnlyFields| s@)
}

/// Whether the type is that of the mark for keyword-only fields.
pub open spec fn is_marker(ty: Type) -> bool {
    match ty {
        Type::ClassType(cls) => cls.class.is_qname("dataclasses"@, "KW_ONLY"@),
        _ => false,
    }
}

fn is_kw_only_marker(ty: &Type) -> (r: bool)
    ensures
        r == is_marker(*ty),
{
    match ty {
        Type::ClassType(cls) => cls.has_qname("dataclasses", "KW_ONLY"),
        _ => false,
    }
}

/// Whether a declared field is the mark for keyword-only fields.
pub open spec fn marks(info: ClassInfo, field: DeclaredField) -> bool {
    field.annotated && (info.declared_field(field.name@) matches Some(f) && is_marker(
        f.field_type(),
    ))
}

/// Whether the mark is among the given fields.
pub open spec fn marked(info: ClassInfo, fields: Seq<DeclaredField>) -> bool
    decreases fields.len(),
{
    fields.len() > 0 && (marked(info, fields.drop_last()) || marks(info, fields.last()))
}

/// The annotated fields behind the mark.
pub open spec fn behind_marker(info: ClassInfo, fields: Seq<DeclaredField>) -> Seq<Seq<char>>
    decreases fields.len(),
{
    if fields.len() == 0 {
        Seq::empty()
    } else {
        let before = behind_marker(info, fields.drop_last());
        let field = fields.last();
        if field.annotated && info.declared_field(field.name@) is Some && !marks(info, field)
            && marked(info, fields.drop_last()) {
            with_element(before, field.name@)
        } else {
            before
        }
    }
}

/// The fields of a class that stand behind the mark for keyword-only fields.
pub open spec fn kw_only_names(info: ClassInfo) -> Seq<Seq<char>> {
    match info.fields {
        Some(fields) => behind_marker(info, fields@),
        None => Seq::empty(),
    }
}

fn compute_for_class(info: &ClassInfo) -> (r: SmallSet<String>)
    ensures
        name_texts(r) == kw_only_names(*info),
{
    let mut names = new_name_set();
    match &info.fields {
        None => names,
        Some(fields) => {
            let mut seen_kw_only_marker = false;
            let mut i: usize = 0;
            assert(fields@.take(0) =~= Seq::empty());
            while i < fields.len()
                invariant
                    i <= fields@.len(),
                    seen_kw_only_marker == marked(*info, fields@.take(i as int)),
                    name_texts(names) == behind_marker(*info, fields@.take(i as int)),
                decreases fields@.len() - i,
            {
                assert(fields@.take(i + 1).drop_last() =~= fields@.take(i as int));
                assert(fields@.take(i + 1).last() == fields@[i as int]);
                let declared = &fields[i];
                if declared.annotated {
                    if let Some(field) = info.get_declared(declared.name.as_str()) {
                        if is_kw_only_marker(&field.ty()) {
                            seen_kw_only_marker = true;
                        } else if seen_kw_only_marker {
                            name_set_insert(&mut names, declared.name.clone());
                        }
                    }
                }
                i = i + 1;
            }
            assert(fields@.take(i as int) =~= fields@);
            names
        },
    }
}

/// The position of the first entry for a class.
pub open spec fn entry_for(sets: Seq<KwOnlyView>, cls: Class) -> Option<int>
    decreases sets.len(),
{
    if sets.len() == 0 {
        None
    } else if sets[0].class.id == cls.id {
        Some(0int)
    } else {
        match entry_for(sets.drop_first(), cls) {
            Some(i) => Some(i + 1),
            None => None,
        }
    }
}

/// Whether a field of a class is said to stand behind the mark for keyword-only fields.
pub open spec fn said_kw_only(sets: Seq<KwOnlyView>, cls: Class, name: Seq<char>) -> bool {
    entry_for(sets, cls) matches Some(i) && sets[i].names.contains(name)
}

fn find_entry(sets: &Vec<KwOnlyFields>, cls: &Class) -> (r: Option<usize>)
    ensures
        match r {
            Some(i) => entry_for(kw_views(sets@), *cls) == Some(i as int) && i < sets@.len(),
            None => entry_for(kw_views(sets@), *cls) is None,
        },
{
    let ghost views = kw_views(sets@);
    let mut i: usize = 0;
    assert(views.skip(0) =~= views);
    while i < sets.len()
        invariant
            i <= sets@.len(),
            views == kw_views(sets@),
            entry_for(views, *cls) == match entry_for(views.skip(i as int), *cls) {
                Some(k) => Some(k + i),
                None => None,
            },
        decreases sets@.len() - i,
    {
        assert(views.skip(i as int).drop_first() =~= views.skip(i + 1));
        if sets[i].class.id == cls.id {
            return Some(i);
        }
        i = i + 1;
    }
    None
}

fn is_said_kw_only(sets: &Vec<KwOnlyFields>, cls: &Class, name: &str) -> (r: bool)
    ensures
        r == said_kw_only(kw_views(sets@), *cls, name@),
{
    match find_entry(sets, cls) {
        Some(i) => {
            assert(kw_views(sets@)[i as int] == sets@[i as int]@);
            name_set_contains(&sets[i].names, name)
        },
        None => false,
    }
}

/// A field of a dataclass: its name, the field and its options.
pub type FieldEntry = (String, ClassField, DataclassFieldKeywords);

/// The entries that are keyword-only, or those that are not, in order.
pub open spec fn selected_entries(entries: Seq<FieldEntry>, kw_only: bool) -> Seq<FieldEntry>
    decreases entries.len(),
{
    if entries.len() == 0 {
        Seq::empty()
    } else if entries.last().2.keyword_only() == kw_only {
        selected_entries(entries.drop_last(), kw_only).push(entries.last())
    } else {
        selected_entries(entries.drop_last(), kw_only)
    }
}

impl<Ans: LookupAnswer> AnswersSolver<Ans> {
    /// The fields of a dataclass: those of its bases, from the last base to the first, and then
    /// its own annotated fields, each name where it comes first.
    pub fn get_dataclass_fields(&self, cls: &Class, bases: &Vec<BaseWithMetadata>) -> (r: SmallSet<
        String,
    >)
        ensures
            name_texts(r) == gathered(base_fields(bases@) + own_annotated(self.info(*cls))),
    {
        let mut all_fields = new_name_set();
        let ghost mut so_far: Seq<Seq<char>> = Seq::empty();
        let mut i: usize = bases.len();
        assert(bases@.take(i as int) =~= bases@);
        assert(so_far + base_fields(bases@) =~= base_fields(bases@));
        while i > 0
            invariant
                i <= bases@.len(),
                name_texts(all_fields) == gathered(so_far),
                so_far + base_fields(bases@.take(i as int)) == base_fields(bases@),
            decreases i,
        {
            i = i - 1;
            assert(bases@.take(i + 1).drop_last() =~= bases@.take(i as int));
            assert(bases@.take(i + 1).last() == bases@[i as int]);
            if let Some(dm) = &bases[i].metadata.dataclass {
                let names = name_set_list(&dm.fields);
                add_all(&mut all_fields, &names, Ghost(so_far));
                proof {
                    let rest = base_fields(bases@.take(i as int));
                    assert(so_far + (name_texts(dm.fields) + rest) =~= (so_far + name_texts(dm.fields))
                        + rest);
                    so_far = so_far + name_texts(dm.fields);
                }
            } else {
                assert(Seq::<Seq<char>>::empty() + base_fields(bases@.take(i as int))
                    =~= base_fields(bases@.take(i as int)));
            }
        }
        assert(so_far =~= base_fields(bases@));
        let info = self.get_info(cls);
        match &info.fields {
            None => {
                assert(so_far + Seq::<Seq<char>>::empty() =~= so_far);
            },
            Some(fields) => {
                let mut k: usize = 0;
                assert(fields@.take(0) =~= Seq::empty());
                assert(so_far + annotated_names(fields@.take(0)) =~= so_far);
                while k < fields.len()
                    invariant
                        k <= fields@.len(),
                        name_texts(all_fields) == gathered(
                            so_far + annotated_names(fields@.take(k as int)),
                        ),
                    decreases fields@.len() - k,
                {
                    assert(fields@.take(k + 1).drop_last() =~= fields@.take(k as int));
                    assert(fields@.take(k + 1).last() == fields@[k as int]);
                    if fields[k].annotated {
                        proof {
                            lemma_gathered_extends(
                                so_far,
                                annotated_names(fields@.take(k as int)),
                                fields@[k as int].name@,
                            );
                        }
                        name_set_insert(&mut all_fields, fields[k].name.clone());
                    }
                    k = k + 1;
                }
                assert(fields@.take(k as int) =~= fields@);
            },
        }
        all_fields
    }

    /// The fields behind the mark for keyword-only fields in a class.
    pub open spec fn kw_only_set(self, cls: Class) -> KwOnlyView {
        KwOnlyView { class: cls, names: kw_only_names(self.info(cls)) }
    }

    /// The fields behind the mark for keyword-only fields in a class and the given ancestors, with
    /// one entry for each class. `object` has none.
    pub open spec fn kw_only_in(self, cls: Class, ancestors: Seq<ClassType>) -> Seq<KwOnlyView>
        decreases ancestors.len(),
    {
        if ancestors.len() == 0 {
            seq![self.kw_only_set(cls)]
        } else {
            let before = self.kw_only_in(cls, ancestors.drop_last());
            let ancestor = ancestors.last().class;
            if ancestor.is_qname("builtins"@, "object"@) || entry_for(before, ancestor) is Some {
                before
            } else {
                before.push(self.kw_only_set(ancestor))
            }
        }
    }

    /// The fields behind the mark for keyword-only fields in a class and its ancestors.
    pub open spec fn kw_only_of(self, cls: Class) -> Seq<KwOnlyView> {
        self.kw_only_in(cls, self.info(cls).ancestors@)
    }

    /// For a class and each of its ancestors but `object`, the fields that stand behind the mark
    /// for keyword-only fields.
    pub fn compute_kw_only_fields_by_class(&self, cls: &Class) -> (r: Vec<KwOnlyFields>)
        ensures
            kw_views(r@) == self.kw_only_of(*cls),
    {
        let mut sets: Vec<KwOnlyFields> = Vec::new();
        let info = self.get_info(cls);
        sets.push(KwOnlyFields { class: cls.dupe(), names: compute_for_class(info) });
        let mut i: usize = 0;
        assert(kw_views(sets@) =~= self.kw_only_in(*cls, info.ancestors@.take(0)));
        while i < info.ancestors.len()
            invariant
                i <= info.ancestors@.len(),
                *info == self.info(*cls),
                kw_views(sets@) == self.kw_only_in(*cls, info.ancestors@.take(i as int)),
            decreases info.ancestors@.len() - i,
        {
            let ancestor = &info.ancestors[i].class;
            let ghost before = sets@;
            assert(info.ancestors@.take(i + 1).drop_last() =~= info.ancestors@.take(i as int));
            if !ancestor.has_toplevel_qname("builtins", "object") && find_entry(
                &sets,
                ancestor,
            ).is_none() {
                let set = KwOnlyFields {
                    class: ancestor.dupe(),
                    names: compute_for_class(self.get_info(ancestor)),
                };
                sets.push(set);
                assert(kw_views(sets@) =~= kw_views(before).push(set@));
            }
            i = i + 1;
        }
        assert(info.ancestors@.take(i as int) =~= info.ancestors@);
        sets
    }

    /// Whether a field that does not say so itself is keyword-only: it stands behind the mark in
    /// the class that defines it, or all fields of that class are keyword-only.
    pub open spec fn default_kw_only(
        self,
        cls: Class,
        dataclass: DataclassMetadata,
        defining: Class,
        name: Seq<char>,
        sets: Seq<KwOnlyView>,
    ) -> bool {
        said_kw_only(sets, defining, name) || (if defining.id == cls.id {
            dataclass.kws.kw_only
        } else {
            self.info(defining).metadata.dataclass matches Some(dm) && dm.kws.kw_only
        })
    }

    /// The field called `name` as the iteration over the fields gives it.
    pub open spec fn field_entry(
        self,
        cls: Class,
        dataclass: DataclassMetadata,
        name: String,
        include_initvar: bool,
        sets: Seq<KwOnlyView>,
    ) -> Option<FieldEntry> {
        match self.dataclass_member(cls, name@) {
            DataclassMember::Field(member, keywords) => Some(
                self.entry_of(cls, dataclass, name, member, keywords, sets),
            ),
            DataclassMember::InitVar(member, keywords) => if include_initvar {
                Some(self.entry_of(cls, dataclass, name, member, keywords, sets))
            } else {
                None
            },
            _ => None,
        }
    }

    pub open spec fn entry_of(
        self,
        cls: Class,
        dataclass: DataclassMetadata,
        name: String,
        member: WithDefiningClass<ClassField>,
        keywords: DataclassFieldKeywords,
        sets: Seq<KwOnlyView>,
    ) -> FieldEntry {
        (
            name,
            member.value,
            if keywords.kw_only is Some {
                keywords
            } else {
                DataclassFieldKeywords {
                    kw_only: Some(
                        self.default_kw_only(
                            cls,
                            dataclass,
                            member.defining_class,
                            name@,
                            sets,
                        ),
                    ),
                    ..keywords
                }
            },
        )
    }

    fn make_entry(
        &self,
        cls: &Class,
        dataclass: &DataclassMetadata,
        name: &String,
        member: WithDefiningClass<ClassField>,
        keywords: DataclassFieldKeywords,
        sets: &Vec<KwOnlyFields>,
    ) -> (r: FieldEntry)
        ensures
            r == self.entry_of(*cls, *dataclass, *name, member, keywords, kw_views(sets@)),
    {
        let mut keywords = keywords;
        if keywords.kw_only.is_none() {
            let after_kw_only_marker = is_said_kw_only(
                sets,
                &member.defining_class,
                name.as_str(),
            );
            let defining_class_is_kw_only = if member.defining_class.id == cls.id {
                dataclass.kws.kw_only
            } else {
                match &self.get_metadata_for_class(&member.defining_class).dataclass {
                    Some(dm) => dm.kws.kw_only,
                    None => false,
                }
            };
            keywords.kw_only = Some(after_kw_only_marker || defining_class_is_kw_only);
        }
        (name.clone(), member.value, keywords)
    }

    /// The fields with the given names, in order.
    pub open spec fn field_entries(
        self,
        cls: Class,
        dataclass: DataclassMetadata,
        names: Seq<String>,
        include_initvar: bool,
        sets: Seq<KwOnlyView>,
    ) -> Seq<FieldEntry>
        decreases names.len(),
    {
        if names.len() == 0 {
            Seq::empty()
        } else {
            let before = self.field_entries(
                cls,
                dataclass,
                names.drop_last(),
                include_initvar,
                sets,
            );
            match self.field_entry(cls, dataclass, names.last(), include_initvar, sets) {
                Some(entry) => before.push(entry),
                None => before,
            }
        }
    }

    /// The fields of a dataclass in the order of the constructor: those that can be passed by
    /// position first.
    pub open spec fn ordered_fields(
        self,
        cls: Class,
        dataclass: DataclassMetadata,
        include_initvar: bool,
        sets: Seq<KwOnlyView>,
    ) -> Seq<FieldEntry> {
        let entries = self.field_entries(
            cls,
            dataclass,
            name_elements(dataclass.fields),
            include_initvar,
            sets,
        );
        selected_entries(entries, false) + selected_entries(entries, true)
    }

    /// The fields of a dataclass in the order of the constructor: those that can be passed by
    /// position first, each group in the order of declaration.
    pub fn iter_fields(
        &self,
        cls: &Class,
        dataclass: &DataclassMetadata,
        include_initvar: bool,
        kw_only_fields_by_class: &Vec<KwOnlyFields>,
    ) -> (r: Vec<FieldEntry>)
        ensures
            r@ == self.ordered_fields(
                *cls,
                *dataclass,
                include_initvar,
                kw_views(kw_only_fields_by_class@),
            ),
            entry_names(r@).no_duplicates(),
    {
        let mut positional_fields: Vec<FieldEntry> = Vec::new();
        let mut kwonly_fields: Vec<FieldEntry> = Vec::new();
        let names = name_set_list(&dataclass.fields);
        let ghost sets = kw_views(kw_only_fields_by_class@);
        let mut i: usize = 0;
        assert(names@.take(0) =~= Seq::empty());
        while i < names.len()
            invariant
                i <= names@.len(),
                names@ == name_elements(dataclass.fields),
                sets == kw_views(kw_only_fields_by_class@),
                positional_fields@ == selected_entries(
                    self.field_entries(
                        *cls,
                        *dataclass,
                        names@.take(i as int),
                        include_initvar,
                        sets,
                    ),
                    false,
                ),
                kwonly_fields@ == selected_entries(
                    self.field_entries(
                        *cls,
                        *dataclass,
                        names@.take(i as int),
                        include_initvar,
                        sets,
                    ),
                    true,
                ),
            decreases names@.len() - i,
        {
            assert(names@.take(i + 1).drop_last() =~= names@.take(i as int));
            assert(names@.take(i + 1).last() == names@[i as int]);
            let entry = match self.get_dataclass_member(cls, names[i].as_str()) {
                DataclassMember::KwOnlyMarker => None,
                DataclassMember::NotAField => None,
                DataclassMember::Field(member, keywords) => Some(
                    self.make_entry(
                        cls,
                        dataclass,
                        &names[i],
                        member,
                        keywords,
                        kw_only_fields_by_class,
                    ),
                ),
                DataclassMember::InitVar(member, keywords) => if include_initvar {
                    Some(
                        self.make_entry(
                            cls,
                            dataclass,
                            &names[i],
                            member,
                            keywords,
                            kw_only_fields_by_class,
                        ),
                    )
                } else {
                    None
                },
            };
            let ghost before = self.field_entries(
                *cls,
                *dataclass,
                names@.take(i as int),
                include_initvar,
                sets,
            );
            if let Some(entry) = entry {
                assert(before.push(entry).drop_last() =~= before);
                if entry.2.is_kw_only() {
                    kwonly_fields.push(entry);
                } else {
                    positional_fields.push(entry);
                }
            }
            i = i + 1;
        }
        assert(names@.take(i as int) =~= names@);
        positional_fields.append(&mut kwonly_fields);
        proof {
            law_field_names_come_once(*self, *cls, *dataclass, include_initvar, sets);
        }
        positional_fields
    }
}

/// The names of fields.
pub open spec fn entry_names(entries: Seq<FieldEntry>) -> Seq<Seq<char>> {
    entries.map_values(|e: FieldEntry| e.0@)
}

/// Putting a new name behind names of which no two are the same keeps it so.
proof fn lemma_push_new(names: Seq<Seq<char>>, x: Seq<char>)
    requires
        names.no_duplicates(),
        !names.contains(x),
    ensures
        names.push(x).no_duplicates(),
        forall|y: Seq<char>| #[trigger]
            names.push(x).contains(y) <==> names.contains(y) || y == x,
{
    let all = names.push(x);
    assert forall|y: Seq<char>| #[trigger] all.contains(y) <==> names.contains(y) || y == x by {
        if names.contains(y) {
            let i = choose|i: int| 0 <= i < names.len() && names[i] == y;
            assert(all[i] == y);
        }
        assert(all[names.len() as int] == x);
    }
}

proof fn lemma_entries_come_once<Ans: LookupAnswer>(
    solver: AnswersSolver<Ans>,
    cls: Class,
    dataclass: DataclassMetadata,
    names: Seq<String>,
    include_initvar: bool,
    sets: Seq<KwOnlyView>,
)
    requires
        texts(names).no_duplicates(),
    ensures
        entry_names(
            solver.field_entries(cls, dataclass, names, include_initvar, sets),
        ).no_duplicates(),
        forall|x: Seq<char>| #[trigger]
            entry_names(
                solver.field_entries(cls, dataclass, names, include_initvar, sets),
            ).contains(x) ==> texts(names).contains(x),
    decreases names.len(),
{
    if names.len() > 0 {
        let fewer = texts(names.drop_last());
        assert(fewer =~= texts(names).drop_last());
        assert(texts(names) =~= fewer.push(names.last()@));
        assert(!fewer.contains(names.last()@)) by {
            if fewer.contains(names.last()@) {
                let i = choose|i: int| 0 <= i < fewer.len() && fewer[i] == names.last()@;
                assert(texts(names)[i] == texts(names)[names.len() - 1]);
            }
        }
        lemma_entries_come_once(
            solver,
            cls,
            dataclass,
            names.drop_last(),
            include_initvar,
            sets,
        );
        lemma_push_new(fewer, names.last()@);
        let before = solver.field_entries(
            cls,
            dataclass,
            names.drop_last(),
            include_initvar,
            sets,
        );
        if let Some(e) = solver.field_entry(cls, dataclass, names.last(), include_initvar, sets) {
            assert(e.0 == names.last());
            lemma_push_new(entry_names(before), e.0@);
            assert(entry_names(before.push(e)) =~= entry_names(before).push(e.0@));
        }
    }
}

proof fn lemma_selected_come_once(entries: Seq<FieldEntry>)
    requires
        entry_names(entries).no_duplicates(),
    ensures
        entry_names(
            selected_entries(entries, false) + selected_entries(entries, true),
        ).no_duplicates(),
        forall|x: Seq<char>| #[trigger]
            entry_names(
                selected_entries(entries, false) + selected_entries(entries, true),
            ).contains(x) ==> entry_names(entries).contains(x),
    decreases entries.len(),
{
    if entries.len() > 0 {
        let fewer = entries.drop_last();
        let e = entries.last();
        assert(entry_names(fewer) =~= entry_names(entries).drop_last());
        assert(entry_names(entries) =~= entry_names(fewer).push(e.0@));
        assert(!entry_names(fewer).contains(e.0@)) by {
            if entry_names(fewer).contains(e.0@) {
                let i = choose|i: int|
                    0 <= i < entry_names(fewer).len() && entry_names(fewer)[i] == e.0@;
                assert(entry_names(entries)[i] == entry_names(entries)[entries.len() - 1]);
            }
        }
        lemma_selected_come_once(fewer);
        lemma_push_new(entry_names(fewer), e.0@);
        let first = selected_entries(fewer, false);
        let second = selected_entries(fewer, true);
        let old_names = entry_names(first + second);
        lemma_push_new(old_names, e.0@);
        let all = selected_entries(entries, false) + selected_entries(entries, true);
        if e.2.keyword_only() {
            assert(all =~= (first + second).push(e));
            assert(entry_names(all) =~= old_names.push(e.0@));
        } else {
            assert(all =~= first.push(e) + second);
            lemma_insert_new(first, second, e);
        }
    }
}

/// Putting a field with a new name between fields keeps their names apart.
proof fn lemma_insert_new(first: Seq<FieldEntry>, second: Seq<FieldEntry>, e: FieldEntry)
    requires
        entry_names(first + second).no_duplicates(),
        !entry_names(first + second).contains(e.0@),
    ensures
        entry_names(first.push(e) + second).no_duplicates(),
        forall|x: Seq<char>| #[trigger]
            entry_names(first.push(e) + second).contains(x) ==> entry_names(
                first + second,
            ).contains(x) || x == e.0@,
{
    let names = entry_names(first + second);
    let all = entry_names(first.push(e) + second);
    let n = first.len() as int;
    assert forall|i: int| 0 <= i < all.len() implies #[trigger] all[i] == (if i < n {
        names[i]
    } else if i == n {
        e.0@
    } else {
        names[i - 1]
    }) by {
    }
    assert forall|i: int| 0 <= i < names.len() implies names[i] != e.0@ by {
        assert(names.contains(names[i]));
    }
}

/// No two fields of a dataclass have the same name.
pub proof fn law_field_names_come_once<Ans: LookupAnswer>(
    solver: AnswersSolver<Ans>,
    cls: Class,
    dataclass: DataclassMetadata,
    include_initvar: bool,
    sets: Seq<KwOnlyView>,
)
    requires
        dataclass.wf(),
    ensures
        entry_names(
            solver.ordered_fields(cls, dataclass, include_initvar, sets),
        ).no_duplicates(),
{
    lemma_entries_come_once(
        solver,
        cls,
        dataclass,
        name_elements(dataclass.fields),
        include_initvar,
        sets,
    );
    lemma_selected_come_once(
        solver.field_entries(
            cls,
            dataclass,
            name_elements(dataclass.fields),
            include_initvar,
            sets,
        ),
    );
}

/// The fields of a dataclass come in two groups: no field that can be passed by position stands
/// behind one that cannot.
pub proof fn law_positional_fields_come_first<Ans: LookupAnswer>(
    solver: AnswersSolver<Ans>,
    cls: Class,
    dataclass: DataclassMetadata,
    include_initvar: bool,
    sets: Seq<KwOnlyView>,
    i: int,
    j: int,
)
    requires
        0 <= i < j < solver.ordered_fields(cls, dataclass, include_initvar, sets).len(),
        solver.ordered_fields(cls, dataclass, include_initvar, sets)[i].2.keyword_only(),
    ensures
        solver.ordered_fields(cls, dataclass, include_initvar, sets)[j].2.keyword_only(),
{
    let entries = solver.field_entries(
        cls,
        dataclass,
        name_elements(dataclass.fields),
        include_initvar,
        sets,
    );
    lemma_selected(entries, false);
    lemma_selected(entries, true);
}

proof fn lemma_selected(entries: Seq<FieldEntry>, kw_only: bool)
    ensures
        forall|i: int|
            0 <= i < selected_entries(entries, kw_only).len() ==> (#[trigger] selected_entries(
                entries,
                kw_only,
            )[i]).2.keyword_only() == kw_only,
    decreases entries.len(),
{
    if entries.len() > 0 {
        lemma_selected(entries.drop_last(), kw_only);
        let before = selected_entries(entries.drop_last(), kw_only);
        let all = selected_entries(entries, kw_only);
        assert forall|i: int| 0 <= i < all.len() implies (#[trigger] all[i]).2.keyword_only()
            == kw_only by {
            if i < before.len() {
                assert(all[i] == before[i]);
            }
        }
    }
}

} // verus!
