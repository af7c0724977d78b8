use starlark_map::small_map::SmallMap;
use vstd::prelude::*;

use crate::attribute::ClassAttribute;
use crate::class_field::ClassField;
use crate::instance::{Instance, InstanceKind};
use crate::metadata::DeclaredField;
use crate::ordered::{
    lemma_value_at, lemma_with_new_entry, name_entries, name_map, name_map_get, name_map_insert,
};
use crate::override_check::{
    checked_for_overrides, key_info, key_override_reports,
    should_check_field_for_override_consistency, typed_dict_field_info,
    validate_typed_dict_field_override,
};
use crate::report::{report1, ErrorCollector, ReportView, Rule, TextRange};
use crate::solver::{AnswersSolver, LookupAnswer};
use crate::text::{cat3, cat5, cat7, texts};
use crate::types::{AnyStyle, Class, ClassType, Type};

verus! {

/// A field that a class inherits from one of its bases.
pub struct InheritedFieldInfo {
    /// The base.
    pub class: Class,
    pub field: ClassField,
    /// What reading the field gives.
    pub ty: Type,
    pub read_only: bool,
}

/// The fields of one name that a class inherits.
pub struct FieldGroup {
    pub name: String,
    pub infos: Vec<InheritedFieldInfo>,
}

/// The fields of one name that a class inherits.
pub struct GroupView {
    pub name: Seq<char>,
    pub infos: Seq<InheritedFieldInfo>,
}

impl View for FieldGroup {
    type V = GroupView;

    open spec fn view(&self) -> GroupView {
        GroupView { name: self.name@, infos: self.infos@ }
    }
}

/// The groups, with one field more: it joins the group of its name, or starts a new one.
pub open spec fn joined_group(
    groups: Seq<GroupView>,
    name: Seq<char>,
    info: InheritedFieldInfo,
) -> Seq<GroupView>
    decreases groups.len(),
{
    if groups.len() == 0 {
        seq![GroupView { name, infos: seq![info] }]
    } else if groups[0].name == name {
        seq![GroupView { name, infos: groups[0].infos.push(info) }] + groups.drop_first()
    } else {
        seq![groups[0]] + joined_group(groups.drop_first(), name, info)
    }
}

proof fn lemma_joins_at(
    groups: Seq<GroupView>,
    name: Seq<char>,
    info: InheritedFieldInfo,
    at: int,
)
    requires
        0 <= at < groups.len(),
        groups[at].name == name,
        forall|i: int| 0 <= i < at ==> (#[trigger] groups[i]).name != name,
    ensures
        joined_group(groups, name, info) == groups.update(
            at,
            GroupView { name, infos: groups[at].infos.push(info) },
        ),
    decreases at,
{
    if at > 0 {
        let rest = groups.drop_first();
        assert(forall|i: int| 0 <= i < rest.len() ==> #[trigger] rest[i] == groups[i + 1]);
        assert(groups[0].name != name);
        lemma_joins_at(rest, name, info, at - 1);
    }
    assert(joined_group(groups, name, info) =~= groups.update(
        at,
        GroupView { name, infos: groups[at].infos.push(info) },
    ));
}

proof fn lemma_starts_group(groups: Seq<GroupView>, name: Seq<char>, info: InheritedFieldInfo)
    requires
        forall|i: int| 0 <= i < groups.len() ==> (#[trigger] groups[i]).name != name,
    ensures
        joined_group(groups, name, info) == groups.push(GroupView { name, infos: seq![info] }),
    decreases groups.len(),
{
    if groups.len() > 0 {
        let rest = groups.drop_first();
        assert(forall|i: int| 0 <= i < rest.len() ==> #[trigger] rest[i] == groups[i + 1]);
        assert(groups[0].name != name);
        lemma_starts_group(rest, name, info);
    }
    assert(joined_group(groups, name, info) =~= groups.push(GroupView { name, infos: seq![info] }));
}

pub open spec fn group_views(groups: Seq<FieldGroup>) -> Seq<GroupView> {
    groups.map_values(|g: FieldGroup| g@)
}

/// Whether a map leads from each name to the position of its group.
pub open spec fn indexes(map: SmallMap<String, usize>, groups: Seq<GroupView>) -> bool {
    let entries = name_entries(map);
    &&& entries.len() == groups.len()
    &&& forall|i: int|
        0 <= i < groups.len() ==> #[trigger] entries[i] == (groups[i].name, i as usize) && i
            <= usize::MAX
    &&& forall|i: int, j: int|
        0 <= i < j < groups.len() ==> (#[trigger] groups[i]).name != (#[trigger] groups[j]).name
}

/// Adds a field to the group of its name.
fn add_to_group(
    map: &mut SmallMap<String, usize>,
    groups: &mut Vec<FieldGroup>,
    name: &String,
    info: InheritedFieldInfo,
)
    requires
        indexes(*old(map), group_views(old(groups)@)),
    ensures
        indexes(*final(map), group_views(final(groups)@)),
        group_views(final(groups)@) == joined_group(group_views(old(groups)@), name@, info),
{
    let ghost before = group_views(groups@);
    let ghost entries = name_entries(*map);
    proof {
        lemma_value_at(entries, name@);
    }
    match name_map_get(map, name.as_str()) {
        Some(at) => {
            proof {
                let k = choose|k: int|
                    0 <= k < entries.len() && #[trigger] entries[k] == (name@, at);
                assert(entries[k] == (before[k].name, k as usize));
                lemma_joins_at(before, name@, info, k);
            }
            groups[at].infos.push(info);
            assert(group_views(groups@) =~= before.update(
                at as int,
                GroupView { name: name@, infos: before[at as int].infos.push(info) },
            ));
            assert(indexes(*map, group_views(groups@)));
        },
        None => {
            let at: usize = groups.len();
            proof {
                assert forall|i: int| 0 <= i < before.len() implies (#[trigger] before[i]).name
                    != name@ by {
                    assert(entries[i].0 != name@);
                }
                lemma_starts_group(before, name@, info);
                lemma_with_new_entry(entries, name@, at);
            }
            name_map_insert(map, name.clone(), at);
            let mut infos: Vec<InheritedFieldInfo> = Vec::new();
            infos.push(info);
            groups.push(FieldGroup { name: name.clone(), infos });
            assert(group_views(groups@) =~= before.push(
                GroupView { name: name@, infos: seq![info] },
            ));
            assert(indexes(*map, group_views(groups@)));
        },
    }
}

impl<Ans: LookupAnswer> AnswersSolver<Ans> {
    /// The attribute that a class inherits from a base.
    pub open spec fn inherited_attribute(
        self,
        cls: Class,
        parent: ClassType,
        name: String,
        field: ClassField,
    ) -> ClassAttribute {
        self.instance_attribute(
            name,
            field,
            Instance {
                kind: InstanceKind::Protocol(self.instance_of(cls)),
                class: parent.class,
                targs: parent.targs,
            },
        )
    }

    /// The field that a base passes on, if it takes part in the comparison: names that are not
    /// checked for overrides do not, nor do names that the class declares itself, nor fields
    /// whose type is unknown because of an error.
    pub open spec fn passed_on(self, cls: Class, parent: ClassType, name: String) -> Option<
        InheritedFieldInfo,
    > {
        if !checked_for_overrides(name@, self.info(cls).metadata, false) || self.info(cls).declares(
            name@,
        ) {
            None
        } else {
            match self.member(parent.class, name@) {
                None => None,
                Some(field) => {
                    let attr = self.inherited_attribute(cls, parent, name, field);
                    match self.read(attr, self.chain_limit()) {
                        Some(Ok(ty)) => if ty == Type::Any(AnyStyle::Error) {
                            None
                        } else {
                            Some(
                                InheritedFieldInfo {
                                    class: parent.class,
                                    field,
                                    ty,
                                    read_only: attr.not_writable(),
                                },
                            )
                        },
                        _ => None,
                    }
                },
            }
        }
    }

    /// Whether a field that a base passes on can be read.
    pub open spec fn base_readable(self, cls: Class, parent: ClassType, name: String) -> bool {
        self.member(parent.class, name@) matches Some(field) ==> self.readable(
            self.inherited_attribute(cls, parent, name, field),
        )
    }

    /// Whether what a class inherits can be read.
    pub open spec fn inherits_readable(self, cls: Class) -> bool {
        forall|i: int, name: String|
            0 <= i < self.info(cls).bases@.len() ==> #[trigger] self.base_readable(
                cls,
                self.info(cls).bases@[i],
                name,
            )
    }

    /// The groups after the given fields of a base were added.
    pub open spec fn with_fields(
        self,
        cls: Class,
        parent: ClassType,
        fields: Seq<DeclaredField>,
        groups: Seq<GroupView>,
    ) -> Seq<GroupView>
        decreases fields.len(),
    {
        if fields.len() == 0 {
            groups
        } else {
            let before = self.with_fields(cls, parent, fields.drop_last(), groups);
            match self.passed_on(cls, parent, fields.last().name) {
                Some(info) => joined_group(before, fields.last().name@, info),
                None => before,
            }
        }
    }

    /// The fields that a class inherits from the given bases, by name.
    pub open spec fn inherited_groups(self, cls: Class, parents: Seq<ClassType>) -> Seq<GroupView>
        decreases parents.len(),
    {
        if parents.len() == 0 {
            Seq::empty()
        } else {
            let before = self.inherited_groups(cls, parents.drop_last());
            match self.info(parents.last().class).fields {
                Some(fields) => self.with_fields(cls, parents.last(), fields@, before),
                None => before,
            }
        }
    }

    /// The field that a base passes on.
    fn get_passed_on(&self, cls: &Class, parent: &ClassType, name: &String, Ghost(k): Ghost<int>) -> (r:
        Option<InheritedFieldInfo>)
        requires
            self.wf(),
            self.inherits_readable(*cls),
            0 <= k < self.info(*cls).bases@.len(),
            self.info(*cls).bases@[k] == *parent,
        ensures
            r == self.passed_on(*cls, *parent, *name),
    {
        let info = self.get_info(cls);
        if !should_check_field_for_override_consistency(name.as_str(), &info.metadata, false) {
            return None;
        }
        if info.declares_field(name.as_str()) {
            return None;
        }
        match self.get_class_member(&parent.class, name.as_str()) {
            None => None,
            Some(field) => {
                assert(self.base_readable(*cls, self.info(*cls).bases@[k], *name));
                let attr = self.as_instance_attribute(
                    name,
                    &field,
                    &Instance::of_protocol(parent, self.instantiate(cls)),
                );
                let read_only = attr.is_read_only();
                let mut swallowed = ErrorCollector::new();
                match self.resolve_get_class_attr(
                    &attr,
                    TextRange { start: 0, end: 0 },
                    &mut swallowed,
                ) {
                    Ok(ty) => if ty.is_error() {
                        None
                    } else {
                        Some(
                            InheritedFieldInfo {
                                class: parent.class.dupe(),
                                field,
                                ty,
                                read_only,
                            },
                        )
                    },
                    Err(_) => None,
                }
            },
        }
    }

    fn collect_from(
        &self,
        cls: &Class,
        parent: &ClassType,
        fields: &Vec<DeclaredField>,
        map: &mut SmallMap<String, usize>,
        groups: &mut Vec<FieldGroup>,
        Ghost(k): Ghost<int>,
    )
        requires
            self.wf(),
            self.inherits_readable(*cls),
            0 <= k < self.info(*cls).bases@.len(),
            self.info(*cls).bases@[k] == *parent,
            indexes(*old(map), group_views(old(groups)@)),
        ensures
            indexes(*final(map), group_views(final(groups)@)),
            group_views(final(groups)@) == self.with_fields(
                *cls,
                *parent,
                fields@,
                group_views(old(groups)@),
            ),
    {
        let mut i: usize = 0;
        assert(fields@.take(0) =~= Seq::empty());
        while i < fields.len()
            invariant
                i <= fields@.len(),
                self.wf(),
                self.inherits_readable(*cls),
                0 <= k < self.info(*cls).bases@.len(),
                self.info(*cls).bases@[k] == *parent,
                indexes(*map, group_views(groups@)),
                group_views(groups@) == self.with_fields(
                    *cls,
                    *parent,
                    fields@.take(i as int),
                    group_views(old(groups)@),
                ),
            decreases fields@.len() - i,
        {
            let name = &fields[i].name;
            assert(fields@.take(i + 1).drop_last() =~= fields@.take(i as int));
            assert(fields@.take(i + 1).last() == fields@[i as int]);
            i = i + 1;
            if let Some(info) = self.get_passed_on(cls, parent, name, Ghost(k)) {
                add_to_group(map, groups, name, info);
            }
        }
        assert(fields@.take(i as int) =~= fields@);
    }

    fn collect_groups(&self, cls: &Class) -> (groups: Vec<FieldGroup>)
        requires
            self.wf(),
            self.inherits_readable(*cls),
        ensures
            group_views(groups@) == self.inherited_groups(*cls, self.info(*cls).bases@),
    {
        let mut map = name_map();
        let mut groups: Vec<FieldGroup> = Vec::new();
        let bases = &self.get_info(cls).bases;
        let mut i: usize = 0;
        assert(bases@.take(0) =~= Seq::empty());
        assert(group_views(groups@) =~= Seq::empty());
        while i < bases.len()
            invariant
                i <= bases@.len(),
                bases@ == self.info(*cls).bases@,
                self.wf(),
                self.inherits_readable(*cls),
                indexes(map, group_views(groups@)),
                group_views(groups@) == self.inherited_groups(*cls, bases@.take(i as int)),
            decreases bases@.len() - i,
        {
            assert(bases@.take(i + 1).drop_last() =~= bases@.take(i as int));
            assert(bases@.take(i + 1).last() == bases@[i as int]);
            match &self.get_info(&bases[i].class).fields {
                Some(fields) => {
                    self.collect_from(
                        cls,
                        &bases[i],
                        fields,
                        &mut map,
                        &mut groups,
                        Ghost(i as int),
                    );
                },
                None => {},
            }
            i = i + 1;
        }
        assert(bases@.take(i as int) =~= bases@);
        groups
    }

    /// The lines that list inherited types.
    pub open spec fn listed(self, infos: Seq<InheritedFieldInfo>) -> Seq<Seq<char>>
        decreases infos.len(),
    {
        if infos.len() == 0 {
            Seq::empty()
        } else {
            self.listed(infos.drop_last()).push(
                "  `"@ + self.answers.shown(infos.last().ty) + "` from `"@
                    + infos.last().class.name@ + "`"@,
            )
        }
    }

    /// The reports on fields that can be written, but not with everything that the intersection
    /// of the inherited types holds.
    pub open spec fn narrowed_reports(
        self,
        name: Seq<char>,
        infos: Seq<InheritedFieldInfo>,
        intersect: Type,
        range: TextRange,
    ) -> Seq<ReportView>
        decreases infos.len(),
    {
        if infos.len() == 0 {
            Seq::empty()
        } else {
            let before = self.narrowed_reports(name, infos.drop_last(), intersect, range);
            let info = infos.last();
            if !info.read_only && !info.ty.toplevel_callable() && !self.subset_eq(
                info.ty,
                intersect,
            ) {
                before.push(
                    report1(
                        range,
                        Rule::InconsistentInheritance,
                        "Field `"@ + name + "` is declared `"@ + self.answers.as_it_stands(info.ty)
                            + "` in ancestor `"@ + self.answers.class_shown(info.class)
                            + "`, which is not assignable to the type `"@
                            + self.answers.as_it_stands(intersect)
                            + "` implied by multiple inheritance"@,
                    ),
                )
            } else {
                before
            }
        }
    }

    /// The reports on typed dictionary keys that do not fit the key of the class.
    pub open spec fn key_reports(
        self,
        cls: Class,
        name: Seq<char>,
        child: ClassField,
        infos: Seq<InheritedFieldInfo>,
        range: TextRange,
    ) -> Seq<ReportView>
        decreases infos.len(),
    {
        if infos.len() == 0 {
            Seq::empty()
        } else {
            let before = self.key_reports(cls, name, child, infos.drop_last(), range);
            let info = infos.last();
            before + key_override_reports(
                cls,
                self.info(cls).metadata,
                info.class,
                self.info(info.class).metadata,
                name,
                child,
                info.field,
                range,
            )
        }
    }

    /// The reports on the fields of one name.
    pub open spec fn group_reports(self, cls: Class, group: GroupView) -> Seq<ReportView> {
        let range = cls.range;
        let name = group.name;
        if group.infos.len() <= 1 {
            Seq::empty()
        } else {
            let intersect = self.answers.intersection(
                group.infos.map_values(|info: InheritedFieldInfo| info.ty),
            );
            (if intersect is Intersect || intersect is Never {
                seq![
                    ReportView {
                        range,
                        rule: Rule::InconsistentInheritance,
                        lines: seq![
                            "Field `"@ + name
                                + "` has inconsistent types inherited from multiple base classes"@,
                            "Inherited types include:"@,
                        ] + self.listed(group.infos),
                    },
                ]
            } else {
                self.narrowed_reports(name, group.infos, intersect, range)
            }) + match self.member(cls, name) {
                Some(child) => if key_info(self.info(cls).metadata, name, child) is Some {
                    self.key_reports(cls, name, child, group.infos, range)
                } else {
                    Seq::empty()
                },
                None => Seq::empty(),
            }
        }
    }

    /// The reports on all groups.
    pub open spec fn groups_reports(self, cls: Class, groups: Seq<GroupView>) -> Seq<ReportView>
        decreases groups.len(),
    {
        if groups.len() == 0 {
            Seq::empty()
        } else {
            self.groups_reports(cls, groups.drop_last()) + self.group_reports(cls, groups.last())
        }
    }

    fn list_types(&self, infos: &Vec<InheritedFieldInfo>, lines: &mut Vec<String>)
        ensures
            texts(final(lines)@) == texts(old(lines)@) + self.listed(infos@),
    {
        let mut i: usize = 0;
        assert(infos@.take(0) =~= Seq::empty());
        assert(texts(lines@) =~= texts(old(lines)@) + Seq::<Seq<char>>::empty());
        while i < infos.len()
            invariant
                i <= infos@.len(),
                texts(lines@) == texts(old(lines)@) + self.listed(infos@.take(i as int)),
            decreases infos@.len() - i,
        {
            assert(infos@.take(i + 1).drop_last() =~= infos@.take(i as int));
            assert(infos@.take(i + 1).last() == infos@[i as int]);
            let shown = self.answers.display(&infos[i].ty);
            let ghost before = lines@;
            let line = cat5(
                "  `",
                shown.as_str(),
                "` from `",
                infos[i].class.name.as_str(),
                "`",
            );
            lines.push(line);
            assert(texts(lines@) =~= texts(before).push(line@));
            assert(texts(lines@) =~= texts(old(lines)@) + self.listed(infos@.take(i + 1)));
            i = i + 1;
        }
        assert(infos@.take(i as int) =~= infos@);
    }

    fn check_narrowed(
        &self,
        name: &str,
        infos: &Vec<InheritedFieldInfo>,
        intersect: &Type,
        range: TextRange,
        errors: &mut ErrorCollector,
    )
        ensures
            final(errors)@ == old(errors)@ + self.narrowed_reports(
                name@,
                infos@,
                *intersect,
                range,
            ),
    {
        let mut i: usize = 0;
        assert(infos@.take(0) =~= Seq::empty());
        assert(errors@ =~= old(errors)@ + Seq::<ReportView>::empty());
        while i < infos.len()
            invariant
                i <= infos@.len(),
                errors@ == old(errors)@ + self.narrowed_reports(
                    name@,
                    infos@.take(i as int),
                    *intersect,
                    range,
                ),
            decreases infos@.len() - i,
        {
            assert(infos@.take(i + 1).drop_last() =~= infos@.take(i as int));
            assert(infos@.take(i + 1).last() == infos@[i as int]);
            let info = &infos[i];
            if !info.read_only && !info.ty.is_toplevel_callable() && !self.is_subset_eq(
                &info.ty,
                intersect,
            ) {
                let shown = self.answers.display_as_it_stands(&info.ty);
                let shown_intersect = self.answers.display_as_it_stands(intersect);
                let ancestor = self.answers.display_class(&info.class);
                let start = cat7(
                    "Field `",
                    name,
                    "` is declared `",
                    shown.as_str(),
                    "` in ancestor `",
                    ancestor.as_str(),
                    "`, which is not assignable to the type `",
                );
                let line = cat3(
                    start.as_str(),
                    shown_intersect.as_str(),
                    "` implied by multiple inheritance",
                );
                errors.error(range, Rule::InconsistentInheritance, line);
            }
            assert(errors@ =~= old(errors)@ + self.narrowed_reports(
                name@,
                infos@.take(i + 1),
                *intersect,
                range,
            ));
            i = i + 1;
        }
        assert(infos@.take(i as int) =~= infos@);
    }

    fn check_keys(
        &self,
        cls: &Class,
        name: &str,
        child: &ClassField,
        infos: &Vec<InheritedFieldInfo>,
        range: TextRange,
        errors: &mut ErrorCollector,
    )
        ensures
            final(errors)@ == old(errors)@ + self.key_reports(*cls, name@, *child, infos@, range),
    {
        let metadata = self.get_metadata_for_class(cls);
        let mut i: usize = 0;
        assert(infos@.take(0) =~= Seq::empty());
        assert(errors@ =~= old(errors)@ + Seq::<ReportView>::empty());
        while i < infos.len()
            invariant
                i <= infos@.len(),
                *metadata == self.info(*cls).metadata,
                errors@ == old(errors)@ + self.key_reports(
                    *cls,
                    name@,
                    *child,
                    infos@.take(i as int),
                    range,
                ),
            decreases infos@.len() - i,
        {
            assert(infos@.take(i + 1).drop_last() =~= infos@.take(i as int));
            assert(infos@.take(i + 1).last() == infos@[i as int]);
            let info = &infos[i];
            validate_typed_dict_field_override(
                cls,
                metadata,
                &info.class,
                self.get_metadata_for_class(&info.class),
                name,
                child,
                &info.field,
                range,
                errors,
            );
            assert(errors@ =~= old(errors)@ + self.key_reports(
                *cls,
                name@,
                *child,
                infos@.take(i + 1),
                range,
            ));
            i = i + 1;
        }
        assert(infos@.take(i as int) =~= infos@);
    }

    fn types_of(infos: &Vec<InheritedFieldInfo>) -> (r: Vec<Type>)
        ensures
            r@ == infos@.map_values(|info: InheritedFieldInfo| info.ty),
    {
        let mut types: Vec<Type> = Vec::new();
        let mut i: usize = 0;
        while i < infos.len()
            invariant
                i <= infos@.len(),
                types@ == infos@.take(i as int).map_values(|info: InheritedFieldInfo| info.ty),
            decreases infos@.len() - i,
        {
            types.push(infos[i].ty.dupe());
            assert(types@ =~= infos@.take(i + 1).map_values(|info: InheritedFieldInfo| info.ty));
            i = i + 1;
        }
        assert(infos@.take(i as int) =~= infos@);
        types
    }

    fn check_group(&self, cls: &Class, group: &FieldGroup, errors: &mut ErrorCollector)
        ensures
            final(errors)@ == old(errors)@ + self.group_reports(*cls, group@),
    {
        assert(errors@ + Seq::<ReportView>::empty() =~= errors@);
        if group.infos.len() <= 1 {
            return ;
        }
        let name = group.name.as_str();
        let types = Self::types_of(&group.infos);
        let intersect = self.answers.intersects(&types);
        let disjoint = match &intersect {
            Type::Intersect(_) => true,
            Type::Never => true,
            _ => false,
        };
        if disjoint {
            let mut lines: Vec<String> = Vec::new();
            lines.push(
                cat3(
                    "Field `",
                    name,
                    "` has inconsistent types inherited from multiple base classes",
                ),
            );
            lines.push("Inherited types include:".to_owned());
            assert(texts(lines@) =~= seq![
                "Field `"@ + name@ + "` has inconsistent types inherited from multiple base classes"@,
                "Inherited types include:"@,
            ]);
            self.list_types(&group.infos, &mut lines);
            errors.add(cls.range, Rule::InconsistentInheritance, lines);
        } else {
            self.check_narrowed(name, &group.infos, &intersect, cls.range, errors);
        }
        if let Some(child) = self.get_class_member(cls, name) {
            if typed_dict_field_info(
                self.get_metadata_for_class(cls),
                name,
                &child,
            ).is_some() {
                self.check_keys(cls, name, &child, &group.infos, cls.range, errors);
            }
        }
        assert(errors@ =~= old(errors)@ + self.group_reports(*cls, group@));
    }

    /// Reports fields that a class inherits from several bases and that do not fit one another.
    pub fn check_consistent_multiple_inheritance(&self, cls: &Class, errors: &mut ErrorCollector)
        requires
            self.wf(),
            self.inherits_readable(*cls),
        ensures
            final(errors)@ == old(errors)@ + self.groups_reports(
                *cls,
                self.inherited_groups(*cls, self.info(*cls).bases@),
            ),
    {
        let groups = self.collect_groups(cls);
        let ghost views = group_views(groups@);
        let mut i: usize = 0;
        assert(views.take(0) =~= Seq::empty());
        assert(errors@ =~= old(errors)@ + Seq::<ReportView>::empty());
        while i < groups.len()
            invariant
                i <= groups@.len(),
                views == group_views(groups@),
                errors@ == old(errors)@ + self.groups_reports(*cls, views.take(i as int)),
            decreases groups@.len() - i,
        {
            assert(views.take(i + 1).drop_last() =~= views.take(i as int));
            assert(views.take(i + 1).last() == groups@[i as int]@);
            self.check_group(cls, &groups[i], errors);
            assert(errors@ =~= old(errors)@ + self.groups_reports(*cls, views.take(i + 1)));
            i = i + 1;
        }
        assert(views.take(i as int) =~= views);
    }
}

/// Whether no two fields have the same name.
pub open spec fn distinct_names(fields: Seq<DeclaredField>) -> bool {
    forall|i: int, j: int|
        0 <= i < j < fields.len() ==> (#[trigger] fields[i]).name@ != (#[trigger] fields[j]).name@
}

proof fn lemma_one_base<Ans: LookupAnswer>(
    solver: AnswersSolver<Ans>,
    cls: Class,
    parent: ClassType,
    fields: Seq<DeclaredField>,
)
    requires
        distinct_names(fields),
    ensures
        forall|i: int|
            0 <= i < solver.with_fields(cls, parent, fields, Seq::empty()).len() ==> ({
                let group = #[trigger] solver.with_fields(cls, parent, fields, Seq::empty())[i];
                &&& group.infos.len() == 1
                &&& exists|k: int| 0 <= k < fields.len() && group.name == (#[trigger] fields[k]).name@
            }),
    decreases fields.len(),
{
    if fields.len() > 0 {
        let rest = fields.drop_last();
        lemma_one_base(solver, cls, parent, rest);
        let before = solver.with_fields(cls, parent, rest, Seq::empty());
        let name = fields.last().name@;
        match solver.passed_on(cls, parent, fields.last().name) {
            Some(info) => {
                assert forall|i: int| 0 <= i < before.len() implies (#[trigger] before[i]).name
                    != name by {
                    let k = choose|k: int|
                        0 <= k < rest.len() && before[i].name == (#[trigger] rest[k]).name@;
                    assert(fields[k] == rest[k]);
                    assert(fields[fields.len() - 1].name@ == name);
                }
                lemma_starts_group(before, name, info);
                let after = before.push(GroupView { name, infos: seq![info] });
                assert forall|i: int| 0 <= i < after.len() implies ({
                    let group = #[trigger] after[i];
                    &&& group.infos.len() == 1
                    &&& exists|k: int|
                        0 <= k < fields.len() && group.name == (#[trigger] fields[k]).name@
                }) by {
                    if i < before.len() {
                        let k = choose|k: int|
                            0 <= k < rest.len() && before[i].name == (#[trigger] rest[k]).name@;
                        assert(fields[k] == rest[k]);
                    } else {
                        assert(fields[fields.len() - 1].name@ == name);
                    }
                }
            },
            None => {
                assert forall|i: int| 0 <= i < before.len() implies exists|k: int|
                    0 <= k < fields.len() && (#[trigger] before[i]).name == (
                    #[trigger] fields[k]).name@ by {
                    let k = choose|k: int|
                        0 <= k < rest.len() && before[i].name == (#[trigger] rest[k]).name@;
                    assert(fields[k] == rest[k]);
                }
            },
        }
    }
}

proof fn lemma_small_groups<Ans: LookupAnswer>(
    solver: AnswersSolver<Ans>,
    cls: Class,
    groups: Seq<GroupView>,
)
    requires
        forall|i: int| 0 <= i < groups.len() ==> (#[trigger] groups[i]).infos.len() <= 1,
    ensures
        solver.groups_reports(cls, groups).len() == 0,
    decreases groups.len(),
{
    if groups.len() > 0 {
        assert(groups.last() == groups[groups.len() - 1]);
        lemma_small_groups(solver, cls, groups.drop_last());
    }
}

/// A class with at most one base is never reported: there nothing can meet.
pub proof fn law_single_inheritance_is_consistent<Ans: LookupAnswer>(
    solver: AnswersSolver<Ans>,
    cls: Class,
)
    requires
        solver.info(cls).bases@.len() <= 1,
        forall|i: int|
            0 <= i < solver.info(cls).bases@.len() ==> (solver.info(
                (#[trigger] solver.info(cls).bases@[i]).class,
            ).fields matches Some(fields) ==> distinct_names(fields@)),
    ensures
        solver.groups_reports(cls, solver.inherited_groups(cls, solver.info(cls).bases@)).len()
            == 0,
{
    let bases = solver.info(cls).bases@;
    reveal_with_fuel(AnswersSolver::inherited_groups, 2);
    if bases.len() == 1 {
        assert(bases.last() == bases[0]);
        if let Some(fields) = solver.info(bases[0].class).fields {
            lemma_one_base(solver, cls, bases[0], fields@);
        }
    }
    lemma_small_groups(solver, cls, solver.inherited_groups(cls, bases));
}

} // verus!
