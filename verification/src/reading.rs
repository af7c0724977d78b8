use std::sync::Arc;

use vstd::prelude::*;

use crate::annotation::{
    annotated_as, dupe_annotation, is_annotated_as, Annotation, DataclassFieldKeywords, Qualifier,
};
use crate::attribute::{ClassAttribute, Descriptor, NoAccessReason};
use crate::class_field::{ClassField, ClassFieldInner};
use crate::instance::{Instance, InstanceKind};
use crate::list::List;
use crate::names::{is_mangled_attr, mangled_name};
use crate::report::{report1, ErrorCollector, ReportView, Rule, TextRange};
use crate::solver::{AnswersSolver, LookupAnswer, Search, WithDefiningClass};
use crate::subst::{subst_type, Subst};
use crate::types::{
    AnyStyle, Callable, Class, ClassType, FuncFlags, Param, Params, Quantified, Type,
};

verus! {

/// What reading gives, where something has to be given: a type that is unknown because of an error
/// in place of what cannot be accessed.
pub open spec fn or_error(result: Result<Type, NoAccessReason>) -> Type {
    match result {
        Ok(ty) => ty,
        Err(_) => Type::Any(AnyStyle::Error),
    }
}

/// The instance of a class.
pub open spec fn plain_instance(cls: ClassType) -> Instance {
    Instance { kind: InstanceKind::ClassType, class: cls.class, targs: cls.targs }
}

/// An attribute looked up on an instance can always be accessed in some way.
pub proof fn law_instance_attributes_are_accessible<Ans: LookupAnswer>(
    solver: AnswersSolver<Ans>,
    name: String,
    field: ClassField,
    instance: Instance,
)
    ensures
        !(solver.instance_attribute(name, field, instance) is NoAccess),
{
}

impl<Ans: LookupAnswer> AnswersSolver<Ans> {
    /// What reading an attribute gives. A descriptor with `__get__` is asked through that method,
    /// which is itself an attribute of the descriptor and may be a descriptor again; without
    /// `__get__` it is read as itself. A method that cannot be accessed is called as a type that
    /// is unknown because of an error. `None` where more than `depth` descriptors follow one
    /// another.
    pub open spec fn read(self, attr: ClassAttribute, depth: nat) -> Option<
        Result<Type, NoAccessReason>,
    >
        decreases depth,
    {
        match attr {
            ClassAttribute::NoAccess(reason) => Some(Err(reason)),
            ClassAttribute::ReadWrite(ty) => Some(Ok(ty)),
            ClassAttribute::ReadOnly(ty, _) => Some(Ok(ty)),
            ClassAttribute::Property(getter, _, _) => Some(
                Ok(self.answers.getter_result(getter)),
            ),
            ClassAttribute::Descriptor(x, base) => match self.descriptor_method(
                x.cls,
                x.getter,
                self.dunder.get,
            ) {
                None => Some(Ok(Type::ClassType(x.cls))),
                Some(method) => if depth == 0 {
                    None
                } else {
                    match self.read(method, (depth - 1) as nat) {
                        Some(result) => Some(
                            Ok(self.answers.descriptor_result(or_error(result), base)),
                        ),
                        None => None,
                    }
                },
            },
        }
    }

    /// The reports that go with reading an attribute at a place: those on calling the getter of a
    /// property, and those on finding and calling the `__get__` method of a descriptor, which is
    /// found at the place where the attribute is bound to the descriptor.
    pub open spec fn read_reports(self, attr: ClassAttribute, range: TextRange, depth: nat) -> Seq<
        ReportView,
    >
        decreases depth,
    {
        match attr {
            ClassAttribute::Property(getter, _, _) => self.answers.getter_reports(getter, range),
            ClassAttribute::Descriptor(x, base) => match self.descriptor_method(
                x.cls,
                x.getter,
                self.dunder.get,
            ) {
                Some(method) => if depth == 0 {
                    Seq::empty()
                } else {
                    let result = self.read(method, (depth - 1) as nat);
                    self.read_reports(method, x.range, (depth - 1) as nat) + self.refusal_reports(
                        result,
                        self.dunder.get,
                        x.range,
                    ) + match result {
                        Some(result) => self.answers.descriptor_reports(
                            or_error(result),
                            base,
                            range,
                        ),
                        None => Seq::empty(),
                    }
                },
                None => Seq::empty(),
            },
            _ => Seq::empty(),
        }
    }

    /// The report on a method of a descriptor that cannot be accessed.
    pub open spec fn refusal_reports(
        self,
        result: Option<Result<Type, NoAccessReason>>,
        name: String,
        range: TextRange,
    ) -> Seq<ReportView> {
        match result {
            Some(Err(reason)) => seq![
                report1(range, Rule::NoAccess, self.answers.no_access_text(reason, name@)),
            ],
            _ => Seq::empty(),
        }
    }

    /// The method of a descriptor as an attribute of it, where the descriptor has the method.
    pub open spec fn descriptor_method(self, cls: ClassType, present: bool, name: String) -> Option<
        ClassAttribute,
    > {
        if present {
            self.attribute_on(name, plain_instance(cls))
        } else {
            None
        }
    }

    /// How many descriptors can follow one another: a longer chain meets some class twice, and
    /// never ends.
    pub open spec fn chain_limit(self) -> nat {
        self.classes@.len()
    }

    /// Whether reading an attribute comes to an end.
    pub open spec fn readable(self, attr: ClassAttribute) -> bool {
        self.read(attr, self.chain_limit()) is Some
    }

    fn read_within(
        &self,
        attr: &ClassAttribute,
        range: TextRange,
        depth: usize,
        errors: &mut ErrorCollector,
    ) -> (r: Result<Type, NoAccessReason>)
        requires
            self.wf(),
            self.read(*attr, depth as nat) is Some,
        ensures
            Some(r) == self.read(*attr, depth as nat),
            final(errors)@ == old(errors)@ + self.read_reports(*attr, range, depth as nat),
        decreases depth,
    {
        assert(errors@ + Seq::<ReportView>::empty() =~= errors@);
        match attr {
            ClassAttribute::NoAccess(reason) => Err(reason.dupe()),
            ClassAttribute::ReadWrite(ty) => Ok(ty.dupe()),
            ClassAttribute::ReadOnly(ty, _) => Ok(ty.dupe()),
            ClassAttribute::Property(getter, _, _) => Ok(
                self.answers.call_property_getter(getter, range, errors),
            ),
            ClassAttribute::Descriptor(x, base) => {
                let method = if x.getter {
                    self.get_instance_attribute(&x.cls, &self.dunder.get)
                } else {
                    None
                };
                match method {
                    None => Ok(Type::ClassType(x.cls.dupe())),
                    Some(method) => {
                        let result = self.read_within(&method, x.range, depth - 1, errors);
                        let getter = self.accept_method(result, &self.dunder.get, x.range, errors);
                        let ty = self.answers.call_descriptor_getter(&getter, base, range, errors);
                        assert(errors@ =~= old(errors)@ + self.read_reports(
                            *attr,
                            range,
                            depth as nat,
                        ));
                        Ok(ty)
                    },
                }
            },
        }
    }

    /// The method of a descriptor, for what reading it gives. Reports one that cannot be accessed.
    fn accept_method(
        &self,
        result: Result<Type, NoAccessReason>,
        name: &String,
        range: TextRange,
        errors: &mut ErrorCollector,
    ) -> (r: Type)
        ensures
            r == or_error(result),
            final(errors)@ == old(errors)@ + self.refusal_reports(Some(result), *name, range),
    {
        assert(errors@ + Seq::<ReportView>::empty() =~= errors@);
        match result {
            Ok(ty) => ty,
            Err(reason) => {
                let line = self.answers.no_access_message(&reason, name.as_str());
                errors.error(range, Rule::NoAccess, line);
                Type::Any(AnyStyle::Error)
            },
        }
    }

    /// What reading an attribute at a place gives.
    pub fn resolve_get_class_attr(
        &self,
        class_attr: &ClassAttribute,
        range: TextRange,
        errors: &mut ErrorCollector,
    ) -> (r: Result<Type, NoAccessReason>)
        requires
            self.wf(),
            self.readable(*class_attr),
        ensures
            Some(r) == self.read(*class_attr, self.chain_limit()),
            final(errors)@ == old(errors)@ + self.read_reports(
                *class_attr,
                range,
                self.chain_limit(),
            ),
    {
        self.read_within(class_attr, range, self.classes.len(), errors)
    }

    /// The method of a descriptor as a callable, where the descriptor has the method.
    pub open spec fn resolved_method(self, cls: ClassType, present: bool, name: String) -> Option<
        Type,
    > {
        match self.descriptor_method(cls, present, name) {
            None => None,
            Some(method) => match self.read(method, self.chain_limit()) {
                Some(Ok(ty)) => Some(ty),
                _ => Some(Type::Any(AnyStyle::Error)),
            },
        }
    }

    /// The reports that go with it.
    pub open spec fn method_reports(
        self,
        cls: ClassType,
        present: bool,
        name: String,
        range: TextRange,
    ) -> Seq<ReportView> {
        match self.descriptor_method(cls, present, name) {
            None => Seq::empty(),
            Some(method) => self.read_reports(method, range, self.chain_limit())
                + self.refusal_reports(self.read(method, self.chain_limit()), name, range),
        }
    }

    fn resolve_method(
        &self,
        cls: &ClassType,
        present: bool,
        name: &String,
        range: TextRange,
        errors: &mut ErrorCollector,
    ) -> (r: Option<Type>)
        requires
            self.wf(),
            self.descriptor_method(*cls, present, *name) matches Some(m) ==> self.readable(m),
        ensures
            r == self.resolved_method(*cls, present, *name),
            final(errors)@ == old(errors)@ + self.method_reports(*cls, present, *name, range),
    {
        assert(errors@ + Seq::<ReportView>::empty() =~= errors@);
        let method = if present {
            self.get_instance_attribute(cls, name)
        } else {
            None
        };
        match method {
            None => None,
            Some(m) => {
                let result = self.resolve_get_class_attr(&m, range, errors);
                let ty = self.accept_method(result, name, range, errors);
                assert(errors@ =~= old(errors)@ + self.method_reports(*cls, present, *name, range));
                Some(ty)
            },
        }
    }

    /// The `__get__` method of a descriptor.
    pub fn resolve_descriptor_getter(&self, x: &Descriptor, errors: &mut ErrorCollector) -> (r: Option<
        Type,
    >)
        requires
            self.wf(),
            self.descriptor_method(x.cls, x.getter, self.dunder.get) matches Some(m)
                ==> self.readable(m),
        ensures
            r == self.resolved_method(x.cls, x.getter, self.dunder.get),
            final(errors)@ == old(errors)@ + self.method_reports(
                x.cls,
                x.getter,
                self.dunder.get,
                x.range,
            ),
    {
        self.resolve_method(&x.cls, x.getter, &self.dunder.get, x.range, errors)
    }

    /// The `__set__` method of a descriptor.
    pub fn resolve_descriptor_setter(&self, x: &Descriptor, errors: &mut ErrorCollector) -> (r: Option<
        Type,
    >)
        requires
            self.wf(),
            self.descriptor_method(x.cls, x.setter, self.dunder.set) matches Some(m)
                ==> self.readable(m),
        ensures
            r == self.resolved_method(x.cls, x.setter, self.dunder.set),
            final(errors)@ == old(errors)@ + self.method_reports(
                x.cls,
                x.setter,
                self.dunder.set,
                x.range,
            ),
    {
        self.resolve_method(&x.cls, x.setter, &self.dunder.set, x.range, errors)
    }

    /// What an attribute gives when it is called as `__call__`.
    pub open spec fn read_ok(self, attr: Option<ClassAttribute>) -> Option<Type> {
        match attr {
            None => None,
            Some(a) => match self.read(a, self.chain_limit()) {
                Some(Ok(ty)) => Some(ty),
                _ => None,
            },
        }
    }

    /// The attributes that calling an instance may use: `__call__`, or for a neural network
    /// module without it `forward`.
    pub open spec fn call_attribute(self, class: Class, on: spec_fn(String) -> Option<
        ClassAttribute,
    >) -> Option<ClassAttribute> {
        match on(self.dunder.call) {
            Some(attr) => Some(attr),
            None => if self.info(class).is_nn_module {
                on(self.dunder.forward)
            } else {
                None
            },
        }
    }

    /// What calling an instance of a class calls: its `__call__` as a bound method. A neural
    /// network module without `__call__` of its own passes the call on to `forward`.
    pub fn instance_as_dunder_call(&self, cls: &ClassType) -> (r: Option<Type>)
        requires
            self.wf(),
            self.call_attribute(
                cls.class,
                |name: String| self.attribute_on(name, plain_instance(*cls)),
            ) matches Some(attr) ==> self.readable(attr),
        ensures
            r == self.read_ok(
                self.call_attribute(
                    cls.class,
                    |name: String| self.attribute_on(name, plain_instance(*cls)),
                ),
            ),
    {
        if let Some(attr) = self.get_instance_attribute(cls, &self.dunder.call) {
            return self.resolve_dunder_call_attr(&attr);
        }
        if self.get_info(&cls.class).is_nn_module {
            match self.get_instance_attribute(cls, &self.dunder.forward) {
                Some(attr) => {
                    return self.resolve_dunder_call_attr(&attr);
                },
                None => {
                    return None;
                },
            }
        }
        None
    }

    /// What calling `self` calls.
    pub fn self_as_dunder_call(&self, cls: &ClassType) -> (r: Option<Type>)
        requires
            self.wf(),
            self.call_attribute(
                cls.class,
                |name: String|
                    self.attribute_on(
                        name,
                        Instance {
                            kind: InstanceKind::SelfType,
                            class: cls.class,
                            targs: cls.targs,
                        },
                    ),
            ) matches Some(attr) ==> self.readable(attr),
        ensures
            r == self.read_ok(
                self.call_attribute(
                    cls.class,
                    |name: String|
                        self.attribute_on(
                            name,
                            Instance {
                                kind: InstanceKind::SelfType,
                                class: cls.class,
                                targs: cls.targs,
                            },
                        ),
                ),
            ),
    {
        if let Some(attr) = self.get_self_attribute(cls, &self.dunder.call) {
            return self.resolve_dunder_call_attr(&attr);
        }
        if self.get_info(&cls.class).is_nn_module {
            match self.get_self_attribute(cls, &self.dunder.forward) {
                Some(attr) => {
                    return self.resolve_dunder_call_attr(&attr);
                },
                None => {
                    return None;
                },
            }
        }
        None
    }

    /// What calling a value of a type variable calls, by one of its upper bounds.
    pub fn quantified_instance_as_dunder_call(
        &self,
        quantified: &Quantified,
        upper_bound: &ClassType,
    ) -> (r: Option<Type>)
        requires
            self.wf(),
            self.call_attribute(
                upper_bound.class,
                |name: String|
                    self.attribute_on(
                        name,
                        Instance {
                            kind: InstanceKind::TypeVar(
                                Self::restricted_to(*quantified, *upper_bound),
                            ),
                            class: upper_bound.class,
                            targs: upper_bound.targs,
                        },
                    ),
            ) matches Some(attr) ==> self.readable(attr),
        ensures
            r == self.read_ok(
                self.call_attribute(
                    upper_bound.class,
                    |name: String|
                        self.attribute_on(
                            name,
                            Instance {
                                kind: InstanceKind::TypeVar(
                                    Self::restricted_to(*quantified, *upper_bound),
                                ),
                                class: upper_bound.class,
                                targs: upper_bound.targs,
                            },
                        ),
                ),
            ),
    {
        if let Some(attr) = self.get_bounded_quantified_attribute(
            quantified.dupe(),
            upper_bound,
            &self.dunder.call,
        ) {
            return self.resolve_dunder_call_attr(&attr);
        }
        if self.get_info(&upper_bound.class).is_nn_module {
            match self.get_bounded_quantified_attribute(
                quantified.dupe(),
                upper_bound,
                &self.dunder.forward,
            ) {
                Some(attr) => {
                    return self.resolve_dunder_call_attr(&attr);
                },
                None => {
                    return None;
                },
            }
        }
        None
    }

    /// What calling by an attribute calls. What is wrong with it is not reported.
    fn resolve_dunder_call_attr(&self, attr: &ClassAttribute) -> (r: Option<Type>)
        requires
            self.wf(),
            self.readable(*attr),
        ensures
            r == self.read_ok(Some(*attr)),
    {
        let mut swallowed = ErrorCollector::new();
        match self.resolve_get_class_attr(attr, TextRange { start: 0, end: 0 }, &mut swallowed) {
            Ok(ty) => Some(ty),
            Err(_) => None,
        }
    }
}

/// The methods of a descriptor can always be accessed, so that reading or assigning through them
/// never reports that they cannot.
pub proof fn law_descriptor_methods_are_accessible<Ans: LookupAnswer>(
    solver: AnswersSolver<Ans>,
    cls: ClassType,
    present: bool,
    name: String,
    depth: nat,
    range: TextRange,
)
    requires
        solver.descriptor_method(cls, present, name) is Some,
    ensures
        !(solver.read(solver.descriptor_method(cls, present, name)->0, depth) matches Some(Err(_))),
        solver.refusal_reports(
            solver.read(solver.descriptor_method(cls, present, name)->0, depth),
            name,
            range,
        ).len() == 0,
{
}

/// The parameters and the flags of a function that has a single signature with a parameter list.
pub open spec fn params_and_flags(ty: Type) -> Option<(List<Param>, FuncFlags)> {
    if ty.func_metadata() is Some && ty.signatures().len() == 1 {
        match ty.signatures()[0].params {
            Params::List(ps) => Some((ps, ty.func_metadata()->0.flags)),
            _ => None,
        }
    } else {
        None
    }
}

/// Whether a type is a function that has a single signature with a parameter list; if so, that
/// signature and the flags of the function.
pub fn callable_params_and_flags(ty: &Type) -> (r: Option<(Arc<Callable>, FuncFlags)>)
    ensures
        r is Some == params_and_flags(*ty) is Some,
        r is Some ==> (r->0).0.params is List && ((r->0).0.params->List_0, (r->0).1)
            == params_and_flags(*ty)->0,
{
    let flags = match ty.toplevel_flags() {
        Some(flags) => flags,
        None => {
            return None;
        },
    };
    let sigs = ty.callable_signatures();
    if sigs.len() == 1 {
        match &sigs[0].params {
            Params::List(_) => Some((sigs[0].clone(), flags)),
            _ => None,
        }
    } else {
        None
    }
}

impl<Ans: LookupAnswer> AnswersSolver<Ans> {
    /// The parameters and flags that an ancestor's member `name` has, seen on the class.
    pub open spec fn signature_from(self, cls: Class, ancestor: ClassType, name: Seq<char>) -> Option<
        (List<Param>, FuncFlags),
    > {
        match self.member(ancestor.class, name) {
            None => None,
            Some(field) => params_and_flags(
                field.on_instance(
                    Instance {
                        kind: InstanceKind::Protocol(self.instance_of(cls)),
                        class: ancestor.class,
                        targs: ancestor.targs,
                    },
                ).field_type(),
            ),
        }
    }

    /// The parameters and flags of the first ancestor's member `name` that has a single
    /// signature.
    pub open spec fn first_signature(
        self,
        cls: Class,
        ancestors: Seq<ClassType>,
        name: Seq<char>,
    ) -> Option<(List<Param>, FuncFlags)>
        decreases ancestors.len(),
    {
        if ancestors.len() == 0 {
            None
        } else {
            match self.signature_from(cls, ancestors[0], name) {
                Some(sig) => Some(sig),
                None => self.first_signature(cls, ancestors.drop_first(), name),
            }
        }
    }

    /// The signature that a method inherits: parameters and flags of the nearest ancestor's
    /// method.
    pub fn inherited_method_signature(&self, cls: &Class, name: &str) -> (r: Option<
        (Arc<Callable>, FuncFlags),
    >)
        ensures
            r is Some == self.first_signature(*cls, self.info(*cls).ancestors@, name@) is Some,
            r is Some ==> (r->0).0.params is List && ((r->0).0.params->List_0, (r->0).1)
                == self.first_signature(*cls, self.info(*cls).ancestors@, name@)->0,
    {
        let info = self.get_info(cls);
        let derived = self.instantiate(cls);
        let mut i: usize = 0;
        assert(info.ancestors@.skip(0) =~= info.ancestors@);
        while i < info.ancestors.len()
            invariant
                i <= info.ancestors@.len(),
                *info == self.info(*cls),
                derived == self.instance_of(*cls),
                self.first_signature(*cls, info.ancestors@, name@) == self.first_signature(
                    *cls,
                    info.ancestors@.skip(i as int),
                    name@,
                ),
            decreases info.ancestors@.len() - i,
        {
            assert(info.ancestors@.skip(i as int).drop_first() =~= info.ancestors@.skip(i + 1));
            let ancestor = &info.ancestors[i];
            if let Some(member) = self.get_class_member(&ancestor.class, name) {
                let instance = Instance::of_protocol(ancestor, derived.dupe());
                let seen = member.instantiate_for(&instance);
                if let Some(sig) = callable_params_and_flags(&seen.ty()) {
                    return Some(sig);
                }
            }
            i = i + 1;
        }
        None
    }
}

impl Annotation {
    /// The annotation with a replacement carried out in its type.
    pub open spec fn substituted(self, s: Subst) -> Annotation {
        Annotation {
            ty: match self.ty {
                Some(t) => Some(subst_type(t, s)),
                None => None,
            },
            qualifiers: self.qualifiers,
        }
    }

    /// Carries out a replacement in the type of the annotation.
    pub fn substitute_with(&self, s: &Subst) -> (r: Annotation)
        ensures
            r == self.substituted(*s),
    {
        Annotation {
            ty: match &self.ty {
                Some(t) => Some(s.apply(t)),
                None => None,
            },
            qualifiers: self.qualifiers.clone(),
        }
    }
}

impl ClassField {
    /// The annotation, where the field can have one.
    pub fn annotation(&self) -> (r: Option<Annotation>)
        ensures
            r == self.declared(),
    {
        match &self.inner {
            ClassFieldInner::Property { .. } => None,
            ClassFieldInner::Descriptor { annotation, .. } => dupe_annotation(annotation),
            ClassFieldInner::Method { .. } => None,
            ClassFieldInner::NestedClass { .. } => None,
            ClassFieldInner::ClassAttribute { annotation, .. } => dupe_annotation(annotation),
            ClassFieldInner::InstanceAttribute { annotation, .. } => dupe_annotation(annotation),
        }
    }
}

/// The members of a dataclass body.
pub enum DataclassMember {
    /// A field.
    Field(WithDefiningClass<ClassField>, DataclassFieldKeywords),
    /// An argument of the constructor that is no field.
    InitVar(WithDefiningClass<ClassField>, DataclassFieldKeywords),
    /// The mark behind which fields are keyword-only.
    KwOnlyMarker,
    /// Anything else.
    NotAField,
}

impl<Ans> AnswersSolver<Ans> {
    /// The type of the first field called `name` in the given ancestors.
    pub open spec fn inherited_type(self, ancestors: Seq<ClassType>, name: Seq<char>) -> Option<Type>
        decreases ancestors.len(),
    {
        if ancestors.len() == 0 {
            None
        } else {
            match self.info(ancestors[0].class).own_field(name) {
                Some(field) => Some(
                    subst_type(field.field_type(), Subst::Args(ancestors[0].targs)),
                ),
                None => self.inherited_type(ancestors.drop_first(), name),
            }
        }
    }

    /// The first annotation of a field called `name` in the given ancestors.
    pub open spec fn inherited_annotation(
        self,
        ancestors: Seq<ClassType>,
        name: Seq<char>,
    ) -> Option<Annotation>
        decreases ancestors.len(),
    {
        if ancestors.len() == 0 {
            None
        } else {
            match self.info(ancestors[0].class).own_field(name) {
                Some(field) => match field.declared() {
                    Some(annotation) => Some(
                        annotation.substituted(Subst::Args(ancestors[0].targs)),
                    ),
                    None => self.inherited_annotation(ancestors.drop_first(), name),
                },
                None => self.inherited_annotation(ancestors.drop_first(), name),
            }
        }
    }

    /// What a field of a class inherits: the type of the nearest field with its name, and the
    /// nearest annotation, which may come from another class. Private names inherit nothing.
    pub open spec fn inherited(self, class: Class, name: Seq<char>) -> (
        Option<Type>,
        Option<Annotation>,
    ) {
        if mangled_name(name) {
            (None, None)
        } else {
            (
                self.inherited_type(self.info(class).ancestors@, name),
                self.inherited_annotation(self.info(class).ancestors@, name),
            )
        }
    }

    /// What a field of a class inherits.
    pub fn get_inherited_type_and_annotation(&self, class: &Class, name: &str) -> (r: (
        Option<Type>,
        Option<Annotation>,
    ))
        ensures
            r == self.inherited(*class, name@),
    {
        if is_mangled_attr(name) {
            return (None, None);
        }
        let ancestors = &self.get_info(class).ancestors;
        let mut found_field: Option<Type> = None;
        let mut i: usize = 0;
        assert(ancestors@.skip(0) =~= ancestors@);
        while i < ancestors.len()
            invariant
                i <= ancestors@.len(),
                ancestors@ == self.info(*class).ancestors@,
                !mangled_name(name@),
                self.inherited_annotation(ancestors@, name@) == self.inherited_annotation(
                    ancestors@.skip(i as int),
                    name@,
                ),
                self.inherited_type(ancestors@, name@) == match found_field {
                    Some(t) => Some(t),
                    None => self.inherited_type(ancestors@.skip(i as int), name@),
                },
            decreases ancestors@.len() - i,
        {
            assert(ancestors@.skip(i as int).drop_first() =~= ancestors@.skip(i + 1));
            let parent = &ancestors[i];
            if let Some(field) = self.get_field_from_current_class_only(&parent.class, name) {
                let targs = Subst::Args(parent.targs.clone());
                if found_field.is_none() {
                    found_field = Some(targs.apply(&field.ty()));
                }
                if let Some(annotation) = field.annotation() {
                    return (found_field, Some(annotation.substitute_with(&targs)));
                }
            }
            i = i + 1;
        }
        (found_field, None)
    }

    /// The member of a dataclass body called `name`. Attributes that only methods assign, class
    /// variables and methods are no fields; neither is an unannotated attribute that an ancestor
    /// declares as a class variable.
    pub open spec fn dataclass_member(self, cls: Class, name: Seq<char>) -> DataclassMember {
        match self.from_mro(cls, name, Search::DeclaredInBody) {
            None => DataclassMember::NotAField,
            Some(member) => {
                let field = member.value;
                if field.kwonly_marker() {
                    DataclassMember::KwOnlyMarker
                } else if field.method_only() || field.class_var() || field.inner is Method || (
                field.declared() is None && annotated_as(
                    self.inherited(cls, name).1,
                    Qualifier::ClassVar,
                )) {
                    DataclassMember::NotAField
                } else if field.init_var() {
                    DataclassMember::InitVar(member, field.dataclass_flags())
                } else {
                    DataclassMember::Field(member, field.dataclass_flags())
                }
            },
        }
    }

    /// The member of a dataclass body called `name`.
    pub fn get_dataclass_member(&self, cls: &Class, name: &str) -> (r: DataclassMember)
        ensures
            r == self.dataclass_member(*cls, name@),
    {
        let member = match self.get_field_from_mro(cls, name, Search::DeclaredInBody) {
            Some(member) => member,
            None => {
                return DataclassMember::NotAField;
            },
        };
        let is_method = match &member.value.inner {
            ClassFieldInner::Method { .. } => true,
            _ => false,
        };
        if member.value.is_dataclass_kwonly_marker() {
            DataclassMember::KwOnlyMarker
        } else if member.value.is_initialized_in_method() || member.value.is_class_var()
            || is_method || (!member.value.has_explicit_annotation() && is_annotated_as(
            &self.get_inherited_type_and_annotation(cls, name).1,
            Qualifier::ClassVar,
        )) {
            DataclassMember::NotAField
        } else {
            let flags = member.value.dataclass_flags_of();
            if member.value.is_init_var() {
                DataclassMember::InitVar(member, flags)
            } else {
                DataclassMember::Field(member, flags)
            }
        }
    }
}

} // verus!
