use std::sync::Arc;

use vstd::prelude::*;

use crate::annotation::{dupe_annotation, Annotation, Qualifier};
use crate::attribute::ReadOnlyReason;
use crate::class_field::{ClassFieldInitialization, IsInherited};
use crate::expr::{ClassFieldDefinition, Expr, ExprKind, ExprOrBinding};
use crate::list::List;
use crate::metadata::ClassMetadata;
use crate::names::{is_mangled_attr, mangled_name};
use crate::ordered::{name_set_contains, name_texts};
use crate::report::{report1, ErrorCollector, ReportView, Rule, TextRange};
use crate::solver::{AnswersSolver, LookupAnswer};
use crate::subst::{subst_type, Subst};
use crate::text::{cat3, cat7, same_text};
use crate::types::{AnyStyle, Class, Quantified, TArg, Type};
use crate::universe::{binders, collect_binders, nodes};
use crate::vars::{collect_quantifieds, has_var, vars};

verus! {

/// An inherited annotation and the qualifiers written at the field itself. Those replace the
/// inherited qualifiers.
pub open spec fn merged_annotation(
    inherited: Option<Annotation>,
    direct_qualifiers: Option<Arc<List<Qualifier>>>,
) -> Option<Annotation> {
    match direct_qualifiers {
        Some(qualifiers) => Some(
            Annotation {
                ty: match inherited {
                    Some(annotation) => annotation.ty,
                    None => None,
                },
                qualifiers,
            },
        ),
        None => inherited,
    }
}

fn merge_direct_qualifiers_with_inherited_annotation(
    inherited: Option<Annotation>,
    direct_qualifiers: Option<Arc<List<Qualifier>>>,
) -> (r: Option<Annotation>)
    ensures
        r == merged_annotation(inherited, direct_qualifiers),
{
    match direct_qualifiers {
        Some(qualifiers) => Some(
            Annotation {
                ty: match inherited {
                    Some(annotation) => annotation.ty,
                    None => None,
                },
                qualifiers,
            },
        ),
        None => inherited,
    }
}

/// The qualifiers of an annotation.
pub open spec fn qualifiers_of(annotation: Option<Annotation>) -> Option<Arc<List<Qualifier>>> {
    match annotation {
        Some(a) => Some(a.qualifiers),
        None => None,
    }
}

/// What the value of a field is found to be.
pub struct Analysis {
    pub ty: Type,
    /// The annotation that holds for the field, its own or an inherited one.
    pub annotation: Option<Annotation>,
    pub is_inherited: IsInherited,
}

/// Whether a field can be passed on: private names are not.
pub open spec fn inheritance_of(name: Seq<char>) -> IsInherited {
    if mangled_name(name) {
        IsInherited::No
    } else {
        IsInherited::Maybe
    }
}

impl<Ans: LookupAnswer> AnswersSolver<Ans> {
    /// The type of an attribute that is given the value of an expression. Without an annotation
    /// nothing is concluded from `None` and from the empty tuple. Variables in it may be solved.
    pub open spec fn raw_attribute_type(
        self,
        e: Expr,
        annotation: Option<Annotation>,
        name: Seq<char>,
    ) -> Type {
        match annotation {
            Some(a) => self.answers.hinted(e.id, a.stated_type(), name),
            None => match e.kind {
                ExprKind::NoneLiteral => self.answers.unioned(
                    seq![Type::NoneType, Type::Any(AnyStyle::Implicit)],
                ),
                ExprKind::EmptyTuple => if name != "__match_args__"@ {
                    Type::UnboundedTuple(Arc::new(Type::Any(AnyStyle::Implicit)))
                } else {
                    self.answers.inferred(e.id)
                },
                _ => self.answers.inferred(e.id),
            },
        }
    }

    /// The type of an attribute that is given the value of an expression, solved variables written
    /// out.
    pub open spec fn attribute_type(
        self,
        e: Expr,
        annotation: Option<Annotation>,
        name: Seq<char>,
    ) -> Type {
        self.answers.expanded(self.raw_attribute_type(e, annotation, name))
    }

    /// The reports that go with it.
    pub open spec fn attribute_reports(
        self,
        e: Expr,
        annotation: Option<Annotation>,
        name: Seq<char>,
    ) -> Seq<ReportView> {
        match annotation {
            Some(a) => self.answers.hinted_reports(e.id, a.stated_type(), name),
            None => match e.kind {
                ExprKind::NoneLiteral => seq![
                    report1(
                        e.range,
                        Rule::ImplicitAnyAttribute,
                        "This expression is implicitly inferred to be `Any | None`. Please provide an explicit type annotation."@,
                    ),
                ],
                ExprKind::EmptyTuple => if name != "__match_args__"@ {
                    seq![
                        report1(
                            e.range,
                            Rule::ImplicitAnyAttribute,
                            "This expression is implicitly inferred to be `tuple[Any, ...]`. Please provide an explicit type annotation."@,
                        ),
                    ]
                } else {
                    self.answers.inferred_reports(e.id)
                },
                _ => self.answers.inferred_reports(e.id),
            },
        }
    }

    /// The type of an attribute that is given the value of an expression.
    fn infer_attribute(
        &self,
        x: &Expr,
        annotation: &Option<Annotation>,
        name: &str,
        errors: &mut ErrorCollector,
    ) -> (r: Type)
        ensures
            r == self.raw_attribute_type(*x, *annotation, name@),
            final(errors)@ == old(errors)@ + self.attribute_reports(*x, *annotation, name@),
    {
        if let Some(a) = annotation {
            return self.answers.expr(x.id, &a.get_type(), name, errors);
        }
        match &x.kind {
            ExprKind::NoneLiteral => {
                errors.error(
                    x.range,
                    Rule::ImplicitAnyAttribute,
                    "This expression is implicitly inferred to be `Any | None`. Please provide an explicit type annotation.".to_owned(),
                );
                let mut members: Vec<Type> = Vec::new();
                members.push(Type::NoneType);
                members.push(Type::Any(AnyStyle::Implicit));
                assert(members@ =~= seq![Type::NoneType, Type::Any(AnyStyle::Implicit)]);
                self.answers.unions(&members)
            },
            ExprKind::EmptyTuple => {
                if same_text(name, "__match_args__") {
                    self.answers.expr_infer(x.id, errors)
                } else {
                    errors.error(
                        x.range,
                        Rule::ImplicitAnyAttribute,
                        "This expression is implicitly inferred to be `tuple[Any, ...]`. Please provide an explicit type annotation.".to_owned(),
                    );
                    Type::UnboundedTuple(Arc::new(Type::Any(AnyStyle::Implicit)))
                }
            },
            _ => self.answers.expr_infer(x.id, errors),
        }
    }

    /// The type of an attribute that is given the value of an expression.
    pub fn attribute_expr_infer(
        &self,
        x: &Expr,
        annotation: &Option<Annotation>,
        name: &str,
        errors: &mut ErrorCollector,
    ) -> (r: Type)
        ensures
            r == self.attribute_type(*x, *annotation, name@),
            final(errors)@ == old(errors)@ + self.attribute_reports(*x, *annotation, name@),
    {
        let ty = self.infer_attribute(x, annotation, name, errors);
        self.answers.expand_vars(&ty)
    }

    /// The type that the value of a field is found to have: that of the expression, with an
    /// inherited annotation as what is wanted. An assignment in a method takes over the inherited
    /// type.
    pub open spec fn value_type(
        self,
        value: ExprOrBinding,
        class: Class,
        name: Seq<char>,
        direct: Option<Annotation>,
        inferred_from_method: bool,
    ) -> Type {
        let (inherited_ty, inherited_annotation) = self.inherited(class, name);
        match value {
            ExprOrBinding::Expr(e) => if inherited_ty is Some && inferred_from_method {
                inherited_ty->0
            } else if inherited_ty is Some && inherited_annotation is None && direct is None {
                self.attribute_type(e, None, name)
            } else {
                self.attribute_type(e, inherited_annotation, name)
            },
            ExprOrBinding::Binding(b) => self.answers.solved(b),
            ExprOrBinding::AnyImplicit => Type::Any(AnyStyle::Implicit),
        }
    }

    /// The reports that go with it.
    pub open spec fn value_reports(
        self,
        value: ExprOrBinding,
        class: Class,
        name: Seq<char>,
        direct: Option<Annotation>,
        inferred_from_method: bool,
        range: TextRange,
    ) -> Seq<ReportView> {
        let (inherited_ty, inherited_annotation) = self.inherited(class, name);
        match value {
            ExprOrBinding::Expr(e) => if inherited_ty is Some && inferred_from_method {
                Seq::empty()
            } else if inherited_ty is Some && inherited_annotation is None && direct is None {
                self.attribute_reports(e, None, name)
            } else {
                self.attribute_reports(e, inherited_annotation, name)
            },
            ExprOrBinding::Binding(b) => self.answers.solved_reports(b, range),
            ExprOrBinding::AnyImplicit => Seq::empty(),
        }
    }

    /// Whether the value of a field without any annotation fits the inherited type. The field is
    /// then known not to conflict with what it overrides.
    pub open spec fn fits_inherited(
        self,
        value: ExprOrBinding,
        class: Class,
        name: Seq<char>,
        direct: Option<Annotation>,
        inferred_from_method: bool,
    ) -> bool {
        let (inherited_ty, inherited_annotation) = self.inherited(class, name);
        match (value, inherited_ty) {
            (ExprOrBinding::Expr(e), Some(ty)) => !inferred_from_method && inherited_annotation
                is None && direct is None && self.answers.hinted_reports(e.id, ty, name).len()
                == 0,
            _ => false,
        }
    }

    /// What the value of a field is found to be. A type written at the field decides; otherwise an
    /// inherited annotation does, and only then the value.
    pub open spec fn analysis(
        self,
        value: ExprOrBinding,
        class: Class,
        name: Seq<char>,
        direct: Option<Annotation>,
        inferred_from_method: bool,
    ) -> Analysis {
        let (inherited_ty, inherited_annotation) = self.inherited(class, name);
        if direct is Some && (direct->0).ty is Some {
            Analysis {
                ty: (direct->0).ty->0,
                annotation: direct,
                is_inherited: inheritance_of(name),
            }
        } else {
            let annotation = merged_annotation(inherited_annotation, qualifiers_of(direct));
            Analysis {
                ty: if annotation is Some && (annotation->0).ty is Some {
                    (annotation->0).ty->0
                } else {
                    self.value_type(value, class, name, direct, inferred_from_method)
                },
                annotation,
                is_inherited: if inherited_ty is None || self.fits_inherited(
                    value,
                    class,
                    name,
                    direct,
                    inferred_from_method,
                ) {
                    IsInherited::No
                } else {
                    IsInherited::Maybe
                },
            }
        }
    }

    /// The reports that go with it.
    pub open spec fn analysis_reports(
        self,
        value: ExprOrBinding,
        class: Class,
        name: Seq<char>,
        direct: Option<Annotation>,
        inferred_from_method: bool,
        range: TextRange,
    ) -> Seq<ReportView> {
        if direct is Some && (direct->0).ty is Some {
            Seq::empty()
        } else {
            self.value_reports(value, class, name, direct, inferred_from_method, range)
        }
    }

    /// What the value of a field is found to be.
    pub fn analyze_class_field_value(
        &self,
        value: &ExprOrBinding,
        class: &Class,
        name: &str,
        direct_annotation: &Option<Annotation>,
        inferred_from_method: bool,
        range: TextRange,
        errors: &mut ErrorCollector,
    ) -> (r: Analysis)
        ensures
            r == self.analysis(*value, *class, name@, *direct_annotation, inferred_from_method),
            final(errors)@ == old(errors)@ + self.analysis_reports(
                *value,
                *class,
                name@,
                *direct_annotation,
                inferred_from_method,
                range,
            ),
    {
        assert(errors@ + Seq::<ReportView>::empty() =~= errors@);
        let direct_qualifiers = match direct_annotation {
            Some(annotation) => {
                if let Some(ty) = &annotation.ty {
                    let is_inherited = if is_mangled_attr(name) {
                        IsInherited::No
                    } else {
                        IsInherited::Maybe
                    };
                    return Analysis {
                        ty: ty.dupe(),
                        annotation: dupe_annotation(direct_annotation),
                        is_inherited,
                    };
                }
                Some(annotation.qualifiers.clone())
            },
            None => None,
        };
        let (inherited_ty, inherited_annotation) = self.get_inherited_type_and_annotation(
            class,
            name,
        );
        let mut is_inherited = if inherited_ty.is_none() {
            IsInherited::No
        } else {
            IsInherited::Maybe
        };
        let final_annotation = merge_direct_qualifiers_with_inherited_annotation(
            dupe_annotation(&inherited_annotation),
            direct_qualifiers,
        );
        let inferred_ty = match value {
            ExprOrBinding::Expr(e) => match inherited_ty {
                Some(ty) => {
                    if inferred_from_method {
                        ty
                    } else if inherited_annotation.is_none() && direct_annotation.is_none() {
                        let mut trial = ErrorCollector::new();
                        self.answers.expr(e.id, &ty, name, &mut trial);
                        if trial.is_empty() {
                            is_inherited = IsInherited::No;
                        }
                        self.attribute_expr_infer(e, &None, name, errors)
                    } else {
                        self.attribute_expr_infer(e, &inherited_annotation, name, errors)
                    }
                },
                None => self.attribute_expr_infer(e, &inherited_annotation, name, errors),
            },
            ExprOrBinding::Binding(b) => self.answers.solve_binding(*b, range, errors),
            ExprOrBinding::AnyImplicit => Type::Any(AnyStyle::Implicit),
        };
        let ty = match &final_annotation {
            Some(annotation) => match &annotation.ty {
                Some(ty) => ty.dupe(),
                None => inferred_ty,
            },
            None => inferred_ty,
        };
        Analysis { ty, annotation: final_annotation, is_inherited }
    }

    /// The type variables that are not known where they are used, each once.
    pub open spec fn out_of_scope(qs: Seq<Quantified>, allowed: Seq<Quantified>) -> Seq<Quantified>
        decreases qs.len(),
    {
        if qs.len() == 0 {
            Seq::empty()
        } else {
            let before = Self::out_of_scope(qs.drop_last(), allowed);
            if has_var(allowed, qs.last().id) || has_var(before, qs.last().id) {
                before
            } else {
                before.push(qs.last())
            }
        }
    }

    /// The type variables that an attribute of a class may depend on: those of the class, and those
    /// that the type of the attribute binds itself.
    pub open spec fn allowed_variables(self, class: Class, ty: Type) -> Seq<Quantified> {
        self.info(class).tparams@ + binders(nodes(ty))
    }

    pub open spec fn strays(self, class: Class, ty: Type) -> Seq<Quantified> {
        Self::out_of_scope(vars(ty), self.allowed_variables(class, ty))
    }

    /// The reports on type variables that an attribute must not depend on.
    pub open spec fn stray_reports(
        strays: Seq<Quantified>,
        name: Seq<char>,
        class: Class,
        range: TextRange,
    ) -> Seq<ReportView> {
        strays.map_values(
            |q: Quantified|
                report1(
                    range,
                    Rule::InvalidTypeVar,
                    "Attribute `"@ + name + "` cannot depend on type variable `"@ + q.name@
                        + "`, which is not in the scope of class `"@ + class.name@ + "`"@,
                ),
        )
    }

    /// What stands for the type variables that an attribute must not depend on.
    pub open spec fn gradual_arguments(self, strays: Seq<Quantified>) -> Seq<TArg> {
        strays.map_values(|q: Quantified| TArg { param: q, value: self.answers.gradual(q) })
    }

    /// The type of an attribute without the type variables that it must not depend on.
    pub open spec fn sanitized(self, class: Class, ty: Type) -> Type {
        if vars(ty).len() == 0 {
            ty
        } else {
            subst_type(
                ty,
                Subst::Args(Arc::new(List::of(self.gradual_arguments(self.strays(class, ty))))),
            )
        }
    }

    fn mentions(qs: &Vec<Quantified>, id: u64) -> (r: bool)
        ensures
            r == has_var(qs@, id),
    {
        let mut i: usize = 0;
        while i < qs.len()
            invariant
                i <= qs@.len(),
                forall|k: int| 0 <= k < i ==> (#[trigger] qs@[k]).id != id,
            decreases qs@.len() - i,
        {
            if qs[i].id == id {
                return true;
            }
            i = i + 1;
        }
        false
    }

    /// Reports the type variables that an attribute must not depend on, and gives its type without
    /// them.
    pub fn check_and_sanitize_type_parameters(
        &self,
        class: &Class,
        ty: Type,
        name: &str,
        range: TextRange,
        errors: &mut ErrorCollector,
    ) -> (r: Type)
        ensures
            r == self.sanitized(*class, ty),
            final(errors)@ == old(errors)@ + Self::stray_reports(
                self.strays(*class, ty),
                name@,
                *class,
                range,
            ),
    {
        let mut qs: Vec<Quantified> = Vec::new();
        collect_quantifieds(&ty, &mut qs);
        assert(qs@ =~= vars(ty));
        if qs.len() == 0 {
            assert(Self::stray_reports(self.strays(*class, ty), name@, *class, range)
                =~= Seq::empty());
            assert(errors@ + Seq::<ReportView>::empty() =~= errors@);
            return ty;
        }
        let mut allowed = tparams_of(&*self.get_info(class).tparams);
        collect_binders(&ty, &mut allowed);
        assert(allowed@ =~= self.allowed_variables(*class, ty));
        let mut strays: Vec<Quantified> = Vec::new();
        let mut args: Vec<TArg> = Vec::new();
        let mut i: usize = 0;
        assert(qs@.take(0) =~= Seq::empty());
        assert(errors@ =~= old(errors)@ + Self::stray_reports(strays@, name@, *class, range));
        while i < qs.len()
            invariant
                i <= qs@.len(),
                strays@ == Self::out_of_scope(qs@.take(i as int), allowed@),
                args@ == self.gradual_arguments(strays@),
                errors@ == old(errors)@ + Self::stray_reports(strays@, name@, *class, range),
            decreases qs@.len() - i,
        {
            assert(qs@.take(i + 1).drop_last() =~= qs@.take(i as int));
            let q = &qs[i];
            if !Self::mentions(&allowed, q.id) && !Self::mentions(&strays, q.id) {
                let line = cat7(
                    "Attribute `",
                    name,
                    "` cannot depend on type variable `",
                    q.name.as_str(),
                    "`, which is not in the scope of class `",
                    class.name.as_str(),
                    "`",
                );
                let ghost before = strays@;
                errors.error(range, Rule::InvalidTypeVar, line);
                strays.push(q.dupe());
                args.push(TArg { param: q.dupe(), value: self.answers.as_gradual_type(q) });
                assert(args@ =~= self.gradual_arguments(strays@));
                assert(Self::stray_reports(strays@, name@, *class, range) =~= Self::stray_reports(
                    before,
                    name@,
                    *class,
                    range,
                ).push(report1(range, Rule::InvalidTypeVar, line@)));
                assert(errors@ =~= old(errors)@ + Self::stray_reports(
                    strays@,
                    name@,
                    *class,
                    range,
                ));
            }
            i = i + 1;
        }
        assert(qs@.take(i as int) =~= qs@);
        Subst::Args(Arc::new(List::from_vec(args))).apply(&ty)
    }

    /// Why a field cannot be written.
    pub open spec fn read_only_by(
        name: Seq<char>,
        annotation: Option<Annotation>,
        metadata: ClassMetadata,
        definition: ClassFieldDefinition,
    ) -> Option<ReadOnlyReason> {
        let qualified = |q: Qualifier| annotation is Some && (annotation->0).qualified(q);
        if qualified(Qualifier::Final) {
            Some(ReadOnlyReason::Final(definition is AssignedInBody))
        } else if qualified(Qualifier::ReadOnly) {
            Some(ReadOnlyReason::ReadOnlyQualifier)
        } else if metadata.named_tuple_element(name) {
            Some(ReadOnlyReason::NamedTuple)
        } else if metadata.frozen_dataclass() && !qualified(Qualifier::ClassVar) && name_texts(
            metadata.dataclass->0.fields,
        ).contains(name) {
            Some(
                if metadata.pydantic() {
                    ReadOnlyReason::PydanticFrozen
                } else {
                    ReadOnlyReason::FrozenDataclass
                },
            )
        } else if definition is NestedClass {
            Some(ReadOnlyReason::ClassObjectInitializedOnBody)
        } else {
            None
        }
    }

    /// Why a field cannot be written: its own qualifiers come first, then the kind of the class,
    /// then the kind of the definition.
    pub fn determine_read_only_reason(
        name: &str,
        annotation: &Option<Annotation>,
        metadata: &ClassMetadata,
        definition: &ClassFieldDefinition,
    ) -> (r: Option<ReadOnlyReason>)
        ensures
            r == Self::read_only_by(name@, *annotation, *metadata, *definition),
    {
        let mut is_classvar = false;
        if let Some(ann) = annotation {
            if ann.is_final() {
                let initialized = match definition {
                    ClassFieldDefinition::AssignedInBody { .. } => true,
                    _ => false,
                };
                return Some(ReadOnlyReason::Final(initialized));
            }
            if ann.has_qualifier(Qualifier::ReadOnly) {
                return Some(ReadOnlyReason::ReadOnlyQualifier);
            }
            is_classvar = ann.has_qualifier(Qualifier::ClassVar);
        }
        if metadata.is_named_tuple_element(name) {
            return Some(ReadOnlyReason::NamedTuple);
        }
        if let Some(dm) = &metadata.dataclass {
            if dm.kws.frozen && !is_classvar && name_set_contains(&dm.fields, name) {
                let reason = if metadata.is_pydantic_model() {
                    ReadOnlyReason::PydanticFrozen
                } else {
                    ReadOnlyReason::FrozenDataclass
                };
                return Some(reason);
            }
        }
        match definition {
            ClassFieldDefinition::NestedClass { .. } => Some(
                ReadOnlyReason::ClassObjectInitializedOnBody,
            ),
            _ => None,
        }
    }

    /// The report on a qualifier that has no meaning where it is used.
    pub open spec fn misplaced(
        annotation: Annotation,
        q: Qualifier,
        complaint: Seq<char>,
        range: TextRange,
    ) -> Seq<ReportView> {
        if annotation.qualified(q) {
            seq![report1(range, Rule::InvalidAnnotation, "`"@ + q.written() + complaint)]
        } else {
            Seq::empty()
        }
    }

    fn check_misplaced(
        annotation: &Annotation,
        q: Qualifier,
        complaint: &str,
        range: TextRange,
        errors: &mut ErrorCollector,
    )
        ensures
            final(errors)@ == old(errors)@ + Self::misplaced(*annotation, q, complaint@, range),
    {
        assert(errors@ + Seq::<ReportView>::empty() =~= errors@);
        if annotation.has_qualifier(q) {
            let line = cat3("`", q.as_str(), complaint);
            errors.error(range, Rule::InvalidAnnotation, line);
        }
    }

    /// The reports on an annotation: on range constraints of a pydantic field, and on qualifiers
    /// that have no meaning in the class.
    pub open spec fn annotation_reports(
        self,
        annotation: Annotation,
        metadata: ClassMetadata,
        initialization: ClassFieldInitialization,
        name: Seq<char>,
        range: TextRange,
    ) -> Seq<ReportView> {
        let tuple = "` may not be used for NamedTuple members"@;
        let dict = "` may only be used for TypedDict members"@;
        (match initialization {
            ClassFieldInitialization::ClassBody(Some(kws)) => if metadata.pydantic() {
                self.range_reports(name, annotation.stated_type(), *kws, range)
            } else {
                Seq::empty()
            },
            _ => Seq::empty(),
        }) + (if metadata.named_tuple_element(name) {
            Self::misplaced(annotation, Qualifier::Final, tuple, range) + Self::misplaced(
                annotation,
                Qualifier::ClassVar,
                tuple,
                range,
            )
        } else {
            Seq::empty()
        }) + Self::misplaced(annotation, Qualifier::Required, dict, range) + Self::misplaced(
            annotation,
            Qualifier::NotRequired,
            dict,
            range,
        ) + Self::misplaced(annotation, Qualifier::ReadOnly, dict, range)
    }

    /// Reports on an annotation that is written at a field.
    pub fn validate_direct_annotation(
        &self,
        annotation: &Annotation,
        metadata: &ClassMetadata,
        initialization: &ClassFieldInitialization,
        name: &str,
        range: TextRange,
        errors: &mut ErrorCollector,
    )
        ensures
            final(errors)@ == old(errors)@ + self.annotation_reports(
                *annotation,
                *metadata,
                *initialization,
                name@,
                range,
            ),
    {
        assert(errors@ + Seq::<ReportView>::empty() =~= errors@);
        if let ClassFieldInitialization::ClassBody(Some(kws)) = initialization {
            if metadata.is_pydantic_model() {
                let ty = annotation.get_type();
                self.check_pydantic_range_constraints(name, &ty, &**kws, range, errors);
            }
        }
        if metadata.is_named_tuple_element(name) {
            let tuple = "` may not be used for NamedTuple members";
            Self::check_misplaced(annotation, Qualifier::Final, tuple, range, errors);
            Self::check_misplaced(annotation, Qualifier::ClassVar, tuple, range, errors);
        }
        let dict = "` may only be used for TypedDict members";
        Self::check_misplaced(annotation, Qualifier::Required, dict, range, errors);
        Self::check_misplaced(annotation, Qualifier::NotRequired, dict, range, errors);
        Self::check_misplaced(annotation, Qualifier::ReadOnly, dict, range, errors);
        assert(errors@ =~= old(errors)@ + self.annotation_reports(
            *annotation,
            *metadata,
            *initialization,
            name@,
            range,
        ));
    }
}

fn append_each(tparams: &List<Quantified>, acc: &mut Vec<Quantified>)
    ensures
        final(acc)@ == old(acc)@ + tparams@,
    decreases tparams,
{
    match tparams {
        List::Nil => {},
        List::Cons(q, rest) => {
            acc.push(q.dupe());
            append_each(&**rest, acc);
        },
    }
    assert(acc@ =~= old(acc)@ + tparams@);
}

fn tparams_of(tparams: &List<Quantified>) -> (r: Vec<Quantified>)
    ensures
        r@ == tparams@,
{
    let mut acc: Vec<Quantified> = Vec::new();
    append_each(tparams, &mut acc);
    assert(acc@ =~= tparams@);
    acc
}

/// Type variables of the class never go astray, and neither do those that the type of the
/// attribute binds.
pub proof fn law_scoped_variables_pass<Ans: LookupAnswer>(
    solver: AnswersSolver<Ans>,
    class: Class,
    ty: Type,
)
    requires
        forall|i: int|
            0 <= i < vars(ty).len() ==> has_var(
                solver.allowed_variables(class, ty),
                (#[trigger] vars(ty)[i]).id,
            ),
    ensures
        solver.strays(class, ty).len() == 0,
{
    lemma_scoped::<Ans>(vars(ty), solver.allowed_variables(class, ty));
}

proof fn lemma_scoped<Ans: LookupAnswer>(qs: Seq<Quantified>, allowed: Seq<Quantified>)
    requires
        forall|i: int| 0 <= i < qs.len() ==> has_var(allowed, (#[trigger] qs[i]).id),
    ensures
        AnswersSolver::<Ans>::out_of_scope(qs, allowed).len() == 0,
    decreases qs.len(),
{
    if qs.len() > 0 {
        assert(qs.last() == qs[qs.len() - 1]);
        lemma_scoped::<Ans>(qs.drop_last(), allowed);
    }
}

} // verus!
