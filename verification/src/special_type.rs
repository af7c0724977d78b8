use std::sync::Arc;

use vstd::prelude::*;

use crate::annotation::Annotation;
use crate::expr::{CallExpr, CalleeKind, ClassFieldDefinition, Keyword};
use crate::report::{ErrorCollector, ReportView, TextRange};
use crate::solver::{AnswersSolver, LookupAnswer};
use crate::text::is_text;
use crate::types::{
    BoundMethod, BoundMethodType, Class, Forall, Forallable, FuncFlags, FuncMetadata, Function,
    GenericFunction, Overload, PropertyMetadata, PropertyRole, Type,
};

verus! {

/// A function as part of a property.
pub open spec fn property_function(f: Function, p: Arc<PropertyMetadata>) -> Function {
    Function { signature: f.signature, metadata: property_part(f.metadata, p) }
}

pub open spec fn property_part(m: Arc<FuncMetadata>, p: Arc<PropertyMetadata>) -> Arc<FuncMetadata> {
    Arc::new(FuncMetadata { name: m.name, flags: m.flags, property: Some(p) })
}

fn make_property_part(m: &Arc<FuncMetadata>, p: &Arc<PropertyMetadata>) -> (r: Arc<FuncMetadata>)
    ensures
        r == property_part(*m, *p),
{
    Arc::new(FuncMetadata { name: m.name.clone(), flags: m.flags, property: Some(p.clone()) })
}

fn make_property_function(f: &Function, p: &Arc<PropertyMetadata>) -> (r: Function)
    ensures
        r == property_function(*f, *p),
{
    Function { signature: f.signature.clone(), metadata: make_property_part(&f.metadata, p) }
}

/// A function, generic or overloaded or bound as it may be, as part of a property. `None` for a
/// type that is no function.
pub open spec fn with_property(ty: Type, p: Arc<PropertyMetadata>) -> Option<Type> {
    match ty {
        Type::Function(f) => Some(Type::Function(property_function(f, p))),
        Type::Overload(o) => Some(
            Type::Overload(
                Overload { signatures: o.signatures, metadata: property_part(o.metadata, p) },
            ),
        ),
        Type::Forall(f) => match f.body {
            Forallable::Function(func) => Some(
                Type::Forall(
                    Arc::new(
                        Forall {
                            tparams: f.tparams,
                            body: Forallable::Function(property_function(func, p)),
                        },
                    ),
                ),
            ),
            Forallable::Other(_) => None,
        },
        Type::BoundMethod(b) => Some(
            Type::BoundMethod(
                Arc::new(
                    BoundMethod {
                        obj: b.obj,
                        func: match b.func {
                            BoundMethodType::Function(f) => BoundMethodType::Function(
                                property_function(f, p),
                            ),
                            BoundMethodType::Forall(g) => BoundMethodType::Forall(
                                GenericFunction {
                                    tparams: g.tparams,
                                    body: property_function(g.body, p),
                                },
                            ),
                            BoundMethodType::Overload(o) => BoundMethodType::Overload(
                                Overload {
                                    signatures: o.signatures,
                                    metadata: property_part(o.metadata, p),
                                },
                            ),
                        },
                    },
                ),
            ),
        ),
        _ => None,
    }
}

fn set_property_metadata(ty: &Type, p: &Arc<PropertyMetadata>) -> (r: Option<Type>)
    ensures
        r == with_property(*ty, *p),
{
    match ty {
        Type::Function(f) => Some(Type::Function(make_property_function(f, p))),
        Type::Overload(o) => Some(
            Type::Overload(
                Overload {
                    signatures: o.signatures.clone(),
                    metadata: make_property_part(&o.metadata, p),
                },
            ),
        ),
        Type::Forall(f) => match &f.body {
            Forallable::Function(func) => Some(
                Type::Forall(
                    Arc::new(
                        Forall {
                            tparams: f.tparams.clone(),
                            body: Forallable::Function(make_property_function(func, p)),
                        },
                    ),
                ),
            ),
            Forallable::Other(_) => None,
        },
        Type::BoundMethod(b) => {
            let func = match &b.func {
                BoundMethodType::Function(f) => BoundMethodType::Function(
                    make_property_function(f, p),
                ),
                BoundMethodType::Forall(g) => BoundMethodType::Forall(
                    GenericFunction {
                        tparams: g.tparams.clone(),
                        body: make_property_function(&g.body, p),
                    },
                ),
                BoundMethodType::Overload(o) => BoundMethodType::Overload(
                    Overload {
                        signatures: o.signatures.clone(),
                        metadata: make_property_part(&o.metadata, p),
                    },
                ),
            };
            Some(Type::BoundMethod(Arc::new(BoundMethod { obj: b.obj.dupe(), func })))
        },
        _ => None,
    }
}

/// The first keyword argument called `name`.
pub open spec fn first_keyword(kws: Seq<Keyword>, name: Seq<char>) -> Option<u64>
    decreases kws.len(),
{
    if kws.len() == 0 {
        None
    } else if kws[0].arg is Some && kws[0].arg->0@ == name {
        Some(kws[0].expr)
    } else {
        first_keyword(kws.drop_first(), name)
    }
}

/// The argument of a call at a position, or else the one passed by keyword.
pub open spec fn argument(call: CallExpr, position: int, keyword: Seq<char>) -> Option<u64> {
    if position < call.args@.len() {
        Some(call.args@[position].expr)
    } else {
        first_keyword(call.keywords@, keyword)
    }
}

fn find_argument(call: &CallExpr, position: usize, keyword: &str) -> (r: Option<u64>)
    ensures
        r == argument(*call, position as int, keyword@),
{
    if position < call.args.len() {
        return Some(call.args[position].expr);
    }
    let kws = &call.keywords;
    let mut i: usize = 0;
    assert(kws@.skip(0) =~= kws@);
    while i < kws.len()
        invariant
            i <= kws@.len(),
            kws@ == call.keywords@,
            position >= call.args@.len(),
            first_keyword(kws@, keyword@) == first_keyword(kws@.skip(i as int), keyword@),
        decreases kws@.len() - i,
    {
        assert(kws@.skip(i as int).drop_first() =~= kws@.skip(i + 1));
        if let Some(name) = &kws[i].arg {
            if is_text(name, keyword) {
                return Some(kws[i].expr);
            }
        }
        i = i + 1;
    }
    None
}

impl<Ans: LookupAnswer> AnswersSolver<Ans> {
    /// The type of an argument of `property`. `None` counts as no argument, and a callable becomes
    /// a function of the given name.
    pub open spec fn property_argument(
        self,
        name: String,
        call: CallExpr,
        position: int,
        keyword: Seq<char>,
    ) -> Option<Type> {
        match argument(call, position, keyword) {
            None => None,
            Some(expr) => match self.answers.inferred(expr) {
                Type::NoneType => None,
                Type::Callable(c) => Some(
                    Type::Function(
                        Function {
                            signature: c,
                            metadata: Arc::new(
                                FuncMetadata { name, flags: FuncFlags::plain(), property: None },
                            ),
                        },
                    ),
                ),
                ty => Some(ty),
            },
        }
    }

    /// The type of an argument of `property`, by position or else by keyword.
    fn property_constructor_arg(
        &self,
        name: &String,
        call: &CallExpr,
        position: usize,
        keyword: &str,
    ) -> (r: Option<Type>)
        ensures
            r == self.property_argument(*name, *call, position as int, keyword@),
    {
        let mut ignored = ErrorCollector::new();
        match find_argument(call, position, keyword) {
            None => None,
            Some(expr) => match self.answers.expr_infer(expr, &mut ignored) {
                Type::NoneType => None,
                Type::Callable(c) => Some(
                    Type::Function(
                        Function { signature: c, metadata: Arc::new(FuncMetadata::def(name)) },
                    ),
                ),
                ty => Some(ty),
            },
        }
    }

    /// The property that `property(fget, fset, fdel)` makes.
    pub open spec fn called_property(self, name: String, call: CallExpr) -> Option<Type> {
        let getter = self.property_argument(name, call, 0, "fget"@);
        let setter = self.property_argument(name, call, 1, "fset"@);
        let deleter = self.property_argument(name, call, 2, "fdel"@);
        if getter is None {
            None
        } else {
            with_property(
                if setter is Some {
                    setter->0
                } else {
                    getter->0
                },
                Arc::new(
                    PropertyMetadata {
                        role: if setter is Some {
                            PropertyRole::Setter
                        } else {
                            PropertyRole::Getter
                        },
                        getter: Arc::new(getter->0),
                        setter: match setter {
                            Some(s) => Some(Arc::new(s)),
                            None => None,
                        },
                        has_deleter: deleter is Some,
                    },
                ),
            )
        }
    }

    /// The property that a field is assigned in the class body, where it is one.
    pub open spec fn property_field(self, name: String, definition: ClassFieldDefinition) -> Option<
        Type,
    > {
        match definition.body_expression() {
            None => None,
            Some(e) => match e.call() {
                None => None,
                Some(call) => if self.answers.callee(self.answers.inferred(call.func)) == Some(
                    CalleeKind::Property,
                ) {
                    self.called_property(name, call)
                } else {
                    None
                },
            },
        }
    }

    /// The property that a field is assigned in the class body, as in
    /// `x = property(fget, fset, fdel)`.
    fn get_property_class_field_type(&self, name: &String, definition: &ClassFieldDefinition) -> (r:
        Option<Type>)
        ensures
            r == self.property_field(*name, *definition),
    {
        let expr = match definition.get_body_expression() {
            Some(e) => e,
            None => {
                return None;
            },
        };
        let call = match expr.as_call_expr() {
            Some(call) => call,
            None => {
                return None;
            },
        };
        let mut ignored = ErrorCollector::new();
        let callee_ty = self.answers.expr_infer(call.func, &mut ignored);
        match self.answers.callee_kind(&callee_ty) {
            Some(CalleeKind::Property) => {},
            _ => {
                return None;
            },
        }
        let getter = match self.property_constructor_arg(name, call, 0, "fget") {
            Some(t) => t,
            None => {
                return None;
            },
        };
        let setter = self.property_constructor_arg(name, call, 1, "fset");
        let has_deleter = self.property_constructor_arg(name, call, 2, "fdel").is_some();
        let metadata = Arc::new(
            PropertyMetadata {
                role: if setter.is_some() {
                    PropertyRole::Setter
                } else {
                    PropertyRole::Getter
                },
                getter: Arc::new(getter.dupe()),
                setter: match &setter {
                    Some(s) => Some(Arc::new(s.dupe())),
                    None => None,
                },
                has_deleter,
            },
        );
        let primary = match setter {
            Some(s) => s,
            None => getter,
        };
        set_property_metadata(&primary, &metadata)
    }

    /// The number of the expression that a field is assigned in the class body.
    pub open spec fn body_expr_id(definition: ClassFieldDefinition) -> Option<u64> {
        match definition.body_expression() {
            Some(e) => Some(e.id),
            None => None,
        }
    }

    /// The type that a field gets because of the kind of its class or definition: as a member of an
    /// enumeration, as a property, as the constructor of `RootModel`, as a Django field, in this
    /// order.
    pub open spec fn special_type(
        self,
        class: Class,
        name: String,
        annotation: Option<Annotation>,
        ty: Type,
        unpromoted: Option<Type>,
        definition: ClassFieldDefinition,
        is_descriptor: bool,
    ) -> Option<Type> {
        let enum_ty = self.answers.enum_field(
            class,
            name@,
            annotation,
            if unpromoted is Some {
                unpromoted->0
            } else {
                ty
            },
            definition,
            is_descriptor,
        );
        if enum_ty is Some {
            enum_ty
        } else if self.property_field(name, definition) is Some {
            self.property_field(name, definition)
        } else if self.root_model_field(class, name@) is Some {
            self.root_model_field(class, name@)
        } else {
            self.answers.django_field(ty, class, name@, Self::body_expr_id(definition))
        }
    }

    /// The reports that go with it: only enumerations are reported on.
    pub open spec fn special_type_reports(
        self,
        class: Class,
        name: String,
        annotation: Option<Annotation>,
        ty: Type,
        unpromoted: Option<Type>,
        definition: ClassFieldDefinition,
        is_descriptor: bool,
        range: TextRange,
    ) -> Seq<ReportView> {
        self.answers.enum_field_reports(
            class,
            name@,
            annotation,
            if unpromoted is Some {
                unpromoted->0
            } else {
                ty
            },
            definition,
            is_descriptor,
            range,
        )
    }

    /// The type that a field gets because of the kind of its class or definition.
    pub fn get_special_class_field_type(
        &self,
        class: &Class,
        name: &String,
        direct_annotation: &Option<Annotation>,
        ty: &Type,
        unpromoted_ty: &Option<Type>,
        definition: &ClassFieldDefinition,
        is_descriptor: bool,
        range: TextRange,
        errors: &mut ErrorCollector,
    ) -> (r: Option<Type>)
        ensures
            r == self.special_type(
                *class,
                *name,
                *direct_annotation,
                *ty,
                *unpromoted_ty,
                *definition,
                is_descriptor,
            ),
            final(errors)@ == old(errors)@ + self.special_type_reports(
                *class,
                *name,
                *direct_annotation,
                *ty,
                *unpromoted_ty,
                *definition,
                is_descriptor,
                range,
            ),
    {
        let shown = match unpromoted_ty {
            Some(t) => t,
            None => ty,
        };
        if let Some(t) = self.answers.get_enum_class_field_type(
            class,
            name.as_str(),
            direct_annotation,
            shown,
            definition,
            is_descriptor,
            range,
            errors,
        ) {
            return Some(t);
        }
        if let Some(t) = self.get_property_class_field_type(name, definition) {
            return Some(t);
        }
        if let Some(t) = self.get_pydantic_root_model_class_field_type(class, name.as_str()) {
            return Some(t);
        }
        let value = match definition.get_body_expression() {
            Some(e) => Some(e.id),
            None => None,
        };
        self.answers.get_django_field_type(ty, class, name.as_str(), value)
    }
}

} // verus!
