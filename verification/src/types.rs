use std::sync::Arc;

use vstd::prelude::*;

use crate::list::List;
use crate::lit_int::LitInt;
use crate::report::TextRange;
use crate::text::{cat2, is_text};

verus! {

/// A class, as far as field rules read it. Two classes are the same when their ids agree.
pub struct Class {
    pub id: u64,
    /// The module that defines the class.
    pub module: String,
    pub name: String,
    /// Whether the class is defined at the top level of its module.
    pub toplevel: bool,
    /// Whether the defining module is an interface (stub) file.
    pub interface: bool,
    /// Where the class is defined.
    pub range: TextRange,
    /// The type variable that stands for the class passed to `__new__`.
    pub self_var: u64,
    /// The name of that type variable.
    pub self_var_name: String,
}

impl Class {
    /// The type variable for the class passed to `__new__` is named after the class.
    pub open spec fn wf(self) -> bool {
        self.self_var_name@ == "Self@"@ + self.name@
    }

    /// A class at the top level of a module.
    pub fn new(id: u64, module: &str, name: &str, range: TextRange, self_var: u64) -> (r: Class)
        ensures
            r.wf(),
            r.id == id,
            r.module@ == module@,
            r.name@ == name@,
            r.toplevel,
            !r.interface,
            r.range == range,
            r.self_var == self_var,
    {
        Class {
            id,
            module: module.to_owned(),
            name: name.to_owned(),
            toplevel: true,
            interface: false,
            range,
            self_var,
            self_var_name: cat2("Self@", name),
        }
    }

    /// Another handle on the same class.
    pub fn dupe(&self) -> (r: Class)
        ensures
            r == *self,
    {
        Class {
            id: self.id,
            module: self.module.clone(),
            name: self.name.clone(),
            toplevel: self.toplevel,
            interface: self.interface,
            range: self.range,
            self_var: self.self_var,
            self_var_name: self.self_var_name.clone(),
        }
    }

    /// Whether this is the top-level class `name` of `module`.
    pub open spec fn is_qname(self, module: Seq<char>, name: Seq<char>) -> bool {
        self.toplevel && self.module@ == module && self.name@ == name
    }

    /// Whether this is the top-level class `name` of `module`.
    pub fn has_toplevel_qname(&self, module: &str, name: &str) -> (r: bool)
        ensures
            r == self.is_qname(module@, name@),
    {
        self.toplevel && is_text(&self.module, module) && is_text(&self.name, name)
    }
}

/// What a type variable may stand for.
pub enum Restriction {
    Unrestricted,
    Bound(Arc<Type>),
    Constraints(Arc<List<Type>>),
}

/// A type variable. Two type variables are the same when their ids agree.
pub struct Quantified {
    pub id: u64,
    pub name: String,
    pub restriction: Restriction,
}

impl Restriction {
    pub fn dupe(&self) -> (r: Restriction)
        ensures
            r == *self,
    {
        match self {
            Restriction::Unrestricted => Restriction::Unrestricted,
            Restriction::Bound(t) => Restriction::Bound(t.clone()),
            Restriction::Constraints(ts) => Restriction::Constraints(ts.clone()),
        }
    }
}

impl Quantified {
    pub fn dupe(&self) -> (r: Quantified)
        ensures
            r == *self,
    {
        Quantified {
            id: self.id,
            name: self.name.clone(),
            restriction: self.restriction.dupe(),
        }
    }
}

/// A type variable of a class together with the type it is given.
pub struct TArg {
    pub param: Quantified,
    pub value: Type,
}

/// A class applied to type arguments.
pub struct ClassType {
    pub class: Class,
    pub targs: Arc<List<TArg>>,
}

impl ClassType {
    pub fn dupe(&self) -> (r: ClassType)
        ensures
            r == *self,
    {
        ClassType { class: self.class.dupe(), targs: self.targs.clone() }
    }

    /// Whether the class is the top-level class `name` of `module`.
    pub fn has_qname(&self, module: &str, name: &str) -> (r: bool)
        ensures
            r == self.class.is_qname(module@, name@),
    {
        self.class.has_toplevel_qname(module, name)
    }

    /// Whether the class is the builtin `name`.
    pub fn is_builtin(&self, name: &str) -> (r: bool)
        ensures
            r == self.class.is_qname("builtins"@, name@),
    {
        self.class.has_toplevel_qname("builtins", name)
    }
}

/// How an `Any` came about.
#[derive(Clone, Copy, Debug, PartialEq, Eq, Structural)]
pub enum AnyStyle {
    /// Written in the source.
    Explicit,
    /// Stands for a missing annotation.
    Implicit,
    /// Stands for something that was already reported.
    Error,
}

/// Whether a parameter may be left out.
pub enum Required {
    Required,
    /// May be left out; carries the type of the default where it is known.
    Optional(Option<Arc<Type>>),
}

/// A parameter of a callable.
pub enum Param {
    PosOnly(Option<String>, Type, Required),
    Pos(String, Type, Required),
    VarArg(Option<String>, Type),
    KwOnly(String, Type, Required),
    Kwargs(Option<String>, Type),
}

/// The parameters of a callable.
pub enum Params {
    List(List<Param>),
    /// Accepts any arguments.
    Ellipsis,
    /// A parameter specification that is not a list.
    Other(u64),
}

/// A signature.
pub struct Callable {
    pub params: Params,
    pub ret: Type,
}

/// The part that a function plays in a property.
#[derive(Clone, Copy, Debug, PartialEq, Eq, Structural)]
pub enum PropertyRole {
    Getter,
    Setter,
    SetterDecorator,
    DeleterDecorator,
}

/// What is known of the property that a function belongs to.
pub struct PropertyMetadata {
    pub role: PropertyRole,
    pub getter: Arc<Type>,
    pub setter: Option<Arc<Type>>,
    pub has_deleter: bool,
}

/// A function body that stands in for an implementation.
#[derive(Clone, Copy, Debug, PartialEq, Eq, Structural)]
pub enum PlaceholderBodyKind {
    RaiseNotImplementedError,
    ReturnNotImplemented,
}

/// Facts about a function definition.
#[derive(Clone, Copy, Debug, PartialEq, Eq, Structural)]
pub struct FuncFlags {
    pub is_staticmethod: bool,
    pub is_classmethod: bool,
    pub is_abstract: bool,
    pub is_final: bool,
    pub is_override: bool,
    pub is_async: bool,
    pub is_return_inferred: bool,
    pub is_cached_property: bool,
    pub lacks_runtime_implementation: bool,
    pub is_non_callable_protocol_method: bool,
    /// Whether the function came from a callback protocol, whose `self` is already removed.
    pub is_callback_protocol: bool,
    pub placeholder_body_kind: Option<PlaceholderBodyKind>,
}

/// A function's name and the facts about its definition.
pub struct FuncMetadata {
    pub name: String,
    pub flags: FuncFlags,
    pub property: Option<Arc<PropertyMetadata>>,
}

impl FuncFlags {
    /// The facts about a plain function.
    pub open spec fn plain() -> FuncFlags {
        FuncFlags {
            is_staticmethod: false,
            is_classmethod: false,
            is_abstract: false,
            is_final: false,
            is_override: false,
            is_async: false,
            is_return_inferred: false,
            is_cached_property: false,
            lacks_runtime_implementation: false,
            is_non_callable_protocol_method: false,
            is_callback_protocol: false,
            placeholder_body_kind: None,
        }
    }

    /// The facts about a plain function.
    pub fn new() -> (r: FuncFlags)
        ensures
            r == FuncFlags::plain(),
    {
        FuncFlags {
            is_staticmethod: false,
            is_classmethod: false,
            is_abstract: false,
            is_final: false,
            is_override: false,
            is_async: false,
            is_return_inferred: false,
            is_cached_property: false,
            lacks_runtime_implementation: false,
            is_non_callable_protocol_method: false,
            is_callback_protocol: false,
            placeholder_body_kind: None,
        }
    }
}

impl FuncMetadata {
    pub fn dupe(&self) -> (r: FuncMetadata)
        ensures
            r == *self,
    {
        FuncMetadata {
            name: self.name.clone(),
            flags: self.flags,
            property: match &self.property {
                Some(p) => Some(p.clone()),
                None => None,
            },
        }
    }

    /// The metadata of a plain function called `name`.
    pub fn def(name: &String) -> (r: FuncMetadata)
        ensures
            r == (FuncMetadata { name: *name, flags: FuncFlags::plain(), property: None }),
    {
        FuncMetadata { name: name.clone(), flags: FuncFlags::new(), property: None }
    }
}

/// A function.
pub struct Function {
    pub signature: Arc<Callable>,
    pub metadata: Arc<FuncMetadata>,
}

impl Function {
    pub fn dupe(&self) -> (r: Function)
        ensures
            r == *self,
    {
        Function { signature: self.signature.clone(), metadata: self.metadata.clone() }
    }
}

/// A function that is generic in type variables of its own.
pub struct GenericFunction {
    pub tparams: Arc<List<Quantified>>,
    pub body: Function,
}

/// One signature of an overloaded function.
pub enum OverloadType {
    Function(Function),
    Forall(GenericFunction),
}

impl OverloadType {
    pub fn dupe(&self) -> (r: OverloadType)
        ensures
            r == *self,
    {
        match self {
            OverloadType::Function(f) => OverloadType::Function(f.dupe()),
            OverloadType::Forall(g) => OverloadType::Forall(
                GenericFunction { tparams: g.tparams.clone(), body: g.body.dupe() },
            ),
        }
    }

    /// The function, without its type variables.
    pub open spec fn func(self) -> Function {
        match self {
            OverloadType::Function(f) => f,
            OverloadType::Forall(g) => g.body,
        }
    }

    /// The function, without its type variables.
    pub fn function(&self) -> (r: &Function)
        ensures
            *r == self.func(),
    {
        match self {
            OverloadType::Function(f) => f,
            OverloadType::Forall(g) => &g.body,
        }
    }
}

/// An overloaded function. Each overload stands in the order of its definition.
pub struct Overload {
    pub signatures: Arc<List<OverloadType>>,
    pub metadata: Arc<FuncMetadata>,
}

impl Overload {
    pub fn dupe(&self) -> (r: Overload)
        ensures
            r == *self,
    {
        Overload { signatures: self.signatures.clone(), metadata: self.metadata.clone() }
    }
}

/// What can be generic.
pub enum Forallable {
    Function(Function),
    /// A generic alias or callable.
    Other(Arc<Type>),
}

/// A generic type.
pub struct Forall {
    pub tparams: Arc<List<Quantified>>,
    pub body: Forallable,
}

impl Forall {
    pub fn dupe(&self) -> (r: Forall)
        ensures
            r == *self,
    {
        Forall {
            tparams: self.tparams.clone(),
            body: match &self.body {
                Forallable::Function(f) => Forallable::Function(f.dupe()),
                Forallable::Other(t) => Forallable::Other(t.clone()),
            },
        }
    }
}

/// The function of a bound method.
pub enum BoundMethodType {
    Function(Function),
    Forall(GenericFunction),
    Overload(Overload),
}

/// A function whose first parameter is bound to an object.
pub struct BoundMethod {
    pub obj: Type,
    pub func: BoundMethodType,
}

/// A literal value.
pub enum Lit {
    Int(LitInt),
    Bool(bool),
    Str(String),
    /// A member of an enumeration.
    Enum(ClassType, String),
    Other(u64),
}

/// A literal type. An implicit one comes from an unannotated value and may be widened.
pub struct Literal {
    pub value: Lit,
    pub implicit: bool,
}

/// A tensor with a known shape.
pub struct TensorType {
    pub base_class: ClassType,
    pub shape: u64,
}

/// A type.
pub enum Type {
    ClassType(ClassType),
    SelfType(ClassType),
    TypedDict(ClassType),
    /// The class object itself.
    ClassDef(Class),
    /// The class object of an instance type.
    TypeOf(Arc<Type>),
    Quantified(Arc<Quantified>),
    Function(Function),
    Callable(Arc<Callable>),
    Overload(Overload),
    Forall(Arc<Forall>),
    BoundMethod(Arc<BoundMethod>),
    Union(Arc<List<Type>>),
    Intersect(Arc<List<Type>>),
    Never,
    Literal(Arc<Literal>),
    LiteralString,
    NoneType,
    Any(AnyStyle),
    Tensor(Arc<TensorType>),
    /// A tuple with the given elements.
    Tuple(Arc<List<Type>>),
    /// A tuple of any length, with elements of one type.
    UnboundedTuple(Arc<Type>),
    /// A neural network module with its captured constructor arguments.
    NNModule(u64),
    /// Any other type.
    Other(u64),
}

impl Type {
    pub fn dupe(&self) -> (r: Type)
        ensures
            r == *self,
    {
        match self {
            Type::ClassType(c) => Type::ClassType(c.dupe()),
            Type::SelfType(c) => Type::SelfType(c.dupe()),
            Type::TypedDict(c) => Type::TypedDict(c.dupe()),
            Type::ClassDef(c) => Type::ClassDef(c.dupe()),
            Type::TypeOf(t) => Type::TypeOf(t.clone()),
            Type::Quantified(q) => Type::Quantified(q.clone()),
            Type::Function(f) => Type::Function(f.dupe()),
            Type::Callable(c) => Type::Callable(c.clone()),
            Type::Overload(o) => Type::Overload(o.dupe()),
            Type::Forall(f) => Type::Forall(f.clone()),
            Type::BoundMethod(b) => Type::BoundMethod(b.clone()),
            Type::Union(ts) => Type::Union(ts.clone()),
            Type::Intersect(ts) => Type::Intersect(ts.clone()),
            Type::Never => Type::Never,
            Type::Literal(l) => Type::Literal(l.clone()),
            Type::LiteralString => Type::LiteralString,
            Type::NoneType => Type::NoneType,
            Type::Any(style) => Type::Any(*style),
            Type::Tensor(t) => Type::Tensor(t.clone()),
            Type::Tuple(ts) => Type::Tuple(ts.clone()),
            Type::UnboundedTuple(t) => Type::UnboundedTuple(t.clone()),
            Type::NNModule(id) => Type::NNModule(*id),
            Type::Other(id) => Type::Other(*id),
        }
    }

    /// The metadata of the function that the type is, bound or generic or overloaded as it may be.
    pub open spec fn func_metadata(self) -> Option<FuncMetadata> {
        match self {
            Type::Function(f) => Some(*f.metadata),
            Type::Overload(o) => Some(*o.metadata),
            Type::Forall(f) => match f.body {
                Forallable::Function(func) => Some(*func.metadata),
                Forallable::Other(_) => None,
            },
            Type::BoundMethod(b) => match b.func {
                BoundMethodType::Function(func) => Some(*func.metadata),
                BoundMethodType::Forall(g) => Some(*g.body.metadata),
                BoundMethodType::Overload(o) => Some(*o.metadata),
            },
            _ => None,
        }
    }

    /// The metadata of the function that the type is, bound or generic or overloaded as it may be.
    pub fn toplevel_func_metadata(&self) -> (r: Option<&FuncMetadata>)
        ensures
            r is Some == self.func_metadata() is Some,
            r is Some ==> *r->0 == self.func_metadata()->0,
    {
        match self {
            Type::Function(f) => Some(&*f.metadata),
            Type::Overload(o) => Some(&*o.metadata),
            Type::Forall(f) => match &f.body {
                Forallable::Function(func) => Some(&*func.metadata),
                Forallable::Other(_) => None,
            },
            Type::BoundMethod(b) => match &b.func {
                BoundMethodType::Function(func) => Some(&*func.metadata),
                BoundMethodType::Forall(g) => Some(&*g.body.metadata),
                BoundMethodType::Overload(o) => Some(&*o.metadata),
            },
            _ => None,
        }
    }

    /// Whether the type is a function, bound or generic or overloaded as it may be.
    pub fn has_toplevel_func_metadata(&self) -> (r: bool)
        ensures
            r == self.func_metadata() is Some,
    {
        self.toplevel_func_metadata().is_some()
    }

    /// A fact about the function that the type is; false of everything else.
    pub open spec fn flag(self, f: spec_fn(FuncFlags) -> bool) -> bool {
        self.func_metadata() is Some && f(self.func_metadata()->0.flags)
    }

    /// The flags of the function that the type is.
    pub fn toplevel_flags(&self) -> (r: Option<FuncFlags>)
        ensures
            r == match self.func_metadata() {
                Some(m) => Some(m.flags),
                None => None,
            },
    {
        match self.toplevel_func_metadata() {
            Some(m) => Some(m.flags),
            None => None,
        }
    }

    pub open spec fn abstract_method(self) -> bool {
        self.flag(|f: FuncFlags| f.is_abstract)
    }

    /// Whether the type is an abstract method.
    pub fn is_abstract_method(&self) -> (r: bool)
        ensures
            r == self.abstract_method(),
    {
        match self.toplevel_flags() {
            Some(f) => f.is_abstract,
            None => false,
        }
    }

    pub open spec fn final_decoration(self) -> bool {
        self.flag(|f: FuncFlags| f.is_final)
    }

    /// Whether the type is a function marked as final.
    pub fn has_final_decoration(&self) -> (r: bool)
        ensures
            r == self.final_decoration(),
    {
        match self.toplevel_flags() {
            Some(f) => f.is_final,
            None => false,
        }
    }

    pub open spec fn marked_override(self) -> bool {
        self.flag(|f: FuncFlags| f.is_override)
    }

    /// Whether the type is a function marked as an override.
    pub fn is_override(&self) -> (r: bool)
        ensures
            r == self.marked_override(),
    {
        match self.toplevel_flags() {
            Some(f) => f.is_override,
            None => false,
        }
    }

    pub open spec fn cached_property(self) -> bool {
        self.flag(|f: FuncFlags| f.is_cached_property)
    }

    /// Whether the type is the getter of a cached property.
    pub fn is_cached_property(&self) -> (r: bool)
        ensures
            r == self.cached_property(),
    {
        match self.toplevel_flags() {
            Some(f) => f.is_cached_property,
            None => false,
        }
    }

    pub open spec fn unimplemented(self) -> bool {
        self.flag(|f: FuncFlags| f.lacks_runtime_implementation)
    }

    /// Whether the type is a function that has no implementation at run time.
    pub fn lacks_runtime_implementation(&self) -> (r: bool)
        ensures
            r == self.unimplemented(),
    {
        match self.toplevel_flags() {
            Some(f) => f.lacks_runtime_implementation,
            None => false,
        }
    }

    pub open spec fn non_callable_protocol_method(self) -> bool {
        self.flag(|f: FuncFlags| f.is_non_callable_protocol_method)
    }

    /// Whether the type is a protocol method that cannot be called through `super`.
    pub fn is_non_callable_protocol_method(&self) -> (r: bool)
        ensures
            r == self.non_callable_protocol_method(),
    {
        match self.toplevel_flags() {
            Some(f) => f.is_non_callable_protocol_method,
            None => false,
        }
    }

    pub open spec fn property_getter(self) -> bool {
        self.func_metadata() is Some && self.func_metadata()->0.property is Some
            && self.func_metadata()->0.property->0.role is Getter
    }

    /// Whether the type is the getter of a property.
    pub fn is_property_getter(&self) -> (r: bool)
        ensures
            r == self.property_getter(),
    {
        match self.toplevel_func_metadata() {
            Some(m) => match &m.property {
                Some(p) => p.role == PropertyRole::Getter,
                None => false,
            },
            None => false,
        }
    }

    /// The getter that belongs to a property setter.
    pub open spec fn getter_of_setter(self) -> Option<Type> {
        if self.func_metadata() is Some && self.func_metadata()->0.property is Some
            && self.func_metadata()->0.property->0.role is Setter {
            Some(*self.func_metadata()->0.property->0.getter)
        } else {
            None
        }
    }

    /// The getter that belongs to a property setter.
    pub fn is_property_setter_with_getter(&self) -> (r: Option<Type>)
        ensures
            r == self.getter_of_setter(),
    {
        match self.toplevel_func_metadata() {
            Some(m) => match &m.property {
                Some(p) => if p.role == PropertyRole::Setter {
                    Some(p.getter.dupe())
                } else {
                    None
                },
                None => None,
            },
            None => None,
        }
    }

    pub open spec fn implicit_literal(self) -> bool {
        self is Literal && self->Literal_0.implicit
    }

    /// Whether the type is a literal that may be widened.
    pub fn is_implicit_literal(&self) -> (r: bool)
        ensures
            r == self.implicit_literal(),
    {
        match self {
            Type::Literal(l) => l.implicit,
            _ => false,
        }
    }

    /// Whether the type is a function or a callable, bound or generic as it may be.
    pub open spec fn toplevel_callable(self) -> bool {
        self.func_metadata() is Some || self is Callable
    }

    /// Whether the type is a function or a callable, bound or generic as it may be.
    pub fn is_toplevel_callable(&self) -> (r: bool)
        ensures
            r == self.toplevel_callable(),
    {
        match self {
            Type::Callable(_) => true,
            _ => self.has_toplevel_func_metadata(),
        }
    }

    /// Whether the type stands for something that was already reported.
    pub fn is_error(&self) -> (r: bool)
        ensures
            r == (*self == Type::Any(AnyStyle::Error)),
    {
        match self {
            Type::Any(style) => *style == AnyStyle::Error,
            _ => false,
        }
    }
}

/// The signatures of overloads.
pub open spec fn overload_signatures(sigs: List<OverloadType>) -> Seq<Arc<Callable>>
    decreases sigs,
{
    match sigs {
        List::Nil => Seq::empty(),
        List::Cons(sig, rest) => seq![sig.func().signature] + overload_signatures(*rest),
    }
}

fn push_signatures(sigs: &List<OverloadType>, out: &mut Vec<Arc<Callable>>)
    ensures
        final(out)@ == old(out)@ + overload_signatures(*sigs),
    decreases sigs,
{
    match sigs {
        List::Nil => {},
        List::Cons(sig, rest) => {
            out.push(sig.function().signature.clone());
            push_signatures(&**rest, out);
        },
    }
    assert(out@ =~= old(out)@ + overload_signatures(*sigs));
}

impl Type {
    /// The signatures that the type can be called with.
    pub open spec fn signatures(self) -> Seq<Arc<Callable>> {
        match self {
            Type::Function(f) => seq![f.signature],
            Type::Callable(c) => seq![c],
            Type::Overload(o) => overload_signatures(*o.signatures),
            Type::Forall(f) => match f.body {
                Forallable::Function(func) => seq![func.signature],
                Forallable::Other(_) => Seq::empty(),
            },
            Type::BoundMethod(b) => match b.func {
                BoundMethodType::Function(func) => seq![func.signature],
                BoundMethodType::Forall(g) => seq![g.body.signature],
                BoundMethodType::Overload(o) => overload_signatures(*o.signatures),
            },
            _ => Seq::empty(),
        }
    }

    /// The signatures that the type can be called with.
    pub fn callable_signatures(&self) -> (r: Vec<Arc<Callable>>)
        ensures
            r@ == self.signatures(),
    {
        let mut out: Vec<Arc<Callable>> = Vec::new();
        match self {
            Type::Function(f) => out.push(f.signature.clone()),
            Type::Callable(c) => out.push(c.clone()),
            Type::Overload(o) => push_signatures(&*o.signatures, &mut out),
            Type::Forall(f) => match &f.body {
                Forallable::Function(func) => out.push(func.signature.clone()),
                Forallable::Other(_) => {},
            },
            Type::BoundMethod(b) => match &b.func {
                BoundMethodType::Function(func) => out.push(func.signature.clone()),
                BoundMethodType::Forall(g) => out.push(g.body.signature.clone()),
                BoundMethodType::Overload(o) => push_signatures(&*o.signatures, &mut out),
            },
            _ => {},
        }
        assert(out@ =~= self.signatures());
        out
    }

    /// A callable that accepts any arguments.
    pub open spec fn any_call(ret: Type) -> Type {
        Type::Callable(Arc::new(Callable { params: Params::Ellipsis, ret }))
    }

    /// A callable that accepts any arguments.
    pub fn callable_ellipsis(ret: Type) -> (r: Type)
        ensures
            r == Type::any_call(ret),
    {
        Type::Callable(Arc::new(Callable { params: Params::Ellipsis, ret }))
    }
}

impl Required {
    pub fn dupe(&self) -> (r: Required)
        ensures
            r == *self,
    {
        match self {
            Required::Required => Required::Required,
            Required::Optional(Some(t)) => Required::Optional(Some(t.clone())),
            Required::Optional(None) => Required::Optional(None),
        }
    }
}

impl Param {
    pub fn dupe(&self) -> (r: Param)
        ensures
            r == *self,
    {
        match self {
            Param::PosOnly(n, t, q) => Param::PosOnly(n.clone(), t.dupe(), q.dupe()),
            Param::Pos(n, t, q) => Param::Pos(n.clone(), t.dupe(), q.dupe()),
            Param::VarArg(n, t) => Param::VarArg(n.clone(), t.dupe()),
            Param::KwOnly(n, t, q) => Param::KwOnly(n.clone(), t.dupe(), q.dupe()),
            Param::Kwargs(n, t) => Param::Kwargs(n.clone(), t.dupe()),
        }
    }
}

/// A copy of a parameter list.
pub fn dupe_params(ps: &List<Param>) -> (r: List<Param>)
    ensures
        r == *ps,
    decreases ps,
{
    match ps {
        List::Nil => List::Nil,
        List::Cons(p, rest) => List::Cons(p.dupe(), Box::new(dupe_params(&**rest))),
    }
}

impl Callable {
    /// The signature with another return type.
    pub open spec fn returning(self, ret: Type) -> Callable {
        Callable { params: self.params, ret }
    }

    /// The signature with another return type.
    pub fn with_return(&self, ret: Type) -> (r: Callable)
        ensures
            r == self.returning(ret),
    {
        Callable {
            params: match &self.params {
                Params::List(ps) => Params::List(dupe_params(ps)),
                Params::Ellipsis => Params::Ellipsis,
                Params::Other(id) => Params::Other(*id),
            },
            ret,
        }
    }
}

impl Function {
    /// The function with another return type.
    pub open spec fn returning(self, ret: Type) -> Function {
        Function { signature: Arc::new(self.signature.returning(ret)), metadata: self.metadata }
    }

    /// The function with another return type.
    pub fn with_return(&self, ret: Type) -> (r: Function)
        ensures
            r == self.returning(ret),
    {
        Function {
            signature: Arc::new(self.signature.with_return(ret)),
            metadata: self.metadata.clone(),
        }
    }
}

/// Overloads with another return type.
pub open spec fn overloads_returning(sigs: List<OverloadType>, ret: Type) -> List<OverloadType>
    decreases sigs,
{
    match sigs {
        List::Nil => List::Nil,
        List::Cons(sig, rest) => List::Cons(
            match sig {
                OverloadType::Function(f) => OverloadType::Function(f.returning(ret)),
                OverloadType::Forall(g) => OverloadType::Forall(
                    GenericFunction { tparams: g.tparams, body: g.body.returning(ret) },
                ),
            },
            Box::new(overloads_returning(*rest, ret)),
        ),
    }
}

fn overloads_with_return(sigs: &List<OverloadType>, ret: &Type) -> (r: List<OverloadType>)
    ensures
        r == overloads_returning(*sigs, *ret),
    decreases sigs,
{
    match sigs {
        List::Nil => List::Nil,
        List::Cons(sig, rest) => List::Cons(
            match sig {
                OverloadType::Function(f) => OverloadType::Function(f.with_return(ret.dupe())),
                OverloadType::Forall(g) => OverloadType::Forall(
                    GenericFunction {
                        tparams: g.tparams.clone(),
                        body: g.body.with_return(ret.dupe()),
                    },
                ),
            },
            Box::new(overloads_with_return(&**rest, ret)),
        ),
    }
}

impl Overload {
    /// The overload with another return type everywhere.
    pub open spec fn returning(self, ret: Type) -> Overload {
        Overload {
            signatures: Arc::new(overloads_returning(*self.signatures, ret)),
            metadata: self.metadata,
        }
    }

    /// The overload with another return type everywhere.
    pub fn with_return(&self, ret: &Type) -> (r: Overload)
        ensures
            r == self.returning(*ret),
    {
        Overload {
            signatures: Arc::new(overloads_with_return(&*self.signatures, ret)),
            metadata: self.metadata.clone(),
        }
    }
}

impl Type {
    /// The type with another return type in each of its signatures.
    pub open spec fn returning(self, ret: Type) -> Type {
        match self {
            Type::Function(f) => Type::Function(f.returning(ret)),
            Type::Callable(c) => Type::Callable(Arc::new(c.returning(ret))),
            Type::Overload(o) => Type::Overload(o.returning(ret)),
            Type::Forall(f) => match f.body {
                Forallable::Function(func) => Type::Forall(
                    Arc::new(
                        Forall {
                            tparams: f.tparams,
                            body: Forallable::Function(func.returning(ret)),
                        },
                    ),
                ),
                Forallable::Other(_) => self,
            },
            Type::BoundMethod(b) => Type::BoundMethod(
                Arc::new(
                    BoundMethod {
                        obj: b.obj,
                        func: match b.func {
                            BoundMethodType::Function(f) => BoundMethodType::Function(
                                f.returning(ret),
                            ),
                            BoundMethodType::Forall(g) => BoundMethodType::Forall(
                                GenericFunction { tparams: g.tparams, body: g.body.returning(ret) },
                            ),
                            BoundMethodType::Overload(o) => BoundMethodType::Overload(
                                o.returning(ret),
                            ),
                        },
                    },
                ),
            ),
            _ => self,
        }
    }

    /// The type with another return type in each of its signatures.
    pub fn with_return(&self, ret: &Type) -> (r: Type)
        ensures
            r == self.returning(*ret),
    {
        match self {
            Type::Function(f) => Type::Function(f.with_return(ret.dupe())),
            Type::Callable(c) => Type::Callable(Arc::new(c.with_return(ret.dupe()))),
            Type::Overload(o) => Type::Overload(o.with_return(ret)),
            Type::Forall(f) => match &f.body {
                Forallable::Function(func) => Type::Forall(
                    Arc::new(
                        Forall {
                            tparams: f.tparams.clone(),
                            body: Forallable::Function(func.with_return(ret.dupe())),
                        },
                    ),
                ),
                Forallable::Other(_) => self.dupe(),
            },
            Type::BoundMethod(b) => Type::BoundMethod(
                Arc::new(
                    BoundMethod {
                        obj: b.obj.dupe(),
                        func: match &b.func {
                            BoundMethodType::Function(f) => BoundMethodType::Function(
                                f.with_return(ret.dupe()),
                            ),
                            BoundMethodType::Forall(g) => BoundMethodType::Forall(
                                GenericFunction {
                                    tparams: g.tparams.clone(),
                                    body: g.body.with_return(ret.dupe()),
                                },
                            ),
                            BoundMethodType::Overload(o) => BoundMethodType::Overload(
                                o.with_return(ret),
                            ),
                        },
                    },
                ),
            ),
            _ => self.dupe(),
        }
    }
}

/// How many arguments can be passed by position; `None` where there is no limit.
pub open spec fn positional_limit(ps: List<Param>) -> Option<nat>
    decreases ps,
{
    match ps {
        List::Nil => Some(0),
        List::Cons(p, rest) => match (p, positional_limit(*rest)) {
            (Param::VarArg(_, _), _) => None,
            (_, None) => None,
            (Param::PosOnly(_, _, _), Some(n)) => Some(n + 1),
            (Param::Pos(_, _, _), Some(n)) => Some(n + 1),
            (_, Some(n)) => Some(n),
        },
    }
}

/// Whether two parameter lists take the same number of arguments by position.
pub fn same_positional_limit(a: &List<Param>, b: &List<Param>) -> (r: bool)
    ensures
        r == (positional_limit(*a) == positional_limit(*b)),
    decreases a, b,
{
    match a {
        List::Cons(p, rest) => match p {
            Param::VarArg(_, _) => unlimited(b),
            Param::KwOnly(_, _, _) => same_positional_limit(&**rest, b),
            Param::Kwargs(_, _) => same_positional_limit(&**rest, b),
            Param::PosOnly(_, _, _) | Param::Pos(_, _, _) => match b {
                List::Cons(q, others) => match q {
                    Param::VarArg(_, _) => unlimited(a),
                    Param::KwOnly(_, _, _) => same_positional_limit(a, &**others),
                    Param::Kwargs(_, _) => same_positional_limit(a, &**others),
                    Param::PosOnly(_, _, _) | Param::Pos(_, _, _) => same_positional_limit(
                        &**rest,
                        &**others,
                    ),
                },
                List::Nil => false,
            },
        },
        List::Nil => match b {
            List::Cons(q, others) => match q {
                Param::VarArg(_, _) => false,
                Param::KwOnly(_, _, _) => same_positional_limit(a, &**others),
                Param::Kwargs(_, _) => same_positional_limit(a, &**others),
                Param::PosOnly(_, _, _) | Param::Pos(_, _, _) => false,
            },
            List::Nil => true,
        },
    }
}

/// Whether there is a limit to how many arguments can be passed by position.
pub fn has_positional_limit(ps: &List<Param>) -> (r: bool)
    ensures
        r == positional_limit(*ps) is Some,
{
    !unlimited(ps)
}

fn unlimited(ps: &List<Param>) -> (r: bool)
    ensures
        r == positional_limit(*ps) is None,
    decreases ps,
{
    match ps {
        List::Nil => false,
        List::Cons(p, rest) => match p {
            Param::VarArg(_, _) => true,
            _ => unlimited(&**rest),
        },
    }
}

/// The union of the given types: a single type stands for itself, and nothing for `Never`.
pub open spec fn union_of(members: Seq<Type>) -> Type {
    if members.len() == 0 {
        Type::Never
    } else if members.len() == 1 {
        members[0]
    } else {
        Type::Union(Arc::new(List::of(members)))
    }
}

/// The union of the given types.
pub fn unions(members: Vec<Type>) -> (r: Type)
    ensures
        r == union_of(members@),
{
    let mut members = members;
    if members.len() == 0 {
        Type::Never
    } else if members.len() == 1 {
        members.swap_remove(0)
    } else {
        Type::Union(Arc::new(List::from_vec(members)))
    }
}

/// The type variables of `a` followed by those of `b`.
pub fn concat_tparams(a: &List<Quantified>, b: &List<Quantified>) -> (r: List<Quantified>)
    ensures
        r@ == a@ + b@,
        r == List::of(a@ + b@),
    decreases a, b,
{
    let r = match a {
        List::Nil => match b {
            List::Nil => List::Nil,
            List::Cons(q, rest) => List::Cons(
                q.dupe(),
                Box::new(concat_tparams(&List::Nil, &**rest)),
            ),
        },
        List::Cons(q, rest) => List::Cons(q.dupe(), Box::new(concat_tparams(&**rest, b))),
    };
    assert(r@ =~= a@ + b@);
    proof {
        List::of_view(r);
    }
    r
}

impl Callable {
    /// The type of the first parameter that can be passed by position.
    pub open spec fn first_param(self) -> Option<Type> {
        match self.params {
            Params::List(List::Cons(p, _)) => match p {
                Param::PosOnly(_, t, _) => Some(t),
                Param::Pos(_, t, _) => Some(t),
                Param::VarArg(_, t) => Some(t),
                _ => None,
            },
            _ => None,
        }
    }

    /// The type of the first parameter that can be passed by position.
    pub fn get_first_param(&self) -> (r: Option<&Type>)
        ensures
            r is Some == self.first_param() is Some,
            r is Some ==> *r->0 == self.first_param()->0,
    {
        match &self.params {
            Params::List(List::Cons(p, _)) => match p {
                Param::PosOnly(_, t, _) => Some(t),
                Param::Pos(_, t, _) => Some(t),
                Param::VarArg(_, t) => Some(t),
                _ => None,
            },
            _ => None,
        }
    }

    /// The type of the second parameter that can be passed by position: the first one that is
    /// left once the receiver is taken off. A variadic parameter is never used up.
    pub open spec fn value_param(self) -> Option<Type> {
        match self.params {
            Params::List(List::Cons(p, rest)) => match p {
                Param::VarArg(_, t) => Some(t),
                Param::PosOnly(_, _, _) | Param::Pos(_, _, _) => (Callable {
                    params: Params::List(*rest),
                    ret: self.ret,
                }).first_param(),
                _ => None,
            },
            _ => None,
        }
    }

    /// The type of the parameter behind the receiver.
    pub fn get_value_param(&self) -> (r: Option<&Type>)
        ensures
            r is Some == self.value_param() is Some,
            r is Some ==> *r->0 == self.value_param()->0,
    {
        match &self.params {
            Params::List(List::Cons(p, rest)) => match p {
                Param::VarArg(_, t) => Some(t),
                Param::PosOnly(_, _, _) | Param::Pos(_, _, _) => match &**rest {
                    List::Cons(q, _) => match q {
                        Param::PosOnly(_, t, _) => Some(t),
                        Param::Pos(_, t, _) => Some(t),
                        Param::VarArg(_, t) => Some(t),
                        _ => None,
                    },
                    List::Nil => None,
                },
                _ => None,
            },
            _ => None,
        }
    }
}

} // verus!
