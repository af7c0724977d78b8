use std::sync::Arc;

use vstd::prelude::*;

use crate::list::List;
use crate::types::{
    BoundMethod, BoundMethodType, Callable, ClassType, Forall, Forallable, FuncMetadata, Function,
    GenericFunction, Overload, OverloadType, Param, Params, PropertyMetadata, Quantified, Required,
    TArg, TensorType, Type,
};

verus! {

/// A replacement of types by types.
pub enum Subst {
    /// `Self` is replaced.
    SelfType(Type),
    /// Type variables are replaced by the arguments given for them.
    Args(Arc<List<TArg>>),
}

/// The argument given for the type variable `id`, if any.
pub open spec fn arg_for(args: List<TArg>, id: u64) -> Option<Type>
    decreases args,
{
    match args {
        List::Nil => None,
        List::Cons(a, rest) => if a.param.id == id {
            Some(a.value)
        } else {
            arg_for(*rest, id)
        },
    }
}

/// The argument given for the type variable `id`, if any.
pub fn find_arg(args: &List<TArg>, id: u64) -> (r: Option<Type>)
    ensures
        r == arg_for(*args, id),
    decreases args,
{
    match args {
        List::Nil => None,
        List::Cons(a, rest) => if a.param.id == id {
            Some(a.value.dupe())
        } else {
            find_arg(rest, id)
        },
    }
}

/// The type with every replaced part exchanged, at any depth.
pub open spec fn subst_type(t: Type, s: Subst) -> Type
    decreases t,
{
    match t {
        Type::ClassType(c) => Type::ClassType(subst_class(c, s)),
        Type::SelfType(c) => match s {
            Subst::SelfType(replacement) => replacement,
            Subst::Args(_) => Type::SelfType(subst_class(c, s)),
        },
        Type::TypedDict(c) => Type::TypedDict(subst_class(c, s)),
        Type::TypeOf(inner) => Type::TypeOf(Arc::new(subst_type(*inner, s))),
        Type::Quantified(q) => match s {
            Subst::SelfType(_) => t,
            Subst::Args(args) => match arg_for(*args, q.id) {
                Some(value) => value,
                None => t,
            },
        },
        Type::Function(f) => Type::Function(subst_function(f, s)),
        Type::Callable(c) => Type::Callable(Arc::new(subst_callable(*c, s))),
        Type::Overload(o) => Type::Overload(subst_overload(o, s)),
        Type::Forall(f) => Type::Forall(
            Arc::new(
                Forall {
                    tparams: f.tparams,
                    body: match f.body {
                        Forallable::Function(func) => Forallable::Function(subst_function(func, s)),
                        Forallable::Other(inner) => Forallable::Other(
                            Arc::new(subst_type(*inner, s)),
                        ),
                    },
                },
            ),
        ),
        Type::BoundMethod(b) => Type::BoundMethod(
            Arc::new(
                BoundMethod {
                    obj: subst_type(b.obj, s),
                    func: match b.func {
                        BoundMethodType::Function(func) => BoundMethodType::Function(
                            subst_function(func, s),
                        ),
                        BoundMethodType::Forall(g) => BoundMethodType::Forall(
                            GenericFunction { tparams: g.tparams, body: subst_function(g.body, s) },
                        ),
                        BoundMethodType::Overload(o) => BoundMethodType::Overload(
                            subst_overload(o, s),
                        ),
                    },
                },
            ),
        ),
        Type::Union(ts) => Type::Union(Arc::new(subst_types(*ts, s))),
        Type::Intersect(ts) => Type::Intersect(Arc::new(subst_types(*ts, s))),
        Type::Tuple(ts) => Type::Tuple(Arc::new(subst_types(*ts, s))),
        Type::UnboundedTuple(inner) => Type::UnboundedTuple(Arc::new(subst_type(*inner, s))),
        Type::Tensor(tensor) => Type::Tensor(
            Arc::new(
                TensorType { base_class: subst_class(tensor.base_class, s), shape: tensor.shape },
            ),
        ),
        _ => t,
    }
}

pub open spec fn subst_types(ts: List<Type>, s: Subst) -> List<Type>
    decreases ts,
{
    match ts {
        List::Nil => List::Nil,
        List::Cons(t, rest) => List::Cons(subst_type(t, s), Box::new(subst_types(*rest, s))),
    }
}

pub open spec fn subst_targs(args: List<TArg>, s: Subst) -> List<TArg>
    decreases args,
{
    match args {
        List::Nil => List::Nil,
        List::Cons(a, rest) => List::Cons(
            TArg { param: a.param, value: subst_type(a.value, s) },
            Box::new(subst_targs(*rest, s)),
        ),
    }
}

pub open spec fn subst_class(c: ClassType, s: Subst) -> ClassType
    decreases c,
{
    ClassType { class: c.class, targs: Arc::new(subst_targs(*c.targs, s)) }
}

pub open spec fn subst_required(r: Required, s: Subst) -> Required
    decreases r,
{
    match r {
        Required::Optional(Some(t)) => Required::Optional(Some(Arc::new(subst_type(*t, s)))),
        _ => r,
    }
}

pub open spec fn subst_param(p: Param, s: Subst) -> Param
    decreases p,
{
    match p {
        Param::PosOnly(n, t, r) => Param::PosOnly(n, subst_type(t, s), subst_required(r, s)),
        Param::Pos(n, t, r) => Param::Pos(n, subst_type(t, s), subst_required(r, s)),
        Param::VarArg(n, t) => Param::VarArg(n, subst_type(t, s)),
        Param::KwOnly(n, t, r) => Param::KwOnly(n, subst_type(t, s), subst_required(r, s)),
        Param::Kwargs(n, t) => Param::Kwargs(n, subst_type(t, s)),
    }
}

pub open spec fn subst_params(ps: List<Param>, s: Subst) -> List<Param>
    decreases ps,
{
    match ps {
        List::Nil => List::Nil,
        List::Cons(p, rest) => List::Cons(subst_param(p, s), Box::new(subst_params(*rest, s))),
    }
}

pub open spec fn subst_callable(c: Callable, s: Subst) -> Callable
    decreases c,
{
    Callable {
        params: match c.params {
            Params::List(ps) => Params::List(subst_params(ps, s)),
            Params::Ellipsis => Params::Ellipsis,
            Params::Other(id) => Params::Other(id),
        },
        ret: subst_type(c.ret, s),
    }
}

pub open spec fn subst_property(p: PropertyMetadata, s: Subst) -> PropertyMetadata
    decreases p,
{
    PropertyMetadata {
        role: p.role,
        getter: Arc::new(subst_type(*p.getter, s)),
        setter: match p.setter {
            Some(t) => Some(Arc::new(subst_type(*t, s))),
            None => None,
        },
        has_deleter: p.has_deleter,
    }
}

pub open spec fn subst_metadata(m: FuncMetadata, s: Subst) -> FuncMetadata
    decreases m,
{
    FuncMetadata {
        name: m.name,
        flags: m.flags,
        property: match m.property {
            Some(p) => Some(Arc::new(subst_property(*p, s))),
            None => None,
        },
    }
}

pub open spec fn subst_function(f: Function, s: Subst) -> Function
    decreases f,
{
    Function {
        signature: Arc::new(subst_callable(*f.signature, s)),
        metadata: Arc::new(subst_metadata(*f.metadata, s)),
    }
}

pub open spec fn subst_overloads(sigs: List<OverloadType>, s: Subst) -> List<OverloadType>
    decreases sigs,
{
    match sigs {
        List::Nil => List::Nil,
        List::Cons(sig, rest) => List::Cons(
            match sig {
                OverloadType::Function(f) => OverloadType::Function(subst_function(f, s)),
                OverloadType::Forall(g) => OverloadType::Forall(
                    GenericFunction { tparams: g.tparams, body: subst_function(g.body, s) },
                ),
            },
            Box::new(subst_overloads(*rest, s)),
        ),
    }
}

pub open spec fn subst_overload(o: Overload, s: Subst) -> Overload
    decreases o,
{
    Overload {
        signatures: Arc::new(subst_overloads(*o.signatures, s)),
        metadata: Arc::new(subst_metadata(*o.metadata, s)),
    }
}

impl Subst {
    /// Replaces within a type.
    pub fn apply(&self, t: &Type) -> (r: Type)
        ensures
            r == subst_type(*t, *self),
        decreases t,
    {
        match t {
            Type::ClassType(c) => Type::ClassType(self.apply_class(c)),
            Type::SelfType(c) => match self {
                Subst::SelfType(replacement) => replacement.dupe(),
                Subst::Args(_) => Type::SelfType(self.apply_class(c)),
            },
            Type::TypedDict(c) => Type::TypedDict(self.apply_class(c)),
            Type::TypeOf(inner) => Type::TypeOf(Arc::new(self.apply(&**inner))),
            Type::Quantified(q) => match self {
                Subst::SelfType(_) => t.dupe(),
                Subst::Args(args) => match find_arg(&**args, q.id) {
                    Some(value) => value,
                    None => t.dupe(),
                },
            },
            Type::Function(f) => Type::Function(self.apply_function(f)),
            Type::Callable(c) => Type::Callable(Arc::new(self.apply_callable(&**c))),
            Type::Overload(o) => Type::Overload(self.apply_overload(o)),
            Type::Forall(f) => Type::Forall(
                Arc::new(
                    Forall {
                        tparams: f.tparams.clone(),
                        body: match &f.body {
                            Forallable::Function(func) => Forallable::Function(
                                self.apply_function(func),
                            ),
                            Forallable::Other(inner) => Forallable::Other(
                                Arc::new(self.apply(&**inner)),
                            ),
                        },
                    },
                ),
            ),
            Type::BoundMethod(b) => Type::BoundMethod(
                Arc::new(
                    BoundMethod {
                        obj: self.apply(&b.obj),
                        func: match &b.func {
                            BoundMethodType::Function(func) => BoundMethodType::Function(
                                self.apply_function(func),
                            ),
                            BoundMethodType::Forall(g) => BoundMethodType::Forall(
                                GenericFunction {
                                    tparams: g.tparams.clone(),
                                    body: self.apply_function(&g.body),
                                },
                            ),
                            BoundMethodType::Overload(o) => BoundMethodType::Overload(
                                self.apply_overload(o),
                            ),
                        },
                    },
                ),
            ),
            Type::Union(ts) => Type::Union(Arc::new(self.apply_list(&**ts))),
            Type::Intersect(ts) => Type::Intersect(Arc::new(self.apply_list(&**ts))),
            Type::Tuple(ts) => Type::Tuple(Arc::new(self.apply_list(&**ts))),
            Type::UnboundedTuple(inner) => Type::UnboundedTuple(Arc::new(self.apply(&**inner))),
            Type::Tensor(tensor) => Type::Tensor(
                Arc::new(
                    TensorType {
                        base_class: self.apply_class(&tensor.base_class),
                        shape: tensor.shape,
                    },
                ),
            ),
            _ => t.dupe(),
        }
    }

    fn apply_list(&self, ts: &List<Type>) -> (r: List<Type>)
        ensures
            r == subst_types(*ts, *self),
        decreases ts,
    {
        match ts {
            List::Nil => List::Nil,
            List::Cons(t, rest) => List::Cons(self.apply(t), Box::new(self.apply_list(&**rest))),
        }
    }

    fn apply_targs(&self, args: &List<TArg>) -> (r: List<TArg>)
        ensures
            r == subst_targs(*args, *self),
        decreases args,
    {
        match args {
            List::Nil => List::Nil,
            List::Cons(a, rest) => List::Cons(
                TArg { param: a.param.dupe(), value: self.apply(&a.value) },
                Box::new(self.apply_targs(&**rest)),
            ),
        }
    }

    /// Replaces within the arguments of a class.
    pub fn apply_class(&self, c: &ClassType) -> (r: ClassType)
        ensures
            r == subst_class(*c, *self),
        decreases c,
    {
        ClassType { class: c.class.dupe(), targs: Arc::new(self.apply_targs(&*c.targs)) }
    }

    fn apply_required(&self, r: &Required) -> (res: Required)
        ensures
            res == subst_required(*r, *self),
        decreases r,
    {
        match r {
            Required::Optional(Some(t)) => Required::Optional(Some(Arc::new(self.apply(&**t)))),
            Required::Optional(None) => Required::Optional(None),
            Required::Required => Required::Required,
        }
    }

    fn apply_param(&self, p: &Param) -> (r: Param)
        ensures
            r == subst_param(*p, *self),
        decreases p,
    {
        match p {
            Param::PosOnly(n, t, q) => Param::PosOnly(
                n.clone(),
                self.apply(t),
                self.apply_required(q),
            ),
            Param::Pos(n, t, q) => Param::Pos(n.clone(), self.apply(t), self.apply_required(q)),
            Param::VarArg(n, t) => Param::VarArg(n.clone(), self.apply(t)),
            Param::KwOnly(n, t, q) => Param::KwOnly(
                n.clone(),
                self.apply(t),
                self.apply_required(q),
            ),
            Param::Kwargs(n, t) => Param::Kwargs(n.clone(), self.apply(t)),
        }
    }

    fn apply_params(&self, ps: &List<Param>) -> (r: List<Param>)
        ensures
            r == subst_params(*ps, *self),
        decreases ps,
    {
        match ps {
            List::Nil => List::Nil,
            List::Cons(p, rest) => List::Cons(
                self.apply_param(p),
                Box::new(self.apply_params(&**rest)),
            ),
        }
    }

    fn apply_callable(&self, c: &Callable) -> (r: Callable)
        ensures
            r == subst_callable(*c, *self),
        decreases c,
    {
        Callable {
            params: match &c.params {
                Params::List(ps) => Params::List(self.apply_params(ps)),
                Params::Ellipsis => Params::Ellipsis,
                Params::Other(id) => Params::Other(*id),
            },
            ret: self.apply(&c.ret),
        }
    }

    fn apply_property(&self, p: &PropertyMetadata) -> (r: PropertyMetadata)
        ensures
            r == subst_property(*p, *self),
        decreases p,
    {
        PropertyMetadata {
            role: p.role,
            getter: Arc::new(self.apply(&*p.getter)),
            setter: match &p.setter {
                Some(t) => Some(Arc::new(self.apply(&**t))),
                None => None,
            },
            has_deleter: p.has_deleter,
        }
    }

    fn apply_metadata(&self, m: &FuncMetadata) -> (r: FuncMetadata)
        ensures
            r == subst_metadata(*m, *self),
        decreases m,
    {
        FuncMetadata {
            name: m.name.clone(),
            flags: m.flags,
            property: match &m.property {
                Some(p) => Some(Arc::new(self.apply_property(&**p))),
                None => None,
            },
        }
    }

    /// Replaces within a function.
    pub fn apply_function(&self, f: &Function) -> (r: Function)
        ensures
            r == subst_function(*f, *self),
        decreases f,
    {
        Function {
            signature: Arc::new(self.apply_callable(&*f.signature)),
            metadata: Arc::new(self.apply_metadata(&*f.metadata)),
        }
    }

    fn apply_overloads(&self, sigs: &List<OverloadType>) -> (r: List<OverloadType>)
        ensures
            r == subst_overloads(*sigs, *self),
        decreases sigs,
    {
        match sigs {
            List::Nil => List::Nil,
            List::Cons(sig, rest) => List::Cons(
                match sig {
                    OverloadType::Function(f) => OverloadType::Function(self.apply_function(f)),
                    OverloadType::Forall(g) => OverloadType::Forall(
                        GenericFunction {
                            tparams: g.tparams.clone(),
                            body: self.apply_function(&g.body),
                        },
                    ),
                },
                Box::new(self.apply_overloads(&**rest)),
            ),
        }
    }

    fn apply_overload(&self, o: &Overload) -> (r: Overload)
        ensures
            r == subst_overload(*o, *self),
        decreases o,
    {
        Overload {
            signatures: Arc::new(self.apply_overloads(&*o.signatures)),
            metadata: Arc::new(self.apply_metadata(&*o.metadata)),
        }
    }
}

} // verus!
