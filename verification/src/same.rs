use vstd::prelude::*;

use crate::list::List;
use crate::text::same_text;
use crate::types::{
    BoundMethodType, Callable, ClassType, Forallable, FuncMetadata, Function, Lit, Overload,
    OverloadType, Param, Params, PropertyMetadata, Quantified, Required, TArg, Type,
};

verus! {

/// Whether two types are the same: built in the same way from the same classes and type variables,
/// which are told apart by their ids.
pub open spec fn same_type(a: Type, b: Type) -> bool
    decreases a,
{
    match (a, b) {
        (Type::ClassType(c), Type::ClassType(d)) => same_class_type(c, d),
        (Type::SelfType(c), Type::SelfType(d)) => same_class_type(c, d),
        (Type::TypedDict(c), Type::TypedDict(d)) => same_class_type(c, d),
        (Type::ClassDef(c), Type::ClassDef(d)) => c.id == d.id,
        (Type::TypeOf(s), Type::TypeOf(t)) => same_type(*s, *t),
        (Type::Quantified(p), Type::Quantified(q)) => p.id == q.id,
        (Type::Function(f), Type::Function(g)) => same_function(f, g),
        (Type::Callable(f), Type::Callable(g)) => same_callable(*f, *g),
        (Type::Overload(o), Type::Overload(p)) => same_overload(o, p),
        (Type::Forall(f), Type::Forall(g)) => same_tparams(*f.tparams, *g.tparams) && match (
            f.body,
            g.body,
        ) {
            (Forallable::Function(h), Forallable::Function(i)) => same_function(h, i),
            (Forallable::Other(s), Forallable::Other(t)) => same_type(*s, *t),
            _ => false,
        },
        (Type::BoundMethod(m), Type::BoundMethod(n)) => same_type(m.obj, n.obj) && match (
            m.func,
            n.func,
        ) {
            (BoundMethodType::Function(f), BoundMethodType::Function(g)) => same_function(f, g),
            (BoundMethodType::Forall(f), BoundMethodType::Forall(g)) => same_tparams(
                *f.tparams,
                *g.tparams,
            ) && same_function(f.body, g.body),
            (BoundMethodType::Overload(o), BoundMethodType::Overload(p)) => same_overload(o, p),
            _ => false,
        },
        (Type::Union(ss), Type::Union(ts)) => same_types(*ss, *ts),
        (Type::Intersect(ss), Type::Intersect(ts)) => same_types(*ss, *ts),
        (Type::Tuple(ss), Type::Tuple(ts)) => same_types(*ss, *ts),
        (Type::UnboundedTuple(s), Type::UnboundedTuple(t)) => same_type(*s, *t),
        (Type::Literal(l), Type::Literal(m)) => l.implicit == m.implicit && same_lit(
            l.value,
            m.value,
        ),
        (Type::Tensor(s), Type::Tensor(t)) => s.shape == t.shape && same_class_type(
            s.base_class,
            t.base_class,
        ),
        (Type::Never, Type::Never) => true,
        (Type::LiteralString, Type::LiteralString) => true,
        (Type::NoneType, Type::NoneType) => true,
        (Type::Any(s), Type::Any(t)) => s == t,
        (Type::NNModule(m), Type::NNModule(n)) => m == n,
        (Type::Other(m), Type::Other(n)) => m == n,
        _ => false,
    }
}

pub open spec fn same_types(a: List<Type>, b: List<Type>) -> bool
    decreases a,
{
    match (a, b) {
        (List::Nil, List::Nil) => true,
        (List::Cons(s, r), List::Cons(t, u)) => same_type(s, t) && same_types(*r, *u),
        _ => false,
    }
}

pub open spec fn same_tparams(a: List<Quantified>, b: List<Quantified>) -> bool
    decreases a,
{
    match (a, b) {
        (List::Nil, List::Nil) => true,
        (List::Cons(p, r), List::Cons(q, u)) => p.id == q.id && same_tparams(*r, *u),
        _ => false,
    }
}

pub open spec fn same_targs(a: List<TArg>, b: List<TArg>) -> bool
    decreases a,
{
    match (a, b) {
        (List::Nil, List::Nil) => true,
        (List::Cons(s, r), List::Cons(t, u)) => s.param.id == t.param.id && same_type(
            s.value,
            t.value,
        ) && same_targs(*r, *u),
        _ => false,
    }
}

/// Whether two applied classes are the same class with the same arguments.
pub open spec fn same_class_type(a: ClassType, b: ClassType) -> bool
    decreases a,
{
    a.class.id == b.class.id && same_targs(*a.targs, *b.targs)
}

pub open spec fn same_lit(a: Lit, b: Lit) -> bool
    decreases a,
{
    match (a, b) {
        (Lit::Int(m), Lit::Int(n)) => m.value() == n.value(),
        (Lit::Bool(s), Lit::Bool(t)) => s == t,
        (Lit::Str(s), Lit::Str(t)) => s@ == t@,
        (Lit::Enum(c, s), Lit::Enum(d, t)) => s@ == t@ && same_class_type(c, d),
        (Lit::Other(m), Lit::Other(n)) => m == n,
        _ => false,
    }
}

pub open spec fn same_required(a: Required, b: Required) -> bool
    decreases a,
{
    match (a, b) {
        (Required::Required, Required::Required) => true,
        (Required::Optional(None), Required::Optional(None)) => true,
        (Required::Optional(Some(s)), Required::Optional(Some(t))) => same_type(*s, *t),
        _ => false,
    }
}

/// Whether two parameters have the same name, or both none.
pub open spec fn same_name(a: Option<String>, b: Option<String>) -> bool {
    match (a, b) {
        (None, None) => true,
        (Some(s), Some(t)) => s@ == t@,
        _ => false,
    }
}

pub open spec fn same_param(a: Param, b: Param) -> bool
    decreases a,
{
    match (a, b) {
        (Param::PosOnly(m, s, q), Param::PosOnly(n, t, r)) => same_name(m, n) && same_type(s, t)
            && same_required(q, r),
        (Param::Pos(m, s, q), Param::Pos(n, t, r)) => m@ == n@ && same_type(s, t) && same_required(
            q,
            r,
        ),
        (Param::VarArg(m, s), Param::VarArg(n, t)) => same_name(m, n) && same_type(s, t),
        (Param::KwOnly(m, s, q), Param::KwOnly(n, t, r)) => m@ == n@ && same_type(s, t)
            && same_required(q, r),
        (Param::Kwargs(m, s), Param::Kwargs(n, t)) => same_name(m, n) && same_type(s, t),
        _ => false,
    }
}

pub open spec fn same_params(a: List<Param>, b: List<Param>) -> bool
    decreases a,
{
    match (a, b) {
        (List::Nil, List::Nil) => true,
        (List::Cons(p, r), List::Cons(q, u)) => same_param(p, q) && same_params(*r, *u),
        _ => false,
    }
}

pub open spec fn same_callable(a: Callable, b: Callable) -> bool
    decreases a,
{
    same_type(a.ret, b.ret) && match (a.params, b.params) {
        (Params::List(p), Params::List(q)) => same_params(p, q),
        (Params::Ellipsis, Params::Ellipsis) => true,
        (Params::Other(m), Params::Other(n)) => m == n,
        _ => false,
    }
}

pub open spec fn same_property(a: PropertyMetadata, b: PropertyMetadata) -> bool
    decreases a,
{
    a.role == b.role && a.has_deleter == b.has_deleter && same_type(*a.getter, *b.getter) && match (
        a.setter,
        b.setter,
    ) {
        (None, None) => true,
        (Some(s), Some(t)) => same_type(*s, *t),
        _ => false,
    }
}

pub open spec fn same_metadata(a: FuncMetadata, b: FuncMetadata) -> bool
    decreases a,
{
    a.name@ == b.name@ && a.flags == b.flags && match (a.property, b.property) {
        (None, None) => true,
        (Some(p), Some(q)) => same_property(*p, *q),
        _ => false,
    }
}

pub open spec fn same_function(a: Function, b: Function) -> bool
    decreases a,
{
    same_callable(*a.signature, *b.signature) && same_metadata(*a.metadata, *b.metadata)
}

pub open spec fn same_signatures(a: List<OverloadType>, b: List<OverloadType>) -> bool
    decreases a,
{
    match (a, b) {
        (List::Nil, List::Nil) => true,
        (List::Cons(s, r), List::Cons(t, u)) => same_signatures(*r, *u) && match (s, t) {
            (OverloadType::Function(f), OverloadType::Function(g)) => same_function(f, g),
            (OverloadType::Forall(f), OverloadType::Forall(g)) => same_tparams(
                *f.tparams,
                *g.tparams,
            ) && same_function(f.body, g.body),
            _ => false,
        },
        _ => false,
    }
}

pub open spec fn same_overload(a: Overload, b: Overload) -> bool
    decreases a,
{
    same_signatures(*a.signatures, *b.signatures) && same_metadata(*a.metadata, *b.metadata)
}

/// Whether two types are the same.
pub fn is_same_type(a: &Type, b: &Type) -> (r: bool)
    ensures
        r == same_type(*a, *b),
    decreases a,
{
    match (a, b) {
        (Type::ClassType(c), Type::ClassType(d)) => is_same_class_type(c, d),
        (Type::SelfType(c), Type::SelfType(d)) => is_same_class_type(c, d),
        (Type::TypedDict(c), Type::TypedDict(d)) => is_same_class_type(c, d),
        (Type::ClassDef(c), Type::ClassDef(d)) => c.id == d.id,
        (Type::TypeOf(s), Type::TypeOf(t)) => is_same_type(&**s, &**t),
        (Type::Quantified(p), Type::Quantified(q)) => p.id == q.id,
        (Type::Function(f), Type::Function(g)) => is_same_function(f, g),
        (Type::Callable(f), Type::Callable(g)) => is_same_callable(&**f, &**g),
        (Type::Overload(o), Type::Overload(p)) => is_same_overload(o, p),
        (Type::Forall(f), Type::Forall(g)) => is_same_tparams(&*f.tparams, &*g.tparams) && match (
            &f.body,
            &g.body,
        ) {
            (Forallable::Function(h), Forallable::Function(i)) => is_same_function(h, i),
            (Forallable::Other(s), Forallable::Other(t)) => is_same_type(&**s, &**t),
            _ => false,
        },
        (Type::BoundMethod(m), Type::BoundMethod(n)) => is_same_type(&m.obj, &n.obj) && match (
            &m.func,
            &n.func,
        ) {
            (BoundMethodType::Function(f), BoundMethodType::Function(g)) => is_same_function(f, g),
            (BoundMethodType::Forall(f), BoundMethodType::Forall(g)) => is_same_tparams(
                &*f.tparams,
                &*g.tparams,
            ) && is_same_function(&f.body, &g.body),
            (BoundMethodType::Overload(o), BoundMethodType::Overload(p)) => is_same_overload(o, p),
            _ => false,
        },
        (Type::Union(ss), Type::Union(ts)) => is_same_list(&**ss, &**ts),
        (Type::Intersect(ss), Type::Intersect(ts)) => is_same_list(&**ss, &**ts),
        (Type::Tuple(ss), Type::Tuple(ts)) => is_same_list(&**ss, &**ts),
        (Type::UnboundedTuple(s), Type::UnboundedTuple(t)) => is_same_type(&**s, &**t),
        (Type::Literal(l), Type::Literal(m)) => l.implicit == m.implicit && is_same_lit(
            &l.value,
            &m.value,
        ),
        (Type::Tensor(s), Type::Tensor(t)) => s.shape == t.shape && is_same_class_type(
            &s.base_class,
            &t.base_class,
        ),
        (Type::Never, Type::Never) => true,
        (Type::LiteralString, Type::LiteralString) => true,
        (Type::NoneType, Type::NoneType) => true,
        (Type::Any(s), Type::Any(t)) => *s == *t,
        (Type::NNModule(m), Type::NNModule(n)) => *m == *n,
        (Type::Other(m), Type::Other(n)) => *m == *n,
        _ => false,
    }
}

fn is_same_list(a: &List<Type>, b: &List<Type>) -> (r: bool)
    ensures
        r == same_types(*a, *b),
    decreases a,
{
    match (a, b) {
        (List::Nil, List::Nil) => true,
        (List::Cons(s, r), List::Cons(t, u)) => is_same_type(s, t) && is_same_list(&**r, &**u),
        _ => false,
    }
}

fn is_same_tparams(a: &List<Quantified>, b: &List<Quantified>) -> (r: bool)
    ensures
        r == same_tparams(*a, *b),
    decreases a,
{
    match (a, b) {
        (List::Nil, List::Nil) => true,
        (List::Cons(p, r), List::Cons(q, u)) => p.id == q.id && is_same_tparams(&**r, &**u),
        _ => false,
    }
}

fn is_same_targs(a: &List<TArg>, b: &List<TArg>) -> (r: bool)
    ensures
        r == same_targs(*a, *b),
    decreases a,
{
    match (a, b) {
        (List::Nil, List::Nil) => true,
        (List::Cons(s, r), List::Cons(t, u)) => s.param.id == t.param.id && is_same_type(
            &s.value,
            &t.value,
        ) && is_same_targs(&**r, &**u),
        _ => false,
    }
}

/// Whether two applied classes are the same class with the same arguments.
pub fn is_same_class_type(a: &ClassType, b: &ClassType) -> (r: bool)
    ensures
        r == same_class_type(*a, *b),
    decreases a,
{
    a.class.id == b.class.id && is_same_targs(&*a.targs, &*b.targs)
}

fn is_same_lit(a: &Lit, b: &Lit) -> (r: bool)
    ensures
        r == same_lit(*a, *b),
    decreases a,
{
    match (a, b) {
        (Lit::Int(m), Lit::Int(n)) => !m.less(n) && !n.less(m),
        (Lit::Bool(s), Lit::Bool(t)) => *s == *t,
        (Lit::Str(s), Lit::Str(t)) => same_text(s.as_str(), t.as_str()),
        (Lit::Enum(c, s), Lit::Enum(d, t)) => same_text(s.as_str(), t.as_str())
            && is_same_class_type(c, d),
        (Lit::Other(m), Lit::Other(n)) => *m == *n,
        _ => false,
    }
}

fn is_same_required(a: &Required, b: &Required) -> (r: bool)
    ensures
        r == same_required(*a, *b),
    decreases a,
{
    match (a, b) {
        (Required::Required, Required::Required) => true,
        (Required::Optional(None), Required::Optional(None)) => true,
        (Required::Optional(Some(s)), Required::Optional(Some(t))) => is_same_type(&**s, &**t),
        _ => false,
    }
}

fn is_same_name(a: &Option<String>, b: &Option<String>) -> (r: bool)
    ensures
        r == same_name(*a, *b),
{
    match (a, b) {
        (None, None) => true,
        (Some(s), Some(t)) => same_text(s.as_str(), t.as_str()),
        _ => false,
    }
}

fn is_same_param(a: &Param, b: &Param) -> (r: bool)
    ensures
        r == same_param(*a, *b),
    decreases a,
{
    match (a, b) {
        (Param::PosOnly(m, s, q), Param::PosOnly(n, t, r)) => is_same_name(m, n) && is_same_type(
            s,
            t,
        ) && is_same_required(q, r),
        (Param::Pos(m, s, q), Param::Pos(n, t, r)) => same_text(m.as_str(), n.as_str())
            && is_same_type(s, t) && is_same_required(q, r),
        (Param::VarArg(m, s), Param::VarArg(n, t)) => is_same_name(m, n) && is_same_type(s, t),
        (Param::KwOnly(m, s, q), Param::KwOnly(n, t, r)) => same_text(m.as_str(), n.as_str())
            && is_same_type(s, t) && is_same_required(q, r),
        (Param::Kwargs(m, s), Param::Kwargs(n, t)) => is_same_name(m, n) && is_same_type(s, t),
        _ => false,
    }
}

fn is_same_params(a: &List<Param>, b: &List<Param>) -> (r: bool)
    ensures
        r == same_params(*a, *b),
    decreases a,
{
    match (a, b) {
        (List::Nil, List::Nil) => true,
        (List::Cons(p, r), List::Cons(q, u)) => is_same_param(p, q) && is_same_params(&**r, &**u),
        _ => false,
    }
}

fn is_same_callable(a: &Callable, b: &Callable) -> (r: bool)
    ensures
        r == same_callable(*a, *b),
    decreases a,
{
    is_same_type(&a.ret, &b.ret) && match (&a.params, &b.params) {
        (Params::List(p), Params::List(q)) => is_same_params(p, q),
        (Params::Ellipsis, Params::Ellipsis) => true,
        (Params::Other(m), Params::Other(n)) => *m == *n,
        _ => false,
    }
}

fn is_same_property(a: &PropertyMetadata, b: &PropertyMetadata) -> (r: bool)
    ensures
        r == same_property(*a, *b),
    decreases a,
{
    a.role == b.role && a.has_deleter == b.has_deleter && is_same_type(&*a.getter, &*b.getter)
        && match (&a.setter, &b.setter) {
        (None, None) => true,
        (Some(s), Some(t)) => is_same_type(&**s, &**t),
        _ => false,
    }
}

fn is_same_metadata(a: &FuncMetadata, b: &FuncMetadata) -> (r: bool)
    ensures
        r == same_metadata(*a, *b),
    decreases a,
{
    same_text(a.name.as_str(), b.name.as_str()) && a.flags == b.flags && match (
        &a.property,
        &b.property,
    ) {
        (None, None) => true,
        (Some(p), Some(q)) => is_same_property(&**p, &**q),
        _ => false,
    }
}

fn is_same_function(a: &Function, b: &Function) -> (r: bool)
    ensures
        r == same_function(*a, *b),
    decreases a,
{
    is_same_callable(&*a.signature, &*b.signature) && is_same_metadata(&*a.metadata, &*b.metadata)
}

fn is_same_signatures(a: &List<OverloadType>, b: &List<OverloadType>) -> (r: bool)
    ensures
        r == same_signatures(*a, *b),
    decreases a,
{
    match (a, b) {
        (List::Nil, List::Nil) => true,
        (List::Cons(s, r), List::Cons(t, u)) => is_same_signatures(&**r, &**u) && match (s, t) {
            (OverloadType::Function(f), OverloadType::Function(g)) => is_same_function(f, g),
            (OverloadType::Forall(f), OverloadType::Forall(g)) => is_same_tparams(
                &*f.tparams,
                &*g.tparams,
            ) && is_same_function(&f.body, &g.body),
            _ => false,
        },
        _ => false,
    }
}

fn is_same_overload(a: &Overload, b: &Overload) -> (r: bool)
    ensures
        r == same_overload(*a, *b),
    decreases a,
{
    is_same_signatures(&*a.signatures, &*b.signatures) && is_same_metadata(
        &*a.metadata,
        &*b.metadata,
    )
}

} // verus!
