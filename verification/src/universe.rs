use vstd::prelude::*;

use crate::list::List;
use crate::types::{
    BoundMethodType, Callable, ClassType, Forallable, FuncMetadata, Function, Overload,
    OverloadType, Param, Params, Quantified, Required, TArg, Type,
};

verus! {

/// A type and all the types within it, in the order in which they are met.
pub open spec fn nodes(t: Type) -> Seq<Type>
    decreases t,
{
    seq![t] + match t {
        Type::ClassType(c) => nodes_class(c),
        Type::SelfType(c) => nodes_class(c),
        Type::TypedDict(c) => nodes_class(c),
        Type::TypeOf(inner) => nodes(*inner),
        Type::Function(f) => nodes_function(f),
        Type::Callable(c) => nodes_callable(*c),
        Type::Overload(o) => nodes_overload(o),
        Type::Forall(f) => match f.body {
            Forallable::Function(func) => nodes_function(func),
            Forallable::Other(inner) => nodes(*inner),
        },
        Type::BoundMethod(b) => nodes(b.obj) + match b.func {
            BoundMethodType::Function(func) => nodes_function(func),
            BoundMethodType::Forall(g) => nodes_function(g.body),
            BoundMethodType::Overload(o) => nodes_overload(o),
        },
        Type::Union(ts) => nodes_list(*ts),
        Type::Intersect(ts) => nodes_list(*ts),
        Type::Tuple(ts) => nodes_list(*ts),
        Type::UnboundedTuple(inner) => nodes(*inner),
        Type::Tensor(tensor) => nodes_class(tensor.base_class),
        _ => Seq::empty(),
    }
}

pub open spec fn nodes_list(ts: List<Type>) -> Seq<Type>
    decreases ts,
{
    match ts {
        List::Nil => Seq::empty(),
        List::Cons(t, rest) => nodes(t) + nodes_list(*rest),
    }
}

pub open spec fn nodes_targs(args: List<TArg>) -> Seq<Type>
    decreases args,
{
    match args {
        List::Nil => Seq::empty(),
        List::Cons(a, rest) => nodes(a.value) + nodes_targs(*rest),
    }
}

pub open spec fn nodes_class(c: ClassType) -> Seq<Type>
    decreases c,
{
    nodes_targs(*c.targs)
}

pub open spec fn nodes_required(r: Required) -> Seq<Type>
    decreases r,
{
    match r {
        Required::Optional(Some(t)) => nodes(*t),
        _ => Seq::empty(),
    }
}

pub open spec fn nodes_param(p: Param) -> Seq<Type>
    decreases p,
{
    match p {
        Param::PosOnly(_, t, r) => nodes(t) + nodes_required(r),
        Param::Pos(_, t, r) => nodes(t) + nodes_required(r),
        Param::VarArg(_, t) => nodes(t),
        Param::KwOnly(_, t, r) => nodes(t) + nodes_required(r),
        Param::Kwargs(_, t) => nodes(t),
    }
}

pub open spec fn nodes_params(ps: List<Param>) -> Seq<Type>
    decreases ps,
{
    match ps {
        List::Nil => Seq::empty(),
        List::Cons(p, rest) => nodes_param(p) + nodes_params(*rest),
    }
}

pub open spec fn nodes_callable(c: Callable) -> Seq<Type>
    decreases c,
{
    (match c.params {
        Params::List(ps) => nodes_params(ps),
        _ => Seq::empty(),
    }) + nodes(c.ret)
}

pub open spec fn nodes_metadata(m: FuncMetadata) -> Seq<Type>
    decreases m,
{
    match m.property {
        Some(p) => nodes(*p.getter) + match p.setter {
            Some(t) => nodes(*t),
            None => Seq::empty(),
        },
        None => Seq::empty(),
    }
}

pub open spec fn nodes_function(f: Function) -> Seq<Type>
    decreases f,
{
    nodes_callable(*f.signature) + nodes_metadata(*f.metadata)
}

pub open spec fn nodes_overloads(sigs: List<OverloadType>) -> Seq<Type>
    decreases sigs,
{
    match sigs {
        List::Nil => Seq::empty(),
        List::Cons(sig, rest) => (match sig {
            OverloadType::Function(f) => nodes_function(f),
            OverloadType::Forall(g) => nodes_function(g.body),
        }) + nodes_overloads(*rest),
    }
}

pub open spec fn nodes_overload(o: Overload) -> Seq<Type>
    decreases o,
{
    nodes_overloads(*o.signatures) + nodes_metadata(*o.metadata)
}

/// Appends a type and all the types within it.
pub fn collect_types(t: &Type, acc: &mut Vec<Type>)
    ensures
        final(acc)@ == old(acc)@ + nodes(*t),
    decreases t,
{
    acc.push(t.dupe());
    match t {
        Type::ClassType(c) => collect_class(c, acc),
        Type::SelfType(c) => collect_class(c, acc),
        Type::TypedDict(c) => collect_class(c, acc),
        Type::TypeOf(inner) => collect_types(&**inner, acc),
        Type::Function(f) => collect_function(f, acc),
        Type::Callable(c) => collect_callable(&**c, acc),
        Type::Overload(o) => collect_overload(o, acc),
        Type::Forall(f) => match &f.body {
            Forallable::Function(func) => collect_function(func, acc),
            Forallable::Other(inner) => collect_types(&**inner, acc),
        },
        Type::BoundMethod(b) => {
            collect_types(&b.obj, acc);
            match &b.func {
                BoundMethodType::Function(func) => collect_function(func, acc),
                BoundMethodType::Forall(g) => collect_function(&g.body, acc),
                BoundMethodType::Overload(o) => collect_overload(o, acc),
            }
        },
        Type::Union(ts) => collect_list(&**ts, acc),
        Type::Intersect(ts) => collect_list(&**ts, acc),
        Type::Tuple(ts) => collect_list(&**ts, acc),
        Type::UnboundedTuple(inner) => collect_types(&**inner, acc),
        Type::Tensor(tensor) => collect_class(&tensor.base_class, acc),
        _ => {},
    }
    assert(acc@ =~= old(acc)@ + nodes(*t));
}

fn collect_list(ts: &List<Type>, acc: &mut Vec<Type>)
    ensures
        final(acc)@ == old(acc)@ + nodes_list(*ts),
    decreases ts,
{
    match ts {
        List::Nil => {},
        List::Cons(t, rest) => {
            collect_types(t, acc);
            collect_list(&**rest, acc);
        },
    }
    assert(acc@ =~= old(acc)@ + nodes_list(*ts));
}

fn collect_targs(args: &List<TArg>, acc: &mut Vec<Type>)
    ensures
        final(acc)@ == old(acc)@ + nodes_targs(*args),
    decreases args,
{
    match args {
        List::Nil => {},
        List::Cons(a, rest) => {
            collect_types(&a.value, acc);
            collect_targs(&**rest, acc);
        },
    }
    assert(acc@ =~= old(acc)@ + nodes_targs(*args));
}

fn collect_class(c: &ClassType, acc: &mut Vec<Type>)
    ensures
        final(acc)@ == old(acc)@ + nodes_class(*c),
    decreases c,
{
    collect_targs(&*c.targs, acc)
}

fn collect_required(r: &Required, acc: &mut Vec<Type>)
    ensures
        final(acc)@ == old(acc)@ + nodes_required(*r),
    decreases r,
{
    match r {
        Required::Optional(Some(t)) => collect_types(&**t, acc),
        _ => {},
    }
    assert(acc@ =~= old(acc)@ + nodes_required(*r));
}

fn collect_param(p: &Param, acc: &mut Vec<Type>)
    ensures
        final(acc)@ == old(acc)@ + nodes_param(*p),
    decreases p,
{
    match p {
        Param::PosOnly(_, t, r) => {
            collect_types(t, acc);
            collect_required(r, acc);
        },
        Param::Pos(_, t, r) => {
            collect_types(t, acc);
            collect_required(r, acc);
        },
        Param::VarArg(_, t) => collect_types(t, acc),
        Param::KwOnly(_, t, r) => {
            collect_types(t, acc);
            collect_required(r, acc);
        },
        Param::Kwargs(_, t) => collect_types(t, acc),
    }
    assert(acc@ =~= old(acc)@ + nodes_param(*p));
}

fn collect_params(ps: &List<Param>, acc: &mut Vec<Type>)
    ensures
        final(acc)@ == old(acc)@ + nodes_params(*ps),
    decreases ps,
{
    match ps {
        List::Nil => {},
        List::Cons(p, rest) => {
            collect_param(p, acc);
            collect_params(&**rest, acc);
        },
    }
    assert(acc@ =~= old(acc)@ + nodes_params(*ps));
}

fn collect_callable(c: &Callable, acc: &mut Vec<Type>)
    ensures
        final(acc)@ == old(acc)@ + nodes_callable(*c),
    decreases c,
{
    match &c.params {
        Params::List(ps) => collect_params(ps, acc),
        _ => {},
    }
    collect_types(&c.ret, acc);
    assert(acc@ =~= old(acc)@ + nodes_callable(*c));
}

fn collect_metadata(m: &FuncMetadata, acc: &mut Vec<Type>)
    ensures
        final(acc)@ == old(acc)@ + nodes_metadata(*m),
    decreases m,
{
    match &m.property {
        Some(p) => {
            collect_types(&*p.getter, acc);
            match &p.setter {
                Some(t) => collect_types(&**t, acc),
                None => {},
            }
        },
        None => {},
    }
    assert(acc@ =~= old(acc)@ + nodes_metadata(*m));
}

fn collect_function(f: &Function, acc: &mut Vec<Type>)
    ensures
        final(acc)@ == old(acc)@ + nodes_function(*f),
    decreases f,
{
    collect_callable(&*f.signature, acc);
    collect_metadata(&*f.metadata, acc);
    assert(acc@ =~= old(acc)@ + nodes_function(*f));
}

fn collect_overloads(sigs: &List<OverloadType>, acc: &mut Vec<Type>)
    ensures
        final(acc)@ == old(acc)@ + nodes_overloads(*sigs),
    decreases sigs,
{
    match sigs {
        List::Nil => {},
        List::Cons(sig, rest) => {
            match sig {
                OverloadType::Function(f) => collect_function(f, acc),
                OverloadType::Forall(g) => collect_function(&g.body, acc),
            }
            collect_overloads(&**rest, acc);
        },
    }
    assert(acc@ =~= old(acc)@ + nodes_overloads(*sigs));
}

fn collect_overload(o: &Overload, acc: &mut Vec<Type>)
    ensures
        final(acc)@ == old(acc)@ + nodes_overload(*o),
    decreases o,
{
    collect_overloads(&*o.signatures, acc);
    collect_metadata(&*o.metadata, acc);
    assert(acc@ =~= old(acc)@ + nodes_overload(*o));
}

/// Whether an implicit literal occurs among the types.
pub open spec fn some_literal(ts: Seq<Type>) -> bool {
    exists|i: int| 0 <= i < ts.len() && (#[trigger] ts[i]).implicit_literal()
}

/// Whether an implicit literal occurs in a type, at any depth.
pub fn has_implicit_literal(t: &Type) -> (r: bool)
    ensures
        r == some_literal(nodes(*t)),
{
    let mut all: Vec<Type> = Vec::new();
    collect_types(t, &mut all);
    assert(all@ =~= nodes(*t));
    let mut i: usize = 0;
    while i < all.len()
        invariant
            i <= all@.len(),
            all@ == nodes(*t),
            forall|k: int| 0 <= k < i ==> !(#[trigger] all@[k]).implicit_literal(),
        decreases all@.len() - i,
    {
        if all[i].is_implicit_literal() {
            return true;
        }
        i = i + 1;
    }
    false
}

/// The type variables that the generic signatures of an overload bind.
pub open spec fn overload_binders(sigs: List<OverloadType>) -> Seq<Quantified>
    decreases sigs,
{
    match sigs {
        List::Nil => Seq::empty(),
        List::Cons(sig, rest) => (match sig {
            OverloadType::Function(_) => Seq::empty(),
            OverloadType::Forall(g) => g.tparams@,
        }) + overload_binders(*rest),
    }
}

/// The type variables that a type binds itself.
pub open spec fn own_binders(t: Type) -> Seq<Quantified> {
    match t {
        Type::Forall(f) => f.tparams@,
        Type::Overload(o) => overload_binders(*o.signatures),
        Type::BoundMethod(b) => match b.func {
            BoundMethodType::Forall(g) => g.tparams@,
            BoundMethodType::Overload(o) => overload_binders(*o.signatures),
            BoundMethodType::Function(_) => Seq::empty(),
        },
        _ => Seq::empty(),
    }
}

/// The type variables that any of the types binds.
pub open spec fn binders(ts: Seq<Type>) -> Seq<Quantified>
    decreases ts.len(),
{
    if ts.len() == 0 {
        Seq::empty()
    } else {
        binders(ts.drop_last()) + own_binders(ts.last())
    }
}

fn append_tparams(tparams: &List<Quantified>, acc: &mut Vec<Quantified>)
    ensures
        final(acc)@ == old(acc)@ + tparams@,
    decreases tparams,
{
    match tparams {
        List::Nil => {},
        List::Cons(q, rest) => {
            acc.push(q.dupe());
            append_tparams(&**rest, acc);
        },
    }
    assert(acc@ =~= old(acc)@ + tparams@);
}

fn append_overload_binders(sigs: &List<OverloadType>, acc: &mut Vec<Quantified>)
    ensures
        final(acc)@ == old(acc)@ + overload_binders(*sigs),
    decreases sigs,
{
    match sigs {
        List::Nil => {},
        List::Cons(sig, rest) => {
            match sig {
                OverloadType::Function(_) => {},
                OverloadType::Forall(g) => append_tparams(&*g.tparams, acc),
            }
            append_overload_binders(&**rest, acc);
        },
    }
    assert(acc@ =~= old(acc)@ + overload_binders(*sigs));
}

fn append_own_binders(t: &Type, acc: &mut Vec<Quantified>)
    ensures
        final(acc)@ == old(acc)@ + own_binders(*t),
{
    match t {
        Type::Forall(f) => append_tparams(&*f.tparams, acc),
        Type::Overload(o) => append_overload_binders(&*o.signatures, acc),
        Type::BoundMethod(b) => match &b.func {
            BoundMethodType::Forall(g) => append_tparams(&*g.tparams, acc),
            BoundMethodType::Overload(o) => append_overload_binders(&*o.signatures, acc),
            BoundMethodType::Function(_) => {},
        },
        _ => {},
    }
    assert(acc@ =~= old(acc)@ + own_binders(*t));
}

/// Appends the type variables that are bound anywhere within a type.
pub fn collect_binders(t: &Type, acc: &mut Vec<Quantified>)
    ensures
        final(acc)@ == old(acc)@ + binders(nodes(*t)),
{
    let mut all: Vec<Type> = Vec::new();
    collect_types(t, &mut all);
    assert(all@ =~= nodes(*t));
    let mut i: usize = 0;
    assert(all@.take(0) =~= Seq::empty());
    assert(acc@ =~= old(acc)@ + binders(all@.take(0)));
    while i < all.len()
        invariant
            i <= all@.len(),
            acc@ == old(acc)@ + binders(all@.take(i as int)),
        decreases all@.len() - i,
    {
        assert(all@.take(i + 1).drop_last() =~= all@.take(i as int));
        append_own_binders(&all[i], acc);
        assert(acc@ =~= old(acc)@ + binders(all@.take(i + 1)));
        i = i + 1;
    }
    assert(all@.take(i as int) =~= all@);
}

} // verus!
