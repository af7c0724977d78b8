use starlark_map::small_set::SmallSet;
use vstd::prelude::*;

use crate::list::List;
use crate::ordered::{id_elements, id_set, id_set_contains, id_set_insert, with_element};
use crate::types::{
    BoundMethodType, Callable, ClassType, Forallable, FuncMetadata, Function, Overload,
    OverloadType, Param, Params, Quantified, Required, TArg, Type,
};

verus! {

/// The type variables in a type, in the order in which they are met, repetitions kept.
pub open spec fn vars(t: Type) -> Seq<Quantified>
    decreases t,
{
    match t {
        Type::ClassType(c) => vars_class(c),
        Type::SelfType(c) => vars_class(c),
        Type::TypedDict(c) => vars_class(c),
        Type::TypeOf(inner) => vars(*inner),
        Type::Quantified(q) => seq![*q],
        Type::Function(f) => vars_function(f),
        Type::Callable(c) => vars_callable(*c),
        Type::Overload(o) => vars_overload(o),
        Type::Forall(f) => match f.body {
            Forallable::Function(func) => vars_function(func),
            Forallable::Other(inner) => vars(*inner),
        },
        Type::BoundMethod(b) => vars(b.obj) + match b.func {
            BoundMethodType::Function(func) => vars_function(func),
            BoundMethodType::Forall(g) => vars_function(g.body),
            BoundMethodType::Overload(o) => vars_overload(o),
        },
        Type::Union(ts) => vars_list(*ts),
        Type::Intersect(ts) => vars_list(*ts),
        Type::Tuple(ts) => vars_list(*ts),
        Type::UnboundedTuple(inner) => vars(*inner),
        Type::Tensor(tensor) => vars_class(tensor.base_class),
        _ => Seq::empty(),
    }
}

pub open spec fn vars_list(ts: List<Type>) -> Seq<Quantified>
    decreases ts,
{
    match ts {
        List::Nil => Seq::empty(),
        List::Cons(t, rest) => vars(t) + vars_list(*rest),
    }
}

pub open spec fn vars_targs(args: List<TArg>) -> Seq<Quantified>
    decreases args,
{
    match args {
        List::Nil => Seq::empty(),
        List::Cons(a, rest) => vars(a.value) + vars_targs(*rest),
    }
}

pub open spec fn vars_class(c: ClassType) -> Seq<Quantified>
    decreases c,
{
    vars_targs(*c.targs)
}

pub open spec fn vars_required(r: Required) -> Seq<Quantified>
    decreases r,
{
    match r {
        Required::Optional(Some(t)) => vars(*t),
        _ => Seq::empty(),
    }
}

pub open spec fn vars_param(p: Param) -> Seq<Quantified>
    decreases p,
{
    match p {
        Param::PosOnly(_, t, r) => vars(t) + vars_required(r),
        Param::Pos(_, t, r) => vars(t) + vars_required(r),
        Param::VarArg(_, t) => vars(t),
        Param::KwOnly(_, t, r) => vars(t) + vars_required(r),
        Param::Kwargs(_, t) => vars(t),
    }
}

pub open spec fn vars_params(ps: List<Param>) -> Seq<Quantified>
    decreases ps,
{
    match ps {
        List::Nil => Seq::empty(),
        List::Cons(p, rest) => vars_param(p) + vars_params(*rest),
    }
}

pub open spec fn vars_callable(c: Callable) -> Seq<Quantified>
    decreases c,
{
    (match c.params {
        Params::List(ps) => vars_params(ps),
        _ => Seq::empty(),
    }) + vars(c.ret)
}

pub open spec fn vars_metadata(m: FuncMetadata) -> Seq<Quantified>
    decreases m,
{
    match m.property {
        Some(p) => vars(*p.getter) + match p.setter {
            Some(t) => vars(*t),
            None => Seq::empty(),
        },
        None => Seq::empty(),
    }
}

pub open spec fn vars_function(f: Function) -> Seq<Quantified>
    decreases f,
{
    vars_callable(*f.signature) + vars_metadata(*f.metadata)
}

pub open spec fn vars_overloads(sigs: List<OverloadType>) -> Seq<Quantified>
    decreases sigs,
{
    match sigs {
        List::Nil => Seq::empty(),
        List::Cons(sig, rest) => (match sig {
            OverloadType::Function(f) => vars_function(f),
            OverloadType::Forall(g) => vars_function(g.body),
        }) + vars_overloads(*rest),
    }
}

pub open spec fn vars_overload(o: Overload) -> Seq<Quantified>
    decreases o,
{
    vars_overloads(*o.signatures) + vars_metadata(*o.metadata)
}

/// Appends the type variables of a type.
pub fn collect_quantifieds(t: &Type, acc: &mut Vec<Quantified>)
    ensures
        final(acc)@ == old(acc)@ + vars(*t),
    decreases t,
{
    match t {
        Type::ClassType(c) => collect_class(c, acc),
        Type::SelfType(c) => collect_class(c, acc),
        Type::TypedDict(c) => collect_class(c, acc),
        Type::TypeOf(inner) => collect_quantifieds(&**inner, acc),
        Type::Quantified(q) => {
            acc.push(q.dupe());
        },
        Type::Function(f) => collect_function(f, acc),
        Type::Callable(c) => collect_callable(&**c, acc),
        Type::Overload(o) => collect_overload(o, acc),
        Type::Forall(f) => match &f.body {
            Forallable::Function(func) => collect_function(func, acc),
            Forallable::Other(inner) => collect_quantifieds(&**inner, acc),
        },
        Type::BoundMethod(b) => {
            collect_quantifieds(&b.obj, acc);
            match &b.func {
                BoundMethodType::Function(func) => collect_function(func, acc),
                BoundMethodType::Forall(g) => collect_function(&g.body, acc),
                BoundMethodType::Overload(o) => collect_overload(o, acc),
            }
        },
        Type::Union(ts) => collect_list(&**ts, acc),
        Type::Intersect(ts) => collect_list(&**ts, acc),
        Type::Tuple(ts) => collect_list(&**ts, acc),
        Type::UnboundedTuple(inner) => collect_quantifieds(&**inner, acc),
        Type::Tensor(tensor) => collect_class(&tensor.base_class, acc),
        _ => {},
    }
    assert(acc@ =~= old(acc)@ + vars(*t));
}

fn collect_list(ts: &List<Type>, acc: &mut Vec<Quantified>)
    ensures
        final(acc)@ == old(acc)@ + vars_list(*ts),
    decreases ts,
{
    match ts {
        List::Nil => {},
        List::Cons(t, rest) => {
            collect_quantifieds(t, acc);
            collect_list(&**rest, acc);
        },
    }
    assert(acc@ =~= old(acc)@ + vars_list(*ts));
}

fn collect_targs(args: &List<TArg>, acc: &mut Vec<Quantified>)
    ensures
        final(acc)@ == old(acc)@ + vars_targs(*args),
    decreases args,
{
    match args {
        List::Nil => {},
        List::Cons(a, rest) => {
            collect_quantifieds(&a.value, acc);
            collect_targs(&**rest, acc);
        },
    }
    assert(acc@ =~= old(acc)@ + vars_targs(*args));
}

fn collect_class(c: &ClassType, acc: &mut Vec<Quantified>)
    ensures
        final(acc)@ == old(acc)@ + vars_class(*c),
    decreases c,
{
    collect_targs(&*c.targs, acc)
}

fn collect_required(r: &Required, acc: &mut Vec<Quantified>)
    ensures
        final(acc)@ == old(acc)@ + vars_required(*r),
    decreases r,
{
    match r {
        Required::Optional(Some(t)) => collect_quantifieds(&**t, acc),
        _ => {},
    }
    assert(acc@ =~= old(acc)@ + vars_required(*r));
}

fn collect_param(p: &Param, acc: &mut Vec<Quantified>)
    ensures
        final(acc)@ == old(acc)@ + vars_param(*p),
    decreases p,
{
    match p {
        Param::PosOnly(_, t, r) => {
            collect_quantifieds(t, acc);
            collect_required(r, acc);
        },
        Param::Pos(_, t, r) => {
            collect_quantifieds(t, acc);
            collect_required(r, acc);
        },
        Param::VarArg(_, t) => collect_quantifieds(t, acc),
        Param::KwOnly(_, t, r) => {
            collect_quantifieds(t, acc);
            collect_required(r, acc);
        },
        Param::Kwargs(_, t) => collect_quantifieds(t, acc),
    }
    assert(acc@ =~= old(acc)@ + vars_param(*p));
}

fn collect_params(ps: &List<Param>, acc: &mut Vec<Quantified>)
    ensures
        final(acc)@ == old(acc)@ + vars_params(*ps),
    decreases ps,
{
    match ps {
        List::Nil => {},
        List::Cons(p, rest) => {
            collect_param(p, acc);
            collect_params(&**rest, acc);
        },
    }
    assert(acc@ =~= old(acc)@ + vars_params(*ps));
}

fn collect_callable(c: &Callable, acc: &mut Vec<Quantified>)
    ensures
        final(acc)@ == old(acc)@ + vars_callable(*c),
    decreases c,
{
    match &c.params {
        Params::List(ps) => collect_params(ps, acc),
        _ => {},
    }
    collect_quantifieds(&c.ret, acc);
    assert(acc@ =~= old(acc)@ + vars_callable(*c));
}

fn collect_metadata(m: &FuncMetadata, acc: &mut Vec<Quantified>)
    ensures
        final(acc)@ == old(acc)@ + vars_metadata(*m),
    decreases m,
{
    match &m.property {
        Some(p) => {
            collect_quantifieds(&*p.getter, acc);
            match &p.setter {
                Some(t) => collect_quantifieds(&**t, acc),
                None => {},
            }
        },
        None => {},
    }
    assert(acc@ =~= old(acc)@ + vars_metadata(*m));
}

/// Appends the type variables of a function.
pub fn collect_function(f: &Function, acc: &mut Vec<Quantified>)
    ensures
        final(acc)@ == old(acc)@ + vars_function(*f),
    decreases f,
{
    collect_callable(&*f.signature, acc);
    collect_metadata(&*f.metadata, acc);
    assert(acc@ =~= old(acc)@ + vars_function(*f));
}

fn collect_overloads(sigs: &List<OverloadType>, acc: &mut Vec<Quantified>)
    ensures
        final(acc)@ == old(acc)@ + vars_overloads(*sigs),
    decreases sigs,
{
    match sigs {
        List::Nil => {},
        List::Cons(sig, rest) => {
            match sig {
                OverloadType::Function(f) => collect_function(f, acc),
                OverloadType::Forall(g) => collect_function(&g.body, acc),
            }
            collect_overloads(&**rest, acc);
        },
    }
    assert(acc@ =~= old(acc)@ + vars_overloads(*sigs));
}

fn collect_overload(o: &Overload, acc: &mut Vec<Quantified>)
    ensures
        final(acc)@ == old(acc)@ + vars_overload(*o),
    decreases o,
{
    collect_overloads(&*o.signatures, acc);
    collect_metadata(&*o.metadata, acc);
    assert(acc@ =~= old(acc)@ + vars_overload(*o));
}

/// Whether the type variable `id` occurs in `qs`.
pub open spec fn has_var(qs: Seq<Quantified>, id: u64) -> bool {
    exists|i: int| 0 <= i < qs.len() && #[trigger] qs[i].id == id
}

/// Whether some of the type variables `tparams` occurs in `qs`.
pub open spec fn uses_any(tparams: List<Quantified>, qs: Seq<Quantified>) -> bool
    decreases tparams,
{
    match tparams {
        List::Nil => false,
        List::Cons(q, rest) => has_var(qs, q.id) || uses_any(*rest, qs),
    }
}

/// The ids of type variables, each once, in the order of their first occurrence.
pub open spec fn distinct_ids(qs: Seq<Quantified>) -> Seq<u64>
    decreases qs.len(),
{
    if qs.len() == 0 {
        Seq::empty()
    } else {
        with_element(distinct_ids(qs.drop_last()), qs.last().id)
    }
}

pub proof fn lemma_distinct_ids(qs: Seq<Quantified>, id: u64)
    ensures
        distinct_ids(qs).contains(id) == has_var(qs, id),
    decreases qs.len(),
{
    if qs.len() > 0 {
        let before = qs.drop_last();
        let ids = distinct_ids(before);
        let last = qs.last().id;
        lemma_distinct_ids(before, id);
        if has_var(before, id) {
            let i = choose|i: int| 0 <= i < before.len() && #[trigger] before[i].id == id;
            assert(qs[i].id == id);
        }
        if has_var(qs, id) && !has_var(before, id) {
            let i = choose|i: int| 0 <= i < qs.len() && #[trigger] qs[i].id == id;
            if i < before.len() {
                assert(before[i].id == id);
            }
        }
        if !ids.contains(last) {
            assert(ids.push(last)[ids.len() as int] == last);
            if ids.contains(id) {
                let k = choose|k: int| 0 <= k < ids.len() && ids[k] == id;
                assert(ids.push(last)[k] == id);
            }
            if ids.push(last).contains(id) && id != last {
                let k = choose|k: int| 0 <= k < ids.push(last).len() && ids.push(last)[k] == id;
                assert(ids[k] == id);
            }
        }
        assert(qs[qs.len() - 1].id == last);
    }
}

/// The ids of the given type variables.
pub fn id_set_of(qs: &Vec<Quantified>) -> (r: SmallSet<u64>)
    ensures
        id_elements(r) == distinct_ids(qs@),
{
    let mut set = id_set();
    let mut i: usize = 0;
    assert(qs@.take(0) =~= Seq::empty());
    while i < qs.len()
        invariant
            i <= qs@.len(),
            id_elements(set) == distinct_ids(qs@.take(i as int)),
        decreases qs@.len() - i,
    {
        id_set_insert(&mut set, qs[i].id);
        assert(qs@.take(i + 1).drop_last() =~= qs@.take(i as int));
        i = i + 1;
    }
    assert(qs@.take(i as int) =~= qs@);
    set
}

/// Whether some of the type variables `tparams` is among `ids`, which come from `qs`.
fn any_in_set(tparams: &List<Quantified>, ids: &SmallSet<u64>, Ghost(qs): Ghost<Seq<Quantified>>) -> (r:
    bool)
    requires
        id_elements(*ids) == distinct_ids(qs),
    ensures
        r == uses_any(*tparams, qs),
    decreases tparams,
{
    match tparams {
        List::Nil => false,
        List::Cons(q, rest) => {
            proof {
                lemma_distinct_ids(qs, q.id);
            }
            id_set_contains(ids, q.id) || any_in_set(&**rest, ids, Ghost(qs))
        },
    }
}

/// Whether a type depends on some of the given type variables.
pub fn type_uses_any(tparams: &List<Quantified>, t: &Type) -> (r: bool)
    ensures
        r == uses_any(*tparams, vars(*t)),
{
    let mut qs: Vec<Quantified> = Vec::new();
    collect_quantifieds(t, &mut qs);
    assert(qs@ =~= vars(*t));
    let ids = id_set_of(&qs);
    any_in_set(tparams, &ids, Ghost(qs@))
}

/// Whether a function depends on some of the given type variables.
pub fn function_uses_any(tparams: &List<Quantified>, f: &Function) -> (r: bool)
    ensures
        r == uses_any(*tparams, vars_function(*f)),
{
    let mut qs: Vec<Quantified> = Vec::new();
    collect_function(f, &mut qs);
    assert(qs@ =~= vars_function(*f));
    let ids = id_set_of(&qs);
    any_in_set(tparams, &ids, Ghost(qs@))
}

/// Whether a type depends on the type variable `id`.
pub fn type_mentions(t: &Type, id: u64) -> (r: bool)
    ensures
        r == has_var(vars(*t), id),
{
    let mut qs: Vec<Quantified> = Vec::new();
    collect_quantifieds(t, &mut qs);
    assert(qs@ =~= vars(*t));
    let ids = id_set_of(&qs);
    proof {
        lemma_distinct_ids(qs@, id);
    }
    id_set_contains(&ids, id)
}

/// Whether a function depends on the type variable `id`.
pub fn function_mentions(f: &Function, id: u64) -> (r: bool)
    ensures
        r == has_var(vars_function(*f), id),
{
    let mut qs: Vec<Quantified> = Vec::new();
    collect_function(f, &mut qs);
    assert(qs@ =~= vars_function(*f));
    let ids = id_set_of(&qs);
    proof {
        lemma_distinct_ids(qs@, id);
    }
    id_set_contains(&ids, id)
}

/// Whether some of the type variables that `args` gives a type occurs in `qs`.
pub open spec fn uses_any_arg(args: List<TArg>, qs: Seq<Quantified>) -> bool
    decreases args,
{
    match args {
        List::Nil => false,
        List::Cons(a, rest) => has_var(qs, a.param.id) || uses_any_arg(*rest, qs),
    }
}

fn any_arg_in_set(args: &List<TArg>, ids: &SmallSet<u64>, Ghost(qs): Ghost<Seq<Quantified>>) -> (r:
    bool)
    requires
        id_elements(*ids) == distinct_ids(qs),
    ensures
        r == uses_any_arg(*args, qs),
    decreases args,
{
    match args {
        List::Nil => false,
        List::Cons(a, rest) => {
            proof {
                lemma_distinct_ids(qs, a.param.id);
            }
            id_set_contains(ids, a.param.id) || any_arg_in_set(&**rest, ids, Ghost(qs))
        },
    }
}

/// Whether a type depends on some of the type variables that `args` gives a type.
pub fn type_uses_any_arg(args: &List<TArg>, t: &Type) -> (r: bool)
    ensures
        r == uses_any_arg(*args, vars(*t)),
{
    let mut qs: Vec<Quantified> = Vec::new();
    collect_quantifieds(t, &mut qs);
    assert(qs@ =~= vars(*t));
    let ids = id_set_of(&qs);
    any_arg_in_set(args, &ids, Ghost(qs@))
}

} // verus!
