use vstd::prelude::*;

use crate::list::List;
use crate::subst::{
    arg_for, subst_callable, subst_class, subst_function, subst_metadata, subst_overload,
    subst_overloads, subst_param, subst_params, subst_required, subst_targs, subst_type,
    subst_types, Subst,
};
use crate::types::{
    BoundMethodType, Callable, ClassType, Forallable, FuncMetadata, Function, Overload,
    OverloadType, Param, Params, Quantified, Required, TArg, Type,
};
use crate::universe::{
    nodes, nodes_callable, nodes_class, nodes_function, nodes_list, nodes_metadata, nodes_overload,
    nodes_overloads, nodes_param, nodes_params, nodes_required, nodes_targs,
};
use crate::vars::{
    has_var, vars, vars_callable, vars_class, vars_function, vars_list, vars_metadata,
    vars_overload, vars_overloads, vars_param, vars_params, vars_required, vars_targs,
};

verus! {

/// Whether a substitution says something of a type itself.
pub open spec fn replaces(s: Subst, t: Type) -> bool {
    match s {
        Subst::SelfType(_) => t is SelfType,
        Subst::Args(args) => t matches Type::Quantified(q) && arg_for(*args, q.id) is Some,
    }
}

/// Whether a substitution says nothing of any of the types.
pub open spec fn spares(s: Subst, ts: Seq<Type>) -> bool {
    forall|i: int| 0 <= i < ts.len() ==> !replaces(s, #[trigger] ts[i])
}

proof fn lemma_spares_parts(s: Subst)
    ensures
        forall|a: Seq<Type>, b: Seq<Type>|
            spares(s, #[trigger] (a + b)) ==> spares(s, a) && spares(s, b),
{
    assert forall|a: Seq<Type>, b: Seq<Type>| spares(s, #[trigger] (a + b)) implies spares(s, a)
        && spares(s, b) by {
        assert forall|i: int| 0 <= i < a.len() implies !replaces(s, #[trigger] a[i]) by {
            assert((a + b)[i] == a[i]);
        }
        assert forall|i: int| 0 <= i < b.len() implies !replaces(s, #[trigger] b[i]) by {
            assert((a + b)[a.len() + i] == b[i]);
        }
    }
}

/// A type in which nothing is to be replaced, however deep inside, stays as it is.
pub proof fn law_substitution_changes_only_what_it_names(t: &Type, s: Subst)
    requires
        spares(s, nodes(*t)),
    ensures
        subst_type(*t, s) == *t,
    decreases t,
{
    lemma_spares_parts(s);
    assert(nodes(*t)[0] == *t);
    assert(!replaces(s, *t));
    match t {
        Type::ClassType(c) => lemma_class(c, s),
        Type::SelfType(c) => lemma_class(c, s),
        Type::TypedDict(c) => lemma_class(c, s),
        Type::TypeOf(inner) => law_substitution_changes_only_what_it_names(&**inner, s),
        Type::Function(f) => lemma_function(f, s),
        Type::Callable(c) => lemma_callable(&**c, s),
        Type::Overload(o) => lemma_overload(o, s),
        Type::Forall(f) => match &f.body {
            Forallable::Function(func) => lemma_function(func, s),
            Forallable::Other(inner) => law_substitution_changes_only_what_it_names(&**inner, s),
        },
        Type::BoundMethod(b) => {
            law_substitution_changes_only_what_it_names(&b.obj, s);
            match &b.func {
                BoundMethodType::Function(func) => lemma_function(func, s),
                BoundMethodType::Forall(g) => lemma_function(&g.body, s),
                BoundMethodType::Overload(o) => lemma_overload(o, s),
            }
        },
        Type::Union(ts) => lemma_types(&**ts, s),
        Type::Intersect(ts) => lemma_types(&**ts, s),
        Type::Tuple(ts) => lemma_types(&**ts, s),
        Type::UnboundedTuple(inner) => law_substitution_changes_only_what_it_names(&**inner, s),
        Type::Tensor(tensor) => lemma_class(&tensor.base_class, s),
        _ => {},
    }
}

proof fn lemma_types(ts: &List<Type>, s: Subst)
    requires
        spares(s, nodes_list(*ts)),
    ensures
        subst_types(*ts, s) == *ts,
    decreases ts,
{
    lemma_spares_parts(s);
    if let List::Cons(t, rest) = ts {
        law_substitution_changes_only_what_it_names(t, s);
        lemma_types(&**rest, s);
    }
}

proof fn lemma_targs(args: &List<TArg>, s: Subst)
    requires
        spares(s, nodes_targs(*args)),
    ensures
        subst_targs(*args, s) == *args,
    decreases args,
{
    lemma_spares_parts(s);
    if let List::Cons(a, rest) = args {
        law_substitution_changes_only_what_it_names(&a.value, s);
        lemma_targs(&**rest, s);
    }
}

proof fn lemma_class(c: &ClassType, s: Subst)
    requires
        spares(s, nodes_class(*c)),
    ensures
        subst_class(*c, s) == *c,
    decreases c,
{
    lemma_targs(&*c.targs, s);
}

proof fn lemma_required(r: &Required, s: Subst)
    requires
        spares(s, nodes_required(*r)),
    ensures
        subst_required(*r, s) == *r,
    decreases r,
{
    if let Required::Optional(Some(t)) = r {
        law_substitution_changes_only_what_it_names(&**t, s);
    }
}

proof fn lemma_param(p: &Param, s: Subst)
    requires
        spares(s, nodes_param(*p)),
    ensures
        subst_param(*p, s) == *p,
    decreases p,
{
    lemma_spares_parts(s);
    match p {
        Param::PosOnly(_, t, r) => {
            law_substitution_changes_only_what_it_names(t, s);
            lemma_required(r, s);
        },
        Param::Pos(_, t, r) => {
            law_substitution_changes_only_what_it_names(t, s);
            lemma_required(r, s);
        },
        Param::VarArg(_, t) => law_substitution_changes_only_what_it_names(t, s),
        Param::KwOnly(_, t, r) => {
            law_substitution_changes_only_what_it_names(t, s);
            lemma_required(r, s);
        },
        Param::Kwargs(_, t) => law_substitution_changes_only_what_it_names(t, s),
    }
}

proof fn lemma_params(ps: &List<Param>, s: Subst)
    requires
        spares(s, nodes_params(*ps)),
    ensures
        subst_params(*ps, s) == *ps,
    decreases ps,
{
    lemma_spares_parts(s);
    if let List::Cons(p, rest) = ps {
        lemma_param(p, s);
        lemma_params(&**rest, s);
    }
}

proof fn lemma_callable(c: &Callable, s: Subst)
    requires
        spares(s, nodes_callable(*c)),
    ensures
        subst_callable(*c, s) == *c,
    decreases c,
{
    lemma_spares_parts(s);
    if let Params::List(ps) = &c.params {
        lemma_params(ps, s);
    }
    law_substitution_changes_only_what_it_names(&c.ret, s);
}

proof fn lemma_metadata(m: &FuncMetadata, s: Subst)
    requires
        spares(s, nodes_metadata(*m)),
    ensures
        subst_metadata(*m, s) == *m,
    decreases m,
{
    lemma_spares_parts(s);
    if let Some(p) = &m.property {
        law_substitution_changes_only_what_it_names(&*p.getter, s);
        if let Some(t) = &p.setter {
            law_substitution_changes_only_what_it_names(&**t, s);
        }
    }
}

proof fn lemma_function(f: &Function, s: Subst)
    requires
        spares(s, nodes_function(*f)),
    ensures
        subst_function(*f, s) == *f,
    decreases f,
{
    lemma_spares_parts(s);
    lemma_callable(&*f.signature, s);
    lemma_metadata(&*f.metadata, s);
}

proof fn lemma_overloads(sigs: &List<OverloadType>, s: Subst)
    requires
        spares(s, nodes_overloads(*sigs)),
    ensures
        subst_overloads(*sigs, s) == *sigs,
    decreases sigs,
{
    lemma_spares_parts(s);
    if let List::Cons(sig, rest) = sigs {
        match sig {
            OverloadType::Function(f) => lemma_function(f, s),
            OverloadType::Forall(g) => lemma_function(&g.body, s),
        }
        lemma_overloads(&**rest, s);
    }
}

proof fn lemma_overload(o: &Overload, s: Subst)
    requires
        spares(s, nodes_overload(*o)),
    ensures
        subst_overload(*o, s) == *o,
    decreases o,
{
    lemma_spares_parts(s);
    lemma_overloads(&*o.signatures, s);
    lemma_metadata(&*o.metadata, s);
}

/// Whether what comes in place of what a substitution names is not named by it again.
pub open spec fn settled(s: Subst) -> bool {
    match s {
        Subst::SelfType(replacement) => spares(s, nodes(replacement)),
        Subst::Args(args) => forall|id: u64|
            (#[trigger] arg_for(*args, id)) matches Some(value) ==> spares(s, nodes(value)),
    }
}

proof fn lemma_spares_joined(s: Subst)
    ensures
        forall|a: Seq<Type>, b: Seq<Type>|
            spares(s, a) && spares(s, b) ==> spares(s, #[trigger] (a + b)),
{
}

/// What a substitution names is gone after it, at whatever depth, where what comes instead does not
/// name it again. Doing it once more then changes nothing.
pub proof fn law_substitution_leaves_nothing_over(t: &Type, s: Subst)
    requires
        settled(s),
    ensures
        spares(s, nodes(subst_type(*t, s))),
        subst_type(subst_type(*t, s), s) == subst_type(*t, s),
    decreases t,
{
    lemma_spares_joined(s);
    let after = subst_type(*t, s);
    match t {
        Type::ClassType(c) => lemma_class_over(c, s),
        Type::SelfType(c) => lemma_class_over(c, s),
        Type::TypedDict(c) => lemma_class_over(c, s),
        Type::TypeOf(inner) => law_substitution_leaves_nothing_over(&**inner, s),
        Type::Function(f) => lemma_function_over(f, s),
        Type::Callable(c) => lemma_callable_over(&**c, s),
        Type::Overload(o) => lemma_overload_over(o, s),
        Type::Forall(f) => match &f.body {
            Forallable::Function(func) => lemma_function_over(func, s),
            Forallable::Other(inner) => law_substitution_leaves_nothing_over(&**inner, s),
        },
        Type::BoundMethod(b) => {
            law_substitution_leaves_nothing_over(&b.obj, s);
            match &b.func {
                BoundMethodType::Function(func) => lemma_function_over(func, s),
                BoundMethodType::Forall(g) => lemma_function_over(&g.body, s),
                BoundMethodType::Overload(o) => lemma_overload_over(o, s),
            }
        },
        Type::Union(ts) => lemma_types_over(&**ts, s),
        Type::Intersect(ts) => lemma_types_over(&**ts, s),
        Type::Tuple(ts) => lemma_types_over(&**ts, s),
        Type::UnboundedTuple(inner) => law_substitution_leaves_nothing_over(&**inner, s),
        Type::Tensor(tensor) => lemma_class_over(&tensor.base_class, s),
        _ => {},
    }
    if !replaces(s, *t) {
        assert(!replaces(s, after));
        assert(spares(s, seq![after]));
    }
    assert(spares(s, nodes(after)));
    law_substitution_changes_only_what_it_names(&after, s);
}

proof fn lemma_types_over(ts: &List<Type>, s: Subst)
    requires
        settled(s),
    ensures
        spares(s, nodes_list(subst_types(*ts, s))),
    decreases ts,
{
    lemma_spares_joined(s);
    if let List::Cons(t, rest) = ts {
        law_substitution_leaves_nothing_over(t, s);
        lemma_types_over(&**rest, s);
    }
}

proof fn lemma_targs_over(args: &List<TArg>, s: Subst)
    requires
        settled(s),
    ensures
        spares(s, nodes_targs(subst_targs(*args, s))),
    decreases args,
{
    lemma_spares_joined(s);
    if let List::Cons(a, rest) = args {
        law_substitution_leaves_nothing_over(&a.value, s);
        lemma_targs_over(&**rest, s);
    }
}

proof fn lemma_class_over(c: &ClassType, s: Subst)
    requires
        settled(s),
    ensures
        spares(s, nodes_class(subst_class(*c, s))),
    decreases c,
{
    lemma_targs_over(&*c.targs, s);
}

proof fn lemma_required_over(r: &Required, s: Subst)
    requires
        settled(s),
    ensures
        spares(s, nodes_required(subst_required(*r, s))),
    decreases r,
{
    if let Required::Optional(Some(t)) = r {
        law_substitution_leaves_nothing_over(&**t, s);
    }
}

proof fn lemma_param_over(p: &Param, s: Subst)
    requires
        settled(s),
    ensures
        spares(s, nodes_param(subst_param(*p, s))),
    decreases p,
{
    lemma_spares_joined(s);
    match p {
        Param::PosOnly(_, t, r) => {
            law_substitution_leaves_nothing_over(t, s);
            lemma_required_over(r, s);
        },
        Param::Pos(_, t, r) => {
            law_substitution_leaves_nothing_over(t, s);
            lemma_required_over(r, s);
        },
        Param::VarArg(_, t) => law_substitution_leaves_nothing_over(t, s),
        Param::KwOnly(_, t, r) => {
            law_substitution_leaves_nothing_over(t, s);
            lemma_required_over(r, s);
        },
        Param::Kwargs(_, t) => law_substitution_leaves_nothing_over(t, s),
    }
}

proof fn lemma_params_over(ps: &List<Param>, s: Subst)
    requires
        settled(s),
    ensures
        spares(s, nodes_params(subst_params(*ps, s))),
    decreases ps,
{
    lemma_spares_joined(s);
    if let List::Cons(p, rest) = ps {
        lemma_param_over(p, s);
        lemma_params_over(&**rest, s);
    }
}

proof fn lemma_callable_over(c: &Callable, s: Subst)
    requires
        settled(s),
    ensures
        spares(s, nodes_callable(subst_callable(*c, s))),
    decreases c,
{
    lemma_spares_joined(s);
    if let Params::List(ps) = &c.params {
        lemma_params_over(ps, s);
    }
    law_substitution_leaves_nothing_over(&c.ret, s);
}

proof fn lemma_metadata_over(m: &FuncMetadata, s: Subst)
    requires
        settled(s),
    ensures
        spares(s, nodes_metadata(subst_metadata(*m, s))),
    decreases m,
{
    lemma_spares_joined(s);
    if let Some(p) = &m.property {
        law_substitution_leaves_nothing_over(&*p.getter, s);
        if let Some(t) = &p.setter {
            law_substitution_leaves_nothing_over(&**t, s);
        }
    }
}

proof fn lemma_function_over(f: &Function, s: Subst)
    requires
        settled(s),
    ensures
        spares(s, nodes_function(subst_function(*f, s))),
    decreases f,
{
    lemma_spares_joined(s);
    lemma_callable_over(&*f.signature, s);
    lemma_metadata_over(&*f.metadata, s);
}

proof fn lemma_overloads_over(sigs: &List<OverloadType>, s: Subst)
    requires
        settled(s),
    ensures
        spares(s, nodes_overloads(subst_overloads(*sigs, s))),
    decreases sigs,
{
    lemma_spares_joined(s);
    if let List::Cons(sig, rest) = sigs {
        match sig {
            OverloadType::Function(f) => lemma_function_over(f, s),
            OverloadType::Forall(g) => lemma_function_over(&g.body, s),
        }
        lemma_overloads_over(&**rest, s);
    }
}

proof fn lemma_overload_over(o: &Overload, s: Subst)
    requires
        settled(s),
    ensures
        spares(s, nodes_overload(subst_overload(*o, s))),
    decreases o,
{
    lemma_spares_joined(s);
    lemma_overloads_over(&*o.signatures, s);
    lemma_metadata_over(&*o.metadata, s);
}

/// Whether a variable is one of the types.
pub open spec fn stands_in(ts: Seq<Type>, id: u64) -> bool {
    exists|i: int| 0 <= i < ts.len() && is_variable(#[trigger] ts[i], id)
}

/// Whether a type is a variable.
pub open spec fn is_variable(t: Type, id: u64) -> bool {
    t matches Type::Quantified(q) && q.id == id
}

proof fn lemma_joined_variables()
    ensures
        forall|a: Seq<Type>, b: Seq<Type>, id: u64| #[trigger]
            stands_in(a + b, id) <==> stands_in(a, id) || stands_in(b, id),
        forall|a: Seq<Quantified>, b: Seq<Quantified>, id: u64| #[trigger]
            has_var(a + b, id) <==> has_var(a, id) || has_var(b, id),
{
    assert forall|a: Seq<Type>, b: Seq<Type>, id: u64| #[trigger]
        stands_in(a + b, id) <==> stands_in(a, id) || stands_in(b, id) by {
        if stands_in(a, id) {
            let i = choose|i: int| 0 <= i < a.len() && is_variable(#[trigger] a[i], id);
            assert((a + b)[i] == a[i]);
        }
        if stands_in(b, id) {
            let i = choose|i: int| 0 <= i < b.len() && is_variable(#[trigger] b[i], id);
            assert((a + b)[a.len() + i] == b[i]);
        }
    }
    assert forall|a: Seq<Quantified>, b: Seq<Quantified>, id: u64| #[trigger]
        has_var(a + b, id) <==> has_var(a, id) || has_var(b, id) by {
        if has_var(a, id) {
            let i = choose|i: int| 0 <= i < a.len() && #[trigger] a[i].id == id;
            assert((a + b)[i] == a[i]);
        }
        if has_var(b, id) {
            let i = choose|i: int| 0 <= i < b.len() && #[trigger] b[i].id == id;
            assert((a + b)[a.len() + i] == b[i]);
        }
    }
}

/// The variables of a type are those that stand somewhere inside of it.
pub proof fn law_variables_stand_inside(t: &Type, id: u64)
    ensures
        has_var(vars(*t), id) <==> stands_in(nodes(*t), id),
    decreases t,
{
    lemma_joined_variables();
    match t {
        Type::ClassType(c) => lemma_class_variables(c, id),
        Type::SelfType(c) => lemma_class_variables(c, id),
        Type::TypedDict(c) => lemma_class_variables(c, id),
        Type::TypeOf(inner) => law_variables_stand_inside(&**inner, id),
        Type::Function(f) => lemma_function_variables(f, id),
        Type::Callable(c) => lemma_callable_variables(&**c, id),
        Type::Overload(o) => lemma_overload_variables(o, id),
        Type::Forall(f) => match &f.body {
            Forallable::Function(func) => lemma_function_variables(func, id),
            Forallable::Other(inner) => law_variables_stand_inside(&**inner, id),
        },
        Type::BoundMethod(b) => {
            law_variables_stand_inside(&b.obj, id);
            match &b.func {
                BoundMethodType::Function(func) => lemma_function_variables(func, id),
                BoundMethodType::Forall(g) => lemma_function_variables(&g.body, id),
                BoundMethodType::Overload(o) => lemma_overload_variables(o, id),
            }
        },
        Type::Union(ts) => lemma_types_variables(&**ts, id),
        Type::Intersect(ts) => lemma_types_variables(&**ts, id),
        Type::Tuple(ts) => lemma_types_variables(&**ts, id),
        Type::UnboundedTuple(inner) => law_variables_stand_inside(&**inner, id),
        Type::Tensor(tensor) => lemma_class_variables(&tensor.base_class, id),
        Type::Quantified(q) => {
            assert(vars(*t)[0] == **q);
            assert(nodes(*t)[0] == *t);
        },
        _ => {},
    }
    if !(t is Quantified) {
        assert(!stands_in(seq![*t], id));
    }
}

proof fn lemma_types_variables(ts: &List<Type>, id: u64)
    ensures
        has_var(vars_list(*ts), id) <==> stands_in(nodes_list(*ts), id),
    decreases ts,
{
    lemma_joined_variables();
    if let List::Cons(t, rest) = ts {
        law_variables_stand_inside(t, id);
        lemma_types_variables(&**rest, id);
    }
}

proof fn lemma_targs_variables(args: &List<TArg>, id: u64)
    ensures
        has_var(vars_targs(*args), id) <==> stands_in(nodes_targs(*args), id),
    decreases args,
{
    lemma_joined_variables();
    if let List::Cons(a, rest) = args {
        law_variables_stand_inside(&a.value, id);
        lemma_targs_variables(&**rest, id);
    }
}

proof fn lemma_class_variables(c: &ClassType, id: u64)
    ensures
        has_var(vars_class(*c), id) <==> stands_in(nodes_class(*c), id),
    decreases c,
{
    lemma_targs_variables(&*c.targs, id);
}

proof fn lemma_required_variables(r: &Required, id: u64)
    ensures
        has_var(vars_required(*r), id) <==> stands_in(nodes_required(*r), id),
    decreases r,
{
    if let Required::Optional(Some(t)) = r {
        law_variables_stand_inside(&**t, id);
    }
}

proof fn lemma_param_variables(p: &Param, id: u64)
    ensures
        has_var(vars_param(*p), id) <==> stands_in(nodes_param(*p), id),
    decreases p,
{
    lemma_joined_variables();
    match p {
        Param::PosOnly(_, t, r) => {
            law_variables_stand_inside(t, id);
            lemma_required_variables(r, id);
        },
        Param::Pos(_, t, r) => {
            law_variables_stand_inside(t, id);
            lemma_required_variables(r, id);
        },
        Param::VarArg(_, t) => law_variables_stand_inside(t, id),
        Param::KwOnly(_, t, r) => {
            law_variables_stand_inside(t, id);
            lemma_required_variables(r, id);
        },
        Param::Kwargs(_, t) => law_variables_stand_inside(t, id),
    }
}

proof fn lemma_params_variables(ps: &List<Param>, id: u64)
    ensures
        has_var(vars_params(*ps), id) <==> stands_in(nodes_params(*ps), id),
    decreases ps,
{
    lemma_joined_variables();
    if let List::Cons(p, rest) = ps {
        lemma_param_variables(p, id);
        lemma_params_variables(&**rest, id);
    }
}

proof fn lemma_callable_variables(c: &Callable, id: u64)
    ensures
        has_var(vars_callable(*c), id) <==> stands_in(nodes_callable(*c), id),
    decreases c,
{
    lemma_joined_variables();
    if let Params::List(ps) = &c.params {
        lemma_params_variables(ps, id);
    }
    law_variables_stand_inside(&c.ret, id);
}

proof fn lemma_metadata_variables(m: &FuncMetadata, id: u64)
    ensures
        has_var(vars_metadata(*m), id) <==> stands_in(nodes_metadata(*m), id),
    decreases m,
{
    lemma_joined_variables();
    if let Some(p) = &m.property {
        law_variables_stand_inside(&*p.getter, id);
        if let Some(t) = &p.setter {
            law_variables_stand_inside(&**t, id);
        }
    }
}

proof fn lemma_function_variables(f: &Function, id: u64)
    ensures
        has_var(vars_function(*f), id) <==> stands_in(nodes_function(*f), id),
    decreases f,
{
    lemma_joined_variables();
    lemma_callable_variables(&*f.signature, id);
    lemma_metadata_variables(&*f.metadata, id);
}

proof fn lemma_overloads_variables(sigs: &List<OverloadType>, id: u64)
    ensures
        has_var(vars_overloads(*sigs), id) <==> stands_in(nodes_overloads(*sigs), id),
    decreases sigs,
{
    lemma_joined_variables();
    if let List::Cons(sig, rest) = sigs {
        match sig {
            OverloadType::Function(f) => lemma_function_variables(f, id),
            OverloadType::Forall(g) => lemma_function_variables(&g.body, id),
        }
        lemma_overloads_variables(&**rest, id);
    }
}

proof fn lemma_overload_variables(o: &Overload, id: u64)
    ensures
        has_var(vars_overload(*o), id) <==> stands_in(nodes_overload(*o), id),
    decreases o,
{
    lemma_joined_variables();
    lemma_overloads_variables(&*o.signatures, id);
    lemma_metadata_variables(&*o.metadata, id);
}

/// What is named is replaced: `Self` by its replacement, and a variable by the argument for it.
pub proof fn law_substitution_replaces_what_it_names(
    t: Type,
    replacement: Type,
    args: std::sync::Arc<List<TArg>>,
)
    ensures
        t is SelfType ==> subst_type(t, Subst::SelfType(replacement)) == replacement,
        t matches Type::Quantified(q) ==> (arg_for(*args, q.id) matches Some(value) ==> subst_type(
            t,
            Subst::Args(args),
        ) == value),
        t matches Type::Quantified(q) ==> (arg_for(*args, q.id) is None ==> subst_type(
            t,
            Subst::Args(args),
        ) == t),
        t is Quantified ==> subst_type(t, Subst::SelfType(replacement)) == t,
{
}

} // verus!
