use vstd::prelude::*;

use crate::ast::{
    AssignTarget, ClassDef, FunctionDef, InitParam, ResolvedFunction, ResolvedParam, SourceParam,
    SourceParams, Stmt,
};
use crate::extract::{
    class_body_stub, class_body_uses, first_function, init_items, init_uses,
    is_overload, return_text, return_uses, stmt_stub, stmt_uses, stmts_stub, stmts_uses, target_uses,
    targets_uses, writes_init, ScopeView,
};
use crate::extract_init::{init_param_uses, init_params_uses};
use crate::extract_types::{
    param_annotation, param_annotation_uses, plain_params_uses, starred_uses, stub_param_uses,
    stub_params_uses, type_text, type_uses, Uses,
};

verus! {

/// Whether a statement defines a function.
pub open spec fn is_function(stmt: Stmt) -> bool {
    stmt is FunctionDef
}

proof fn lemma_first_function(body: Seq<Stmt>, n: int, from: int)
    requires
        0 <= from <= n <= body.len(),
        forall|i: int| from <= i < n ==> !is_function(#[trigger] body[i]),
        n < body.len() ==> is_function(body[n]),
    ensures
        first_function(body, from) == n,
    decreases n - from,
{
    if from < n {
        assert(!is_function(body[from]));
        lemma_first_function(body, n, from + 1);
    }
}

/// A constructor that is added to a class stands behind the statements in front of the first function
/// and before that function.
pub proof fn law_added_constructors_precede_functions(def: ClassDef, scope: ScopeView, n: int)
    requires
        0 <= n <= def.body@.len(),
        forall|i: int| 0 <= i < n ==> !is_function(#[trigger] def.body@[i]),
        n < def.body@.len() ==> is_function(def.body@[n]),
        forall|i: int|
            0 <= i < def.body@.len() ==> !((#[trigger] def.body@[i]) matches Stmt::FunctionDef(f)
                && f.name@ == "__init__"@),
    ensures
        ({
            let before = def.body@.take(n);
            let behind = def.body@.skip(n);
            &&& class_body_stub(def, scope) == stmts_stub(before, before, scope, true, def.resolved)
                + init_items(def.resolved, def.body@) + stmts_stub(
                behind,
                behind,
                scope,
                true,
                def.resolved,
            )
            &&& class_body_uses(def, scope) == stmts_uses(before, before, scope, true).or(
                init_uses(def.resolved),
            ).or(stmts_uses(behind, behind, scope, true))
        }),
{
    lemma_first_function(def.body@, n, 0);
    assert(!writes_init(def.body@));
}

/// Where a class writes its constructor, nothing is added to its statements.
pub proof fn law_written_constructors_suffice(
    def: ClassDef,
    scope: ScopeView,
    i: int,
    f: FunctionDef,
)
    requires
        0 <= i < def.body@.len(),
        def.body@[i] == Stmt::FunctionDef(f),
        f.name@ == "__init__"@,
    ensures
        class_body_stub(def, scope) == stmts_stub(def.body@, def.body@, scope, true, def.resolved),
        class_body_uses(def, scope) == stmts_uses(def.body@, def.body@, scope, true),
{
    assert(crate::extract::defines_function(def.body@[i], Some("__init__"@)));
}

/// What gives no item needs no import, for functions, classes and conditions; what is taken needs
/// what its parts need.
pub proof fn law_left_out_statements_need_nothing(
    stmt: Stmt,
    overloaded: Seq<Seq<char>>,
    scope: ScopeView,
    in_class: bool,
)
    ensures
        ({
            let needs = stmt_uses(stmt, overloaded, scope, in_class);
            &&& stmt is Import || stmt is AnnAssign || stmt is TypeAlias || stmt is Expr
                || stmt is Other ==> needs == Uses::nothing()
            &&& stmt matches Stmt::FunctionDef(f) ==> {
                let hidden = overloaded.contains(f.name@) && !is_overload(f);
                &&& !scope.takes(f.name@, in_class) || hidden ==> needs == Uses::nothing()
                &&& scope.takes(f.name@, in_class) && !hidden ==> needs == stub_params_uses(
                    f.params,
                    f.resolved,
                ).or(return_uses(f))
            }
            &&& stmt matches Stmt::ClassDef(def) ==> needs == if scope.takes(def.name@, in_class) {
                class_body_uses(def, scope)
            } else {
                Uses::nothing()
            }
            &&& stmt is FunctionDef || stmt is ClassDef ==> (stmt_stub(
                stmt,
                overloaded,
                scope,
                in_class,
                None,
            ).len() == 0 ==> needs == Uses::nothing())
        }),
{
}

/// Something is needed where any part needs it.
pub proof fn law_needs_add_up(a: Uses, b: Uses)
    ensures
        a.or(b).incomplete <==> a.incomplete || b.incomplete,
        a.or(b).self_type <==> a.self_type || b.self_type,
        a.or(b).classvar <==> a.classvar || b.classvar,
        a.or(b).callable <==> a.callable || b.callable,
        a.or(b).overload <==> a.overload || b.overload,
        a.or(Uses::nothing()) == a,
        Uses::nothing().or(a) == a,
        !Uses::nothing().incomplete && !Uses::nothing().classvar && !Uses::nothing().callable
            && !Uses::nothing().overload && !Uses::nothing().self_type,
{
}

/// Statements need what each of them needs.
pub proof fn law_statements_need_what_each_needs(
    stmts: Seq<Stmt>,
    stmt: Stmt,
    block: Seq<Stmt>,
    scope: ScopeView,
    in_class: bool,
)
    ensures
        stmts_uses(Seq::empty(), block, scope, in_class) == Uses::nothing(),
        stmts_uses(stmts.push(stmt), block, scope, in_class) == stmts_uses(
            stmts,
            block,
            scope,
            in_class,
        ).or(stmt_uses(stmt, crate::extract::overloaded_names(block), scope, in_class)),
{
    assert(stmts.push(stmt).drop_last() =~= stmts);
    assert(stmts.push(stmt).last() == stmt);
}

/// A return type that was written needs nothing; one that was inferred is written out, and needs
/// what it mentions.
pub proof fn law_inferred_returns_need_their_names(f: FunctionDef)
    ensures
        f.returns matches Some(text) ==> return_text(f) == Some(text@) && return_uses(f)
            == Uses::nothing(),
        return_text(f) is None ==> return_uses(f) == Uses::nothing(),
        f.returns is None ==> (f.resolved matches Some(r) ==> (r.return_type matches Some(ty) ==> (
        return_text(f) == Some(type_text(ty)) && return_uses(f) == type_uses(ty)))),
        f.returns is None && f.resolved is None ==> return_text(f) is None,
{
}

/// A parameter needs what the annotation that is added to it mentions, and nothing where it has one
/// already or gets none.
pub proof fn law_added_annotations_need_their_names(
    p: SourceParam,
    resolved: Option<ResolvedParam>,
)
    ensures
        p.annotation is Some ==> param_annotation_uses(p, resolved) == Uses::nothing(),
        param_annotation(p, resolved) is None ==> param_annotation_uses(p, resolved)
            == Uses::nothing(),
        p.annotation is None && param_annotation(p, resolved) is Some ==> (resolved matches Some(r)
            && param_annotation(p, resolved) == Some(type_text(r.ty)) && param_annotation_uses(
            p,
            resolved,
        ) == type_uses(r.ty)),
{
}

/// All parameters of a function count, whatever their kind.
pub proof fn law_all_parameters_count(
    ps: SourceParams,
    list: Seq<SourceParam>,
    p: SourceParam,
    resolved: Option<ResolvedFunction>,
)
    ensures
        plain_params_uses(Seq::empty(), resolved) == Uses::nothing(),
        plain_params_uses(list.push(p), resolved) == plain_params_uses(list, resolved).or(
            stub_param_uses(p, resolved),
        ),
        starred_uses(Some(p), resolved) == stub_param_uses(p, resolved),
        starred_uses(None, resolved) == Uses::nothing(),
        stub_params_uses(ps, resolved).incomplete <==> plain_params_uses(
            ps.posonlyargs@,
            resolved,
        ).incomplete || plain_params_uses(ps.args@, resolved).incomplete || plain_params_uses(
            ps.kwonlyargs@,
            resolved,
        ).incomplete || starred_uses(ps.vararg, resolved).incomplete || starred_uses(
            ps.kwarg,
            resolved,
        ).incomplete,
        stub_params_uses(ps, resolved).self_type <==> plain_params_uses(
            ps.posonlyargs@,
            resolved,
        ).self_type || plain_params_uses(ps.args@, resolved).self_type || plain_params_uses(
            ps.kwonlyargs@,
            resolved,
        ).self_type || starred_uses(ps.vararg, resolved).self_type || starred_uses(
            ps.kwarg,
            resolved,
        ).self_type,
{
    assert(list.push(p).drop_last() =~= list);
    assert(list.push(p).last() == p);
}

/// A variable needs what its type mentions, and `ClassVar` inside a class. One that is not taken needs
/// nothing.
pub proof fn law_variables_need_their_types(
    ts: Seq<AssignTarget>,
    t: AssignTarget,
    scope: ScopeView,
    in_class: bool,
)
    ensures
        t.name is None || t.definition is None ==> target_uses(t, scope, in_class)
            == Uses::nothing(),
        t.name matches Some(name) ==> (!scope.takes(name@, in_class) || name@ == "__all__"@
            ==> target_uses(t, scope, in_class) == Uses::nothing()),
        t.name matches Some(name) ==> (t.definition matches Some(ty) ==> (scope.takes(
            name@,
            in_class,
        ) && name@ != "__all__"@ ==> target_uses(t, scope, in_class).classvar == in_class
            && target_uses(t, scope, in_class).incomplete == type_uses(ty).incomplete
            && target_uses(t, scope, in_class).callable == type_uses(ty).callable
            && target_uses(t, scope, in_class).self_type == type_uses(ty).self_type)),
        targets_uses(Seq::empty(), scope, in_class) == Uses::nothing(),
        targets_uses(ts.push(t), scope, in_class) == targets_uses(ts, scope, in_class).or(
            target_uses(t, scope, in_class),
        ),
{
    assert(ts.push(t).drop_last() =~= ts);
    assert(ts.push(t).last() == t);
}

/// The parameters of an added constructor count, but for `**kwargs`, which is left out.
pub proof fn law_added_parameters_count(params: Seq<InitParam>, p: InitParam)
    ensures
        init_params_uses(Seq::empty()) == Uses::nothing(),
        p is Kwargs ==> init_params_uses(params.push(p)) == init_params_uses(params),
        !(p is Kwargs) ==> init_params_uses(params.push(p)) == init_params_uses(params).or(
            init_param_uses(p),
        ),
        p matches InitParam::Pos(name, ty, _) ==> (name@ != "self"@ && name@ != "cls"@ && type_uses(
            ty,
        ).incomplete ==> init_param_uses(p).incomplete),
        p matches InitParam::KwOnly(name, ty, _) ==> (name@ != "self"@ && name@ != "cls"@
            && type_uses(ty).incomplete ==> init_param_uses(p).incomplete),
        p matches InitParam::VarArg(name, ty) ==> init_param_uses(p) == if name is Some {
            type_uses(ty)
        } else {
            Uses::nothing()
        },
{
    assert(params.push(p).drop_last() =~= params);
    assert(params.push(p).last() == p);
}

} // verus!
