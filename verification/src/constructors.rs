use vstd::prelude::*;

use crate::ast::{AssignTarget, ClassDef, ResolvedClass, SourceExpr, Stmt};
use crate::extract::{
    class_body_stub, function_stub, overloaded_names, stmt_stub, stmts_stub, targets_stub,
    type_checking_guard, writes_init, ScopeView,
};
use crate::stub::FunctionView;

verus! {

/// Whether a function of a stub is written out in a statement.
pub open spec fn stmt_writes(stmt: Stmt, f: FunctionView, scope: ScopeView, in_class: bool) -> bool
    decreases stmt, 0int,
{
    match stmt {
        Stmt::FunctionDef(def) => f == function_stub(def, scope.config, in_class),
        Stmt::If(i) => stmts_write(i.body@, f, scope, in_class),
        _ => false,
    }
}

/// Whether a function of a stub is written out in one of the statements.
pub open spec fn stmts_write(
    stmts: Seq<Stmt>,
    f: FunctionView,
    scope: ScopeView,
    in_class: bool,
) -> bool
    decreases stmts, 0int,
{
    stmts.len() > 0 && (stmts_write(stmts.drop_last(), f, scope, in_class) || stmt_writes(
        stmts.last(),
        f,
        scope,
        in_class,
    ))
}

proof fn lemma_targets_are_variables(
    ts: Seq<AssignTarget>,
    value: SourceExpr,
    scope: ScopeView,
    in_class: bool,
)
    ensures
        forall|i: int|
            0 <= i < targets_stub(ts, value, scope, in_class).len() ==> (
            #[trigger] targets_stub(ts, value, scope, in_class)[i]) is Variable,
    decreases ts.len(),
{
    if ts.len() > 0 {
        lemma_targets_are_variables(ts.drop_last(), value, scope, in_class);
    }
}

proof fn lemma_stmt_writes(
    stmt: Stmt,
    overloaded: Seq<Seq<char>>,
    scope: ScopeView,
    in_class: bool,
    cls: Option<ResolvedClass>,
    k: int,
)
    requires
        0 <= k < stmt_stub(stmt, overloaded, scope, in_class, cls).len(),
        stmt_stub(stmt, overloaded, scope, in_class, cls)[k] is Function,
    ensures
        stmt_writes(
            stmt,
            stmt_stub(stmt, overloaded, scope, in_class, cls)[k]->Function_0,
            scope,
            in_class,
        ),
    decreases stmt, 0int,
{
    match stmt {
        Stmt::Assign(a) => {
            lemma_targets_are_variables(a.targets@, a.value, scope, in_class);
        },
        Stmt::If(i) => {
            if type_checking_guard(i.test) {
                assert(decreases_to!(stmt => i.body));
                assert(decreases_to!(i.body => i.body@));
                law_functions_are_written_out(i.body@, i.body@, scope, in_class, cls, k);
            }
        },
        _ => {},
    }
}

/// Every function that statements bring into a stub is written out in one of them, be it behind a
/// guard for type checkers.
pub proof fn law_functions_are_written_out(
    stmts: Seq<Stmt>,
    block: Seq<Stmt>,
    scope: ScopeView,
    in_class: bool,
    cls: Option<ResolvedClass>,
    k: int,
)
    requires
        0 <= k < stmts_stub(stmts, block, scope, in_class, cls).len(),
        stmts_stub(stmts, block, scope, in_class, cls)[k] is Function,
    ensures
        stmts_write(
            stmts,
            stmts_stub(stmts, block, scope, in_class, cls)[k]->Function_0,
            scope,
            in_class,
        ),
    decreases stmts, 0int,
{
    let first = stmts_stub(stmts.drop_last(), block, scope, in_class, cls);
    if k < first.len() {
        law_functions_are_written_out(stmts.drop_last(), block, scope, in_class, cls, k);
    } else {
        lemma_stmt_writes(
            stmts.last(),
            overloaded_names(block),
            scope,
            in_class,
            cls,
            k - first.len(),
        );
    }
}

/// A constructor that is written out stays the only one: whatever is known of the class, all
/// functions of its stub are then written out in its body.
pub proof fn law_written_constructors_stay_alone(def: ClassDef, scope: ScopeView, k: int)
    requires
        writes_init(def.body@),
        0 <= k < class_body_stub(def, scope).len(),
        class_body_stub(def, scope)[k] is Function,
    ensures
        stmts_write(def.body@, class_body_stub(def, scope)[k]->Function_0, scope, true),
{
    law_functions_are_written_out(def.body@, def.body@, scope, true, def.resolved, k);
}

} // verus!
