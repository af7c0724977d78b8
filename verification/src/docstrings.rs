use vstd::prelude::*;

use crate::ast::{
    AssignTarget, ClassDef, ResolvedClass, SourceExpr, Stmt,
};
use crate::extract::{
    class_body_stub, class_body_uses, first_function, init_items, lemma_part_of_body,
    overloaded_names, stmt_stub, stmt_uses, stmts_stub, stmts_uses, target_stub, targets_stub,
    targets_uses, type_checking_guard, writes_init, ScopeView,
};
use crate::prune::{item_content, items_content, pruned_item, pruned_items};
use crate::stub::{ClassStubView, ExtractConfig, FunctionView, ItemView};

verus! {

/// An item without its docstring and those of the items in it.
pub open spec fn bare_item(item: ItemView) -> ItemView
    decreases item,
{
    match item {
        ItemView::Function(f) => ItemView::Function(FunctionView { docstring: None, ..f }),
        ItemView::Class(c) => ItemView::Class(
            ClassStubView { docstring: None, body: bare_items(c.body), ..c },
        ),
        other => other,
    }
}

/// Items without docstrings.
pub open spec fn bare_items(items: Seq<ItemView>) -> Seq<ItemView>
    decreases items,
{
    if items.len() == 0 {
        Seq::empty()
    } else {
        bare_items(items.drop_last()).push(bare_item(items.last()))
    }
}

/// Whether an item has no docstring, and none of the items in it has one.
pub open spec fn undocumented(item: ItemView) -> bool
    decreases item,
{
    match item {
        ItemView::Function(f) => f.docstring is None,
        ItemView::Class(c) => c.docstring is None && all_undocumented(c.body),
        _ => true,
    }
}

/// Whether no item has a docstring, at any depth.
pub open spec fn all_undocumented(items: Seq<ItemView>) -> bool
    decreases items,
{
    items.len() > 0 ==> all_undocumented(items.drop_last()) && undocumented(items.last())
}

/// The scope with docstrings switched on or off.
pub open spec fn with_docstrings(scope: ScopeView, on: bool) -> ScopeView {
    ScopeView { config: config_with(scope.config, on), dunder_all: scope.dunder_all }
}

pub open spec fn config_with(config: ExtractConfig, on: bool) -> ExtractConfig {
    ExtractConfig { include_private: config.include_private, include_docstrings: on }
}

proof fn lemma_bare_concat(a: Seq<ItemView>, b: Seq<ItemView>)
    ensures
        bare_items(a + b) == bare_items(a) + bare_items(b),
    decreases b.len(),
{
    if b.len() == 0 {
        assert(a + b =~= a);
        assert(bare_items(a) + bare_items(b) =~= bare_items(a));
    } else {
        lemma_bare_concat(a, b.drop_last());
        assert((a + b).drop_last() =~= a + b.drop_last());
        assert(bare_items(a + b) =~= bare_items(a) + bare_items(b));
    }
}

proof fn lemma_bare_single(item: ItemView)
    ensures
        bare_items(seq![item]) == seq![bare_item(item)],
{
    reveal_with_fuel(bare_items, 2);
    assert(seq![item].drop_last() =~= Seq::empty());
    assert(bare_items(seq![item]) =~= seq![bare_item(item)]);
}

proof fn lemma_bare_is_undocumented(item: ItemView)
    ensures
        undocumented(bare_item(item)),
    decreases item, 0int,
{
    if let ItemView::Class(c) = item {
        lemma_bare_are_undocumented(c.body);
    }
}

pub proof fn lemma_bare_are_undocumented(items: Seq<ItemView>)
    ensures
        all_undocumented(bare_items(items)),
    decreases items, 0int,
{
    if items.len() > 0 {
        lemma_bare_are_undocumented(items.drop_last());
        lemma_bare_is_undocumented(items.last());
        assert(bare_items(items).drop_last() =~= bare_items(items.drop_last()));
    }
}

proof fn lemma_targets_bare(
    ts: Seq<AssignTarget>,
    value: SourceExpr,
    scope: ScopeView,
    on: bool,
    in_class: bool,
)
    ensures
        targets_stub(ts, value, with_docstrings(scope, on), in_class) == targets_stub(
            ts,
            value,
            scope,
            in_class,
        ),
        bare_items(targets_stub(ts, value, scope, in_class)) == targets_stub(
            ts,
            value,
            scope,
            in_class,
        ),
        targets_uses(ts, with_docstrings(scope, on), in_class) == targets_uses(ts, scope, in_class),
    decreases ts.len(),
{
    if ts.len() > 0 {
        lemma_targets_bare(ts.drop_last(), value, scope, on, in_class);
        let before = targets_stub(ts.drop_last(), value, scope, in_class);
        if let Some(v) = target_stub(ts.last(), value, scope, in_class) {
            let all = before.push(ItemView::Variable(v));
            assert(all.drop_last() =~= before);
            assert(bare_item(all.last()) == ItemView::Variable(v));
            assert(bare_items(all) == bare_items(before).push(ItemView::Variable(v)));
            assert(targets_stub(ts, value, scope, in_class) == all);
        }
    }
}

proof fn lemma_class_bare(def: ClassDef, scope: ScopeView, on: bool)
    ensures
        bare_items(class_body_stub(def, with_docstrings(scope, on))) == class_body_stub(
            def,
            with_docstrings(scope, false),
        ),
        class_body_uses(def, with_docstrings(scope, on)) == class_body_uses(
            def,
            with_docstrings(scope, false),
        ),
    decreases def, 0int,
{
    let body = def.body@;
    let n = first_function(body, 0);
    let kept = with_docstrings(scope, on);
    lemma_part_of_body(def, n);
    if writes_init(body) {
        lemma_stmts_bare(body, body, scope, on, true, def.resolved);
    } else {
        let leading = if 0 <= n <= body.len() {
            body.take(n)
        } else {
            body
        };
        let tail = if 0 <= n <= body.len() {
            body.skip(n)
        } else {
            Seq::empty()
        };
        lemma_stmts_bare(leading, leading, scope, on, true, def.resolved);
        lemma_stmts_bare(tail, tail, scope, on, true, def.resolved);
        let a = stmts_stub(leading, leading, kept, true, def.resolved);
        let init = init_items(def.resolved, body);
        let b = stmts_stub(tail, tail, kept, true, def.resolved);
        if init.len() > 0 {
            lemma_bare_single(init[0]);
            assert(init =~= seq![init[0]]);
        }
        assert(bare_items(init) =~= init);
        lemma_bare_concat(a, init);
        lemma_bare_concat(a + init, b);
    }
}

proof fn lemma_stmt_bare(
    stmt: Stmt,
    overloaded: Seq<Seq<char>>,
    scope: ScopeView,
    on: bool,
    in_class: bool,
    cls: Option<ResolvedClass>,
)
    ensures
        bare_items(stmt_stub(stmt, overloaded, with_docstrings(scope, on), in_class, cls))
            == stmt_stub(stmt, overloaded, with_docstrings(scope, false), in_class, cls),
        stmt_uses(stmt, overloaded, with_docstrings(scope, on), in_class) == stmt_uses(
            stmt,
            overloaded,
            with_docstrings(scope, false),
            in_class,
        ),
    decreases stmt, 0int,
{
    let items = stmt_stub(stmt, overloaded, with_docstrings(scope, on), in_class, cls);
    let without = stmt_stub(stmt, overloaded, with_docstrings(scope, false), in_class, cls);
    match stmt {
        Stmt::ClassDef(def) => {
            lemma_class_bare(def, scope, on);
        },
        Stmt::Assign(a) => {
            lemma_targets_bare(a.targets@, a.value, scope, on, in_class);
            lemma_targets_bare(a.targets@, a.value, scope, false, in_class);
        },
        Stmt::If(i) => {
            if type_checking_guard(i.test) {
                assert(decreases_to!(stmt => i.body));
                assert(decreases_to!(i.body => i.body@));
                lemma_stmts_bare(i.body@, i.body@, scope, on, in_class, cls);
            }
        },
        _ => {},
    }
    if items.len() == 1 && without == seq![bare_item(items[0])] {
        lemma_bare_single(items[0]);
        assert(items =~= seq![items[0]]);
    }
    assert(bare_items(items) =~= without);
}

pub proof fn lemma_stmts_bare(
    stmts: Seq<Stmt>,
    block: Seq<Stmt>,
    scope: ScopeView,
    on: bool,
    in_class: bool,
    cls: Option<ResolvedClass>,
)
    ensures
        bare_items(stmts_stub(stmts, block, with_docstrings(scope, on), in_class, cls))
            == stmts_stub(stmts, block, with_docstrings(scope, false), in_class, cls),
        stmts_uses(stmts, block, with_docstrings(scope, on), in_class) == stmts_uses(
            stmts,
            block,
            with_docstrings(scope, false),
            in_class,
        ),
    decreases stmts, 0int,
{
    if stmts.len() > 0 {
        let kept = with_docstrings(scope, on);
        lemma_stmts_bare(stmts.drop_last(), block, scope, on, in_class, cls);
        lemma_stmt_bare(stmts.last(), overloaded_names(block), scope, on, in_class, cls);
        lemma_bare_concat(
            stmts_stub(stmts.drop_last(), block, kept, in_class, cls),
            stmt_stub(stmts.last(), overloaded_names(block), kept, in_class, cls),
        );
    }
}

proof fn lemma_item_content_bare(item: ItemView)
    ensures
        item_content(bare_item(item)) == item_content(item),
    decreases item, 0int,
{
    if let ItemView::Class(c) = item {
        lemma_content_bare(c.body);
    }
}

pub proof fn lemma_content_bare(items: Seq<ItemView>)
    ensures
        items_content(bare_items(items)) == items_content(items),
    decreases items, 0int,
{
    if items.len() > 0 {
        lemma_content_bare(items.drop_last());
        lemma_item_content_bare(items.last());
        assert(bare_items(items).drop_last() =~= bare_items(items.drop_last()));
    }
}

proof fn lemma_pruned_item_bare(item: ItemView, body: Seq<char>)
    ensures
        match pruned_item(item, body) {
            Some(kept) => pruned_item(bare_item(item), body) == Some(bare_item(kept)),
            None => pruned_item(bare_item(item), body) is None,
        },
    decreases item, 0int,
{
    if let ItemView::Class(c) = item {
        lemma_content_bare(c.body);
        lemma_pruned_bare(c.body, items_content(c.body));
    }
}

pub proof fn lemma_pruned_bare(items: Seq<ItemView>, body: Seq<char>)
    ensures
        bare_items(pruned_items(items, body)) == pruned_items(bare_items(items), body),
    decreases items, 0int,
{
    if items.len() > 0 {
        lemma_pruned_bare(items.drop_last(), body);
        lemma_pruned_item_bare(items.last(), body);
        assert(bare_items(items).drop_last() =~= bare_items(items.drop_last()));
        let before = pruned_items(items.drop_last(), body);
        if let Some(item) = pruned_item(items.last(), body) {
            assert(before.push(item).drop_last() =~= before);
        }
    }
}

/// Whether a body begins with a string.
pub open spec fn begins_with_string(body: Seq<Stmt>) -> bool {
    body.len() > 0 && (body[0] matches Stmt::Expr(e) && e.kind is StringLiteral)
}

/// Whether an item comes from a definition in a statement, with the name of the definition, and has
/// a docstring exactly where its body begins with a string. The items of a class come from its
/// body in turn.
pub open spec fn comes_from(item: ItemView, stmt: Stmt) -> bool
    decreases stmt, 0nat,
{
    match stmt {
        Stmt::FunctionDef(def) => item matches ItemView::Function(f) && f.name == def.name@ && (
        f.docstring is Some <==> begins_with_string(def.body@)),
        Stmt::ClassDef(def) => item matches ItemView::Class(c) && c.name == def.name@ && (
        c.docstring is Some <==> begins_with_string(def.body@)) && all_come_from(
            c.body,
            def.body@,
            true,
        ),
        Stmt::If(i) => comes_from_some(item, i.body@),
        _ => false,
    }
}

/// Whether an item comes from one of the statements.
pub open spec fn comes_from_some(item: ItemView, stmts: Seq<Stmt>) -> bool
    decreases stmts, 0nat,
{
    stmts.len() > 0 && (comes_from_some(item, stmts.drop_last()) || comes_from(item, stmts.last()))
}

/// Whether an item is a constructor that is added to a class. It has no body, and no docstring.
pub open spec fn is_added(item: ItemView) -> bool {
    item matches ItemView::Function(f) && f.name == "__init__"@ && f.docstring is None
}

/// Whether each function and each class among the items comes from one of the statements, but for a
/// constructor that is added.
pub open spec fn all_come_from(items: Seq<ItemView>, stmts: Seq<Stmt>, in_class: bool) -> bool
    decreases stmts, 1 + items.len(),
{
    items.len() > 0 ==> all_come_from(items.drop_last(), stmts, in_class) && (
    items.last() is Function || items.last() is Class ==> comes_from_some(items.last(), stmts) || (
    in_class && is_added(items.last())))
}

proof fn lemma_from_part(item: ItemView, stmts: Seq<Stmt>, from: int, to: int)
    requires
        0 <= from <= to <= stmts.len(),
        comes_from_some(item, stmts.subrange(from, to)),
    ensures
        comes_from_some(item, stmts),
    decreases stmts.len(), to,
{
    let part = stmts.subrange(from, to);
    if to < stmts.len() {
        assert(part =~= stmts.drop_last().subrange(from, to));
        lemma_from_part(item, stmts.drop_last(), from, to);
    } else {
        assert(part.last() == stmts.last());
        if !comes_from(item, stmts.last()) {
            assert(part.drop_last() =~= stmts.drop_last().subrange(from, to - 1));
            lemma_from_part(item, stmts.drop_last(), from, to - 1);
        }
    }
}

proof fn lemma_all_from_part(items: Seq<ItemView>, stmts: Seq<Stmt>, from: int, to: int, in_class: bool)
    requires
        0 <= from <= to <= stmts.len(),
        all_come_from(items, stmts.subrange(from, to), in_class),
    ensures
        all_come_from(items, stmts, in_class),
    decreases items.len(),
{
    if items.len() > 0 {
        lemma_all_from_part(items.drop_last(), stmts, from, to, in_class);
        if comes_from_some(items.last(), stmts.subrange(from, to)) {
            lemma_from_part(items.last(), stmts, from, to);
        }
    }
}

proof fn lemma_all_from_concat(
    a: Seq<ItemView>,
    b: Seq<ItemView>,
    stmts: Seq<Stmt>,
    in_class: bool,
)
    requires
        all_come_from(a, stmts, in_class),
        all_come_from(b, stmts, in_class),
    ensures
        all_come_from(a + b, stmts, in_class),
    decreases b.len(),
{
    if b.len() == 0 {
        assert(a + b =~= a);
    } else {
        lemma_all_from_concat(a, b.drop_last(), stmts, in_class);
        assert((a + b).drop_last() =~= a + b.drop_last());
        assert((a + b).last() == b.last());
    }
}

/// Items of which none is a function or a class come from anywhere.
proof fn lemma_targets_from(
    ts: Seq<AssignTarget>,
    value: SourceExpr,
    scope: ScopeView,
    in_class: bool,
    stmts: Seq<Stmt>,
)
    ensures
        all_come_from(targets_stub(ts, value, scope, in_class), stmts, in_class),
    decreases ts.len(),
{
    if ts.len() > 0 {
        lemma_targets_from(ts.drop_last(), value, scope, in_class, stmts);
        let before = targets_stub(ts.drop_last(), value, scope, in_class);
        if let Some(v) = target_stub(ts.last(), value, scope, in_class) {
            assert(before.push(ItemView::Variable(v)).drop_last() =~= before);
        }
    }
}

proof fn lemma_single_from(item: ItemView, stmts: Seq<Stmt>, in_class: bool)
    requires
        item is Function || item is Class ==> comes_from_some(item, stmts) || (in_class && is_added(
            item,
        )),
    ensures
        all_come_from(seq![item], stmts, in_class),
{
    let items = seq![item];
    assert(items.drop_last() =~= Seq::empty());
    assert(items.last() == item);
    assert(all_come_from(items.drop_last(), stmts, in_class));
}

proof fn lemma_class_from(def: ClassDef, scope: ScopeView)
    requires
        scope.config.include_docstrings,
    ensures
        all_come_from(class_body_stub(def, scope), def.body@, true),
    decreases def, 0int,
{
    let body = def.body@;
    let n = first_function(body, 0);
    lemma_part_of_body(def, n);
    if writes_init(body) {
        lemma_stmts_from(body, body, scope, true, def.resolved);
    } else {
        let leading = if 0 <= n <= body.len() {
            body.take(n)
        } else {
            body
        };
        let tail = if 0 <= n <= body.len() {
            body.skip(n)
        } else {
            Seq::empty()
        };
        lemma_stmts_from(leading, leading, scope, true, def.resolved);
        lemma_stmts_from(tail, tail, scope, true, def.resolved);
        let a = stmts_stub(leading, leading, scope, true, def.resolved);
        let init = init_items(def.resolved, body);
        let b = stmts_stub(tail, tail, scope, true, def.resolved);
        if 0 <= n <= body.len() {
            assert(leading =~= body.subrange(0, n));
            assert(tail =~= body.subrange(n, body.len() as int));
            lemma_all_from_part(a, body, 0, n, true);
            lemma_all_from_part(b, body, n, body.len() as int, true);
        } else {
            assert(tail =~= body.subrange(0, 0));
            lemma_all_from_part(b, body, 0, 0, true);
        }
        if init.len() > 0 {
            lemma_single_from(init[0], body, true);
            assert(init =~= seq![init[0]]);
        }
        lemma_all_from_concat(a, init, body, true);
        lemma_all_from_concat(a + init, b, body, true);
    }
}

proof fn lemma_stmt_from(
    stmt: Stmt,
    overloaded: Seq<Seq<char>>,
    scope: ScopeView,
    in_class: bool,
    cls: Option<ResolvedClass>,
)
    requires
        scope.config.include_docstrings,
    ensures
        all_come_from(stmt_stub(stmt, overloaded, scope, in_class, cls), seq![stmt], in_class),
    decreases stmt, 0int,
{
    let items = stmt_stub(stmt, overloaded, scope, in_class, cls);
    let alone = seq![stmt];
    assert(alone.last() == stmt);
    match stmt {
        Stmt::ClassDef(def) => {
            lemma_class_from(def, scope);
        },
        Stmt::Assign(a) => {
            lemma_targets_from(a.targets@, a.value, scope, in_class, alone);
        },
        Stmt::If(i) => {
            if type_checking_guard(i.test) {
                assert(decreases_to!(stmt => i.body));
                assert(decreases_to!(i.body => i.body@));
                lemma_stmts_from(i.body@, i.body@, scope, in_class, cls);
                lemma_from_guarded(items, stmt, i.body@, in_class);
            }
        },
        _ => {},
    }
    if items.len() == 1 && !(stmt is If) && !(stmt is Assign) {
        if items[0] is Function || items[0] is Class {
            assert(comes_from(items[0], stmt));
            assert(comes_from_some(items[0], alone));
        }
        lemma_single_from(items[0], alone, in_class);
        assert(items =~= seq![items[0]]);
    } else if items.len() == 1 && !(items[0] is Function) && !(items[0] is Class) {
        lemma_single_from(items[0], alone, in_class);
        assert(items =~= seq![items[0]]);
    }
}

/// What comes from the statements behind a guard comes from the guard.
proof fn lemma_from_guarded(items: Seq<ItemView>, stmt: Stmt, body: Seq<Stmt>, in_class: bool)
    requires
        stmt matches Stmt::If(i) && i.body@ == body,
        all_come_from(items, body, in_class),
    ensures
        all_come_from(items, seq![stmt], in_class),
    decreases items.len(),
{
    let alone = seq![stmt];
    assert(alone.last() == stmt);
    if items.len() > 0 {
        lemma_from_guarded(items.drop_last(), stmt, body, in_class);
        if comes_from_some(items.last(), body) {
            assert(comes_from(items.last(), stmt));
            assert(comes_from_some(items.last(), alone));
        }
    }
}

/// What statements contribute to a stub comes from them, where docstrings are asked for.
pub proof fn lemma_stmts_from(
    stmts: Seq<Stmt>,
    block: Seq<Stmt>,
    scope: ScopeView,
    in_class: bool,
    cls: Option<ResolvedClass>,
)
    requires
        scope.config.include_docstrings,
    ensures
        all_come_from(stmts_stub(stmts, block, scope, in_class, cls), stmts, in_class),
    decreases stmts, 0int,
{
    if stmts.len() > 0 {
        let n = stmts.len() as int;
        let a = stmts_stub(stmts.drop_last(), block, scope, in_class, cls);
        let b = stmt_stub(stmts.last(), overloaded_names(block), scope, in_class, cls);
        lemma_stmts_from(stmts.drop_last(), block, scope, in_class, cls);
        lemma_stmt_from(stmts.last(), overloaded_names(block), scope, in_class, cls);
        assert(stmts.drop_last() =~= stmts.subrange(0, n - 1));
        assert(seq![stmts.last()] =~= stmts.subrange(n - 1, n));
        lemma_all_from_part(a, stmts, 0, n - 1, in_class);
        lemma_all_from_part(b, stmts, n - 1, n, in_class);
        lemma_all_from_concat(a, b, stmts, in_class);
    }
}

proof fn lemma_pruned_comes_from(item: ItemView, stmt: Stmt, body: Seq<char>)
    requires
        comes_from(item, stmt),
    ensures
        pruned_item(item, body) matches Some(kept) && comes_from(kept, stmt),
    decreases stmt, 0int,
{
    match stmt {
        Stmt::ClassDef(def) => {
            if let ItemView::Class(c) = item {
                assert(decreases_to!(def => def.body));
                assert(decreases_to!(def.body => def.body@));
                lemma_pruned_all_from(c.body, def.body@, true, items_content(c.body));
            }
        },
        Stmt::If(i) => {
            assert(decreases_to!(stmt => i.body));
            assert(decreases_to!(i.body => i.body@));
            lemma_pruned_from_some(item, i.body@, body);
        },
        _ => {},
    }
}

proof fn lemma_pruned_from_some(item: ItemView, stmts: Seq<Stmt>, body: Seq<char>)
    requires
        comes_from_some(item, stmts),
    ensures
        pruned_item(item, body) matches Some(kept) && comes_from_some(kept, stmts),
    decreases stmts, 0int,
{
    if comes_from_some(item, stmts.drop_last()) {
        lemma_pruned_from_some(item, stmts.drop_last(), body);
    } else {
        lemma_pruned_comes_from(item, stmts.last(), body);
    }
}

/// Pruning imports does not change where items come from.
pub proof fn lemma_pruned_all_from(
    items: Seq<ItemView>,
    stmts: Seq<Stmt>,
    in_class: bool,
    body: Seq<char>,
)
    requires
        all_come_from(items, stmts, in_class),
    ensures
        all_come_from(pruned_items(items, body), stmts, in_class),
    decreases stmts, 1 + items.len(),
{
    if items.len() > 0 {
        lemma_pruned_all_from(items.drop_last(), stmts, in_class, body);
        let last = items.last();
        let before = pruned_items(items.drop_last(), body);
        if comes_from_some(last, stmts) {
            lemma_pruned_from_some(last, stmts, body);
        }
        if let Some(item) = pruned_item(last, body) {
            assert(before.push(item).drop_last() =~= before);
            assert(before.push(item).last() == item);
        }
    }
}

} // verus!
