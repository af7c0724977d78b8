use vstd::prelude::*;

use crate::ast::{AssignTarget, ClassDef, ModuleSource, ResolvedClass, SourceExpr, Stmt};
use crate::docstrings::{
    all_come_from, all_undocumented, bare_items, config_with, lemma_bare_are_undocumented,
    lemma_content_bare, lemma_pruned_all_from, lemma_pruned_bare, lemma_stmts_bare,
    lemma_stmts_from, with_docstrings,
};
use crate::extract::{
    class_body_stub, extract_items, first_function, init_items, lemma_part_of_body, module_scope,
    scope_of, stmt_stub, stmts_stub, stmts_uses, target_stub, targets_stub, overloaded_names,
    type_checking_guard, writes_init, ScopeView,
};
use crate::prune::{
    item_prunable, items_content, items_prunable, line_can_be_cut, prune_stub_imports,
    pruned_items,
};
use crate::stub::{item_view, item_views, ExtractConfig, ItemView, ModuleStub, StubItem};

verus! {

/// Whether an import can be written anew: what stands in front of it are whole characters.
pub open spec fn import_prunable(text: Seq<char>) -> bool {
    line_can_be_cut(text) && 4 * text.len() <= u64::MAX
}

/// Whether the imports in an item can be written anew.
pub open spec fn view_prunable(item: ItemView) -> bool
    decreases item,
{
    match item {
        ItemView::Import(text) => import_prunable(text),
        ItemView::Class(c) => views_prunable(c.body),
        _ => true,
    }
}

/// Whether the imports in items can be written anew.
pub open spec fn views_prunable(items: Seq<ItemView>) -> bool
    decreases items,
{
    items.len() > 0 ==> views_prunable(items.drop_last()) && view_prunable(items.last())
}

proof fn lemma_item_prunable(item: StubItem)
    ensures
        view_prunable(item_view(item)) ==> item_prunable(item),
    decreases item, 0int,
{
    if let StubItem::Class(c) = item {
        assert(decreases_to!(c.body => c.body@));
        lemma_items_prunable(c.body@);
    }
}

proof fn lemma_items_prunable(items: Seq<StubItem>)
    ensures
        views_prunable(item_views(items)) ==> items_prunable(items),
    decreases items, 0int,
{
    if items.len() > 0 {
        lemma_items_prunable(items.drop_last());
        lemma_item_prunable(items.last());
        assert(item_views(items).drop_last() =~= item_views(items.drop_last()));
    }
}

proof fn lemma_concat_prunable(a: Seq<ItemView>, b: Seq<ItemView>)
    requires
        views_prunable(a),
        views_prunable(b),
    ensures
        views_prunable(a + b),
    decreases b.len(),
{
    if b.len() == 0 {
        assert(a + b =~= a);
    } else {
        lemma_concat_prunable(a, b.drop_last());
        assert((a + b).drop_last() =~= a + b.drop_last());
    }
}

proof fn lemma_single_prunable(item: ItemView)
    requires
        view_prunable(item),
    ensures
        views_prunable(seq![item]),
{
    reveal_with_fuel(views_prunable, 2);
    assert(seq![item].drop_last() =~= Seq::empty());
}

/// Whether the imports in a statement can be written anew.
pub open spec fn stmt_prunable(stmt: Stmt) -> bool
    decreases stmt,
{
    match stmt {
        Stmt::Import(text) => import_prunable(text@),
        Stmt::ClassDef(def) => stmts_prunable(def.body@),
        Stmt::If(i) => stmts_prunable(i.body@),
        _ => true,
    }
}

/// Whether the imports in statements can be written anew.
pub open spec fn stmts_prunable(stmts: Seq<Stmt>) -> bool
    decreases stmts,
{
    stmts.len() > 0 ==> stmts_prunable(stmts.drop_last()) && stmt_prunable(stmts.last())
}

proof fn lemma_part_prunable(stmts: Seq<Stmt>, from: int, to: int)
    requires
        stmts_prunable(stmts),
        0 <= from <= to <= stmts.len(),
    ensures
        stmts_prunable(stmts.subrange(from, to)),
    decreases stmts.len(), to,
{
    let part = stmts.subrange(from, to);
    if from < to {
        if to < stmts.len() {
            assert(part =~= stmts.drop_last().subrange(from, to));
            lemma_part_prunable(stmts.drop_last(), from, to);
        } else {
            assert(part.drop_last() =~= stmts.drop_last().subrange(from, to - 1));
            assert(part.last() == stmts.last());
            lemma_part_prunable(stmts.drop_last(), from, to - 1);
        }
    }
}

proof fn lemma_targets_prunable(
    ts: Seq<AssignTarget>,
    value: SourceExpr,
    scope: ScopeView,
    in_class: bool,
)
    ensures
        views_prunable(targets_stub(ts, value, scope, in_class)),
    decreases ts.len(),
{
    if ts.len() > 0 {
        lemma_targets_prunable(ts.drop_last(), value, scope, in_class);
        let before = targets_stub(ts.drop_last(), value, scope, in_class);
        if let Some(v) = target_stub(ts.last(), value, scope, in_class) {
            assert(before.push(ItemView::Variable(v)).drop_last() =~= before);
            assert(view_prunable(ItemView::Variable(v)));
            assert(before.push(ItemView::Variable(v)).last() == ItemView::Variable(v));
        }
    }
}

proof fn lemma_init_prunable(cls: Option<ResolvedClass>, body: Seq<Stmt>)
    ensures
        views_prunable(init_items(cls, body)),
{
    if init_items(cls, body).len() > 0 {
        lemma_single_prunable(init_items(cls, body)[0]);
        assert(init_items(cls, body) =~= seq![init_items(cls, body)[0]]);
    }
}

proof fn lemma_class_body_prunable(def: ClassDef, scope: ScopeView)
    requires
        stmts_prunable(def.body@),
    ensures
        views_prunable(class_body_stub(def, scope)),
    decreases def, 0int,
{
    let body = def.body@;
    let n = first_function(body, 0);
    lemma_part_of_body(def, n);
    if writes_init(body) {
        lemma_stmts_prunable(body, body, scope, true, def.resolved);
    } else {
        let leading = if 0 <= n <= body.len() {
            body.take(n)
        } else {
            body
        };
        let tail = if 0 <= n <= body.len() {
            body.skip(n)
        } else {
            Seq::empty()
        };
        if 0 <= n <= body.len() {
            lemma_part_prunable(body, 0, n);
            lemma_part_prunable(body, n, body.len() as int);
        }
        lemma_stmts_prunable(leading, leading, scope, true, def.resolved);
        lemma_stmts_prunable(tail, tail, scope, true, def.resolved);
        lemma_init_prunable(def.resolved, body);
        let a = stmts_stub(leading, leading, scope, true, def.resolved);
        lemma_concat_prunable(a, init_items(def.resolved, body));
        lemma_concat_prunable(
            a + init_items(def.resolved, body),
            stmts_stub(tail, tail, scope, true, def.resolved),
        );
    }
}

proof fn lemma_stmt_prunable(
    stmt: Stmt,
    overloaded: Seq<Seq<char>>,
    scope: ScopeView,
    in_class: bool,
    cls: Option<ResolvedClass>,
)
    requires
        stmt_prunable(stmt),
    ensures
        views_prunable(stmt_stub(stmt, overloaded, scope, in_class, cls)),
    decreases stmt, 0int,
{
    let items = stmt_stub(stmt, overloaded, scope, in_class, cls);
    match stmt {
        Stmt::ClassDef(def) => {
            lemma_class_body_prunable(def, scope);
        },
        Stmt::Assign(a) => {
            lemma_targets_prunable(a.targets@, a.value, scope, in_class);
        },
        Stmt::If(i) => {
            if type_checking_guard(i.test) {
                assert(decreases_to!(stmt => i.body));
                assert(decreases_to!(i.body => i.body@));
                lemma_stmts_prunable(i.body@, i.body@, scope, in_class, cls);
            }
        },
        _ => {},
    }
    if items.len() == 1 && view_prunable(items[0]) {
        lemma_single_prunable(items[0]);
        assert(items =~= seq![items[0]]);
    }
}

proof fn lemma_stmts_prunable(
    stmts: Seq<Stmt>,
    block: Seq<Stmt>,
    scope: ScopeView,
    in_class: bool,
    cls: Option<ResolvedClass>,
)
    requires
        stmts_prunable(stmts),
    ensures
        views_prunable(stmts_stub(stmts, block, scope, in_class, cls)),
    decreases stmts, 0int,
{
    if stmts.len() > 0 {
        lemma_stmts_prunable(stmts.drop_last(), block, scope, in_class, cls);
        lemma_stmt_prunable(stmts.last(), overloaded_names(block), scope, in_class, cls);
        lemma_concat_prunable(
            stmts_stub(stmts.drop_last(), block, scope, in_class, cls),
            stmt_stub(stmts.last(), overloaded_names(block), scope, in_class, cls),
        );
    }
}

/// Whether an item has a name that is taken, where it has a name.
pub open spec fn named_and_taken(item: ItemView, scope: ScopeView, in_class: bool) -> bool {
    match item {
        ItemView::Function(f) => scope.takes(f.name, in_class),
        ItemView::Class(c) => scope.takes(c.name, in_class),
        ItemView::Variable(v) => scope.takes(v.name, in_class),
        ItemView::Import(_) => true,
        ItemView::TypeAlias(_) => true,
    }
}

/// Whether all items have names that are taken, where they have names.
pub open spec fn all_taken(items: Seq<ItemView>, scope: ScopeView, in_class: bool) -> bool {
    forall|i: int| 0 <= i < items.len() ==> named_and_taken(#[trigger] items[i], scope, in_class)
}

proof fn lemma_targets_are_taken(
    ts: Seq<AssignTarget>,
    value: SourceExpr,
    scope: ScopeView,
    in_class: bool,
)
    ensures
        all_taken(targets_stub(ts, value, scope, in_class), scope, in_class),
    decreases ts.len(),
{
    if ts.len() > 0 {
        lemma_targets_are_taken(ts.drop_last(), value, scope, in_class);
        let before = targets_stub(ts.drop_last(), value, scope, in_class);
        if let Some(v) = target_stub(ts.last(), value, scope, in_class) {
            let items = before.push(ItemView::Variable(v));
            assert(named_and_taken(ItemView::Variable(v), scope, in_class));
            assert forall|i: int| 0 <= i < items.len() implies named_and_taken(
                #[trigger] items[i],
                scope,
                in_class,
            ) by {
                if i < before.len() {
                    assert(items[i] == before[i]);
                }
            }
        }
    }
}

proof fn lemma_stmt_is_taken(
    stmt: Stmt,
    overloaded: Seq<Seq<char>>,
    scope: ScopeView,
    in_class: bool,
    cls: Option<ResolvedClass>,
)
    ensures
        all_taken(stmt_stub(stmt, overloaded, scope, in_class, cls), scope, in_class),
    decreases stmt, 0int,
{
    match stmt {
        Stmt::Assign(a) => {
            lemma_targets_are_taken(a.targets@, a.value, scope, in_class);
        },
        Stmt::If(i) => {
            if type_checking_guard(i.test) {
                assert(decreases_to!(stmt => i.body));
                assert(decreases_to!(i.body => i.body@));
                law_only_taken_names_come_out(i.body@, i.body@, scope, in_class, cls);
            }
        },
        _ => {},
    }
}

/// No statement brings a function, a class or a variable into the stub whose name is not taken:
/// where a module has `__all__`, only what it names comes out at the top level.
pub proof fn law_only_taken_names_come_out(
    stmts: Seq<Stmt>,
    block: Seq<Stmt>,
    scope: ScopeView,
    in_class: bool,
    cls: Option<ResolvedClass>,
)
    ensures
        all_taken(stmts_stub(stmts, block, scope, in_class, cls), scope, in_class),
    decreases stmts, 0int,
{
    if stmts.len() > 0 {
        let first = stmts_stub(stmts.drop_last(), block, scope, in_class, cls);
        let more = stmt_stub(stmts.last(), overloaded_names(block), scope, in_class, cls);
        law_only_taken_names_come_out(stmts.drop_last(), block, scope, in_class, cls);
        lemma_stmt_is_taken(stmts.last(), overloaded_names(block), scope, in_class, cls);
        let items = first + more;
        assert forall|i: int| 0 <= i < items.len() implies named_and_taken(
            #[trigger] items[i],
            scope,
            in_class,
        ) by {
            if i >= first.len() {
                assert(items[i] == more[i - first.len()]);
            } else {
                assert(items[i] == first[i]);
            }
        }
    }
}

/// The items of the stub of a module: what the statements contribute, with the imports pruned.
pub open spec fn module_items(module: ModuleSource, config: ExtractConfig) -> Seq<ItemView> {
    let items = stmts_stub(module.body@, module.body@, scope_of(module, config), false, None);
    pruned_items(items, items_content(items))
}

/// Extracts the stub of a module. The names that are exported, the types that were inferred and
/// what is written decide which items it has; imports that nothing in the stub uses are pruned.
/// The option for docstrings changes docstrings alone, see `law_option_changes_docstrings_alone`.
pub fn extract_module_stub(module: &ModuleSource, config: &ExtractConfig) -> (r: ModuleStub)
    requires
        stmts_prunable(module.body@),
    ensures
        ({
            let scope = scope_of(*module, *config);
            let uses = stmts_uses(module.body@, module.body@, scope, false);
            &&& item_views(r.items@) == module_items(*module, *config)
            &&& r.uses_incomplete == uses.incomplete
            &&& r.uses_self == uses.self_type
            &&& r.uses_classvar == uses.classvar
            &&& r.uses_callable == uses.callable
            &&& r.uses_overload == uses.overload
        }),
{
    let scope = module_scope(module, config);
    let (items, uses) = extract_items(module, &scope);
    proof {
        lemma_stmts_prunable(module.body@, module.body@, scope@, false, None);
        lemma_items_prunable(items@);
    }
    ModuleStub {
        items: prune_stub_imports(items),
        uses_incomplete: uses.incomplete,
        uses_self: uses.self_type,
        uses_classvar: uses.classvar,
        uses_callable: uses.callable,
        uses_overload: uses.overload,
    }
}

/// The option for docstrings changes docstrings alone. Without it no function and no class has
/// one, at any depth; with it the items are the same but for their docstrings, and the same names
/// have to be imported.
pub proof fn law_option_changes_docstrings_alone(module: ModuleSource, config: ExtractConfig)
    ensures
        all_undocumented(module_items(module, config_with(config, false))),
        bare_items(module_items(module, config)) == module_items(module, config_with(config, false)),
        stmts_uses(module.body@, module.body@, scope_of(module, config), false) == stmts_uses(
            module.body@,
            module.body@,
            scope_of(module, config_with(config, false)),
            false,
        ),
{
    let scope = scope_of(module, config);
    let on = config.include_docstrings;
    let body = module.body@;
    assert(with_docstrings(scope, on) == scope);
    assert(with_docstrings(scope, false) == scope_of(module, config_with(config, false)));
    lemma_stmts_bare(body, body, scope, on, false, None);
    let items = stmts_stub(body, body, scope, false, None);
    lemma_content_bare(items);
    lemma_pruned_bare(items, items_content(items));
    lemma_bare_are_undocumented(module_items(module, config));
}

/// Where docstrings are asked for, every function and every class of a stub, at any depth, has one
/// exactly where the body of the definition that it comes from begins with a string. Only
/// constructors that are added to classes come from no definition, and they have none.
pub proof fn law_docstrings_begin_bodies(module: ModuleSource, config: ExtractConfig)
    requires
        config.include_docstrings,
    ensures
        all_come_from(module_items(module, config), module.body@, false),
{
    let body = module.body@;
    let items = stmts_stub(body, body, scope_of(module, config), false, None);
    lemma_stmts_from(body, body, scope_of(module, config), false, None);
    lemma_pruned_all_from(items, body, false, items_content(items));
}

} // verus!
