use vstd::prelude::*;

use crate::ast::{
    AnnAssign, Assign, AssignTarget, BinaryOperator, Callee, ClassArguments, ClassDef, ClassKeywordText,
    FunctionDef, ModuleSource, ResolvedClass, SourceExpr, SourceExprKind, Stmt,
};
use crate::extract_init::{
    added_init_stub, added_init_uses, check_describes_only, complex_class_attribute_stub_value,
    describes_only, dotted_value, synthetic_init_stub_fn,
};
use crate::extract_types::{
    all_after, all_names, extract_params, format_type, included, resolve_dunder_all,
    should_include_name, simple_text, simple_value_text, stub_params, stub_params_uses,
    text_begins, type_text, type_uses, Uses,
};
use crate::stub::{
    class_view, item_view, item_views, opt_text, ClassStubView, ExtractConfig, FunctionView,
    ItemView, StubClass, StubFunction, StubImport, StubItem, StubTypeAlias, StubVariable,
    VariableView,
};
use crate::text::{begins_with, cat2, cat3, contains_name, is_text, join, joined, texts};

verus! {

/// What decides which names are taken into a stub.
pub struct Scope {
    pub config: ExtractConfig,
    /// The names in `__all__`, where that is given.
    pub dunder_all: Option<Vec<String>>,
}

/// A scope as plain text.
pub struct ScopeView {
    pub config: ExtractConfig,
    pub dunder_all: Option<Seq<Seq<char>>>,
}

impl View for Scope {
    type V = ScopeView;

    open spec fn view(&self) -> ScopeView {
        ScopeView { config: self.config, dunder_all: all_names(self.dunder_all) }
    }
}

impl ScopeView {
    /// Whether a name is taken into the stub.
    pub open spec fn takes(self, name: Seq<char>, in_class: bool) -> bool {
        included(name, self.config, in_class, self.dunder_all)
    }
}

impl Scope {
    fn check_takes(&self, name: &str, in_class: bool) -> (r: bool)
        ensures
            r == self@.takes(name@, in_class),
    {
        should_include_name(name, &self.config, in_class, &self.dunder_all)
    }
}

/// Whether a condition holds only while types are checked.
pub open spec fn type_checking_guard(test: SourceExpr) -> bool {
    match test.kind {
        SourceExprKind::Name(name) => name@ == "TYPE_CHECKING"@,
        SourceExprKind::Attribute(_, attr) => attr@ == "TYPE_CHECKING"@,
        _ => false,
    }
}

fn is_type_checking_guard(test: &SourceExpr) -> (r: bool)
    ensures
        r == type_checking_guard(*test),
{
    match &test.kind {
        SourceExprKind::Name(name) => is_text(name, "TYPE_CHECKING"),
        SourceExprKind::Attribute(_, attr) => is_text(attr, "TYPE_CHECKING"),
        _ => false,
    }
}

pub open spec fn computed_field(e: SourceExpr) -> bool {
    match e.kind {
        SourceExprKind::Name(name) => name@ == "computed_field"@,
        SourceExprKind::Attribute(_, attr) => attr@ == "computed_field"@,
        _ => false,
    }
}

fn is_computed_field_decorator(e: &SourceExpr) -> (r: bool)
    ensures
        r == computed_field(*e),
{
    match &e.kind {
        SourceExprKind::Name(name) => is_text(name, "computed_field"),
        SourceExprKind::Attribute(_, attr) => is_text(attr, "computed_field"),
        _ => false,
    }
}

/// Decorators as they are written. `computed_field` is left out in classes.
pub open spec fn decorator_texts(decorators: Seq<SourceExpr>, in_class: bool) -> Seq<Seq<char>>
    decreases decorators.len(),
{
    if decorators.len() == 0 {
        Seq::empty()
    } else if in_class && computed_field(decorators.last()) {
        decorator_texts(decorators.drop_last(), in_class)
    } else {
        decorator_texts(decorators.drop_last(), in_class).push("@"@ + decorators.last().text@)
    }
}

fn make_decorators(decorators: &Vec<SourceExpr>, in_class: bool) -> (r: Vec<String>)
    ensures
        texts(r@) == decorator_texts(decorators@, in_class),
{
    let mut out: Vec<String> = Vec::new();
    let mut i: usize = 0;
    assert(decorators@.take(0) =~= Seq::empty());
    assert(texts(out@) =~= Seq::empty());
    while i < decorators.len()
        invariant
            i <= decorators@.len(),
            texts(out@) == decorator_texts(decorators@.take(i as int), in_class),
        decreases decorators@.len() - i,
    {
        assert(decorators@.take(i + 1).drop_last() =~= decorators@.take(i as int));
        assert(decorators@.take(i + 1).last() == decorators@[i as int]);
        let ghost before = out@;
        if !(in_class && is_computed_field_decorator(&decorators[i])) {
            let text = cat2("@", decorators[i].text.as_str());
            out.push(text);
            assert(texts(out@) =~= texts(before).push(text@));
        }
        i = i + 1;
    }
    assert(decorators@.take(i as int) =~= decorators@);
    out
}

/// The docstring at the beginning of a body.
pub open spec fn docstring_of(body: Seq<Stmt>) -> Option<Seq<char>> {
    if body.len() > 0 {
        match body[0] {
            Stmt::Expr(e) => match e.kind {
                SourceExprKind::StringLiteral(value) => Some(
                    "\"\"\""@ + value@ + "\"\"\""@,
                ),
                _ => None,
            },
            _ => None,
        }
    } else {
        None
    }
}

fn extract_docstring(body: &Vec<Stmt>) -> (r: Option<String>)
    ensures
        opt_text(r) == docstring_of(body@),
{
    if body.len() > 0 {
        if let Stmt::Expr(e) = &body[0] {
            if let SourceExprKind::StringLiteral(value) = &e.kind {
                return Some(cat3("\"\"\"", value.as_str(), "\"\"\""));
            }
        }
    }
    None
}

/// The docstring that is taken into a stub.
pub open spec fn kept_docstring(config: ExtractConfig, body: Seq<Stmt>) -> Option<Seq<char>> {
    if config.include_docstrings {
        docstring_of(body)
    } else {
        None
    }
}

fn keep_docstring(config: &ExtractConfig, body: &Vec<Stmt>) -> (r: Option<String>)
    ensures
        opt_text(r) == kept_docstring(*config, body@),
{
    if config.include_docstrings {
        extract_docstring(body)
    } else {
        None
    }
}

/// The return type of a function: the written one, or else the inferred one.
pub open spec fn return_text(f: FunctionDef) -> Option<Seq<char>> {
    match f.returns {
        Some(text) => Some(text@),
        None => match f.resolved {
            Some(resolved) => match resolved.return_type {
                Some(ty) => Some(type_text(ty)),
                None => None,
            },
            None => None,
        },
    }
}

pub open spec fn return_uses(f: FunctionDef) -> Uses {
    match f.returns {
        Some(_) => Uses::nothing(),
        None => match f.resolved {
            Some(resolved) => match resolved.return_type {
                Some(ty) => type_uses(ty),
                None => Uses::nothing(),
            },
            None => Uses::nothing(),
        },
    }
}

fn extract_return_type(f: &FunctionDef, uses: &mut Uses) -> (r: Option<String>)
    ensures
        opt_text(r) == return_text(*f),
        *final(uses) == old(uses).or(return_uses(*f)),
{
    if let Some(text) = &f.returns {
        return Some(text.clone());
    }
    if let Some(resolved) = &f.resolved {
        if let Some(ty) = &resolved.return_type {
            return Some(format_type(ty, uses));
        }
    }
    None
}

/// A function as it is taken into a stub.
pub open spec fn function_stub(f: FunctionDef, config: ExtractConfig, in_class: bool) -> FunctionView {
    FunctionView {
        name: f.name@,
        is_async: f.is_async,
        type_params: opt_text(f.type_params),
        decorators: decorator_texts(f.decorators@, in_class),
        params: stub_params(f.params, f.resolved),
        return_type: return_text(f),
        docstring: kept_docstring(config, f.body@),
    }
}

pub open spec fn function_uses(f: FunctionDef) -> Uses {
    stub_params_uses(f.params, f.resolved).or(return_uses(f))
}

fn extract_function(f: &FunctionDef, config: &ExtractConfig, in_class: bool, uses: &mut Uses) -> (r:
    StubFunction)
    ensures
        r@ == function_stub(*f, *config, in_class),
        *final(uses) == old(uses).or(function_uses(*f)),
{
    let decorators = make_decorators(&f.decorators, in_class);
    let params = extract_params(&f.params, &f.resolved, uses);
    let return_type = extract_return_type(f, uses);
    let docstring = keep_docstring(config, &f.body);
    StubFunction {
        name: f.name.clone(),
        is_async: f.is_async,
        type_params: f.type_params.clone(),
        decorators,
        params,
        return_type,
        docstring,
    }
}

/// A decorator that marks one signature of an overloaded function: `overload`, by itself or as an
/// attribute of `typing` or `typing_extensions`.
pub open spec fn overload_decorator(e: SourceExpr) -> bool {
    match e.kind {
        SourceExprKind::Name(name) => name@ == "overload"@,
        SourceExprKind::Attribute(Some(base), attr) => attr@ == "overload"@ && (base@ == "typing"@
            || base@ == "typing_extensions"@),
        _ => false,
    }
}

fn is_overload_decorator(e: &SourceExpr) -> (r: bool)
    ensures
        r == overload_decorator(*e),
{
    match &e.kind {
        SourceExprKind::Name(name) => is_text(name, "overload"),
        SourceExprKind::Attribute(Some(base), attr) => is_text(attr, "overload") && (is_text(
            base,
            "typing",
        ) || is_text(base, "typing_extensions")),
        _ => false,
    }
}

pub open spec fn is_overload(f: FunctionDef) -> bool {
    exists|i: int| 0 <= i < f.decorators@.len() && #[trigger] overload_decorator(f.decorators@[i])
}

fn has_overload_decorator(f: &FunctionDef) -> (r: bool)
    ensures
        r == is_overload(*f),
{
    let mut i: usize = 0;
    while i < f.decorators.len()
        invariant
            i <= f.decorators@.len(),
            forall|k: int| 0 <= k < i ==> !#[trigger] overload_decorator(f.decorators@[k]),
        decreases f.decorators@.len() - i,
    {
        if is_overload_decorator(&f.decorators[i]) {
            return true;
        }
        i = i + 1;
    }
    false
}

/// The functions that have a marked signature.
pub open spec fn overloaded_names(stmts: Seq<Stmt>) -> Seq<Seq<char>>
    decreases stmts.len(),
{
    if stmts.len() == 0 {
        Seq::empty()
    } else {
        match stmts.last() {
            Stmt::FunctionDef(f) => if is_overload(f) {
                overloaded_names(stmts.drop_last()).push(f.name@)
            } else {
                overloaded_names(stmts.drop_last())
            },
            _ => overloaded_names(stmts.drop_last()),
        }
    }
}

fn collect_overloaded_names(stmts: &Vec<Stmt>, from: usize, to: usize) -> (r: Vec<String>)
    requires
        from <= to <= stmts@.len(),
    ensures
        texts(r@) == overloaded_names(stmts@.subrange(from as int, to as int)),
{
    let mut names: Vec<String> = Vec::new();
    let mut i: usize = from;
    assert(stmts@.subrange(from as int, from as int) =~= Seq::empty());
    assert(texts(names@) =~= Seq::empty());
    while i < to
        invariant
            from <= i <= to <= stmts@.len(),
            texts(names@) == overloaded_names(stmts@.subrange(from as int, i as int)),
        decreases to - i,
    {
        let ghost after = stmts@.subrange(from as int, i + 1);
        assert(after.drop_last() =~= stmts@.subrange(from as int, i as int));
        assert(after.last() == stmts@[i as int]);
        let ghost before = names@;
        if let Stmt::FunctionDef(f) = &stmts[i] {
            if has_overload_decorator(f) {
                names.push(f.name.clone());
                assert(texts(names@) =~= texts(before).push(f.name@));
            }
        }
        i = i + 1;
    }
    names
}

/// Whether a statement is the implementation of an overloaded function, which stubs leave out.
pub open spec fn overload_impl(stmt: Stmt, overloaded: Seq<Seq<char>>) -> bool {
    match stmt {
        Stmt::FunctionDef(f) => overloaded.contains(f.name@) && !is_overload(f),
        _ => false,
    }
}

fn is_overload_impl(stmt: &Stmt, overloaded: &Vec<String>) -> (r: bool)
    ensures
        r == overload_impl(*stmt, texts(overloaded@)),
{
    match stmt {
        Stmt::FunctionDef(f) => contains_name(overloaded, f.name.as_str())
            && !has_overload_decorator(f),
        _ => false,
    }
}

/// Whether an expression makes a type variable, a new type, a named tuple or a typed dictionary.
pub open spec fn type_constructor(e: SourceExpr) -> bool {
    match e.kind {
        SourceExprKind::Call(call) => match call.func {
            Callee::Name(name) => name@ == "TypeVar"@ || name@ == "ParamSpec"@ || name@
                == "TypeVarTuple"@ || name@ == "NewType"@ || name@ == "NamedTuple"@ || name@
                == "TypedDict"@,
            _ => false,
        },
        _ => false,
    }
}

fn is_type_constructor_call(e: &SourceExpr) -> (r: bool)
    ensures
        r == type_constructor(*e),
{
    match &e.kind {
        SourceExprKind::Call(call) => match &call.func {
            Callee::Name(name) => is_text(name, "TypeVar") || is_text(name, "ParamSpec") || is_text(
                name,
                "TypeVarTuple",
            ) || is_text(name, "NewType") || is_text(name, "NamedTuple") || is_text(
                name,
                "TypedDict",
            ),
            _ => false,
        },
        _ => false,
    }
}

/// Whether an assignment is kept as it is written: a single name that is given a type constructor,
/// a subscript or a union.
pub open spec fn kept_verbatim(a: Assign) -> bool {
    a.targets@.len() == 1 && a.targets@[0].name is Some && (type_constructor(a.value)
        || a.value.kind is Subscript || a.value.kind == SourceExprKind::BinOp(BinaryOperator::BitOr))
}

fn is_type_constructor_or_alias(a: &Assign) -> (r: bool)
    ensures
        r == kept_verbatim(*a),
{
    if a.targets.len() != 1 || a.targets[0].name.is_none() {
        return false;
    }
    let old_style = match &a.value.kind {
        SourceExprKind::Subscript => true,
        SourceExprKind::BinOp(op) => *op == BinaryOperator::BitOr,
        _ => false,
    };
    is_type_constructor_call(&a.value) || old_style
}

/// The annotation of an attribute that the class body assigns.
pub open spec fn class_annotation(text: Seq<char>) -> Seq<char> {
    if begins_with(text, "ClassVar["@) {
        text
    } else {
        "ClassVar["@ + text + "]"@
    }
}

/// The value that an assignment without an annotation gives, as it is taken into a stub: as it is
/// written where it is simple. In the body of a class any other value is three dots, unless it
/// only describes a field.
pub open spec fn assigned_text(value: SourceExpr, in_class: bool) -> Option<Seq<char>> {
    if simple_text(value) is Some {
        simple_text(value)
    } else if in_class && !describes_only(value) {
        Some("..."@)
    } else {
        None
    }
}

fn make_assigned(value: &SourceExpr, in_class: bool) -> (r: Option<String>)
    ensures
        opt_text(r) == assigned_text(*value, in_class),
{
    match simple_value_text(value) {
        Some(text) => Some(text),
        None => if in_class && !check_describes_only(value) {
            Some("...".to_owned())
        } else {
            None
        },
    }
}

/// The value of a declaration with an annotation as it is taken into a stub: as it is written where
/// it is simple, and as three dots where an attribute of a class has some other default.
pub open spec fn value_text(
    value: SourceExpr,
    name: Seq<char>,
    in_class: bool,
    cls: Option<ResolvedClass>,
) -> Option<Seq<char>> {
    if simple_text(value) is Some {
        simple_text(value)
    } else if in_class && dotted_value(cls, name, value) {
        Some("..."@)
    } else {
        None
    }
}

fn make_value(value: &SourceExpr, name: &str, in_class: bool, cls: &Option<ResolvedClass>) -> (r:
    Option<String>)
    ensures
        opt_text(r) == value_text(*value, name@, in_class, *cls),
{
    match simple_value_text(value) {
        Some(text) => Some(text),
        None => if in_class {
            complex_class_attribute_stub_value(cls, name, value)
        } else {
            None
        },
    }
}

/// A target of an assignment as it is taken into a stub.
pub open spec fn target_stub(
    t: AssignTarget,
    value: SourceExpr,
    scope: ScopeView,
    in_class: bool,
) -> Option<VariableView> {
    match t.name {
        None => None,
        Some(name) => {
            let annotation = match t.definition {
                Some(ty) => Some(
                    if in_class {
                        class_annotation(type_text(ty))
                    } else {
                        type_text(ty)
                    },
                ),
                None => None,
            };
            let shown = assigned_text(value, in_class);
            if !scope.takes(name@, in_class) || name@ == "__all__"@ || (annotation is None && shown
                is None) {
                None
            } else {
                Some(VariableView { name: name@, annotation, value: shown })
            }
        },
    }
}

pub open spec fn target_uses(t: AssignTarget, scope: ScopeView, in_class: bool) -> Uses {
    match t.name {
        None => Uses::nothing(),
        Some(name) => if !scope.takes(name@, in_class) || name@ == "__all__"@ {
            Uses::nothing()
        } else {
            match t.definition {
                Some(ty) => type_uses(ty).or(Uses { classvar: in_class, ..Uses::nothing() }),
                None => Uses::nothing(),
            }
        },
    }
}

fn extract_target(
    t: &AssignTarget,
    value: &SourceExpr,
    scope: &Scope,
    in_class: bool,
    uses: &mut Uses,
) -> (r: Option<StubVariable>)
    ensures
        match r {
            Some(v) => target_stub(*t, *value, scope@, in_class) == Some(v@),
            None => target_stub(*t, *value, scope@, in_class) is None,
        },
        *final(uses) == old(uses).or(target_uses(*t, scope@, in_class)),
{
    let name = match &t.name {
        None => {
            return None;
        },
        Some(name) => name,
    };
    if !scope.check_takes(name.as_str(), in_class) || is_text(name, "__all__") {
        return None;
    }
    let annotation = match &t.definition {
        None => None,
        Some(ty) => {
            let text = format_type(ty, uses);
            if in_class {
                uses.classvar = true;
                if text_begins(text.as_str(), "ClassVar[") {
                    Some(text)
                } else {
                    Some(cat3("ClassVar[", text.as_str(), "]"))
                }
            } else {
                Some(text)
            }
        },
    };
    let value = make_assigned(value, in_class);
    if annotation.is_some() || value.is_some() {
        Some(StubVariable { name: name.clone(), annotation, value })
    } else {
        None
    }
}

/// The targets of an assignment as they are taken into a stub.
pub open spec fn targets_stub(
    ts: Seq<AssignTarget>,
    value: SourceExpr,
    scope: ScopeView,
    in_class: bool,
) -> Seq<ItemView>
    decreases ts.len(),
{
    if ts.len() == 0 {
        Seq::empty()
    } else {
        let before = targets_stub(ts.drop_last(), value, scope, in_class);
        match target_stub(ts.last(), value, scope, in_class) {
            Some(v) => before.push(ItemView::Variable(v)),
            None => before,
        }
    }
}

pub open spec fn targets_uses(ts: Seq<AssignTarget>, scope: ScopeView, in_class: bool) -> Uses
    decreases ts.len(),
{
    if ts.len() == 0 {
        Uses::nothing()
    } else {
        targets_uses(ts.drop_last(), scope, in_class).or(target_uses(ts.last(), scope, in_class))
    }
}

fn extract_assign(
    a: &Assign,
    scope: &Scope,
    in_class: bool,
    uses: &mut Uses,
    out: &mut Vec<StubItem>,
)
    ensures
        item_views(final(out)@) == item_views(old(out)@) + targets_stub(
            a.targets@,
            a.value,
            scope@,
            in_class,
        ),
        *final(uses) == old(uses).or(targets_uses(a.targets@, scope@, in_class)),
{
    let ts = &a.targets;
    let mut i: usize = 0;
    assert(ts@.take(0) =~= Seq::empty());
    assert(item_views(out@) =~= item_views(old(out)@) + Seq::<ItemView>::empty());
    while i < ts.len()
        invariant
            i <= ts@.len(),
            item_views(out@) == item_views(old(out)@) + targets_stub(
                ts@.take(i as int),
                a.value,
                scope@,
                in_class,
            ),
            *uses == old(uses).or(targets_uses(ts@.take(i as int), scope@, in_class)),
        decreases ts@.len() - i,
    {
        assert(ts@.take(i + 1).drop_last() =~= ts@.take(i as int));
        assert(ts@.take(i + 1).last() == ts@[i as int]);
        if let Some(v) = extract_target(&ts[i], &a.value, scope, in_class, uses) {
            push_item(out, StubItem::Variable(v));
        }
        assert(item_views(out@) =~= item_views(old(out)@) + targets_stub(
            ts@.take(i + 1),
            a.value,
            scope@,
            in_class,
        ));
        i = i + 1;
    }
    assert(ts@.take(i as int) =~= ts@);
}

fn push_item(out: &mut Vec<StubItem>, item: StubItem)
    ensures
        item_views(final(out)@) == item_views(old(out)@).push(item_view(item)),
{
    out.push(item);
    assert(out@.drop_last() =~= old(out)@);
}

/// A declaration with an annotation as it is taken into a stub.
pub open spec fn declaration_stub(
    a: AnnAssign,
    scope: ScopeView,
    in_class: bool,
    cls: Option<ResolvedClass>,
) -> Option<VariableView> {
    match a.target {
        None => None,
        Some(name) => if !scope.takes(name@, in_class) {
            None
        } else {
            Some(
                VariableView {
                    name: name@,
                    annotation: Some(a.annotation@),
                    value: match a.value {
                        None => None,
                        Some(v) => value_text(v, name@, in_class, cls),
                    },
                },
            )
        },
    }
}

fn extract_ann_assign(a: &AnnAssign, scope: &Scope, in_class: bool, cls: &Option<ResolvedClass>) -> (r:
    Option<StubVariable>)
    ensures
        match r {
            Some(v) => declaration_stub(*a, scope@, in_class, *cls) == Some(v@),
            None => declaration_stub(*a, scope@, in_class, *cls) is None,
        },
{
    let name = match &a.target {
        None => {
            return None;
        },
        Some(name) => name,
    };
    if !scope.check_takes(name.as_str(), in_class) {
        return None;
    }
    let value = match &a.value {
        None => None,
        Some(v) => make_value(v, name.as_str(), in_class, cls),
    };
    Some(StubVariable { name: name.clone(), annotation: Some(a.annotation.clone()), value })
}

/// The keywords in the head of a class as they are written.
pub open spec fn keyword_texts(kws: Seq<ClassKeywordText>) -> Seq<Seq<char>> {
    kws.map_values(
        |k: ClassKeywordText|
            match k.arg {
                Some(arg) => arg@ + "="@ + k.value@,
                None => "**"@ + k.value@,
            },
    )
}

/// What stands in brackets in the head of a class.
pub open spec fn bases_text(arguments: Option<ClassArguments>) -> Seq<char> {
    match arguments {
        Some(a) => joined(texts(a.args@) + keyword_texts(a.keywords@), ", "@),
        None => Seq::empty(),
    }
}

fn make_bases(arguments: &Option<ClassArguments>) -> (r: String)
    ensures
        r@ == bases_text(*arguments),
{
    match arguments {
        None => String::new(),
        Some(a) => {
            let mut parts: Vec<String> = Vec::new();
            let mut i: usize = 0;
            while i < a.args.len()
                invariant
                    i <= a.args@.len(),
                    texts(parts@) == texts(a.args@).take(i as int),
                decreases a.args@.len() - i,
            {
                let ghost before = parts@;
                parts.push(a.args[i].clone());
                assert(texts(parts@) =~= texts(before).push(a.args@[i as int]@));
                assert(texts(parts@) =~= texts(a.args@).take(i + 1));
                i = i + 1;
            }
            let mut k: usize = 0;
            assert(texts(parts@) =~= texts(a.args@) + keyword_texts(a.keywords@).take(0));
            while k < a.keywords.len()
                invariant
                    k <= a.keywords@.len(),
                    texts(parts@) == texts(a.args@) + keyword_texts(a.keywords@).take(k as int),
                decreases a.keywords@.len() - k,
            {
                let ghost before = parts@;
                let kw = &a.keywords[k];
                let text = match &kw.arg {
                    Some(arg) => cat3(arg.as_str(), "=", kw.value.as_str()),
                    None => cat2("**", kw.value.as_str()),
                };
                parts.push(text);
                assert(texts(parts@) =~= texts(before).push(text@));
                assert(texts(parts@) =~= texts(a.args@) + keyword_texts(a.keywords@).take(k + 1));
                k = k + 1;
            }
            assert(keyword_texts(a.keywords@).take(k as int) =~= keyword_texts(a.keywords@));
            join(&parts, ", ")
        },
    }
}

/// Whether a statement defines a function, or one of the given name.
pub open spec fn defines_function(stmt: Stmt, name: Option<Seq<char>>) -> bool {
    match stmt {
        Stmt::FunctionDef(f) => name is None || f.name@ == name->0,
        _ => false,
    }
}

/// Whether a constructor is written out in a class body.
pub open spec fn writes_init(body: Seq<Stmt>) -> bool {
    exists|i: int| 0 <= i < body.len() && #[trigger] defines_function(body[i], Some("__init__"@))
}

/// The position of the first function at or behind `from`, or the end.
pub open spec fn first_function(body: Seq<Stmt>, from: int) -> int
    decreases body.len() - from,
{
    if 0 <= from < body.len() && !defines_function(body[from], None) {
        first_function(body, from + 1)
    } else {
        from
    }
}

fn check_writes_init(body: &Vec<Stmt>) -> (r: bool)
    ensures
        r == writes_init(body@),
{
    let mut i: usize = 0;
    while i < body.len()
        invariant
            i <= body@.len(),
            forall|k: int|
                0 <= k < i ==> !#[trigger] defines_function(body@[k], Some("__init__"@)),
        decreases body@.len() - i,
    {
        if let Stmt::FunctionDef(f) = &body[i] {
            if is_text(&f.name, "__init__") {
                assert(defines_function(body@[i as int], Some("__init__"@)));
                return true;
            }
        }
        i = i + 1;
    }
    false
}

fn find_first_function(body: &Vec<Stmt>) -> (r: usize)
    ensures
        r == first_function(body@, 0),
        r <= body@.len(),
{
    let mut i: usize = 0;
    while i < body.len()
        invariant
            i <= body@.len(),
            first_function(body@, 0) == first_function(body@, i as int),
        decreases body@.len() - i,
    {
        if let Stmt::FunctionDef(_) = &body[i] {
            return i;
        }
        i = i + 1;
    }
    i
}

/// The constructor that is added to a class, as an item.
pub open spec fn init_items(cls: Option<ResolvedClass>, body: Seq<Stmt>) -> Seq<ItemView> {
    match cls {
        None => Seq::empty(),
        Some(c) => match added_init_stub(c, body) {
            Some(f) => seq![ItemView::Function(f)],
            None => Seq::empty(),
        },
    }
}

pub open spec fn init_uses(cls: Option<ResolvedClass>) -> Uses {
    match cls {
        None => Uses::nothing(),
        Some(c) => added_init_uses(c),
    }
}

fn maybe_push_synthetic_init(
    def: &ClassDef,
    uses: &mut Uses,
    out: &mut Vec<StubItem>,
)
    ensures
        item_views(final(out)@) == item_views(old(out)@) + init_items(def.resolved, def.body@),
        *final(uses) == old(uses).or(init_uses(def.resolved)),
{
    if let Some(cls) = &def.resolved {
        if let Some(f) = synthetic_init_stub_fn(cls, &def.body, uses) {
            push_item(out, StubItem::Function(f));
        }
    }
    assert(item_views(out@) =~= item_views(old(out)@) + init_items(def.resolved, def.body@));
}

/// The parts of a class body are smaller than the class.
pub proof fn lemma_part_of_body(def: ClassDef, n: int)
    ensures
        decreases_to!(def => def.body@),
        0 <= n <= def.body@.len() ==> decreases_to!(def => def.body@.take(n)) && decreases_to!(
            def => def.body@.skip(n)
        ),
        decreases_to!(def => Seq::<Stmt>::empty()),
{
    let body = def.body@;
    assert(decreases_to!(def => def.body));
    assert(decreases_to!(def.body => def.body@));
    if 0 <= n <= body.len() {
        if n == body.len() {
            assert(body.take(n) =~= body);
        } else {
            assert(decreases_to!(body => body.subrange(0, n)));
        }
        if n == 0 {
            assert(body.skip(n) =~= body);
        } else {
            assert(decreases_to!(body => body.subrange(n, body.len() as int)));
        }
    }
    if body.len() == 0 {
        assert(body =~= Seq::empty());
    } else {
        assert(body.subrange(0, 0) =~= Seq::<Stmt>::empty());
        assert(decreases_to!(body => body.subrange(0, 0)));
    }
}

/// The body of a class as it is taken into a stub. A constructor that is added stands in front of
/// the first function; where one is written out, none is added.
pub open spec fn class_body_stub(def: ClassDef, scope: ScopeView) -> Seq<ItemView>
    decreases def, 0int,
{
    let body = def.body@;
    let n = first_function(body, 0);
    if writes_init(body) {
        stmts_stub(body, body, scope, true, def.resolved)
    } else {
        let leading = if 0 <= n <= body.len() {
            body.take(n)
        } else {
            body
        };
        let tail = if 0 <= n <= body.len() {
            body.skip(n)
        } else {
            Seq::empty()
        };
        proof {
            lemma_part_of_body(def, n);
        }
        stmts_stub(leading, leading, scope, true, def.resolved) + init_items(def.resolved, body)
            + stmts_stub(tail, tail, scope, true, def.resolved)
    }
}

pub open spec fn class_body_uses(def: ClassDef, scope: ScopeView) -> Uses
    decreases def, 0int,
{
    let body = def.body@;
    let n = first_function(body, 0);
    if writes_init(body) {
        stmts_uses(body, body, scope, true)
    } else {
        let leading = if 0 <= n <= body.len() {
            body.take(n)
        } else {
            body
        };
        let tail = if 0 <= n <= body.len() {
            body.skip(n)
        } else {
            Seq::empty()
        };
        proof {
            lemma_part_of_body(def, n);
        }
        stmts_uses(leading, leading, scope, true).or(init_uses(def.resolved)).or(
            stmts_uses(tail, tail, scope, true),
        )
    }
}

/// A class as it is taken into a stub.
pub open spec fn class_stub(def: ClassDef, scope: ScopeView) -> ClassStubView
    decreases def, 1int,
{
    ClassStubView {
        name: def.name@,
        type_params: opt_text(def.type_params),
        bases: bases_text(def.arguments),
        decorators: decorator_texts(def.decorators@, false),
        body: class_body_stub(def, scope),
        docstring: kept_docstring(scope.config, def.body@),
    }
}

/// What a statement contributes to a stub. `overloaded` are the functions with marked signatures
/// among its neighbours, `cls` is the innermost class.
pub open spec fn stmt_stub(
    stmt: Stmt,
    overloaded: Seq<Seq<char>>,
    scope: ScopeView,
    in_class: bool,
    cls: Option<ResolvedClass>,
) -> Seq<ItemView>
    decreases stmt, 0int,
{
    if overload_impl(stmt, overloaded) {
        Seq::empty()
    } else {
        match stmt {
            Stmt::FunctionDef(f) => if scope.takes(f.name@, in_class) {
                seq![ItemView::Function(function_stub(f, scope.config, in_class))]
            } else {
                Seq::empty()
            },
            Stmt::ClassDef(def) => if scope.takes(def.name@, in_class) {
                seq![ItemView::Class(class_stub(def, scope))]
            } else {
                Seq::empty()
            },
            Stmt::Import(text) => seq![ItemView::Import(text@)],
            Stmt::AnnAssign(a) => match declaration_stub(a, scope, in_class, cls) {
                Some(v) => seq![ItemView::Variable(v)],
                None => Seq::empty(),
            },
            Stmt::Assign(a) => if kept_verbatim(a) {
                if scope.takes(a.targets@[0].name->0@, in_class) {
                    seq![ItemView::TypeAlias(a.text@)]
                } else {
                    Seq::empty()
                }
            } else {
                targets_stub(a.targets@, a.value, scope, in_class)
            },
            Stmt::TypeAlias(t) => if t.name is Some && !scope.takes(t.name->0@, in_class) {
                Seq::empty()
            } else {
                seq![ItemView::TypeAlias(t.text@)]
            },
            Stmt::If(i) => if type_checking_guard(i.test) {
                stmts_stub(i.body@, i.body@, scope, in_class, cls)
            } else {
                Seq::empty()
            },
            Stmt::Expr(_) => Seq::empty(),
            Stmt::Other => Seq::empty(),
        }
    }
}

/// What has to be imported for what a statement contributes.
pub open spec fn stmt_uses(stmt: Stmt, overloaded: Seq<Seq<char>>, scope: ScopeView, in_class: bool) -> Uses
    decreases stmt, 0int,
{
    if overload_impl(stmt, overloaded) {
        Uses::nothing()
    } else {
        match stmt {
            Stmt::FunctionDef(f) => if scope.takes(f.name@, in_class) {
                function_uses(f)
            } else {
                Uses::nothing()
            },
            Stmt::ClassDef(def) => if scope.takes(def.name@, in_class) {
                class_body_uses(def, scope)
            } else {
                Uses::nothing()
            },
            Stmt::Assign(a) => if kept_verbatim(a) {
                Uses::nothing()
            } else {
                targets_uses(a.targets@, scope, in_class)
            },
            Stmt::If(i) => if type_checking_guard(i.test) {
                stmts_uses(i.body@, i.body@, scope, in_class)
            } else {
                Uses::nothing()
            },
            _ => Uses::nothing(),
        }
    }
}

/// What statements contribute to a stub. The overloaded functions are looked for in `block`.
pub open spec fn stmts_stub(
    stmts: Seq<Stmt>,
    block: Seq<Stmt>,
    scope: ScopeView,
    in_class: bool,
    cls: Option<ResolvedClass>,
) -> Seq<ItemView>
    decreases stmts, 0int,
{
    if stmts.len() == 0 {
        Seq::empty()
    } else {
        stmts_stub(stmts.drop_last(), block, scope, in_class, cls) + stmt_stub(
            stmts.last(),
            overloaded_names(block),
            scope,
            in_class,
            cls,
        )
    }
}

pub open spec fn stmts_uses(stmts: Seq<Stmt>, block: Seq<Stmt>, scope: ScopeView, in_class: bool) -> Uses
    decreases stmts, 0int,
{
    if stmts.len() == 0 {
        Uses::nothing()
    } else {
        stmts_uses(stmts.drop_last(), block, scope, in_class).or(
            stmt_uses(stmts.last(), overloaded_names(block), scope, in_class),
        )
    }
}

fn extract_class(def: &ClassDef, scope: &Scope, uses: &mut Uses) -> (r: StubClass)
    ensures
        class_view(r) == class_stub(*def, scope@),
        *final(uses) == old(uses).or(class_body_uses(*def, scope@)),
    decreases def, 1int,
{
    let decorators = make_decorators(&def.decorators, false);
    let bases = make_bases(&def.arguments);
    let docstring = keep_docstring(&scope.config, &def.body);
    let body = extract_class_body(def, scope, uses);
    StubClass {
        name: def.name.clone(),
        type_params: def.type_params.clone(),
        bases,
        decorators,
        body,
        docstring,
    }
}

fn extract_class_body(def: &ClassDef, scope: &Scope, uses: &mut Uses) -> (r: Vec<StubItem>)
    ensures
        item_views(r@) == class_body_stub(*def, scope@),
        *final(uses) == old(uses).or(class_body_uses(*def, scope@)),
    decreases def, 0int,
{
    let body = &def.body;
    let n: usize = body.len();
    let mut items: Vec<StubItem> = Vec::new();
    assert(item_views(items@) =~= Seq::empty());
    assert(decreases_to!(def => def.body));
    if check_writes_init(body) {
        assert(body@.subrange(0, n as int) =~= body@);
        extract_stmts(body, 0, n, scope, true, &def.resolved, uses, &mut items);
        assert(item_views(items@) =~= class_body_stub(*def, scope@));
        return items;
    }
    let first = find_first_function(body);
    assert(body@.subrange(0, first as int) =~= body@.take(first as int));
    assert(body@.subrange(first as int, n as int) =~= body@.skip(first as int));
    extract_stmts(body, 0, first, scope, true, &def.resolved, uses, &mut items);
    maybe_push_synthetic_init(def, uses, &mut items);
    extract_stmts(body, first, n, scope, true, &def.resolved, uses, &mut items);
    assert(item_views(items@) =~= class_body_stub(*def, scope@));
    items
}

fn extract_stmt(
    stmt: &Stmt,
    overloaded: &Vec<String>,
    scope: &Scope,
    in_class: bool,
    cls: &Option<ResolvedClass>,
    uses: &mut Uses,
    items: &mut Vec<StubItem>,
)
    ensures
        item_views(final(items)@) == item_views(old(items)@) + stmt_stub(
            *stmt,
            texts(overloaded@),
            scope@,
            in_class,
            *cls,
        ),
        *final(uses) == old(uses).or(stmt_uses(*stmt, texts(overloaded@), scope@, in_class)),
    decreases stmt, 0int,
{
    if !is_overload_impl(stmt, overloaded) {
        match stmt {
            Stmt::FunctionDef(f) => {
                if scope.check_takes(f.name.as_str(), in_class) {
                    let item = extract_function(f, &scope.config, in_class, uses);
                    push_item(items, StubItem::Function(item));
                }
            },
            Stmt::ClassDef(def) => {
                if scope.check_takes(def.name.as_str(), in_class) {
                    let item = extract_class(def, scope, uses);
                    push_item(items, StubItem::Class(item));
                }
            },
            Stmt::Import(text) => {
                push_item(items, StubItem::Import(StubImport { text: text.clone() }));
            },
            Stmt::AnnAssign(a) => {
                if let Some(item) = extract_ann_assign(a, scope, in_class, cls) {
                    push_item(items, StubItem::Variable(item));
                }
            },
            Stmt::Assign(a) => {
                if is_type_constructor_or_alias(a) {
                    let taken = match &a.targets[0].name {
                        Some(name) => scope.check_takes(name.as_str(), in_class),
                        None => false,
                    };
                    if taken {
                        push_item(
                            items,
                            StubItem::TypeAlias(StubTypeAlias { text: a.text.clone() }),
                        );
                    }
                } else {
                    extract_assign(a, scope, in_class, uses, items);
                }
            },
            Stmt::TypeAlias(t) => {
                let taken = match &t.name {
                    Some(name) => scope.check_takes(name.as_str(), in_class),
                    None => true,
                };
                if taken {
                    push_item(items, StubItem::TypeAlias(StubTypeAlias { text: t.text.clone() }));
                }
            },
            Stmt::If(i) => {
                if is_type_checking_guard(&i.test) {
                    let n: usize = i.body.len();
                    assert(i.body@.subrange(0, n as int) =~= i.body@);
                    assert(decreases_to!(stmt => i.body));
                    extract_stmts(&i.body, 0, n, scope, in_class, cls, uses, items);
                }
            },
            Stmt::Expr(_) => {},
            Stmt::Other => {},
        }
    }
    assert(item_views(items@) =~= item_views(old(items)@) + stmt_stub(
        *stmt,
        texts(overloaded@),
        scope@,
        in_class,
        *cls,
    ));
}

fn extract_stmts(
    stmts: &Vec<Stmt>,
    from: usize,
    to: usize,
    scope: &Scope,
    in_class: bool,
    cls: &Option<ResolvedClass>,
    uses: &mut Uses,
    items: &mut Vec<StubItem>,
)
    requires
        from <= to <= stmts@.len(),
    ensures
        item_views(final(items)@) == item_views(old(items)@) + stmts_stub(
            stmts@.subrange(from as int, to as int),
            stmts@.subrange(from as int, to as int),
            scope@,
            in_class,
            *cls,
        ),
        *final(uses) == old(uses).or(
            stmts_uses(
                stmts@.subrange(from as int, to as int),
                stmts@.subrange(from as int, to as int),
                scope@,
                in_class,
            ),
        ),
    decreases stmts, 0int,
{
    let ghost block = stmts@.subrange(from as int, to as int);
    let overloaded = collect_overloaded_names(stmts, from, to);
    let mut i: usize = from;
    assert(stmts@.subrange(from as int, from as int) =~= Seq::empty());
    assert(item_views(items@) =~= item_views(old(items)@) + Seq::<ItemView>::empty());
    while i < to
        invariant
            from <= i <= to <= stmts@.len(),
            block == stmts@.subrange(from as int, to as int),
            texts(overloaded@) == overloaded_names(block),
            item_views(items@) == item_views(old(items)@) + stmts_stub(
                stmts@.subrange(from as int, i as int),
                block,
                scope@,
                in_class,
                *cls,
            ),
            *uses == old(uses).or(
                stmts_uses(stmts@.subrange(from as int, i as int), block, scope@, in_class),
            ),
        decreases to - i,
    {
        let ghost after = stmts@.subrange(from as int, i + 1);
        assert(after.drop_last() =~= stmts@.subrange(from as int, i as int));
        assert(after.last() == stmts@[i as int]);
        assert(decreases_to!(stmts => stmts@[i as int]));
        extract_stmt(&stmts[i], &overloaded, scope, in_class, cls, uses, items);
        assert(item_views(items@) =~= item_views(old(items)@) + stmts_stub(
            after,
            block,
            scope@,
            in_class,
            *cls,
        ));
        i = i + 1;
    }
}

/// The names that a module exports by its `__all__`, where it has one that can be read.
pub open spec fn exported(module: ModuleSource) -> Option<Seq<Seq<char>>> {
    if module.dunder_all.is_specified {
        all_after(module.dunder_all.entries@)
    } else {
        None
    }
}

/// Extracts the items of a module and what has to be imported for them, before imports are pruned.
pub fn extract_items(module: &ModuleSource, scope: &Scope) -> (r: (Vec<StubItem>, Uses))
    ensures
        item_views(r.0@) == stmts_stub(module.body@, module.body@, scope@, false, None),
        r.1 == stmts_uses(module.body@, module.body@, scope@, false),
{
    let mut uses = Uses::new();
    let mut items: Vec<StubItem> = Vec::new();
    let n: usize = module.body.len();
    assert(item_views(items@) =~= Seq::empty());
    assert(module.body@.subrange(0, n as int) =~= module.body@);
    extract_stmts(&module.body, 0, n, scope, false, &None, &mut uses, &mut items);
    assert(item_views(items@) =~= stmts_stub(module.body@, module.body@, scope@, false, None));
    (items, uses)
}

/// What decides which names of a module are taken.
pub open spec fn scope_of(module: ModuleSource, config: ExtractConfig) -> ScopeView {
    ScopeView { config, dunder_all: exported(module) }
}

/// The scope of a module.
pub fn module_scope(module: &ModuleSource, config: &ExtractConfig) -> (r: Scope)
    ensures
        r@ == scope_of(*module, *config),
{
    Scope { config: *config, dunder_all: resolve_dunder_all(&module.dunder_all) }
}

} // verus!
