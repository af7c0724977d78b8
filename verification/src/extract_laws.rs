use vstd::prelude::*;

use crate::ast::{
    AnnAssign, Assign, AssignTarget, BinaryOperator, Callee, ClassDef, DunderAllEntry, FunctionDef,
    InitCallable, InitDefault, InitParam, InitType, ModuleSource, ResolvedClass, ResolvedField,
    ResolvedFunction, ResolvedParam, ShownType, SourceExpr, SourceExprKind, SourceParam,
    SourceParams, Stmt, UnaryOperator,
};
use crate::extract::{
    class_annotation, class_stub, decorator_texts, exported, function_stub, is_overload,
    kept_docstring, overloaded_names, stmt_stub, stmt_uses, stmts_stub, target_stub, ScopeView,
};
use crate::extract_init::{added_init_stub, init_param, init_params, refined};
use crate::extract_types::{
    all_after, default_text, included, param_annotation, simple_text, stub_param, stub_params,
    type_text, type_uses,
};
use crate::stub::{ExtractConfig, ItemView};

verus! {

/// Whether a name begins with two underscores.
pub open spec fn double_start(name: Seq<char>) -> bool {
    name.len() >= 2 && name[0] == '_' && name[1] == '_'
}

/// Whether a name ends with two underscores.
pub open spec fn double_end(name: Seq<char>) -> bool {
    name.len() >= 2 && name.last() == '_' && name[name.len() - 2] == '_'
}

/// Which names come into a stub: at the top level `__all__` decides where there is one. Otherwise
/// special names and public names do, private ones only on request, and names that are mangled only
/// inside classes.
pub proof fn law_public_names_are_taken(
    name: Seq<char>,
    config: ExtractConfig,
    in_class: bool,
    all: Option<Seq<Seq<char>>>,
)
    requires
        name.len() > 0,
        in_class || all is None,
    ensures
        name[0] != '_' ==> included(name, config, in_class, all),
        name[0] == '_' && !double_start(name) ==> included(name, config, in_class, all)
            == config.include_private,
        double_start(name) && double_end(name) ==> included(name, config, in_class, all),
        double_start(name) && !double_end(name) ==> included(name, config, in_class, all) == (
        in_class && config.include_private),
{
}

/// `__all__` holds what was added to it and not removed later; what it takes from another module is
/// not known, and then it decides nothing.
pub proof fn law_dunder_all_follows_its_entries(entries: Seq<DunderAllEntry>, name: String)
    ensures
        all_after(Seq::empty()) == Some(Seq::<Seq<char>>::empty()),
        all_after(entries.push(DunderAllEntry::Module)) is None,
        all_after(entries) is None ==> all_after(entries.push(DunderAllEntry::Name(name))) is None
            && all_after(entries.push(DunderAllEntry::Remove(name))) is None,
        all_after(entries) matches Some(names) ==> {
            &&& all_after(entries.push(DunderAllEntry::Name(name))) == Some(names.push(name@))
            &&& all_after(entries.push(DunderAllEntry::Remove(name))) matches Some(rest)
                && !rest.contains(name@) && forall|n: Seq<char>|
                n != name@ ==> (#[trigger] rest.contains(n)) == names.contains(n)
        },
{
    assert(entries.push(DunderAllEntry::Module).drop_last() =~= entries);
    assert(entries.push(DunderAllEntry::Name(name)).drop_last() =~= entries);
    assert(entries.push(DunderAllEntry::Remove(name)).drop_last() =~= entries);
    if let Some(names) = all_after(entries) {
        let keeps = |n: Seq<char>| n != name@;
        let rest = names.filter(keeps);
        assert(all_after(entries.push(DunderAllEntry::Remove(name))) == Some(rest));
        if rest.contains(name@) {
            let i = choose|i: int| 0 <= i < rest.len() && rest[i] == name@;
            names.lemma_filter_pred(keeps, i);
        }
        assert forall|n: Seq<char>| n != name@ implies (#[trigger] rest.contains(n))
            == names.contains(n) by {
            if names.contains(n) {
                let i = choose|i: int| 0 <= i < names.len() && names[i] == n;
                names.lemma_filter_contains(keeps, i);
            } else if rest.contains(n) {
                names.lemma_filter_contains_rev(keeps, n);
            }
        }
    }
}

/// A module without an `__all__` has none that decides.
pub proof fn law_modules_say_what_they_export(module: ModuleSource)
    ensures
        !module.dunder_all.is_specified ==> exported(module) is None,
        module.dunder_all.is_specified ==> exported(module) == all_after(
            module.dunder_all.entries@,
        ),
{
}

/// A default that is a literal is written as it is, the empty tuple and negative numbers too; any
/// other default is three dots.
pub proof fn law_literal_defaults_are_written(e: SourceExpr)
    ensures
        e.kind is NoneLiteral ==> default_text(e) == "None"@,
        e.kind matches SourceExprKind::BooleanLiteral(b) ==> default_text(e) == (if b {
            "True"@
        } else {
            "False"@
        }),
        e.kind is NumberLiteral || e.kind is StringLiteral || e.kind is BytesLiteral
            ==> default_text(e) == e.text@,
        e.kind matches SourceExprKind::UnaryOp(op, operand) ==> (op == UnaryOperator::USub
            && operand.kind is NumberLiteral ==> default_text(e) == e.text@),
        e.kind matches SourceExprKind::UnaryOp(op, operand) ==> (op != UnaryOperator::USub || !(
        operand.kind is NumberLiteral) ==> default_text(e) == "..."@),
        e.kind matches SourceExprKind::Tuple(elements) ==> default_text(e) == (if elements@.len()
            == 0 {
            "()"@
        } else {
            "..."@
        }),
        e.kind is Name || e.kind is Call || e.kind is Attribute || e.kind is Subscript || e.kind
            is BinOp || e.kind is EllipsisLiteral || e.kind is Other ==> default_text(e) == "..."@,
{
}

/// A type that cannot be written down stands as `Incomplete`, and every other type as it is. What
/// is written is what has to be imported.
pub proof fn law_types_are_written_or_incomplete(ty: ShownType)
    ensures
        ty.is_any ==> type_text(ty) == "Incomplete"@ && type_uses(ty).incomplete,
        ty.text@.contains('@') ==> type_text(ty) == "Incomplete"@ && type_uses(ty).incomplete,
        type_text(ty) == ty.text@ || type_text(ty) == "Incomplete"@,
        !type_uses(ty).incomplete ==> type_text(ty) == ty.text@,
        type_uses(ty).incomplete ==> type_text(ty) == "Incomplete"@ && !type_uses(ty).callable
            && !type_uses(ty).overload,
        type_uses(ty).self_type == (!ty.is_any && ty.mentions_self),
        !type_uses(ty).classvar,
{
    reveal_strlit("@");
    if ty.text@.contains('@') {
        let i = choose|i: int| 0 <= i < ty.text@.len() && ty.text@[i] == '@';
        let rest = ty.text@.skip(i);
        assert(rest.take(1) =~= "@"@);
        assert(crate::text::begins_with(rest, "@"@));
    }
}

/// A plain type is written as it is: one that is known, and in which neither an `@` nor the text of
/// an unknown type begins anywhere.
pub proof fn law_plain_types_are_written(ty: ShownType)
    requires
        !ty.is_any,
        forall|i: int| 0 <= i < ty.text@.len() ==> ty.text@[i] != '@' && ty.text@[i] != 'U',
    ensures
        type_text(ty) == ty.text@,
        !type_uses(ty).incomplete,
{
    reveal_strlit("@");
    reveal_strlit("Unknown");
    assert forall|i: int| 0 <= i <= ty.text@.len() implies !crate::text::begins_with(
        #[trigger] ty.text@.skip(i),
        "@"@,
    ) && !crate::text::begins_with(ty.text@.skip(i), "Unknown"@) by {
        let rest = ty.text@.skip(i);
        if rest.len() > 0 {
            assert(rest[0] == ty.text@[i]);
            assert(rest.take(1)[0] == rest[0]);
            assert("@"@[0] == '@');
            assert("Unknown"@[0] == 'U');
            if rest.len() >= 7 {
                assert(rest.take(7)[0] == rest[0]);
            }
        }
    }
}

/// An annotation that is written stays; otherwise the type that was found is written, but for the
/// receivers of methods, which stay bare.
pub proof fn law_written_annotations_stay(p: SourceParam, resolved: Option<ResolvedParam>)
    ensures
        p.annotation matches Some(text) ==> param_annotation(p, resolved) == Some(text@),
        p.annotation is None && resolved is None ==> param_annotation(p, resolved) is None,
        p.annotation is None ==> (resolved matches Some(r) ==> {
            let receiver = r.name matches Some(n) && (n@ == "self"@ || n@ == "cls"@);
            &&& receiver ==> param_annotation(p, resolved) is None
            &&& !receiver && r.ty.is_any ==> param_annotation(p, resolved) == Some("Incomplete"@)
            &&& !receiver && !type_uses(r.ty).incomplete ==> param_annotation(p, resolved) == Some(
                r.ty.text@,
            )
        }),
{
}

/// The parameters of a function keep their order and their names. A mark stands behind the
/// positional-only ones, and one in front of the keyword-only ones where no parameter collects the
/// rest of the positional arguments; the two parameters that collect arguments have their stars.
pub proof fn law_parameters_keep_their_kinds(
    ps: SourceParams,
    resolved: Option<ResolvedFunction>,
    i: int,
)
    ensures
        ({
            let all = stub_params(ps, resolved);
            let a = ps.posonlyargs@.len() as int;
            let b = a + if a > 0 {
                1int
            } else {
                0int
            };
            let c = b + ps.args@.len();
            let starred = ps.vararg is Some || ps.kwonlyargs@.len() > 0;
            let d = c + if starred {
                1int
            } else {
                0int
            };
            let e = d + ps.kwonlyargs@.len();
            &&& all.len() == e + if ps.kwarg is Some {
                1int
            } else {
                0int
            }
            &&& 0 <= i < a ==> all[i] == stub_param(""@, ps.posonlyargs@[i], resolved)
            &&& a > 0 ==> all[a].name == "/"@ && all[a].annotation is None && all[a].default is None
            &&& b <= i < c ==> all[i] == stub_param(""@, ps.args@[i - b], resolved)
            &&& ps.vararg matches Some(p) ==> all[c] == stub_param("*"@, p, resolved)
            &&& ps.vararg is None && starred ==> all[c].name == "*"@ && all[c].annotation is None
                && all[c].default is None
            &&& d <= i < e ==> all[i] == stub_param(""@, ps.kwonlyargs@[i - d], resolved)
            &&& ps.kwarg matches Some(p) ==> all[e] == stub_param("**"@, p, resolved)
        }),
{
}

/// A parameter keeps its name, its stars and its default where that is a literal.
pub proof fn law_parameters_keep_their_names(
    prefix: Seq<char>,
    p: SourceParam,
    resolved: Option<ResolvedFunction>,
)
    ensures
        stub_param(prefix, p, resolved).name == p.name@,
        stub_param(prefix, p, resolved).prefix == prefix,
        stub_param(prefix, p, resolved).default is Some == p.default is Some,
        p.default matches Some(e) ==> stub_param(prefix, p, resolved).default == Some(
            default_text(e),
        ),
        p.annotation matches Some(text) ==> stub_param(prefix, p, resolved).annotation == Some(
            text@,
        ),
{
}

/// A function keeps its name, its type parameters and whether it is asynchronous. What it returns
/// is what is written, or else the type that was found.
pub proof fn law_functions_keep_their_heads(f: FunctionDef, config: ExtractConfig, in_class: bool)
    ensures
        ({
            let stub = function_stub(f, config, in_class);
            &&& stub.name == f.name@
            &&& stub.is_async == f.is_async
            &&& stub.type_params is Some == f.type_params is Some
            &&& f.type_params matches Some(t) ==> stub.type_params == Some(t@)
            &&& stub.params == stub_params(f.params, f.resolved)
            &&& f.returns matches Some(text) ==> stub.return_type == Some(text@)
            &&& f.returns is None ==> match f.resolved {
                Some(r) => match r.return_type {
                    Some(ty) => stub.return_type == Some(type_text(ty)),
                    None => stub.return_type is None,
                },
                None => stub.return_type is None,
            }
            &&& !config.include_docstrings ==> stub.docstring is None
        }),
{
}

/// A docstring is a string that begins a body, and it is kept exactly on request.
pub proof fn law_docstrings_are_kept_on_request(config: ExtractConfig, body: Seq<Stmt>)
    ensures
        !config.include_docstrings || body.len() == 0 ==> kept_docstring(config, body) is None,
        config.include_docstrings && body.len() > 0 ==> match body[0] {
            Stmt::Expr(e) => match e.kind {
                SourceExprKind::StringLiteral(value) => kept_docstring(config, body) == Some(
                    seq!['"', '"', '"'] + value@ + seq!['"', '"', '"'],
                ),
                _ => kept_docstring(config, body) is None,
            },
            _ => kept_docstring(config, body) is None,
        },
{
    reveal_strlit("\"\"\"");
    assert("\"\"\""@ =~= seq!['"', '"', '"']);
}

/// Decorators are written behind an `@`, in their order. Only `computed_field` is left out, and
/// only inside classes.
pub proof fn law_decorators_are_kept(decorators: Seq<SourceExpr>, d: SourceExpr, in_class: bool)
    ensures
        decorator_texts(Seq::empty(), in_class).len() == 0,
        ({
            let computed = match d.kind {
                SourceExprKind::Name(name) => name@ == "computed_field"@,
                SourceExprKind::Attribute(_, attr) => attr@ == "computed_field"@,
                _ => false,
            };
            decorator_texts(decorators.push(d), in_class) == if in_class && computed {
                decorator_texts(decorators, in_class)
            } else {
                decorator_texts(decorators, in_class).push(seq!['@'] + d.text@)
            }
        }),
{
    reveal_strlit("@");
    assert("@"@ =~= seq!['@']);
    assert(decorators.push(d).drop_last() =~= decorators);
}

/// A function that is taken gives one item, unless it is what implements overloads of the same
/// name: then only the overloads are kept.
pub proof fn law_overloads_hide_their_implementation(
    f: FunctionDef,
    overloaded: Seq<Seq<char>>,
    scope: ScopeView,
    in_class: bool,
    cls: Option<ResolvedClass>,
)
    requires
        scope.takes(f.name@, in_class),
    ensures
        ({
            let items = stmt_stub(Stmt::FunctionDef(f), overloaded, scope, in_class, cls);
            let implements = overloaded.contains(f.name@) && !exists|i: int|
                0 <= i < f.decorators@.len() && match (#[trigger] f.decorators@[i]).kind {
                    SourceExprKind::Name(name) => name@ == "overload"@,
                    SourceExprKind::Attribute(Some(base), attr) => attr@ == "overload"@ && (base@
                        == "typing"@ || base@ == "typing_extensions"@),
                    _ => false,
                };
            &&& implements ==> items.len() == 0
            &&& !implements ==> items.len() == 1 && items[0] == ItemView::Function(
                function_stub(f, scope.config, in_class),
            )
        }),
{
    if is_overload(f) {
        let i = choose|i: int|
            0 <= i < f.decorators@.len() && #[trigger] crate::extract::overload_decorator(
                f.decorators@[i],
            );
        assert(f.decorators@[i] == f.decorators@[i]);
    } else {
        assert forall|i: int| 0 <= i < f.decorators@.len() implies !(match (
        #[trigger] f.decorators@[i]).kind {
            SourceExprKind::Name(name) => name@ == "overload"@,
            SourceExprKind::Attribute(Some(base), attr) => attr@ == "overload"@ && (base@
                == "typing"@ || base@ == "typing_extensions"@),
            _ => false,
        }) by {
            assert(!crate::extract::overload_decorator(f.decorators@[i]));
        }
    }
}

/// Imports are taken as they stand, statements under `TYPE_CHECKING` as if they stood outside, and
/// other conditions, expressions and other statements not at all. Names that are not taken give
/// nothing.
pub proof fn law_statements_are_taken_or_left(
    stmt: Stmt,
    overloaded: Seq<Seq<char>>,
    scope: ScopeView,
    in_class: bool,
    cls: Option<ResolvedClass>,
)
    ensures
        ({
            let items = stmt_stub(stmt, overloaded, scope, in_class, cls);
            &&& stmt matches Stmt::Import(text) ==> items == seq![ItemView::Import(text@)]
            &&& stmt is Expr || stmt is Other ==> items.len() == 0
            &&& stmt matches Stmt::If(i) ==> items == if (match i.test.kind {
                SourceExprKind::Name(name) => name@ == "TYPE_CHECKING"@,
                SourceExprKind::Attribute(_, attr) => attr@ == "TYPE_CHECKING"@,
                _ => false,
            }) {
                stmts_stub(i.body@, i.body@, scope, in_class, cls)
            } else {
                Seq::empty()
            }
            &&& stmt matches Stmt::FunctionDef(f) ==> (!scope.takes(f.name@, in_class)
                ==> items.len() == 0)
            &&& stmt matches Stmt::ClassDef(def) ==> items == if scope.takes(def.name@, in_class) {
                seq![ItemView::Class(class_stub(def, scope))]
            } else {
                Seq::empty()
            }
            &&& stmt matches Stmt::TypeAlias(t) ==> items == if (t.name matches Some(n)
                && !scope.takes(n@, in_class)) {
                Seq::empty()
            } else {
                seq![ItemView::TypeAlias(t.text@)]
            }
        }),
{
}

/// A declaration with an annotation keeps it, and its value where that is simple. It is taken
/// exactly where its target is a name that is taken.
pub proof fn law_declarations_keep_their_annotations(
    a: AnnAssign,
    overloaded: Seq<Seq<char>>,
    scope: ScopeView,
    in_class: bool,
    cls: Option<ResolvedClass>,
)
    ensures
        ({
            let items = stmt_stub(Stmt::AnnAssign(a), overloaded, scope, in_class, cls);
            &&& a.target is None ==> items.len() == 0
            &&& a.target matches Some(name) ==> {
                &&& !scope.takes(name@, in_class) ==> items.len() == 0
                &&& scope.takes(name@, in_class) ==> items.len() == 1 && (
                items[0] matches ItemView::Variable(v) && v.name == name@ && v.annotation == Some(
                    a.annotation@,
                ) && (a.value is None ==> v.value is None) && (a.value matches Some(e) ==> (e.kind
                    is NumberLiteral || e.kind is StringLiteral || e.kind is BytesLiteral ==> v.value
                    == Some(e.text@))))
            }
        }),
{
}

/// An assignment to a name that is taken gives the name with the type it was found to have, inside
/// a class as a class variable, and with its value where that is simple. `__all__` is not written,
/// and neither is a name of which nothing is known.
pub proof fn law_assignments_give_variables(
    t: AssignTarget,
    value: SourceExpr,
    scope: ScopeView,
    in_class: bool,
)
    ensures
        t.name is None ==> target_stub(t, value, scope, in_class) is None,
        t.name matches Some(name) ==> {
            let simple = value.kind is NoneLiteral || value.kind is BooleanLiteral || value.kind
                is NumberLiteral || value.kind is StringLiteral || value.kind is BytesLiteral
                || value.kind is EllipsisLiteral;
            &&& !scope.takes(name@, in_class) || name@ == "__all__"@ ==> target_stub(
                t,
                value,
                scope,
                in_class,
            ) is None
            &&& scope.takes(name@, in_class) && name@ != "__all__"@ && (t.definition is Some
                || simple) ==> (target_stub(t, value, scope, in_class) matches Some(v) && v.name
                == name@ && v.annotation == match t.definition {
                Some(ty) => Some(
                    if in_class {
                        class_annotation(type_text(ty))
                    } else {
                        type_text(ty)
                    },
                ),
                None => None,
            } && (simple ==> v.value == simple_text(value)) && (!simple && !in_class ==> v.value
                is None))
            &&& !in_class && !simple && t.definition is None ==> target_stub(
                t,
                value,
                scope,
                in_class,
            ) is None
        },
{
}

/// A value that is a literal is written as it is.
pub proof fn law_simple_values_are_written(e: SourceExpr)
    ensures
        e.kind is NoneLiteral ==> simple_text(e) == Some("None"@),
        e.kind matches SourceExprKind::BooleanLiteral(b) ==> simple_text(e) == Some(
            if b {
                "True"@
            } else {
                "False"@
            },
        ),
        e.kind is NumberLiteral || e.kind is StringLiteral || e.kind is BytesLiteral
            ==> simple_text(e) == Some(e.text@),
        e.kind is EllipsisLiteral ==> simple_text(e) == Some("..."@),
        e.kind is Name || e.kind is Call || e.kind is Attribute || e.kind is Subscript || e.kind
            is BinOp || e.kind is Tuple || e.kind is UnaryOp || e.kind is Other ==> simple_text(e)
            is None,
{
}

/// The type of an attribute of a class is written as that of a class variable, once.
pub proof fn law_class_variables_are_marked_once(text: Seq<char>)
    ensures
        ({
            let marked = class_annotation(text);
            &&& crate::text::begins_with(marked, "ClassVar["@)
            &&& class_annotation(marked) == marked
            &&& !crate::text::begins_with(text, "ClassVar["@) ==> marked == "ClassVar["@ + text
                + seq![']']
        }),
{
    reveal_strlit("]");
    assert("]"@ =~= seq![']']);
    let wrapped = "ClassVar["@ + text + "]"@;
    assert(wrapped.take("ClassVar["@.len() as int) =~= "ClassVar["@);
}

/// Assignments that make types, and those of unions and subscripted names, are taken as they stand.
pub proof fn law_type_assignments_stand_verbatim(
    a: Assign,
    name: String,
    overloaded: Seq<Seq<char>>,
    scope: ScopeView,
    in_class: bool,
    cls: Option<ResolvedClass>,
)
    requires
        a.targets@.len() == 1,
        a.targets@[0].name == Some(name),
        a.value.kind is Subscript || a.value.kind == SourceExprKind::BinOp(BinaryOperator::BitOr)
            || (a.value.kind matches SourceExprKind::Call(call) && (call.func matches Callee::Name(
            callee,
        ) && (callee@ == "TypeVar"@ || callee@ == "ParamSpec"@ || callee@ == "TypeVarTuple"@
            || callee@ == "NewType"@ || callee@ == "NamedTuple"@ || callee@ == "TypedDict"@))),
    ensures
        stmt_stub(Stmt::Assign(a), overloaded, scope, in_class, cls) == if scope.takes(
            name@,
            in_class,
        ) {
            seq![ItemView::TypeAlias(a.text@)]
        } else {
            Seq::empty()
        },
{
}

/// A class keeps its name, its type parameters, its bases and its decorators.
pub proof fn law_classes_keep_their_heads(def: ClassDef, scope: ScopeView)
    ensures
        ({
            let stub = class_stub(def, scope);
            &&& stub.name == def.name@
            &&& def.type_params matches Some(t) ==> stub.type_params == Some(t@)
            &&& def.type_params is None ==> stub.type_params is None
            &&& def.arguments is None ==> stub.bases.len() == 0
            &&& def.arguments matches Some(a) ==> (a.args@.len() == 1 && a.keywords@.len() == 0
                ==> stub.bases == a.args@[0]@)
            &&& stub.decorators == decorator_texts(def.decorators@, false)
            &&& !scope.config.include_docstrings ==> stub.docstring is None
        }),
{
    if let Some(a) = def.arguments {
        if a.args@.len() == 1 && a.keywords@.len() == 0 {
            assert(crate::text::texts(a.args@) + crate::extract::keyword_texts(a.keywords@)
                =~= seq![a.args@[0]@]);
        }
    }
}

/// Statements are taken one after the other: the items of a block are those of its beginning and
/// then those of its last statement.
pub proof fn law_statements_are_taken_in_turn(
    stmts: Seq<Stmt>,
    stmt: Stmt,
    block: Seq<Stmt>,
    scope: ScopeView,
    in_class: bool,
    cls: Option<ResolvedClass>,
)
    ensures
        stmts_stub(stmts.push(stmt), block, scope, in_class, cls) == stmts_stub(
            stmts,
            block,
            scope,
            in_class,
            cls,
        ) + stmt_stub(stmt, overloaded_names(block), scope, in_class, cls),
        stmts_stub(Seq::empty(), block, scope, in_class, cls).len() == 0,
{
    assert(stmts.push(stmt).drop_last() =~= stmts);
}

/// An attribute of a class that has a type needs `ClassVar`, and only such an attribute does.
pub proof fn law_class_attributes_need_class_var(
    a: Assign,
    overloaded: Seq<Seq<char>>,
    scope: ScopeView,
    in_class: bool,
)
    requires
        a.targets@.len() == 1,
        a.value.kind is Name || a.value.kind is NumberLiteral,
    ensures
        stmt_uses(Stmt::Assign(a), overloaded, scope, in_class).classvar == (in_class
            && a.targets@[0].definition is Some && (a.targets@[0].name matches Some(n)
            && scope.takes(n@, in_class) && n@ != "__all__"@)),
{
    assert(a.targets@.drop_last() =~= Seq::empty());
    assert(a.targets@.last() == a.targets@[0]);
    assert(crate::extract::targets_uses(a.targets@.drop_last(), scope, in_class)
        == crate::extract_types::Uses::nothing());
}

/// A constructor is added to a stub exactly where a class has one with a list of parameters that
/// says something: neither the receiver alone nor any arguments at all.
pub proof fn law_telling_constructors_are_added(
    cls: ResolvedClass,
    ret: ShownType,
    params: Vec<InitParam>,
    body: Seq<Stmt>,
)
    requires
        cls.init == Some(InitType::Function(InitCallable { params: Some(params), ret })),
        params@.len() >= 2,
        params@[0] is Pos,
        !(params@[1] is VarArg),
    ensures
        added_init_stub(cls, body) matches Some(f) && f.name == "__init__"@ && !f.is_async
            && f.decorators.len() == 0 && f.return_type == Some(type_text(ret)) && f.docstring
            is None,
{
}

/// A class without a constructor of its own adds none.
pub proof fn law_no_constructor_adds_nothing(cls: ResolvedClass, body: Seq<Stmt>)
    ensures
        cls.init is None ==> added_init_stub(cls, body) is None,
        cls.init matches Some(ty) ==> (ty is Other ==> added_init_stub(cls, body) is None),
        cls.init matches Some(InitType::Function(c)) ==> (c.params is None ==> added_init_stub(
            cls,
            body,
        ) is None),
{
}

/// A parameter of an added constructor has the name and the type of the field, but for the receiver,
/// which stays bare; one that may be left out has a default.
pub proof fn law_added_parameters_have_the_types(name: String, ty: ShownType, d: InitDefault)
    ensures
        ({
            let by_position = init_param(InitParam::Pos(name, ty, d));
            let by_keyword = init_param(InitParam::KwOnly(name, ty, d));
            let receiver = name@ == "self"@ || name@ == "cls"@;
            &&& by_position == by_keyword
            &&& by_position.name == name@
            &&& by_position.prefix.len() == 0
            &&& by_position.annotation == if receiver {
                None
            } else {
                Some(type_text(ty))
            }
            &&& by_position.default is None == d is Required
            &&& d is Optional ==> by_position.default == Some("..."@)
            &&& d matches InitDefault::Known(Some(text), _) ==> by_position.default == Some(text@)
        }),
{
    reveal_strlit("");
}

/// The mark for keyword-only parameters stands in front of the first of them, once.
pub proof fn law_keyword_only_parameters_are_marked(
    params: Seq<InitParam>,
    p: InitParam,
    body: Seq<Stmt>,
    fields: Seq<ResolvedField>,
)
    requires
        forall|i: int| 0 <= i < params.len() ==> !((#[trigger] params[i]) is KwOnly),
    ensures
        ({
            let before = init_params(params, false, body, fields);
            let after = init_params(params.push(p), false, body, fields);
            &&& p is KwOnly ==> after.len() == before.len() + 2 && after[before.len() as int].name
                == "*"@ && after.last() == refined(init_param(p), body, fields)
            &&& p is Kwargs ==> after == before
            &&& p is Pos ==> after == before.push(refined(init_param(p), body, fields))
        }),
{
    assert(params.push(p).drop_last() =~= params);
    assert(!crate::extract_init::has_kw_only(params)) by {
        if crate::extract_init::has_kw_only(params) {
            let i = choose|i: int|
                0 <= i < params.len() && #[trigger] crate::extract_init::is_kw_only(params[i]);
            assert(params[i] is KwOnly);
        }
    }
    let before = init_params(params, false, body, fields);
    let after = init_params(params.push(p), false, body, fields);
    if p is Pos {
        assert(after =~= before.push(refined(init_param(p), body, fields)));
    }
}

} // verus!
