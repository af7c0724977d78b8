use vstd::prelude::*;

use crate::stub::{
    class_view, item_view, item_views, opt_text, param_views, ClassStubView, FunctionView,
    ItemView, ModuleStub, ParamView, StubClass, StubFunction, StubItem, StubParam, StubVariable,
    VariableView,
};
use crate::text::{is_text, joined, texts};

verus! {

/// What an item is, for the blank lines around it.
#[derive(Clone, Copy, Debug, PartialEq, Eq, Structural)]
pub enum ItemKind {
    Import,
    Function,
    Class,
    Variable,
    TypeAlias,
}

pub open spec fn kind_of(item: ItemView) -> ItemKind {
    match item {
        ItemView::Import(_) => ItemKind::Import,
        ItemView::Function(_) => ItemKind::Function,
        ItemView::Class(_) => ItemKind::Class,
        ItemView::Variable(_) => ItemKind::Variable,
        ItemView::TypeAlias(_) => ItemKind::TypeAlias,
    }
}

/// The kind of an item.
pub fn item_kind(item: &StubItem) -> (r: ItemKind)
    ensures
        r == kind_of(item_view(*item)),
{
    match item {
        StubItem::Import(_) => ItemKind::Import,
        StubItem::Function(_) => ItemKind::Function,
        StubItem::Class(_) => ItemKind::Class,
        StubItem::Variable(_) => ItemKind::Variable,
        StubItem::TypeAlias(_) => ItemKind::TypeAlias,
    }
}

/// How many blank lines stand between two items: none inside blocks of imports and of variables,
/// two around functions and classes at the top level, one otherwise.
pub open spec fn blank_lines(prev: ItemKind, next: ItemKind, at_top_level: bool) -> nat {
    if (prev == ItemKind::Import && next == ItemKind::Import) || (prev == ItemKind::Variable && next
        == ItemKind::Variable) {
        0
    } else if at_top_level && (prev == ItemKind::Function || prev == ItemKind::Class || next
        == ItemKind::Function || next == ItemKind::Class) {
        2
    } else {
        1
    }
}

/// How many blank lines stand between two items.
pub fn blank_lines_between(prev: ItemKind, next: ItemKind, at_top_level: bool) -> (r: usize)
    ensures
        r == blank_lines(prev, next, at_top_level),
{
    match (prev, next) {
        (ItemKind::Import, ItemKind::Import) => 0,
        (ItemKind::Variable, ItemKind::Variable) => 0,
        (_, ItemKind::Function) if at_top_level => 2,
        (_, ItemKind::Class) if at_top_level => 2,
        (ItemKind::Function, _) if at_top_level => 2,
        (ItemKind::Class, _) if at_top_level => 2,
        _ => 1,
    }
}

pub open spec fn newlines(n: nat) -> Seq<char> {
    Seq::new(n, |i: int| '\n')
}

/// The indentation of a body.
pub open spec fn deeper(indent: Seq<char>) -> Seq<char> {
    indent + "    "@
}

/// An optional text behind a separator.
pub open spec fn behind(sep: Seq<char>, text: Option<Seq<char>>) -> Seq<char> {
    match text {
        Some(t) => sep + t,
        None => Seq::empty(),
    }
}

/// A parameter as it is written. The marks `*` and `/` stand for themselves.
pub open spec fn param_text(p: ParamView) -> Seq<char> {
    if p.name == "*"@ || p.name == "/"@ {
        p.name
    } else {
        p.prefix + p.name + behind(": "@, p.annotation) + behind(
            if p.annotation is Some {
                " = "@
            } else {
                "="@
            },
            p.default,
        )
    }
}

/// Parameters on one line.
pub open spec fn params_text(params: Seq<ParamView>) -> Seq<char>
    decreases params.len(),
{
    if params.len() == 0 {
        Seq::empty()
    } else if params.len() == 1 {
        param_text(params[0])
    } else {
        params_text(params.drop_last()) + ", "@ + param_text(params.last())
    }
}

/// Parameters each on a line of its own, with a comma behind the last.
pub open spec fn params_lines(params: Seq<ParamView>, indent: Seq<char>) -> Seq<char>
    decreases params.len(),
{
    if params.len() == 0 {
        Seq::empty()
    } else if params.len() == 1 {
        indent + param_text(params[0])
    } else {
        params_lines(params.drop_last(), indent) + ",\n"@ + indent + param_text(params.last())
    }
}

/// Decorators, each on a line of its own.
pub open spec fn decorator_lines(decorators: Seq<Seq<char>>, indent: Seq<char>) -> Seq<char>
    decreases decorators.len(),
{
    if decorators.len() == 0 {
        Seq::empty()
    } else {
        decorator_lines(decorators.drop_last(), indent) + indent + decorators.last() + "\n"@
    }
}

/// Whether the parameters of a function are written each on a line of its own: those of long
/// constructors are.
pub open spec fn multiline(f: FunctionView) -> bool {
    f.name == "__init__"@ && f.params.len() >= 5
}

/// The parameters of a function between the brackets.
pub open spec fn bracketed(f: FunctionView, indent: Seq<char>) -> Seq<char> {
    if multiline(f) {
        "\n"@ + params_lines(f.params, deeper(indent)) + ",\n"@ + indent
    } else {
        params_text(f.params)
    }
}

/// The body of a function: three dots, with the docstring above them.
pub open spec fn function_body(f: FunctionView, indent: Seq<char>) -> Seq<char> {
    match f.docstring {
        Some(ds) => ":\n"@ + deeper(indent) + ds + "\n"@ + deeper(indent) + "...\n"@,
        None => ": ...\n"@,
    }
}

/// A function as it is written.
pub open spec fn function_text(f: FunctionView, indent: Seq<char>) -> Seq<char> {
    decorator_lines(f.decorators, indent) + indent + (if f.is_async {
        "async "@
    } else {
        ""@
    }) + "def "@ + f.name + behind(""@, f.type_params) + "("@ + bracketed(f, indent) + ")"@
        + behind(" -> "@, f.return_type) + function_body(f, indent)
}

/// A variable as it is written.
pub open spec fn variable_text(v: VariableView, indent: Seq<char>) -> Seq<char> {
    indent + v.name + behind(": "@, v.annotation) + behind(" = "@, v.value) + "\n"@
}

/// The head of a class.
pub open spec fn class_head(c: ClassStubView, indent: Seq<char>) -> Seq<char> {
    decorator_lines(c.decorators, indent) + indent + "class "@ + c.name + behind(
        ""@,
        c.type_params,
    ) + (if c.bases.len() == 0 {
        Seq::empty()
    } else {
        "("@ + c.bases + ")"@
    }) + ":\n"@
}

/// The docstring of a class, on a line of its own.
pub open spec fn class_docstring(c: ClassStubView, indent: Seq<char>) -> Seq<char> {
    match c.docstring {
        Some(ds) => deeper(indent) + ds + "\n"@,
        None => Seq::empty(),
    }
}

/// A class as it is written. A class without items has three dots for a body.
pub open spec fn class_text(c: ClassStubView, indent: Seq<char>) -> Seq<char>
    decreases c,
{
    class_head(c, indent) + class_docstring(c, indent) + (if c.body.len() == 0 {
        deeper(indent) + "...\n"@
    } else {
        items_text(c.body, deeper(indent))
    })
}

/// An item as it is written.
pub open spec fn item_text(item: ItemView, indent: Seq<char>) -> Seq<char>
    decreases item,
{
    match item {
        ItemView::Import(text) => indent + text + "\n"@,
        ItemView::Function(f) => function_text(f, indent),
        ItemView::Class(c) => class_text(c, indent),
        ItemView::Variable(v) => variable_text(v, indent),
        ItemView::TypeAlias(text) => indent + text + "\n"@,
    }
}

/// Items as they are written, with blank lines between them.
pub open spec fn items_text(items: Seq<ItemView>, indent: Seq<char>) -> Seq<char>
    decreases items,
{
    if items.len() == 0 {
        Seq::empty()
    } else if items.len() == 1 {
        item_text(items[0], indent)
    } else {
        items_text(items.drop_last(), indent) + newlines(
            blank_lines(
                kind_of(items[items.len() - 2]),
                kind_of(items.last()),
                indent.len() == 0,
            ),
        ) + item_text(items.last(), indent)
    }
}

/// The names that are imported from `typing`.
pub open spec fn typing_names(stub: ModuleStub) -> Seq<Seq<char>> {
    (if stub.uses_callable {
        seq!["Callable"@]
    } else {
        Seq::empty()
    }) + (if stub.uses_classvar {
        seq!["ClassVar"@]
    } else {
        Seq::empty()
    }) + (if stub.uses_overload {
        seq!["Overload"@]
    } else {
        Seq::empty()
    }) + (if stub.uses_self {
        seq!["Self"@]
    } else {
        Seq::empty()
    })
}

/// The imports that the stub needs for itself.
pub open spec fn header_text(stub: ModuleStub) -> Seq<char> {
    let names = typing_names(stub);
    (if names.len() > 0 {
        "from typing import "@ + joined(names, ", "@) + "\n"@
    } else {
        Seq::empty()
    }) + (if stub.uses_incomplete {
        "from _typeshed import Incomplete\n"@
    } else {
        Seq::empty()
    }) + (if names.len() > 0 || stub.uses_incomplete {
        "\n"@
    } else {
        Seq::empty()
    })
}

/// Text that ends with a line break.
pub open spec fn closed_line(text: Seq<char>) -> Seq<char> {
    if text.len() > 0 && text.last() == '\n' {
        text
    } else {
        text.push('\n')
    }
}

/// The text of a stub file.
pub open spec fn stub_text(stub: ModuleStub) -> Seq<char> {
    closed_line(header_text(stub) + items_text(item_views(stub.items@), Seq::empty()))
}

fn push_opt(out: &mut String, sep: &str, text: &Option<String>)
    ensures
        final(out)@ == old(out)@ + behind(sep@, opt_text(*text)),
{
    if let Some(t) = text {
        out.append(sep);
        out.append(t.as_str());
        assert(out@ =~= old(out)@ + (sep@ + t@));
    } else {
        assert(out@ =~= old(out)@ + Seq::<char>::empty());
    }
}

fn emit_one_param(param: &StubParam, out: &mut String)
    ensures
        final(out)@ == old(out)@ + param_text(param@),
{
    if is_text(&param.name, "*") || is_text(&param.name, "/") {
        out.append(param.name.as_str());
        return ;
    }
    out.append(param.prefix);
    out.append(param.name.as_str());
    push_opt(out, ": ", &param.annotation);
    if param.annotation.is_some() {
        push_opt(out, " = ", &param.default);
    } else {
        push_opt(out, "=", &param.default);
    }
    assert(out@ =~= old(out)@ + param_text(param@));
}

fn emit_params(params: &Vec<StubParam>, out: &mut String)
    ensures
        final(out)@ == old(out)@ + params_text(param_views(params@)),
{
    let ghost views = param_views(params@);
    let mut i: usize = 0;
    assert(views.take(0) =~= Seq::empty());
    assert(out@ =~= old(out)@ + Seq::<char>::empty());
    while i < params.len()
        invariant
            i <= params@.len(),
            views == param_views(params@),
            out@ == old(out)@ + params_text(views.take(i as int)),
        decreases params@.len() - i,
    {
        assert(views.take(i + 1).drop_last() =~= views.take(i as int));
        assert(views.take(i + 1).last() == params@[i as int]@);
        assert(i == 0 ==> views.take(1)[0] == params@[0]@);
        if i > 0 {
            out.append(", ");
        }
        emit_one_param(&params[i], out);
        assert(out@ =~= old(out)@ + params_text(views.take(i + 1)));
        i = i + 1;
    }
    assert(views.take(i as int) =~= views);
}

fn emit_params_multiline(params: &Vec<StubParam>, out: &mut String, line_indent: &str)
    ensures
        final(out)@ == old(out)@ + params_lines(param_views(params@), line_indent@) + (
        if params@.len() == 0 {
            Seq::empty()
        } else {
            ","@
        }),
{
    let ghost views = param_views(params@);
    let mut i: usize = 0;
    assert(views.take(0) =~= Seq::empty());
    assert(out@ =~= old(out)@ + Seq::<char>::empty());
    while i < params.len()
        invariant
            i <= params@.len(),
            views == param_views(params@),
            out@ == old(out)@ + params_lines(views.take(i as int), line_indent@),
        decreases params@.len() - i,
    {
        assert(views.take(i + 1).drop_last() =~= views.take(i as int));
        assert(views.take(i + 1).last() == params@[i as int]@);
        assert(i == 0 ==> views.take(1)[0] == params@[0]@);
        if i > 0 {
            out.append(",\n");
        }
        out.append(line_indent);
        emit_one_param(&params[i], out);
        assert(out@ =~= old(out)@ + params_lines(views.take(i + 1), line_indent@));
        i = i + 1;
    }
    assert(views.take(i as int) =~= views);
    if params.len() > 0 {
        out.append(",");
    }
    assert(out@ =~= old(out)@ + params_lines(views, line_indent@) + (if params@.len() == 0 {
        Seq::empty()
    } else {
        ","@
    }));
}

fn emit_decorators(decorators: &Vec<String>, out: &mut String, indent: &str)
    ensures
        final(out)@ == old(out)@ + decorator_lines(texts(decorators@), indent@),
{
    let ghost views = texts(decorators@);
    let mut i: usize = 0;
    assert(views.take(0) =~= Seq::empty());
    assert(out@ =~= old(out)@ + Seq::<char>::empty());
    while i < decorators.len()
        invariant
            i <= decorators@.len(),
            views == texts(decorators@),
            out@ == old(out)@ + decorator_lines(views.take(i as int), indent@),
        decreases decorators@.len() - i,
    {
        assert(views.take(i + 1).drop_last() =~= views.take(i as int));
        assert(views.take(i + 1).last() == decorators@[i as int]@);
        out.append(indent);
        out.append(decorators[i].as_str());
        out.append("\n");
        assert(out@ =~= old(out)@ + decorator_lines(views.take(i + 1), indent@));
        i = i + 1;
    }
    assert(views.take(i as int) =~= views);
}

fn indented(indent: &str) -> (r: String)
    ensures
        r@ == deeper(indent@),
{
    crate::text::cat2(indent, "    ")
}

fn emit_brackets(func: &StubFunction, out: &mut String, indent: &str)
    ensures
        final(out)@ == old(out)@ + bracketed(func@, indent@),
{
    assert(func@.params.len() == func.params@.len());
    if is_text(&func.name, "__init__") && func.params.len() >= 5 {
        let param_indent = indented(indent);
        out.append("\n");
        emit_params_multiline(&func.params, out, param_indent.as_str());
        out.append("\n");
        out.append(indent);
        proof {
            reveal_strlit(",");
            reveal_strlit("\n");
            reveal_strlit(",\n");
        }
        assert(","@ + "\n"@ =~= ",\n"@);
        assert(out@ =~= old(out)@ + bracketed(func@, indent@));
    } else {
        emit_params(&func.params, out);
    }
}

fn emit_function_body(func: &StubFunction, out: &mut String, indent: &str)
    ensures
        final(out)@ == old(out)@ + function_body(func@, indent@),
{
    if let Some(ds) = &func.docstring {
        let body_indent = indented(indent);
        out.append(":\n");
        out.append(body_indent.as_str());
        out.append(ds.as_str());
        out.append("\n");
        out.append(body_indent.as_str());
        out.append("...\n");
    } else {
        out.append(": ...\n");
    }
    assert(out@ =~= old(out)@ + function_body(func@, indent@));
}

fn emit_function(func: &StubFunction, out: &mut String, indent: &str)
    ensures
        final(out)@ == old(out)@ + function_text(func@, indent@),
{
    emit_decorators(&func.decorators, out, indent);
    out.append(indent);
    if func.is_async {
        out.append("async ");
    } else {
        out.append("");
    }
    out.append("def ");
    out.append(func.name.as_str());
    push_opt(out, "", &func.type_params);
    out.append("(");
    emit_brackets(func, out, indent);
    out.append(")");
    push_opt(out, " -> ", &func.return_type);
    emit_function_body(func, out, indent);
    assert(out@ =~= old(out)@ + function_text(func@, indent@));
}

fn emit_variable(var: &StubVariable, out: &mut String, indent: &str)
    ensures
        final(out)@ == old(out)@ + variable_text(var@, indent@),
{
    out.append(indent);
    out.append(var.name.as_str());
    push_opt(out, ": ", &var.annotation);
    push_opt(out, " = ", &var.value);
    out.append("\n");
    assert(out@ =~= old(out)@ + variable_text(var@, indent@));
}

fn emit_class_head(cls: &StubClass, out: &mut String, indent: &str)
    ensures
        final(out)@ == old(out)@ + class_head(class_view(*cls), indent@) + class_docstring(
            class_view(*cls),
            indent@,
        ),
{
    emit_decorators(&cls.decorators, out, indent);
    out.append(indent);
    out.append("class ");
    out.append(cls.name.as_str());
    push_opt(out, "", &cls.type_params);
    let has_bases = cls.bases.as_str().unicode_len() > 0;
    if has_bases {
        out.append("(");
        out.append(cls.bases.as_str());
        out.append(")");
    }
    out.append(":\n");
    assert(out@ =~= old(out)@ + class_head(class_view(*cls), indent@));
    if let Some(ds) = &cls.docstring {
        let body_indent = indented(indent);
        out.append(body_indent.as_str());
        out.append(ds.as_str());
        out.append("\n");
    }
    assert(out@ =~= old(out)@ + class_head(class_view(*cls), indent@) + class_docstring(
        class_view(*cls),
        indent@,
    ));
}

fn emit_class(cls: &StubClass, out: &mut String, indent: &str)
    ensures
        final(out)@ == old(out)@ + class_text(class_view(*cls), indent@),
    decreases cls, 1int,
{
    emit_class_head(cls, out, indent);
    let body_indent = indented(indent);
    proof {
        crate::stub::lemma_item_views(cls.body@);
    }
    if cls.body.len() == 0 {
        out.append(body_indent.as_str());
        out.append("...\n");
    } else {
        emit_items(&cls.body, out, body_indent.as_str());
    }
    assert(out@ =~= old(out)@ + class_text(class_view(*cls), indent@));
}

fn emit_item(item: &StubItem, out: &mut String, indent: &str)
    ensures
        final(out)@ == old(out)@ + item_text(item_view(*item), indent@),
    decreases item, 1int,
{
    match item {
        StubItem::Import(imp) => {
            out.append(indent);
            out.append(imp.text.as_str());
            out.append("\n");
        },
        StubItem::Function(func) => emit_function(func, out, indent),
        StubItem::Class(cls) => emit_class(cls, out, indent),
        StubItem::Variable(var) => emit_variable(var, out, indent),
        StubItem::TypeAlias(ta) => {
            out.append(indent);
            out.append(ta.text.as_str());
            out.append("\n");
        },
    }
    assert(out@ =~= old(out)@ + item_text(item_view(*item), indent@));
}

fn push_newlines(n: usize, out: &mut String)
    ensures
        final(out)@ == old(out)@ + newlines(n as nat),
{
    let mut i: usize = 0;
    assert(out@ =~= old(out)@ + newlines(0));
    while i < n
        invariant
            i <= n,
            out@ == old(out)@ + newlines(i as nat),
        decreases n - i,
    {
        out.push('\n');
        assert(out@ =~= old(out)@ + newlines((i + 1) as nat));
        i = i + 1;
    }
}

/// Appends items at the given indentation.
pub fn emit_items(items: &Vec<StubItem>, out: &mut String, indent: &str)
    ensures
        final(out)@ == old(out)@ + items_text(item_views(items@), indent@),
    decreases items, 1int,
{
    let at_top_level = indent.unicode_len() == 0;
    let ghost views = item_views(items@);
    proof {
        crate::stub::lemma_item_views(items@);
    }
    let mut i: usize = 0;
    assert(views.take(0) =~= Seq::empty());
    assert(out@ =~= old(out)@ + Seq::<char>::empty());
    while i < items.len()
        invariant
            i <= items@.len(),
            views == item_views(items@),
            views.len() == items@.len(),
            forall|k: int| 0 <= k < items@.len() ==> #[trigger] views[k] == item_view(items@[k]),
            at_top_level == (indent@.len() == 0),
            out@ == old(out)@ + items_text(views.take(i as int), indent@),
        decreases items@.len() - i,
    {
        assert(views.take(i + 1).drop_last() =~= views.take(i as int));
        assert(views.take(i + 1).last() == views[i as int]);
        assert(views[i as int] == item_view(items@[i as int]));
        if i > 0 {
            assert(views.take(i + 1)[i - 1] == views[i - 1]);
            assert(views[i - 1] == item_view(items@[i - 1]));
            let blanks = blank_lines_between(
                item_kind(&items[i - 1]),
                item_kind(&items[i]),
                at_top_level,
            );
            push_newlines(blanks, out);
        } else {
            assert(views.take(1)[0] == views[0]);
        }
        assert(decreases_to!(items => items@[i as int]));
        emit_item(&items[i], out, indent);
        assert(out@ =~= old(out)@ + items_text(views.take(i + 1), indent@));
        i = i + 1;
    }
    assert(views.take(i as int) =~= views);
}

fn push_typing_names(stub: &ModuleStub) -> (r: Vec<String>)
    ensures
        texts(r@) == typing_names(*stub),
{
    let mut names: Vec<String> = Vec::new();
    if stub.uses_callable {
        names.push("Callable".to_owned());
    }
    if stub.uses_classvar {
        names.push("ClassVar".to_owned());
    }
    if stub.uses_overload {
        names.push("Overload".to_owned());
    }
    if stub.uses_self {
        names.push("Self".to_owned());
    }
    assert(texts(names@) =~= typing_names(*stub));
    names
}

/// The text of a stub file.
pub fn emit_stub(stub: &ModuleStub) -> (r: String)
    ensures
        r@ == stub_text(*stub),
{
    let mut out: String = String::new();
    let names = push_typing_names(stub);
    assert(typing_names(*stub).len() == names@.len());
    if names.len() > 0 {
        let list = crate::text::join(&names, ", ");
        out.append("from typing import ");
        out.append(list.as_str());
        out.append("\n");
    }
    if stub.uses_incomplete {
        out.append("from _typeshed import Incomplete\n");
    }
    if names.len() > 0 || stub.uses_incomplete {
        out.append("\n");
    }
    assert(out@ =~= header_text(*stub));
    emit_items(&stub.items, &mut out, "");
    proof {
        reveal_strlit("");
        assert(""@ =~= Seq::<char>::empty());
    }
    let n: usize = out.as_str().unicode_len();
    let closed = n > 0 && out.as_str().get_char(n - 1) == '\n';
    if !closed {
        out.push('\n');
    }
    out
}

/// A stub file ends with a line break.
pub proof fn law_stub_ends_with_newline(stub: ModuleStub)
    ensures
        stub_text(stub).len() > 0,
        stub_text(stub).last() == '\n',
{
}

/// What is imported for the stub itself stands in front of all items.
pub proof fn law_imports_precede_items(stub: ModuleStub)
    ensures
        crate::text::begins_with(stub_text(stub), header_text(stub)),
{
    let text = header_text(stub) + items_text(item_views(stub.items@), Seq::empty());
    assert(stub_text(stub).take(header_text(stub).len() as int) =~= header_text(stub));
}

/// Items are written one after the other: what stands in front does not change what follows, and
/// only the kinds of the two items that meet decide how many blank lines are between them.
pub proof fn law_items_are_written_in_turn(a: Seq<ItemView>, b: Seq<ItemView>, indent: Seq<char>)
    requires
        a.len() > 0,
        b.len() > 0,
    ensures
        items_text(a + b, indent) == items_text(a, indent) + newlines(
            blank_lines(kind_of(a.last()), kind_of(b[0]), indent.len() == 0),
        ) + items_text(b, indent),
    decreases b.len(),
{
    let all = a + b;
    assert(all.drop_last() =~= a + b.drop_last());
    assert(all.last() == b.last());
    if b.len() == 1 {
        assert(a + b.drop_last() =~= a);
        assert(all[all.len() - 2] == a.last());
    } else {
        law_items_are_written_in_turn(a, b.drop_last(), indent);
        assert(all[all.len() - 2] == b[b.len() - 2]);
        assert(b.drop_last()[0] == b[0]);
    }
    assert(items_text(all, indent) =~= items_text(a, indent) + newlines(
        blank_lines(kind_of(a.last()), kind_of(b[0]), indent.len() == 0),
    ) + items_text(b, indent));
}

/// No items are written as nothing.
pub proof fn law_no_items_are_nothing(indent: Seq<char>)
    ensures
        items_text(Seq::empty(), indent) == Seq::<char>::empty(),
{
}

} // verus!
