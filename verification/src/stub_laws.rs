use vstd::prelude::*;

use crate::emit::{
    blank_lines, bracketed, class_text, decorator_lines, deeper, function_text, header_text,
    item_text, items_text, param_text, params_lines, params_text, typing_names, variable_text,
    ItemKind,
};
use crate::stub::{ClassStubView, FunctionView, ItemView, ModuleStub, ParamView, VariableView};

verus! {

/// A function is written as asynchronous exactly where it is: behind its decorators and the
/// indentation stands `async def` and its name, or `def` and its name.
pub proof fn law_async_functions_are_written_async(f: FunctionView, indent: Seq<char>)
    ensures
        ({
            let head = decorator_lines(f.decorators, indent) + indent;
            &&& f.is_async ==> (head + "async def "@ + f.name).is_prefix_of(
                function_text(f, indent),
            )
            &&& !f.is_async ==> (head + "def "@ + f.name).is_prefix_of(function_text(f, indent))
        }),
{
    reveal_strlit("async def ");
    reveal_strlit("async ");
    reveal_strlit("def ");
    reveal_strlit("");
    let head = decorator_lines(f.decorators, indent) + indent;
    let text = function_text(f, indent);
    let start = head + (if f.is_async {
        "async def "@
    } else {
        "def "@
    }) + f.name;
    assert("async "@ + "def "@ =~= "async def "@);
    assert(text.subrange(0, start.len() as int) =~= start);
}

/// Two functions that differ in being asynchronous alone never have the same text.
pub proof fn law_async_is_told_apart(f: FunctionView, indent: Seq<char>)
    requires
        f.is_async,
    ensures
        ({
            let plain = function_text((FunctionView { is_async: false, ..f }), indent);
            &&& function_text(f, indent).len() == plain.len() + 6
            &&& function_text(f, indent) != plain
        }),
{
    reveal_strlit("async ");
    reveal_strlit("");
}

/// Decorators stand above the function, each on a line of its own, in their order.
pub proof fn law_decorators_stand_above(
    f: FunctionView,
    first: Seq<char>,
    rest: Seq<Seq<char>>,
    indent: Seq<char>,
)
    ensures
        function_text((FunctionView { decorators: seq![first] + rest, ..f }), indent) == indent
            + first + seq!['\n'] + function_text((FunctionView { decorators: rest, ..f }), indent),
{
    reveal_strlit("\n");
    lemma_first_decorator(first, rest, indent);
    assert("\n"@ =~= seq!['\n']);
    let whole = FunctionView { decorators: seq![first] + rest, ..f };
    let fewer = FunctionView { decorators: rest, ..f };
    assert(bracketed(whole, indent) == bracketed(fewer, indent));
    assert(function_text(whole, indent) =~= indent + first + seq!['\n'] + function_text(
        fewer,
        indent,
    ));
}

proof fn lemma_first_decorator(first: Seq<char>, rest: Seq<Seq<char>>, indent: Seq<char>)
    ensures
        decorator_lines(seq![first] + rest, indent) == indent + first + "\n"@ + decorator_lines(
            rest,
            indent,
        ),
    decreases rest.len(),
{
    let all = seq![first] + rest;
    if rest.len() == 0 {
        assert(all.drop_last() =~= Seq::empty());
        assert(all.last() == first);
        assert(rest =~= Seq::empty());
        assert(decorator_lines(all.drop_last(), indent) =~= Seq::empty());
        assert(decorator_lines(all, indent) =~= indent + first + "\n"@);
    } else {
        lemma_first_decorator(first, rest.drop_last(), indent);
        assert(all.drop_last() =~= seq![first] + rest.drop_last());
        assert(all.last() == rest.last());
        assert(decorator_lines(all, indent) =~= indent + first + "\n"@ + decorator_lines(
            rest,
            indent,
        ));
    }
}

/// A function without decorators and docstring that is not a long constructor stands on one line:
/// its name, its type parameters, its parameters in round brackets, what it returns, and three dots
/// for a body.
pub proof fn law_functions_stand_on_one_line(f: FunctionView, indent: Seq<char>)
    requires
        f.decorators.len() == 0,
        !f.is_async,
        f.docstring is None,
        !(f.name == "__init__"@ && f.params.len() >= 5),
    ensures
        ({
            let head = indent + "def "@ + f.name + match f.type_params {
                Some(t) => t,
                None => Seq::empty(),
            } + seq!['('] + params_text(f.params);
            function_text(f, indent) == match f.return_type {
                Some(ty) => head + ") -> "@ + ty + ": ...\n"@,
                None => head + "): ...\n"@,
            }
        }),
{
    reveal_strlit("(");
    reveal_strlit(")");
    reveal_strlit(" -> ");
    reveal_strlit(") -> ");
    reveal_strlit(": ...\n");
    reveal_strlit("): ...\n");
    reveal_strlit("");
    let head = indent + "def "@ + f.name + match f.type_params {
        Some(t) => t,
        None => Seq::empty(),
    } + seq!['('] + params_text(f.params);
    assert(")"@ + " -> "@ =~= ") -> "@);
    assert(")"@ + ": ...\n"@ =~= "): ...\n"@);
    assert(f.decorators =~= Seq::empty());
    assert(decorator_lines(f.decorators, indent) =~= Seq::empty());
    match f.return_type {
        Some(ty) => {
            assert(function_text(f, indent) =~= head + ") -> "@ + ty + ": ...\n"@);
        },
        None => {
            assert(function_text(f, indent) =~= head + "): ...\n"@);
        },
    }
}

/// A docstring stands in the body, one level deeper than the function, with three dots below it.
pub proof fn law_docstrings_stand_in_bodies(f: FunctionView, ds: Seq<char>, indent: Seq<char>)
    requires
        f.docstring == Some(ds),
    ensures
        ({
            let bare = FunctionView { docstring: None, ..f };
            let head = function_text(bare, indent).take(function_text(bare, indent).len() - 6);
            function_text(f, indent) == head + ":\n"@ + indent + "    "@ + ds + seq!['\n'] + indent
                + "    ...\n"@
        }),
{
    reveal_strlit(": ...\n");
    reveal_strlit(":\n");
    reveal_strlit("...\n");
    reveal_strlit("    ");
    reveal_strlit("    ...\n");
    reveal_strlit("\n");
    let bare = FunctionView { docstring: None, ..f };
    let text = function_text(bare, indent);
    let head = text.take(text.len() - 6);
    assert(bracketed(f, indent) == bracketed(bare, indent));
    assert("    "@ + "...\n"@ =~= "    ...\n"@);
    assert(function_text(f, indent) =~= head + ":\n"@ + indent + "    "@ + ds + seq!['\n'] + indent
        + "    ...\n"@);
}

/// Only constructors with five parameters or more have each parameter on a line of its own, one
/// level deeper, with a comma behind each.
pub proof fn law_long_constructors_are_spread_out(f: FunctionView, indent: Seq<char>)
    ensures
        f.name == "__init__"@ && f.params.len() >= 5 ==> bracketed(f, indent) == seq!['\n']
            + params_lines(f.params, indent + "    "@) + ",\n"@ + indent,
        f.name != "__init__"@ || f.params.len() < 5 ==> bracketed(f, indent) == params_text(
            f.params,
        ),
{
    reveal_strlit("\n");
    assert("\n"@ =~= seq!['\n']);
}

/// Parameters are separated by a comma and a space, or by a comma and a line break with the
/// indentation of the parameters.
pub proof fn law_parameters_are_separated(a: Seq<ParamView>, b: Seq<ParamView>, indent: Seq<char>)
    requires
        a.len() > 0,
        b.len() > 0,
    ensures
        params_text(a + b) == params_text(a) + seq![',', ' '] + params_text(b),
        params_lines(a + b, indent) == params_lines(a, indent) + seq![',', '\n'] + params_lines(
            b,
            indent,
        ),
    decreases b.len(),
{
    reveal_strlit(", ");
    reveal_strlit(",\n");
    assert(", "@ =~= seq![',', ' ']);
    assert(",\n"@ =~= seq![',', '\n']);
    let all = a + b;
    assert(all.drop_last() =~= a + b.drop_last());
    assert(all.last() == b.last());
    if b.len() == 1 {
        assert(a + b.drop_last() =~= a);
    } else {
        law_parameters_are_separated(a, b.drop_last(), indent);
    }
    assert(params_text(all) =~= params_text(a) + seq![',', ' '] + params_text(b));
    assert(params_lines(all, indent) =~= params_lines(a, indent) + seq![',', '\n'] + params_lines(
        b,
        indent,
    ));
}

/// A single parameter is written as it is on one line, and behind the indentation on a line of its
/// own.
pub proof fn law_single_parameters_stand_alone(p: ParamView, indent: Seq<char>)
    ensures
        params_text(seq![p]) == param_text(p),
        params_lines(seq![p], indent) == indent + param_text(p),
        params_text(Seq::empty()) == Seq::<char>::empty(),
{
}

/// A parameter is its stars, its name, its annotation behind a colon and its default behind an equals
/// sign, which has spaces around it exactly where there is an annotation. The marks between
/// parameters stand for themselves.
pub proof fn law_parameters_are_written(p: ParamView)
    ensures
        p.name == "*"@ || p.name == "/"@ ==> param_text(p) == p.name,
        p.name != "*"@ && p.name != "/"@ ==> param_text(p) == match (p.annotation, p.default) {
            (None, None) => p.prefix + p.name,
            (Some(ty), None) => p.prefix + p.name + seq![':', ' '] + ty,
            (None, Some(value)) => p.prefix + p.name + seq!['='] + value,
            (Some(ty), Some(value)) => p.prefix + p.name + seq![':', ' '] + ty + seq![' ', '=', ' ']
                + value,
        },
{
    reveal_strlit(": ");
    reveal_strlit(" = ");
    reveal_strlit("=");
    assert(": "@ =~= seq![':', ' ']);
    assert(" = "@ =~= seq![' ', '=', ' ']);
    assert("="@ =~= seq!['=']);
    if p.name != "*"@ && p.name != "/"@ {
        match (p.annotation, p.default) {
            (None, None) => {
                assert(param_text(p) =~= p.prefix + p.name);
            },
            (Some(ty), None) => {
                assert(param_text(p) =~= p.prefix + p.name + seq![':', ' '] + ty);
            },
            (None, Some(value)) => {
                assert(param_text(p) =~= p.prefix + p.name + seq!['='] + value);
            },
            (Some(ty), Some(value)) => {
                assert(param_text(p) =~= p.prefix + p.name + seq![':', ' '] + ty + seq![
                    ' ',
                    '=',
                    ' ',
                ] + value);
            },
        }
    }
}

/// A variable stands on a line of its own: its name, its annotation behind a colon and its value
/// behind an equals sign, each where there is one.
pub proof fn law_variables_are_written(v: VariableView, indent: Seq<char>)
    ensures
        variable_text(v, indent) == match (v.annotation, v.value) {
            (None, None) => indent + v.name + seq!['\n'],
            (Some(ty), None) => indent + v.name + seq![':', ' '] + ty + seq!['\n'],
            (None, Some(value)) => indent + v.name + seq![' ', '=', ' '] + value + seq!['\n'],
            (Some(ty), Some(value)) => indent + v.name + seq![':', ' '] + ty + seq![' ', '=', ' ']
                + value + seq!['\n'],
        },
{
    reveal_strlit(": ");
    reveal_strlit(" = ");
    reveal_strlit("\n");
    assert(": "@ =~= seq![':', ' ']);
    assert(" = "@ =~= seq![' ', '=', ' ']);
    assert("\n"@ =~= seq!['\n']);
    match (v.annotation, v.value) {
        (None, None) => {
            assert(variable_text(v, indent) =~= indent + v.name + seq!['\n']);
        },
        (Some(ty), None) => {
            assert(variable_text(v, indent) =~= indent + v.name + seq![':', ' '] + ty + seq!['\n']);
        },
        (None, Some(value)) => {
            assert(variable_text(v, indent) =~= indent + v.name + seq![' ', '=', ' '] + value
                + seq!['\n']);
        },
        (Some(ty), Some(value)) => {
            assert(variable_text(v, indent) =~= indent + v.name + seq![':', ' '] + ty + seq![
                ' ',
                '=',
                ' ',
            ] + value + seq!['\n']);
        },
    }
}

/// A class without decorators is its name, its type parameters and its bases in round brackets
/// where it has some, and below them, one level deeper, its docstring and its items, or three dots
/// where it has no items.
pub proof fn law_classes_are_written(c: ClassStubView, indent: Seq<char>)
    requires
        c.decorators.len() == 0,
    ensures
        ({
            let named = indent + "class "@ + c.name + match c.type_params {
                Some(t) => t,
                None => Seq::empty(),
            };
            let head = named + if c.bases.len() == 0 {
                ":\n"@
            } else {
                seq!['('] + c.bases + "):\n"@
            };
            let documented = head + match c.docstring {
                Some(ds) => indent + "    "@ + ds + seq!['\n'],
                None => Seq::empty(),
            };
            class_text(c, indent) == documented + if c.body.len() == 0 {
                indent + "    ...\n"@
            } else {
                items_text(c.body, indent + "    "@)
            }
        }),
{
    reveal_strlit("(");
    reveal_strlit(")");
    reveal_strlit(":\n");
    reveal_strlit("):\n");
    reveal_strlit("...\n");
    reveal_strlit("    ");
    reveal_strlit("    ...\n");
    reveal_strlit("\n");
    reveal_strlit("");
    assert(")"@ + ":\n"@ =~= "):\n"@);
    assert("    "@ + "...\n"@ =~= "    ...\n"@);
    assert("("@ =~= seq!['(']);
    assert("\n"@ =~= seq!['\n']);
    assert(c.decorators =~= Seq::empty());
    assert(decorator_lines(c.decorators, indent) =~= Seq::empty());
    let named = indent + "class "@ + c.name + match c.type_params {
        Some(t) => t,
        None => Seq::empty(),
    };
    let head = named + if c.bases.len() == 0 {
        ":\n"@
    } else {
        seq!['('] + c.bases + "):\n"@
    };
    assert(crate::emit::class_head(c, indent) =~= head);
    let documented = head + match c.docstring {
        Some(ds) => indent + "    "@ + ds + seq!['\n'],
        None => Seq::empty(),
    };
    assert(crate::emit::class_head(c, indent) + crate::emit::class_docstring(c, indent)
        =~= documented);
    assert(deeper(indent) =~= indent + "    "@);
    assert(class_text(c, indent) =~= documented + if c.body.len() == 0 {
        indent + "    ...\n"@
    } else {
        items_text(c.body, indent + "    "@)
    });
}

/// Imports and type aliases are written as they stand, on a line of their own.
pub proof fn law_imports_are_written_as_they_stand(text: Seq<char>, indent: Seq<char>)
    ensures
        item_text(ItemView::Import(text), indent) == indent + text + seq!['\n'],
        item_text(ItemView::TypeAlias(text), indent) == indent + text + seq!['\n'],
{
    reveal_strlit("\n");
    assert("\n"@ =~= seq!['\n']);
}

/// Imports stand close together, and so do variables. At the top level two blank lines keep
/// functions and classes apart from what is around them; everywhere else there is one.
pub proof fn law_blank_lines_separate_definitions(prev: ItemKind, next: ItemKind, top: bool)
    ensures
        prev == next && (prev is Import || prev is Variable) ==> blank_lines(prev, next, top) == 0,
        top && (next is Function || next is Class || prev is Function || prev is Class)
            ==> blank_lines(prev, next, top) == 2,
        !top && (next is Function || next is Class || prev is Function || prev is Class)
            ==> blank_lines(prev, next, top) == 1,
        prev != next && !(next is Function || next is Class || prev is Function || prev is Class)
            ==> blank_lines(prev, next, top) == 1,
        prev is TypeAlias && next is TypeAlias ==> blank_lines(prev, next, top) == 1,
{
}

/// What a stub uses of `typing` is imported from there, and nothing else is.
pub proof fn law_headers_import_what_is_used(stub: ModuleStub)
    ensures
        typing_names(stub).contains("Callable"@) == stub.uses_callable,
        typing_names(stub).contains("ClassVar"@) == stub.uses_classvar,
        typing_names(stub).contains("Overload"@) == stub.uses_overload,
        typing_names(stub).contains("Self"@) == stub.uses_self,
        typing_names(stub).len() == (if stub.uses_callable {
            1int
        } else {
            0int
        }) + (if stub.uses_classvar {
            1int
        } else {
            0int
        }) + (if stub.uses_overload {
            1int
        } else {
            0int
        }) + (if stub.uses_self {
            1int
        } else {
            0int
        }),
        forall|i: int|
            0 <= i < typing_names(stub).len() ==> (#[trigger] typing_names(stub)[i] == "Callable"@
                || typing_names(stub)[i] == "ClassVar"@ || typing_names(stub)[i] == "Overload"@
                || typing_names(stub)[i] == "Self"@),
{
    reveal_strlit("Callable");
    reveal_strlit("ClassVar");
    reveal_strlit("Overload");
    reveal_strlit("Self");
    assert("Callable"@.len() == 8 && "Callable"@[0] == 'C' && "Callable"@[1] == 'a');
    assert("ClassVar"@.len() == 8 && "ClassVar"@[0] == 'C' && "ClassVar"@[1] == 'l');
    assert("Overload"@.len() == 8 && "Overload"@[0] == 'O');
    assert("Self"@.len() == 4);
    let names = typing_names(stub);
    let a = if stub.uses_callable {
        1int
    } else {
        0int
    };
    let b = a + if stub.uses_classvar {
        1int
    } else {
        0int
    };
    let c = b + if stub.uses_overload {
        1int
    } else {
        0int
    };
    assert(stub.uses_callable ==> names[0] == "Callable"@);
    assert(stub.uses_classvar ==> names[a] == "ClassVar"@);
    assert(stub.uses_overload ==> names[b] == "Overload"@);
    assert(stub.uses_self ==> names[c] == "Self"@);
}

/// A stub that needs nothing imported begins with its items; otherwise its own imports stand in
/// front of them, `typing` before `_typeshed`, with a blank line behind.
pub proof fn law_headers_end_with_a_blank_line(stub: ModuleStub)
    ensures
        ({
            let header = header_text(stub);
            let typing = stub.uses_callable || stub.uses_classvar || stub.uses_overload
                || stub.uses_self;
            &&& !typing && !stub.uses_incomplete ==> header == Seq::<char>::empty()
            &&& typing || stub.uses_incomplete ==> header.len() >= 2 && header.last() == '\n'
                && header[header.len() - 2] == '\n'
            &&& typing ==> "from typing import "@.is_prefix_of(header)
            &&& !typing && stub.uses_incomplete ==> header
                == "from _typeshed import Incomplete\n\n"@
            &&& typing && stub.uses_incomplete ==> header == header_text(
                (ModuleStub { uses_incomplete: false, ..stub }),
            ).drop_last() + "from _typeshed import Incomplete\n\n"@
        }),
{
    reveal_strlit("\n");
    reveal_strlit("from _typeshed import Incomplete\n");
    reveal_strlit("from _typeshed import Incomplete\n\n");
    law_headers_import_what_is_used(stub);
    let names = typing_names(stub);
    let header = header_text(stub);
    let start = "from typing import "@;
    assert("from _typeshed import Incomplete\n"@ + "\n"@
        =~= "from _typeshed import Incomplete\n\n"@);
    if names.len() > 0 {
        assert(header.subrange(0, start.len() as int) =~= start);
        let without = ModuleStub { uses_incomplete: false, ..stub };
        assert(typing_names(without) =~= names);
        if stub.uses_incomplete {
            assert(header =~= header_text(without).drop_last()
                + "from _typeshed import Incomplete\n\n"@);
        }
    } else {
        assert(header =~= if stub.uses_incomplete {
            "from _typeshed import Incomplete\n\n"@
        } else {
            Seq::empty()
        });
    }
}

/// The names from `typing` are separated by a comma and a space: those of two are the first, the
/// separator and the second.
pub proof fn law_imported_names_are_separated(a: Seq<Seq<char>>, b: Seq<char>)
    ensures
        crate::text::joined(seq![b], ", "@) == b,
        a.len() > 0 ==> crate::text::joined(a.push(b), ", "@) == crate::text::joined(a, ", "@)
            + seq![',', ' '] + b,
{
    reveal_strlit(", ");
    assert(", "@ =~= seq![',', ' ']);
    assert(a.push(b).drop_last() =~= a);
}

} // verus!
