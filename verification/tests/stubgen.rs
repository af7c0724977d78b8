use pyrefly::ast::{
    AnnAssign, Assign, AssignTarget, BinaryOperator, Callee, ClassArguments, ClassDef,
    ClassKeywordText, DunderAll,
    DunderAllEntry, FunctionDef, IfStmt, InitCallable, InitDefault, InitParam, InitType,
    ModuleSource, ResolvedClass, ResolvedField, ResolvedFunction, ResolvedParam, ShownType,
    SourceCall, SourceExpr, SourceExprKind, SourceParam, SourceParams, Stmt, TypeAliasStmt,
    UnaryOperator,
};
use pyrefly::emit::{emit_items, emit_stub};
use pyrefly::extract_module::extract_module_stub;
use pyrefly::extract_types::should_include_name;
use pyrefly::stub::{ExtractConfig, ModuleStub, StubItem, StubTypeAlias, StubVariable};
use pyrefly::words::contains_whole_word;

fn run_stubgen(body: Vec<Stmt>) -> String {
    run_stubgen_with_config(
        body,
        &ExtractConfig { include_private: false, include_docstrings: false },
    )
}

fn run_stubgen_with_config(body: Vec<Stmt>, config: &ExtractConfig) -> String {
    let dunder_all = DunderAll { is_specified: false, entries: Vec::new() };
    emit_stub(&extract_module_stub(&ModuleSource { body, dunder_all }, config))
}

fn ty(text: &str) -> ShownType {
    ShownType {
        is_any: text == "Any",
        mentions_self: text == "Self",
        text: text.to_owned(),
    }
}

fn expr(text: &str, kind: SourceExprKind) -> SourceExpr {
    SourceExpr { text: text.to_owned(), kind }
}

fn name(text: &str) -> SourceExpr {
    expr(text, SourceExprKind::Name(text.to_owned()))
}

fn string(value: &str) -> SourceExpr {
    expr(&format!("\"{value}\""), SourceExprKind::StringLiteral(value.to_owned()))
}

fn number(text: &str) -> SourceExpr {
    expr(text, SourceExprKind::NumberLiteral)
}

/// A call with positional arguments, of which each is told to be `...` or not, and keywords.
fn call(text: &str, func: &str, args: Vec<bool>, keywords: Vec<&str>) -> SourceExpr {
    expr(
        text,
        SourceExprKind::Call(SourceCall {
            func: Callee::Name(func.to_owned()),
            args: args
                .into_iter()
                .map(|dots| {
                    if dots {
                        expr("...", SourceExprKind::EllipsisLiteral)
                    } else {
                        expr("x()", SourceExprKind::Other)
                    }
                })
                .collect(),
            keywords: keywords.iter().map(|k| Some((*k).to_owned())).collect(),
        }),
    )
}

fn import(text: &str) -> Stmt {
    Stmt::Import(text.to_owned())
}

fn declare(target: &str, annotation: &str) -> Stmt {
    Stmt::AnnAssign(AnnAssign {
        target: Some(target.to_owned()),
        annotation: annotation.to_owned(),
        value: None,
    })
}

fn define(target: &str, annotation: &str, value: SourceExpr) -> Stmt {
    Stmt::AnnAssign(AnnAssign {
        target: Some(target.to_owned()),
        annotation: annotation.to_owned(),
        value: Some(value),
    })
}

fn assign(target: &str, definition: &str, value: SourceExpr) -> Stmt {
    let text = format!("{target} = {}", value.text);
    Stmt::Assign(Assign {
        targets: vec![AssignTarget {
            name: Some(target.to_owned()),
            definition: Some(ty(definition)),
        }],
        value,
        text,
    })
}

fn param(name: &str, annotation: Option<&str>, default: Option<SourceExpr>) -> SourceParam {
    SourceParam { name: name.to_owned(), annotation: annotation.map(|a| a.to_owned()), default }
}

fn params(args: Vec<SourceParam>, kwonlyargs: Vec<SourceParam>) -> SourceParams {
    SourceParams { posonlyargs: Vec::new(), args, vararg: None, kwonlyargs, kwarg: None }
}

fn function(name: &str, params: SourceParams, returns: Option<&str>, body: Vec<Stmt>) -> FunctionDef {
    FunctionDef {
        name: name.to_owned(),
        is_async: false,
        decorators: Vec::new(),
        params,
        returns: returns.map(|r| r.to_owned()),
        type_params: None,
        body,
        resolved: None,
    }
}

fn docstring(text: &str) -> Stmt {
    Stmt::Expr(string(text))
}

fn class(name: &str, bases: Vec<&str>, body: Vec<Stmt>, resolved: Option<ResolvedClass>) -> ClassDef {
    ClassDef {
        name: name.to_owned(),
        decorators: Vec::new(),
        arguments: if bases.is_empty() {
            None
        } else {
            Some(ClassArguments {
                args: bases.iter().map(|b| (*b).to_owned()).collect(),
                keywords: Vec::new(),
            })
        },
        type_params: None,
        body,
        resolved,
    }
}

/// A class with `@dataclass` on it.
fn dataclass(name: &str, body: Vec<Stmt>, resolved: ResolvedClass) -> Stmt {
    let mut def = class(name, Vec::new(), body, Some(resolved));
    def.decorators.push(self::name("dataclass"));
    Stmt::ClassDef(def)
}

/// A class with `BaseModel` as its base.
fn model(name: &str, body: Vec<Stmt>, resolved: ResolvedClass) -> Stmt {
    Stmt::ClassDef(class(name, vec!["BaseModel"], body, Some(resolved)))
}

fn field(name: &str, has_default: bool) -> ResolvedField {
    ResolvedField {
        name: name.to_owned(),
        is_init_var: false,
        init: true,
        init_by_name: true,
        init_by_alias: None,
        has_default,
    }
}

fn required(name: &str, annotation: &str) -> InitParam {
    InitParam::Pos(name.to_owned(), ty(annotation), InitDefault::Required)
}

fn optional(name: &str, annotation: &str) -> InitParam {
    InitParam::Pos(name.to_owned(), ty(annotation), InitDefault::Optional)
}

/// A class with fields and a constructor that is added to it.
fn resolved(fields: Vec<ResolvedField>, params: Vec<InitParam>) -> ResolvedClass {
    let mut all = vec![InitParam::Pos("self".to_owned(), ty("Any"), InitDefault::Required)];
    all.extend(params);
    ResolvedClass {
        fields,
        init: Some(InitType::Function(InitCallable { params: Some(all), ret: ty("None") })),
    }
}

#[test]
fn test_stubgen_dataclass_field_strips_metadata() {
    let body = vec![
        import("from dataclasses import dataclass, field"),
        dataclass(
            "A",
            vec![define("n", "int", call("field(default=1, metadata={\"a\": 1}, repr=True)", "field", vec![], vec!["default", "metadata", "repr"]))],
            resolved(vec![field("n", true)], vec![optional("n", "int")]),
        ),
    ];
    let actual = run_stubgen(body);
    let expected = r#"from dataclasses import dataclass


@dataclass
class A:
    n: int = ...

    def __init__(self, n: int = ...) -> None: ...
"#;
    assert_eq!(expected, &actual);
}

#[test]
fn test_stubgen_dataclass_field_strips_field_call() {
    let body = vec![
        import("from dataclasses import dataclass, field"),
        dataclass(
            "A",
            vec![define("name", "str | None", call("field(default=None)", "field", vec![], vec!["default"]))],
            resolved(vec![field("name", true)], vec![optional("name", "str | None")]),
        ),
    ];
    let actual = run_stubgen(body);
    let expected = r#"from dataclasses import dataclass


@dataclass
class A:
    name: str | None = ...

    def __init__(self, name: str | None = ...) -> None: ...
"#;
    assert_eq!(expected, &actual);
}

#[test]
fn test_stubgen_dataclass_field_retains_default_factory() {
    let body = vec![
        import("from dataclasses import dataclass, field"),
        dataclass(
            "A",
            vec![define("items", "list[str]", call("field(default_factory=list, metadata={\"k\": 1})", "field", vec![], vec!["default_factory", "metadata"]))],
            resolved(vec![field("items", true)], vec![optional("items", "list[str]")]),
        ),
    ];
    let actual = run_stubgen(body);
    let expected = r#"from dataclasses import dataclass


@dataclass
class A:
    items: list[str] = ...

    def __init__(self, items: list[str] = ...) -> None: ...
"#;
    assert_eq!(expected, &actual);
}

#[test]
fn test_stubgen_pydantic_field_retains_default_factory() {
    let body = vec![
        import("from pydantic import BaseModel, Field"),
        model(
            "A",
            vec![define("items", "list[str]", call("Field(default_factory=list, min_length=0)", "Field", vec![], vec!["default_factory", "min_length"]))],
            resolved(vec![field("items", true)], vec![optional("items", "list[str]")]),
        ),
    ];
    let actual = run_stubgen(body);
    let expected = r#"from pydantic import BaseModel


class A(BaseModel):
    items: list[str] = ...

    def __init__(self, items: list[str] = ...) -> None: ...
"#;
    assert_eq!(expected, &actual);
}

#[test]
fn test_stubgen_dataclass_field_default_factory_complex_uses_placeholder() {
    let body = vec![
        import("from dataclasses import dataclass, field"),
        dataclass(
            "A",
            vec![define("x", "list[int]", call("field(default_factory=lambda: [1, 2, 3])", "field", vec![], vec!["default_factory"]))],
            resolved(vec![field("x", true)], vec![optional("x", "list[int]")]),
        ),
    ];
    let actual = run_stubgen(body);
    let expected = r#"from dataclasses import dataclass


@dataclass
class A:
    x: list[int] = ...

    def __init__(self, x: list[int] = ...) -> None: ...
"#;
    assert_eq!(expected, &actual);
}

#[test]
fn test_stubgen_pydantic_field_default_factory_complex_uses_placeholder() {
    let body = vec![
        import("import functools"),
        import("from pydantic import BaseModel, Field"),
        model(
            "A",
            vec![define("x", "list[int]", call(
                "Field(default_factory=functools.partial(list, [0]))",
                "Field",
                vec![],
                vec!["default_factory"],
            ))],
            resolved(vec![field("x", true)], vec![optional("x", "list[int]")]),
        ),
    ];
    let actual = run_stubgen(body);
    let expected = r#"from pydantic import BaseModel


class A(BaseModel):
    x: list[int] = ...

    def __init__(self, x: list[int] = ...) -> None: ...
"#;
    assert_eq!(expected, &actual);
}

#[test]
fn test_stubgen_pydantic_field_strips_field_call() {
    let body = vec![
        import("from pydantic import BaseModel, Field"),
        model(
            "A",
            vec![define("x", "int", call("Field(default=0)", "Field", vec![], vec!["default"]))],
            resolved(vec![field("x", true)], vec![optional("x", "int")]),
        ),
    ];
    let actual = run_stubgen(body);
    let expected = r#"from pydantic import BaseModel


class A(BaseModel):
    x: int = ...

    def __init__(self, x: int = ...) -> None: ...
"#;
    assert_eq!(expected, &actual);
}

#[test]
fn test_stubgen_pydantic_field_required_strips_description() {
    let body = vec![
        import("from pydantic import BaseModel, Field"),
        model(
            "A",
            vec![define("u", "int", call("Field(..., description=\"required\")", "Field", vec![true], vec!["description"]))],
            resolved(vec![field("u", false)], vec![required("u", "int")]),
        ),
    ];
    let actual = run_stubgen(body);
    let expected = r#"from pydantic import BaseModel


class A(BaseModel):
    u: int

    def __init__(self, u: int) -> None: ...
"#;
    assert_eq!(expected, &actual);
}

#[test]
fn test_stubgen_pydantic_field_retains_description_with_include_docstrings() {
    let body = vec![
        import("from pydantic import BaseModel, Field"),
        model(
            "A",
            vec![define("u", "int", call(
                "Field(..., description=\"required\", title=\"T\")",
                "Field",
                vec![true],
                vec!["description", "title"],
            ))],
            resolved(vec![field("u", false)], vec![required("u", "int")]),
        ),
    ];
    let config = ExtractConfig { include_private: false, include_docstrings: true };
    let actual = run_stubgen_with_config(body, &config);
    let expected = r#"from pydantic import BaseModel


class A(BaseModel):
    u: int

    def __init__(self, u: int) -> None: ...
"#;
    assert_eq!(expected, &actual);
}

#[test]
fn test_stubgen_dataclass_field_bare_preserved() {
    let body = vec![
        import("from dataclasses import dataclass, field"),
        dataclass(
            "A",
            vec![define("name", "str", call("field()", "field", vec![], vec![]))],
            resolved(vec![field("name", false)], vec![required("name", "str")]),
        ),
    ];
    let actual = run_stubgen(body);
    let expected = r#"from dataclasses import dataclass


@dataclass
class A:
    name: str

    def __init__(self, name: str) -> None: ...
"#;
    assert_eq!(expected, &actual);
}

#[test]
fn test_stubgen_dataclass_mixed_field_defaults() {
    let body = vec![
        import("from dataclasses import dataclass, field"),
        dataclass(
            "Mixed",
            vec![
                declare("required", "int"),
                define("literal_default", "str", string("x")),
                define("field_with_default", "int", call("field(default=0)", "field", vec![], vec!["default"])),
                define("field_with_none", "str | None", call("field(default=None)", "field", vec![], vec!["default"])),
                define("field_no_default", "int", call("field()", "field", vec![], vec![])),
                define("field_ellipsis", "int", call("field(..., kw_only=True)", "field", vec![true], vec!["kw_only"])),
            ],
            resolved(
                vec![
                    field("required", false),
                    field("literal_default", true),
                    field("field_with_default", true),
                    field("field_with_none", true),
                    field("field_no_default", false),
                    field("field_ellipsis", false),
                ],
                vec![
                    required("required", "int"),
                    optional("literal_default", "str"),
                    optional("field_with_default", "int"),
                    optional("field_with_none", "str | None"),
                    required("field_no_default", "int"),
                    InitParam::KwOnly("field_ellipsis".to_owned(), ty("int"), InitDefault::Required),
                ],
            ),
        ),
    ];
    let actual = run_stubgen(body);
    let expected = r#"from dataclasses import dataclass


@dataclass
class Mixed:
    required: int
    literal_default: str = "x"
    field_with_default: int = ...
    field_with_none: str | None = ...
    field_no_default: int
    field_ellipsis: int

    def __init__(
        self,
        required: int,
        literal_default: str = "x",
        field_with_default: int = ...,
        field_with_none: str | None = ...,
        field_no_default: int,
        *,
        field_ellipsis: int,
    ) -> None: ...
"#;
    assert_eq!(expected, &actual);
}

#[test]
fn test_stubgen_pydantic_mixed_field_defaults() {
    let body = vec![
        import("from pydantic import BaseModel, Field"),
        model(
            "Mixed",
            vec![
                declare("required", "int"),
                define("literal_default", "int", number("7")),
                define("field_with_default", "int", call("Field(default=0)", "Field", vec![], vec!["default"])),
                define("field_with_none", "str | None", call("Field(default=None)", "Field", vec![], vec!["default"])),
                define("field_bare", "int", call("Field()", "Field", vec![], vec![])),
                define("field_ellipsis", "int", call("Field(..., description=\"req\")", "Field", vec![true], vec!["description"])),
                define("field_ellipsis_only", "int", call("Field(...)", "Field", vec![true], vec![])),
            ],
            resolved(
                vec![
                    field("required", false),
                    field("literal_default", true),
                    field("field_with_default", true),
                    field("field_with_none", true),
                    field("field_bare", false),
                    field("field_ellipsis", false),
                    field("field_ellipsis_only", false),
                ],
                vec![
                    required("required", "int"),
                    optional("literal_default", "int"),
                    optional("field_with_default", "int"),
                    optional("field_with_none", "str | None"),
                    required("field_bare", "int"),
                    required("field_ellipsis", "int"),
                    required("field_ellipsis_only", "int"),
                ],
            ),
        ),
    ];
    let actual = run_stubgen(body);
    let expected = r#"from pydantic import BaseModel


class Mixed(BaseModel):
    required: int
    literal_default: int = 7
    field_with_default: int = ...
    field_with_none: str | None = ...
    field_bare: int
    field_ellipsis: int
    field_ellipsis_only: int

    def __init__(
        self,
        required: int,
        literal_default: int = 7,
        field_with_default: int = ...,
        field_with_none: str | None = ...,
        field_bare: int,
        field_ellipsis: int,
        field_ellipsis_only: int,
    ) -> None: ...
"#;
    assert_eq!(expected, &actual);
}

#[test]
fn test_stubgen_pydantic_field_init_false() {
    let body = vec![
        import("from pydantic import BaseModel, Field"),
        model(
            "Model",
            vec![
                declare("id", "int"),
                define("digest", "bytes", call("Field(default=b\"\", init=False)", "Field", vec![], vec!["default", "init"])),
            ],
            resolved(
                vec![field("id", false), ResolvedField { init: false, ..field("digest", true) }],
                vec![required("id", "int")],
            ),
        ),
    ];
    let actual = run_stubgen(body);
    let expected = r#"from pydantic import BaseModel


class Model(BaseModel):
    id: int
    digest: bytes = ...

    def __init__(self, id: int) -> None: ...
"#;
    assert_eq!(expected, &actual);
}

#[test]
fn test_stubgen_pydantic_field_validation_alias_on_init() {
    let body = vec![
        import("from pydantic import BaseModel, Field"),
        model(
            "Row",
            vec![define(
                "internal_id",
                "int",
                call("Field(validation_alias=\"id\")", "Field", vec![], vec!["validation_alias"]),
            )],
            resolved(
                vec![ResolvedField {
                    init_by_name: false,
                    init_by_alias: Some("id".to_owned()),
                    ..field("internal_id", false)
                }],
                vec![InitParam::KwOnly("id".to_owned(), ty("int"), InitDefault::Required)],
            ),
        ),
    ];
    let actual = run_stubgen(body);
    let expected = r#"from pydantic import BaseModel


class Row(BaseModel):
    internal_id: int

    def __init__(self, *, id: int) -> None: ...
"#;
    assert_eq!(expected, &actual);
}

#[test]
fn test_stubgen_pydantic_field_kw_only() {
    let body = vec![
        import("from pydantic import BaseModel, Field"),
        model(
            "Args",
            vec![
                define("req", "int", call("Field(kw_only=False)", "Field", vec![], vec!["kw_only"])),
                define("opt", "str", call("Field(default=\"z\", kw_only=True)", "Field", vec![], vec!["default", "kw_only"])),
            ],
            resolved(
                vec![field("req", false), field("opt", true)],
                vec![
                    required("req", "int"),
                    InitParam::KwOnly("opt".to_owned(), ty("str"), InitDefault::Optional),
                ],
            ),
        ),
    ];
    let actual = run_stubgen(body);
    let expected = r#"from pydantic import BaseModel


class Args(BaseModel):
    req: int
    opt: str = ...

    def __init__(self, req: int, *, opt: str = ...) -> None: ...
"#;
    assert_eq!(expected, &actual);
}

#[test]
fn test_stubgen_pydantic_computed_field_as_property() {
    let body = vec![
        import("from pydantic import BaseModel, computed_field"),
        model(
            "Rect",
            vec![
                declare("width", "int"),
                declare("height", "int"),
                Stmt::FunctionDef(FunctionDef {
                    decorators: vec![name("computed_field"), name("property")],
                    ..function(
                        "area",
                        params(vec![param("self", None, None)], Vec::new()),
                        Some("int"),
                        vec![Stmt::Other],
                    )
                }),
            ],
            resolved(
                vec![field("width", false), field("height", false)],
                vec![required("width", "int"), required("height", "int")],
            ),
        ),
    ];
    let actual = run_stubgen(body);
    let expected = r#"from pydantic import BaseModel


class Rect(BaseModel):
    width: int
    height: int

    def __init__(self, width: int, height: int) -> None: ...

    @property
    def area(self) -> int: ...
"#;
    assert_eq!(expected, &actual);
}

#[test]
fn test_stubgen_dataclass_field_init_false() {
    let body = vec![
        import("from dataclasses import dataclass, field"),
        dataclass(
            "Config",
            vec![
                declare("path", "str"),
                define("cached", "dict[str, str]", call("field(default_factory=dict, init=False)", "field", vec![], vec!["default_factory", "init"])),
            ],
            resolved(
                vec![field("path", false), ResolvedField { init: false, ..field("cached", true) }],
                vec![required("path", "str")],
            ),
        ),
    ];
    let actual = run_stubgen(body);
    let expected = r#"from dataclasses import dataclass


@dataclass
class Config:
    path: str
    cached: dict[str, str] = ...

    def __init__(self, path: str) -> None: ...
"#;
    assert_eq!(expected, &actual);
}

#[test]
fn test_stubgen_dataclass_initvar() {
    let body = vec![
        import("from dataclasses import dataclass, InitVar, field"),
        dataclass(
            "Wrapped",
            vec![
                declare("raw", "InitVar[bytes | None]"),
                define("text", "str", call("field(default=\"\")", "field", vec![], vec!["default"])),
            ],
            resolved(
                vec![ResolvedField { is_init_var: true, ..field("raw", false) }, field("text", true)],
                vec![required("raw", "bytes | None"), optional("text", "str")],
            ),
        ),
    ];
    let actual = run_stubgen(body);
    let expected = r#"from dataclasses import dataclass, InitVar


@dataclass
class Wrapped:
    raw: InitVar[bytes | None]
    text: str = ...

    def __init__(self, raw: bytes | None, text: str = ...) -> None: ...
"#;
    assert_eq!(expected, &actual);
}

#[test]
fn test_stubgen_dataclass_classvar() {
    let body = vec![
        import("from dataclasses import dataclass"),
        import("from typing import ClassVar"),
        dataclass(
            "A",
            vec![
                define("sentinel", "ClassVar[str]", string("x")),
                declare("value", "int"),
            ],
            resolved(vec![field("value", false)], vec![required("value", "int")]),
        ),
    ];
    let actual = run_stubgen(body);
    let expected = r#"from dataclasses import dataclass
from typing import ClassVar


@dataclass
class A:
    sentinel: ClassVar[str] = "x"
    value: int

    def __init__(self, value: int) -> None: ...
"#;
    assert_eq!(expected, &actual);
}

#[test]
fn test_stubgen_dataclass_kw_only_class_flag() {
    let body = vec![
        import("from dataclasses import dataclass"),
        Stmt::ClassDef(ClassDef {
            decorators: vec![call("dataclass(kw_only=True)", "dataclass", vec![], vec!["kw_only"])],
            ..class(
                "B",
                Vec::new(),
                vec![declare("a", "int"), define("b", "str", string("y"))],
                Some(resolved(
                    vec![field("a", false), field("b", true)],
                    vec![
                        InitParam::KwOnly("a".to_owned(), ty("int"), InitDefault::Required),
                        InitParam::KwOnly("b".to_owned(), ty("str"), InitDefault::Optional),
                    ],
                )),
            )
        }),
    ];
    let actual = run_stubgen(body);
    let expected = r#"from dataclasses import dataclass


@dataclass(kw_only=True)
class B:
    a: int
    b: str = "y"

    def __init__(self, *, a: int, b: str = "y") -> None: ...
"#;
    assert_eq!(expected, &actual);
}

#[test]
fn test_stubgen_dataclass_preserves_explicit_init() {
    let body = vec![
        import("from dataclasses import dataclass"),
        dataclass(
            "CustomInit",
            vec![
                declare("x", "int"),
                Stmt::FunctionDef(function(
                    "__init__",
                    params(
                        vec![param("self", None, None), param("x", Some("int"), None)],
                        vec![param("tag", Some("str"), Some(string("")))],
                    ),
                    Some("None"),
                    vec![Stmt::Other],
                )),
            ],
            ResolvedClass { fields: vec![field("x", false)], init: None },
        ),
    ];
    let actual = run_stubgen(body);
    let expected = r#"from dataclasses import dataclass


@dataclass
class CustomInit:
    x: int

    def __init__(self, x: int, *, tag: str = "") -> None: ...
"#;
    assert_eq!(expected, &actual);
}

#[test]
fn test_stubgen_pydantic_preserves_explicit_init() {
    let body = vec![
        import("from pydantic import BaseModel"),
        model(
            "CustomInit",
            vec![
                declare("name", "str"),
                Stmt::FunctionDef(function(
                    "__init__",
                    params(
                        vec![param("self", None, None), param("name", Some("str"), None)],
                        vec![param(
                            "eager",
                            Some("bool"),
                            Some(expr("False", SourceExprKind::BooleanLiteral(false))),
                        )],
                    ),
                    Some("None"),
                    vec![Stmt::Other],
                )),
            ],
            ResolvedClass { fields: vec![field("name", false)], init: None },
        ),
    ];
    let actual = run_stubgen(body);
    let expected = r#"from pydantic import BaseModel


class CustomInit(BaseModel):
    name: str

    def __init__(self, name: str, *, eager: bool = False) -> None: ...
"#;
    assert_eq!(expected, &actual);
}

#[test]
fn test_stubgen_dataclass_repr_false_repr_rebind_uses_classvar() {
    let body = vec![
        import("from dataclasses import dataclass"),
        Stmt::FunctionDef(function(
            "_repr_fn",
            params(vec![param("self", Some("object"), None)], Vec::new()),
            Some("str"),
            vec![Stmt::Other],
        )),
        Stmt::ClassDef(ClassDef {
            decorators: vec![call("dataclass(repr=False)", "dataclass", vec![], vec!["repr"])],
            ..class(
                "C",
                Vec::new(),
                vec![assign("__repr__", "Callable[[object], str]", name("_repr_fn"))],
                Some(resolved(vec![field("__repr__", false)], Vec::new())),
            )
        }),
    ];
    let actual = run_stubgen(body);
    assert_eq!(
        r#"
from typing import Callable, ClassVar

from dataclasses import dataclass


@dataclass(repr=False)
class C:
    __repr__: ClassVar[Callable[[object], str]] = ...
"#
        .trim(),
        actual.trim(),
    );
}

#[test]
fn test_stubgen_class_body_overloaded_assign_uses_overload_callable() {
    let body = vec![
        import("from typing import overload"),
        Stmt::FunctionDef(FunctionDef {
            decorators: vec![name("overload")],
            ..function(
                "process",
                params(vec![param("x", Some("int"), None)], Vec::new()),
                Some("int"),
                Vec::new(),
            )
        }),
        Stmt::FunctionDef(FunctionDef {
            decorators: vec![name("overload")],
            ..function(
                "process",
                params(vec![param("x", Some("str"), None)], Vec::new()),
                Some("str"),
                Vec::new(),
            )
        }),
        Stmt::FunctionDef(function(
            "process",
            params(vec![param("x", None, None)], Vec::new()),
            None,
            vec![Stmt::Other],
        )),
        Stmt::ClassDef(class(
            "C",
            Vec::new(),
            vec![assign(
                "alias",
                "Overload[Callable[[int], int], Callable[[str], str]]",
                name("process"),
            )],
            Some(ResolvedClass { fields: vec![field("alias", false)], init: None }),
        )),
    ];
    let actual = run_stubgen(body);
    assert_eq!(
        r#"
from typing import Callable, ClassVar, Overload

from typing import overload


@overload
def process(x: int) -> int: ...


@overload
def process(x: str) -> str: ...


class C:
    alias: ClassVar[Overload[Callable[[int], int], Callable[[str], str]]] = ...
"#
        .trim(),
        actual.trim(),
    );
}

#[test]
fn test_stubgen_unannotated_dunder_new_uses_self() {
    let body = vec![Stmt::ClassDef(class(
        "C",
        Vec::new(),
        vec![Stmt::FunctionDef(FunctionDef {
            resolved: Some(ResolvedFunction { params: Vec::new(), return_type: Some(ty("Self")) }),
            ..function(
                "__new__",
                params(vec![param("cls", None, None)], Vec::new()),
                None,
                vec![Stmt::Other],
            )
        })],
        Some(ResolvedClass { fields: Vec::new(), init: None }),
    ))];
    let actual = run_stubgen(body);
    assert_eq!(
        r#"
from typing import Self

class C:
    def __new__(cls) -> Self: ...
"#
        .trim(),
        actual.trim(),
    );
}

fn documented() -> Vec<Stmt> {
    vec![
        Stmt::FunctionDef(function(
            "greet",
            params(vec![param("name", Some("str"), None)], Vec::new()),
            Some("str"),
            vec![docstring("Say hello."), Stmt::Other],
        )),
        Stmt::FunctionDef(function(
            "no_doc",
            params(vec![param("x", Some("int"), None)], Vec::new()),
            Some("int"),
            vec![Stmt::Other],
        )),
        Stmt::ClassDef(class(
            "MyClass",
            Vec::new(),
            vec![
                docstring("A class with a docstring."),
                Stmt::FunctionDef(function(
                    "method",
                    params(vec![param("self", None, None)], Vec::new()),
                    Some("None"),
                    vec![docstring("Do something."), Stmt::Other],
                )),
            ],
            None,
        )),
    ]
}

#[test]
fn test_stubgen_docstrings() {
    let config = ExtractConfig { include_private: false, include_docstrings: true };
    let actual = run_stubgen_with_config(documented(), &config);
    assert!(
        actual.contains(r#""""Say hello.""""#),
        "Function docstring should be emitted:\n{actual}"
    );
    assert!(
        actual.contains(r#""""A class with a docstring.""""#),
        "Class docstring should be emitted:\n{actual}"
    );
    assert!(
        actual.contains(r#""""Do something.""""#),
        "Method docstring should be emitted:\n{actual}"
    );

    // Without docstrings, none should appear.
    let no_doc_config = ExtractConfig { include_private: false, include_docstrings: false };
    let without = run_stubgen_with_config(documented(), &no_doc_config);
    assert!(
        !without.contains("Say hello."),
        "Function docstring should not appear with include_docstrings=false:\n{without}"
    );
    assert!(
        !without.contains("A class with a docstring."),
        "Class docstring should not appear with include_docstrings=false:\n{without}"
    );
}

#[test]
fn names_outside_dunder_all_are_left_out() {
    let function_called = |f: &str| {
        Stmt::FunctionDef(function(f, params(Vec::new(), Vec::new()), Some("None"), Vec::new()))
    };
    let body = vec![function_called("shown"), function_called("_private"), function_called("other")];
    let dunder_all = DunderAll {
        is_specified: true,
        entries: vec![
            DunderAllEntry::Name("shown".to_owned()),
            DunderAllEntry::Name("_private".to_owned()),
            DunderAllEntry::Name("other".to_owned()),
            DunderAllEntry::Remove("other".to_owned()),
        ],
    };
    let config = ExtractConfig { include_private: false, include_docstrings: false };
    let text = emit_stub(&extract_module_stub(&ModuleSource { body, dunder_all }, &config));
    assert!(text.contains("def shown() -> None: ..."), "{text}");
    assert!(text.contains("def _private() -> None: ..."), "{text}");
    assert!(!text.contains("other"), "{text}");
}

#[test]
fn types_only_for_checking_are_taken() {
    let body = vec![
        Stmt::If(IfStmt {
            test: expr(
                "typing.TYPE_CHECKING",
                SourceExprKind::Attribute(Some("typing".to_owned()), "TYPE_CHECKING".to_owned()),
            ),
            body: vec![import("from a import B")],
        }),
        Stmt::If(IfStmt { test: name("DEBUG"), body: vec![import("from a import C")] }),
        Stmt::TypeAlias(TypeAliasStmt { name: Some("X".to_owned()), text: "type X = int".to_owned() }),
        Stmt::TypeAlias(TypeAliasStmt { name: Some("_Y".to_owned()), text: "type _Y = int".to_owned() }),
        assign("T", "TypeVar", call("TypeVar(\"T\")", "TypeVar", vec![false], vec![])),
        assign("count", "int", number("3")),
    ];
    let text = run_stubgen(body);
    assert!(text.contains("from a import B"), "{text}");
    assert!(!text.contains("import C"), "{text}");
    assert!(text.contains("type X = int\n"), "{text}");
    assert!(!text.contains("_Y"), "{text}");
    assert!(text.contains("T = TypeVar(\"T\")\n"), "{text}");
    assert!(text.contains("count: int = 3\n"), "{text}");
}

#[test]
fn class_heads_keep_their_keywords() {
    let mut def = class("Meta", vec!["Base"], vec![declare("_hidden", "int")], None);
    def.arguments.as_mut().unwrap().keywords = vec![
        ClassKeywordText { arg: Some("metaclass".to_owned()), value: "M".to_owned() },
        ClassKeywordText { arg: None, value: "extra".to_owned() },
    ];
    let text = run_stubgen(vec![Stmt::ClassDef(def)]);
    assert!(text.contains("class Meta(Base, metaclass=M, **extra):"), "{text}");
}

#[test]
fn inferred_types_fill_in_for_missing_ones() {
    let def = FunctionDef {
        resolved: Some(ResolvedFunction {
            params: vec![ResolvedParam { name: Some("x".to_owned()), ty: ty("int") }],
            return_type: Some(ty("list[int]")),
        }),
        ..function(
            "f",
            params(vec![param("x", None, Some(expr("g()", SourceExprKind::Other)))], Vec::new()),
            None,
            Vec::new(),
        )
    };
    let text = run_stubgen(vec![Stmt::FunctionDef(def)]);
    assert!(text.contains("def f(x: int = ...) -> list[int]: ..."), "{text}");
}

#[test]
fn special_names_are_always_taken() {
    let config = ExtractConfig { include_private: false, include_docstrings: false };
    let private = ExtractConfig { include_private: true, include_docstrings: false };
    assert!(should_include_name("__call__", &config, true, &None));
    assert!(should_include_name("__version__", &config, false, &None));
    assert!(!should_include_name("_x", &config, false, &None));
    assert!(should_include_name("_x", &private, false, &None));
    assert!(!should_include_name("__x", &private, false, &None));
    let all = Some(vec!["_x".to_owned()]);
    assert!(should_include_name("_x", &config, false, &all));
    assert!(!should_include_name("__version__", &config, false, &all));
}

#[test]
fn parameters_of_unresolvable_types_stay_bare() {
    let inferred = |shown: &str| FunctionDef {
        resolved: Some(ResolvedFunction {
            params: vec![ResolvedParam { name: Some("x".to_owned()), ty: ty(shown) }],
            return_type: Some(ty("None")),
        }),
        ..function("f", params(vec![param("x", None, None)], Vec::new()), None, Vec::new())
    };
    let text = |shown: &str| run_stubgen(vec![Stmt::FunctionDef(inferred(shown))]);
    assert_eq!(text("T@f"), "def f(x) -> None: ...\n");
    assert_eq!(text("list[Unknown]"), "def f(x) -> None: ...\n");
    assert_eq!(
        text("Any"),
        "from _typeshed import Incomplete\n\ndef f(x: Incomplete) -> None: ...\n"
    );
    assert_eq!(text("list[int]"), "def f(x: list[int]) -> None: ...\n");
}

#[test]
fn nested_classes_come_with_their_class() {
    let inner = class("B", Vec::new(), vec![declare("x", "int")], None);
    let outer = class("A", Vec::new(), vec![Stmt::ClassDef(inner)], None);
    let other = class("C", Vec::new(), vec![declare("y", "int")], None);
    let module = ModuleSource {
        body: vec![Stmt::ClassDef(outer), Stmt::ClassDef(other)],
        dunder_all: DunderAll {
            is_specified: true,
            entries: vec![DunderAllEntry::Name("A".to_owned())],
        },
    };
    let config = ExtractConfig { include_private: false, include_docstrings: false };
    assert_eq!(
        emit_stub(&extract_module_stub(&module, &config)),
        "class A:\n    class B:\n        x: int\n"
    );
}

#[test]
fn constructors_of_self_alone_are_left_out() {
    let body = vec![dataclass("A", vec![Stmt::Other], resolved(Vec::new(), Vec::new()))];
    assert_eq!(run_stubgen(body), "@dataclass\nclass A:\n    ...\n");
}

#[test]
fn assigned_values_that_describe_a_field_are_left_out() {
    let body = vec![Stmt::ClassDef(class(
        "A",
        Vec::new(),
        vec![
            assign("a", "int", call("field()", "field", vec![], vec![])),
            assign("b", "int", call("make()", "make", vec![], vec![])),
            assign("c", "int", number("3")),
        ],
        None,
    ))];
    assert_eq!(
        run_stubgen(body),
        "from typing import ClassVar\n\nclass A:\n    a: ClassVar[int]\n    b: ClassVar[int] = ...\n    c: ClassVar[int] = 3\n"
    );
    let top = vec![assign("b", "int", call("make()", "make", vec![], vec![]))];
    assert_eq!(run_stubgen(top), "b: int\n");
}

#[test]
fn the_option_changes_docstrings_alone() {
    let body = || {
        vec![
            Stmt::FunctionDef(function(
                "f",
                params(Vec::new(), Vec::new()),
                Some("int"),
                vec![docstring("Gives a number.")],
            )),
            Stmt::ClassDef(class(
                "A",
                Vec::new(),
                vec![
                    docstring("A class."),
                    Stmt::FunctionDef(function(
                        "g",
                        params(vec![param("self", None, None)], Vec::new()),
                        Some("None"),
                        vec![Stmt::Other, docstring("Stands too late.")],
                    )),
                ],
                None,
            )),
        ]
    };
    let with = ExtractConfig { include_private: false, include_docstrings: true };
    assert_eq!(
        run_stubgen_with_config(body(), &with),
        "def f() -> int:\n    \"\"\"Gives a number.\"\"\"\n    ...\n\n\nclass A:\n    \"\"\"A class.\"\"\"\n    def g(self) -> None: ...\n"
    );
    assert_eq!(
        run_stubgen(body()),
        "def f() -> int: ...\n\n\nclass A:\n    def g(self) -> None: ...\n"
    );
}

fn variable(name: &str) -> StubItem {
    StubItem::Variable(StubVariable {
        name: name.to_owned(),
        annotation: Some("int".to_owned()),
        value: None,
    })
}

fn emitted(items: Vec<StubItem>) -> String {
    emit_stub(&ModuleStub {
        items,
        uses_incomplete: false,
        uses_self: false,
        uses_classvar: false,
        uses_callable: false,
        uses_overload: false,
    })
}

#[test]
fn items_are_written_one_after_the_other() {
    let alias = || StubItem::TypeAlias(StubTypeAlias { text: "type T = int".to_owned() });
    assert_eq!(emitted(vec![variable("a"), variable("b")]), "a: int\nb: int\n");
    assert_eq!(
        emitted(vec![variable("a"), variable("b"), alias()]),
        format!("{}\n{}", emitted(vec![variable("a"), variable("b")]), emitted(vec![alias()]))
    );
    assert_eq!(emitted(Vec::new()), "\n");
}

#[test]
fn whole_words_have_no_names_around_them() {
    assert!(contains_whole_word("x: field = 1", "field"));
    assert!(!contains_whole_word("my_field", "field"));
    assert!(!contains_whole_word("fields", "field"));
    assert!(contains_whole_word("fields field", "field"));
    assert!(contains_whole_word("\u{e9}field", "field"));
    assert!(contains_whole_word("a.a.a", "a.a"));
    assert!(!contains_whole_word("xa.a.a", "a.a"));
    assert!(contains_whole_word("", ""));
    assert!(!contains_whole_word("ab", ""));
    assert!(contains_whole_word("a, b", ""));
    assert!(contains_whole_word("a ", ""));
}

#[test]
fn signed_numbers_and_empty_tuples_are_kept_as_defaults() {
    let with = |default: SourceExpr| {
        run_stubgen(vec![Stmt::FunctionDef(function(
            "f",
            params(vec![param("x", None, Some(default))], Vec::new()),
            None,
            Vec::new(),
        ))])
    };
    let signed = |op: UnaryOperator, text: &str, operand: SourceExpr| {
        expr(text, SourceExprKind::UnaryOp(op, Box::new(operand)))
    };
    assert_eq!(with(signed(UnaryOperator::USub, "-1", number("1"))), "def f(x=-1): ...\n");
    assert_eq!(with(signed(UnaryOperator::UAdd, "+1", number("1"))), "def f(x=...): ...\n");
    assert_eq!(with(signed(UnaryOperator::USub, "-y", name("y"))), "def f(x=...): ...\n");
    assert_eq!(with(expr("()", SourceExprKind::Tuple(Vec::new()))), "def f(x=()): ...\n");
    assert_eq!(
        with(expr("(1,)", SourceExprKind::Tuple(vec![number("1")]))),
        "def f(x=...): ...\n"
    );
}

#[test]
fn unions_are_kept_as_they_are_written() {
    let value = |text: &str, op: BinaryOperator| expr(text, SourceExprKind::BinOp(op));
    let union = vec![assign("T", "type", value("int | str", BinaryOperator::BitOr))];
    assert_eq!(run_stubgen(union), "T = int | str\n");
    let sum = vec![assign("n", "int", value("1 + 2", BinaryOperator::Add))];
    assert_eq!(run_stubgen(sum), "n: int\n");
}

#[test]
fn items_are_appended_at_their_indentation() {
    let variable = |name: &str| {
        StubItem::Variable(StubVariable {
            name: name.to_owned(),
            annotation: Some("int".to_owned()),
            value: None,
        })
    };
    let mut out = "class C:\n".to_owned();
    emit_items(&vec![variable("x"), variable("y")], &mut out, "    ");
    assert_eq!(out, "class C:\n    x: int\n    y: int\n");
    emit_items(&vec![], &mut out, "    ");
    assert_eq!(out, "class C:\n    x: int\n    y: int\n");
}

#[test]
fn docstrings_begin_the_bodies_they_come_from() {
    let method = |name: &str, body: Vec<Stmt>| {
        Stmt::FunctionDef(function(
            name,
            params(vec![param("self", None, None)], vec![]),
            Some("None"),
            body,
        ))
    };
    let body = vec![Stmt::ClassDef(class(
        "A",
        vec![],
        vec![
            method("documented", vec![docstring("First."), Stmt::Other]),
            method("late", vec![Stmt::Other, docstring("Second.")]),
            Stmt::ClassDef(class("B", vec![], vec![docstring("Inner.")], None)),
        ],
        None,
    ))];
    let config = ExtractConfig { include_private: false, include_docstrings: true };
    let text = run_stubgen_with_config(body, &config);
    assert!(text.contains("First."), "{text}");
    assert!(!text.contains("Second."), "{text}");
    assert!(text.contains("Inner."), "{text}");
}
