use vstd::prelude::*;

verus! {

/// A type as it is shown in a stub.
pub struct ShownType {
    /// Whether nothing is known of the type.
    pub is_any: bool,
    /// Whether `Self` occurs in it.
    pub mentions_self: bool,
    pub text: String,
}

/// The function of a call.
pub enum Callee {
    Name(String),
    /// An attribute of something, by its own name.
    Attribute(String),
    Other,
}

/// A call.
pub struct SourceCall {
    pub func: Callee,
    pub args: Vec<SourceExpr>,
    /// The names of the keyword arguments; an unpacked mapping has none.
    pub keywords: Vec<Option<String>>,
}

/// The operators with one operand.
#[derive(Clone, Copy, Debug, PartialEq, Eq, Structural)]
pub enum UnaryOperator {
    Invert,
    Not,
    UAdd,
    USub,
}

/// The operators with two operands.
#[derive(Clone, Copy, Debug, PartialEq, Eq, Structural)]
pub enum BinaryOperator {
    Add,
    Sub,
    Mult,
    MatMult,
    Div,
    Mod,
    Pow,
    LShift,
    RShift,
    BitOr,
    BitXor,
    BitAnd,
    FloorDiv,
}

/// The kinds of expressions that stubs tell apart.
pub enum SourceExprKind {
    NoneLiteral,
    BooleanLiteral(bool),
    NumberLiteral,
    /// A string with its value.
    StringLiteral(String),
    BytesLiteral,
    EllipsisLiteral,
    /// A tuple with its elements.
    Tuple(Vec<SourceExpr>),
    /// An operator with its operand.
    UnaryOp(UnaryOperator, Box<SourceExpr>),
    Name(String),
    /// An attribute: the name it is looked up on, where that is a plain name, and its own name.
    Attribute(Option<String>, String),
    Call(SourceCall),
    Subscript,
    /// Two operands with an operator between them.
    BinOp(BinaryOperator),
    Other,
}

/// An expression as it is written.
pub struct SourceExpr {
    pub text: String,
    pub kind: SourceExprKind,
}

/// A parameter as it is written.
pub struct SourceParam {
    pub name: String,
    pub annotation: Option<String>,
    pub default: Option<SourceExpr>,
}

/// The parameters of a function as they are written.
pub struct SourceParams {
    pub posonlyargs: Vec<SourceParam>,
    pub args: Vec<SourceParam>,
    pub vararg: Option<SourceParam>,
    pub kwonlyargs: Vec<SourceParam>,
    pub kwarg: Option<SourceParam>,
}

/// A parameter with its type.
pub struct ResolvedParam {
    pub name: Option<String>,
    pub ty: ShownType,
}

/// What is known of a function.
pub struct ResolvedFunction {
    pub params: Vec<ResolvedParam>,
    pub return_type: Option<ShownType>,
}

/// A function definition.
pub struct FunctionDef {
    pub name: String,
    pub is_async: bool,
    pub decorators: Vec<SourceExpr>,
    pub params: SourceParams,
    pub returns: Option<String>,
    pub type_params: Option<String>,
    pub body: Vec<Stmt>,
    pub resolved: Option<ResolvedFunction>,
}

/// A field of a class, as far as its constructor goes.
pub struct ResolvedField {
    pub name: String,
    pub is_init_var: bool,
    pub init: bool,
    pub init_by_name: bool,
    pub init_by_alias: Option<String>,
    pub has_default: bool,
}

/// Whether a parameter of a constructor can be left out.
pub enum InitDefault {
    Required,
    Optional,
    /// The default is known: how it is shown, where that is known too, and its type.
    Known(Option<String>, ShownType),
}

/// A parameter of a constructor.
pub enum InitParam {
    PosOnly(Option<String>, ShownType, InitDefault),
    Pos(String, ShownType, InitDefault),
    VarArg(Option<String>, ShownType),
    KwOnly(String, ShownType, InitDefault),
    Kwargs(Option<String>, ShownType),
}

/// The signature of a constructor. There is no list where any arguments are accepted.
pub struct InitCallable {
    pub params: Option<Vec<InitParam>>,
    pub ret: ShownType,
}

/// The type of a constructor.
pub enum InitType {
    Callable(InitCallable),
    Function(InitCallable),
    GenericFunction(InitCallable),
    GenericCallable(InitCallable),
    Other,
}

/// What is known of a class.
pub struct ResolvedClass {
    pub fields: Vec<ResolvedField>,
    /// The constructor that is added to the class.
    pub init: Option<InitType>,
}

/// A keyword in the head of a class; an unpacked mapping has no name.
pub struct ClassKeywordText {
    pub arg: Option<String>,
    pub value: String,
}

/// What stands in brackets in the head of a class.
pub struct ClassArguments {
    pub args: Vec<String>,
    pub keywords: Vec<ClassKeywordText>,
}

/// A class definition.
pub struct ClassDef {
    pub name: String,
    pub decorators: Vec<SourceExpr>,
    pub arguments: Option<ClassArguments>,
    pub type_params: Option<String>,
    pub body: Vec<Stmt>,
    pub resolved: Option<ResolvedClass>,
}

/// A declaration with an annotation. The target is named where it is a plain name.
pub struct AnnAssign {
    pub target: Option<String>,
    pub annotation: String,
    pub value: Option<SourceExpr>,
}

/// A target of an assignment, named where it is a plain name, with the type it is found to have.
pub struct AssignTarget {
    pub name: Option<String>,
    pub definition: Option<ShownType>,
}

/// An assignment.
pub struct Assign {
    pub targets: Vec<AssignTarget>,
    pub value: SourceExpr,
    pub text: String,
}

/// A `type` statement. The alias is named where it is a plain name.
pub struct TypeAliasStmt {
    pub name: Option<String>,
    pub text: String,
}

/// An `if` statement: its condition and what is done where that holds.
pub struct IfStmt {
    pub test: SourceExpr,
    pub body: Vec<Stmt>,
}

/// The statements that stubs tell apart.
pub enum Stmt {
    FunctionDef(FunctionDef),
    ClassDef(ClassDef),
    /// An import, as it is written.
    Import(String),
    AnnAssign(AnnAssign),
    Assign(Assign),
    TypeAlias(TypeAliasStmt),
    If(IfStmt),
    Expr(SourceExpr),
    Other,
}

/// An entry of `__all__`.
pub enum DunderAllEntry {
    Name(String),
    Remove(String),
    /// All names of another module.
    Module,
}

/// What a module says in `__all__`.
pub struct DunderAll {
    /// Whether the module has an `__all__` that can be read.
    pub is_specified: bool,
    pub entries: Vec<DunderAllEntry>,
}

/// A module that was checked.
pub struct ModuleSource {
    pub body: Vec<Stmt>,
    pub dunder_all: DunderAll,
}

} // verus!
