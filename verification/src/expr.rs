use vstd::prelude::*;

use crate::annotation::{dupe_annotation, Annotation};
use crate::report::TextRange;
use crate::types::Type;

verus! {

/// What is known of a function or class by which it is recognized when it is called.
#[derive(Clone, Copy, Debug, PartialEq, Eq, Structural)]
pub enum CalleeKind {
    /// The class `property`.
    Property,
    /// A function or class with the given number.
    Other(u64),
}

/// A positional argument. Its expression is known by a number.
#[derive(Clone, Copy, Debug, PartialEq, Eq, Structural)]
pub struct Argument {
    pub expr: u64,
    pub is_ellipsis: bool,
}

/// A keyword argument. One without a name unpacks a mapping.
pub struct Keyword {
    pub arg: Option<String>,
    pub expr: u64,
}

/// A call: the number of the call itself, that of the function, and the arguments.
pub struct CallExpr {
    pub expr: u64,
    pub func: u64,
    pub args: Vec<Argument>,
    pub keywords: Vec<Keyword>,
}

/// The kinds of expressions that class rules tell apart.
pub enum ExprKind {
    NoneLiteral,
    EmptyTuple,
    Call(CallExpr),
    Other,
}

/// An expression. Its type is asked for by its number.
pub struct Expr {
    pub id: u64,
    pub range: TextRange,
    pub kind: ExprKind,
}

impl Expr {
    pub open spec fn call(self) -> Option<CallExpr> {
        match self.kind {
            ExprKind::Call(call) => Some(call),
            _ => None,
        }
    }

    /// The call that the expression is.
    pub fn as_call_expr(&self) -> (r: Option<&CallExpr>)
        ensures
            r is Some == self.call() is Some,
            r is Some ==> *r->0 == self.call()->0,
    {
        match &self.kind {
            ExprKind::Call(call) => Some(call),
            _ => None,
        }
    }
}

/// Where the value of a field is taken from.
pub enum ExprOrBinding {
    Expr(Expr),
    /// A definition, known by a number.
    Binding(u64),
    /// Nothing is known of the value.
    AnyImplicit,
}

impl ExprOrBinding {
    pub open spec fn expression(self) -> Option<Expr> {
        match self {
            ExprOrBinding::Expr(e) => Some(e),
            _ => None,
        }
    }
}

/// What a method's first parameter stands for.
#[derive(Clone, Copy, Debug, PartialEq, Eq, Structural)]
pub enum MethodSelfKind {
    Instance,
    Class,
}

/// A method that assigns an attribute.
pub struct MethodThatSetsAttr {
    pub method_name: String,
    /// Whether attributes may be introduced there, as in a constructor.
    pub recognized_attribute_defining_method: bool,
    pub instance_or_class: MethodSelfKind,
}

/// How a field is defined.
pub enum ClassFieldDefinition {
    /// An annotation without a value. The calls are those inside `Annotated`.
    DeclaredByAnnotation {
        declared: Annotation,
        metadata_calls: Vec<CallExpr>,
        initialized_in_recognized_method: bool,
    },
    /// An assignment in the class body.
    AssignedInBody { value: ExprOrBinding, annotation: Option<Annotation> },
    /// An assignment in a method.
    DefinedInMethod {
        value: ExprOrBinding,
        annotation: Option<Annotation>,
        method: MethodThatSetsAttr,
    },
    /// A function.
    MethodLike { definition: u64, has_return_annotation: bool },
    /// A class statement.
    NestedClass { definition: u64 },
    /// Any other statement that introduces a name, as an import does.
    DefinedWithoutAssign { definition: u64 },
    /// A name of a class that is not written as a class statement.
    DeclaredWithoutAnnotation,
}

impl ClassFieldDefinition {
    /// The annotation written at the definition.
    pub open spec fn direct_annotation(self) -> Option<Annotation> {
        match self {
            ClassFieldDefinition::DeclaredByAnnotation { declared, .. } => Some(declared),
            ClassFieldDefinition::AssignedInBody { annotation, .. } => annotation,
            ClassFieldDefinition::DefinedInMethod { annotation, .. } => annotation,
            _ => None,
        }
    }

    /// The annotation written at the definition.
    pub fn get_direct_annotation(&self) -> (r: Option<Annotation>)
        ensures
            r == self.direct_annotation(),
    {
        match self {
            ClassFieldDefinition::DeclaredByAnnotation { declared, .. } => Some(declared.dupe()),
            ClassFieldDefinition::AssignedInBody { annotation, .. } => dupe_annotation(annotation),
            ClassFieldDefinition::DefinedInMethod { annotation, .. } => dupe_annotation(annotation),
            _ => None,
        }
    }

    /// The expression that is assigned in the class body.
    pub open spec fn body_expression(self) -> Option<Expr> {
        match self {
            ClassFieldDefinition::AssignedInBody { value, .. } => value.expression(),
            _ => None,
        }
    }

    /// The expression that is assigned in the class body.
    pub fn get_body_expression(&self) -> (r: Option<&Expr>)
        ensures
            r is Some == self.body_expression() is Some,
            r is Some ==> *r->0 == self.body_expression()->0,
    {
        match self {
            ClassFieldDefinition::AssignedInBody { value: ExprOrBinding::Expr(e), .. } => Some(e),
            _ => None,
        }
    }
}

/// The value of an argument of a call.
pub enum ArgValue {
    Expr(u64),
    Type(Type),
}

/// An argument of a call that is being checked.
pub enum CallArg {
    Arg(ArgValue, TextRange),
    /// An unpacked argument.
    Star(u64, TextRange),
}

impl CallArg {
    pub fn dupe(&self) -> (r: CallArg)
        ensures
            r == *self,
    {
        match self {
            CallArg::Arg(ArgValue::Expr(e), range) => CallArg::Arg(ArgValue::Expr(*e), *range),
            CallArg::Arg(ArgValue::Type(t), range) => CallArg::Arg(
                ArgValue::Type(t.dupe()),
                *range,
            ),
            CallArg::Star(e, range) => CallArg::Star(*e, *range),
        }
    }
}

/// A keyword argument of a call that is being checked. One without a name unpacks a mapping.
pub struct CallKeyword {
    pub arg: Option<String>,
    pub value: ArgValue,
    pub range: TextRange,
}

} // verus!
