use vstd::prelude::*;

use crate::span::Span;

verus! {

/// An identifier of the target tree.
#[derive(Debug, PartialEq, Eq)]
pub struct Identifier {
    pub span: Span,
    pub name: String,
}

/// A string literal of the target tree.
#[derive(Debug, PartialEq, Eq)]
pub struct StringLiteral {
    pub span: Span,
    pub value: String,
}

/// An expression of the target tree.  Only the kinds the lowering produces
/// exist in the model.
#[derive(Debug, PartialEq, Eq)]
pub enum TargetExpr {
    Call(CallExpression),
    Ident(Identifier),
    Lit(StringLiteral),
}

/// A call expression of the target tree: a callee identifier and ordered
/// arguments.
#[derive(Debug, PartialEq, Eq)]
pub struct CallExpression {
    pub span: Span,
    pub callee: Identifier,
    pub args: Vec<TargetExpr>,
}

/// An expression statement of the target tree.
#[derive(Debug, PartialEq, Eq)]
pub struct ExpressionStatement {
    pub span: Span,
    pub expr: TargetExpr,
}

/// A statement of the target tree: an expression statement, or a function
/// declaration (which the target grammar treats as a statement at module
/// scope).
#[derive(Debug, PartialEq, Eq)]
pub enum TargetStmt {
    Expr(ExpressionStatement),
    Fn(FunctionDeclaration),
}

/// A block of the target tree: its statements in order.  Its span is
/// synthesized; the target block has no single originating source token.
#[derive(Debug, PartialEq, Eq)]
pub struct Block {
    pub span: Span,
    pub stmts: Vec<TargetStmt>,
}

/// A function declaration of the target tree.
#[derive(Debug, PartialEq, Eq)]
pub struct FunctionDeclaration {
    pub ident: Identifier,
    pub body: Block,
}

/// A whole target module: the translated top-level items in order, the span
/// of the whole source, and the directive line carried through unchanged.
#[derive(Debug, PartialEq, Eq)]
pub struct TargetModule {
    pub span: Span,
    pub body: Vec<TargetStmt>,
    pub shebang: Option<String>,
}

} // verus!
