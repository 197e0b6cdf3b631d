use vstd::prelude::*;

use crate::span::ByteRange;

verus! {

/// A literal node of the source tree.  Only string literals have a lowering
/// rule; every other kind is carried with its byte range so that a failed
/// translation can report it precisely.
#[derive(Debug, Clone, PartialEq, Eq)]
pub enum SourceLit {
    /// A string literal: its decoded content and the byte range of the token
    /// (quotes included).
    Str { value: String, span: ByteRange },
    ByteStr(ByteRange),
    CStr(ByteRange),
    Byte(ByteRange),
    Char(ByteRange),
    Int(ByteRange),
    Float(ByteRange),
    Bool(ByteRange),
    Verbatim(ByteRange),
    /// A literal kind the source grammar may grow that this model does not
    /// distinguish further.
    Unknown(ByteRange),
}

/// An expression node of the source tree.  The tagged union is deliberately
/// kept exhaustive over the source grammar's expression kinds: only the
/// literal case is supported, and each other kind keeps its byte range so
/// the translator can report it as an unsupported construct rather than
/// crash.  Unsupported kinds do not carry their children; no lowering rule
/// ever reads them.
#[derive(Debug, Clone, PartialEq, Eq)]
pub enum SourceExpr {
    Array(ByteRange),
    Assign(ByteRange),
    Async(ByteRange),
    Await(ByteRange),
    Binary(ByteRange),
    Block(ByteRange),
    Break(ByteRange),
    Call(ByteRange),
    Cast(ByteRange),
    Closure(ByteRange),
    Const(ByteRange),
    Continue(ByteRange),
    Field(ByteRange),
    ForLoop(ByteRange),
    Group(ByteRange),
    If(ByteRange),
    Index(ByteRange),
    Infer(ByteRange),
    Let(ByteRange),
    Lit(SourceLit),
    Loop(ByteRange),
    Macro(ByteRange),
    Match(ByteRange),
    MethodCall(ByteRange),
    Paren(ByteRange),
    Path(ByteRange),
    Range(ByteRange),
    Reference(ByteRange),
    Repeat(ByteRange),
    Return(ByteRange),
    Struct(ByteRange),
    Try(ByteRange),
    TryBlock(ByteRange),
    Tuple(ByteRange),
    Unary(ByteRange),
    Unsafe(ByteRange),
    Verbatim(ByteRange),
    While(ByteRange),
    Yield(ByteRange),
    Unknown(ByteRange),
}

/// The token arguments of a macro invocation, after the external parser
/// re-parsed them as a comma-separated expression list.
#[derive(Debug, Clone, PartialEq, Eq)]
pub struct MacroArgs {
    /// The argument expressions, in source order.
    pub exprs: Vec<SourceExpr>,
    /// The byte range covering the whole argument list.
    pub span: ByteRange,
}

/// A macro invocation of the source tree: a callee path plus a raw token
/// stream.  The model keeps what the lowering rules read: the final path
/// segment of the callee, the relevant byte ranges, and the outcome of
/// re-parsing the token stream as a comma-separated expression list
/// (`None` when the tokens do not parse as such a list).
#[derive(Debug, Clone, PartialEq, Eq)]
pub struct SourceMacro {
    /// The final segment of the callee path.
    pub name: String,
    /// The byte range of the whole invocation, trailing semicolon included.
    pub span: ByteRange,
    /// The byte range of the callee path.
    pub path_span: ByteRange,
    /// The re-parsed token arguments, or `None` when re-parsing failed.
    pub args: Option<MacroArgs>,
}

/// A statement node of the source tree.
#[derive(Debug, Clone, PartialEq, Eq)]
pub enum SourceStmt {
    /// A local binding; unsupported.
    Local(ByteRange),
    /// A nested item; unsupported.
    Item(ByteRange),
    /// An expression statement: the inner expression and the statement's
    /// byte range.
    Expr { expr: SourceExpr, span: ByteRange },
    /// A macro invocation in statement position.
    Macro(SourceMacro),
}

/// A function declaration of the source tree: its identifier text and its
/// body statements, in order.
#[derive(Debug, Clone, PartialEq, Eq)]
pub struct SourceItemFn {
    pub name: String,
    pub stmts: Vec<SourceStmt>,
}

/// A top-level item of the source tree: a function declaration, a macro
/// invocation, or any other item kind (which has no lowering rule and is
/// omitted from the output).
#[derive(Debug, Clone, PartialEq, Eq)]
pub enum SourceItem {
    Fn(SourceItemFn),
    Macro(SourceMacro),
    Other(ByteRange),
}

/// A whole parsed source file: its top-level items in order, the byte range
/// of the whole text, and an optional leading directive line.
#[derive(Debug, Clone, PartialEq, Eq)]
pub struct SourceFile {
    pub items: Vec<SourceItem>,
    pub span: ByteRange,
    pub shebang: Option<String>,
}

} // verus!
