use vstd::prelude::*;
use vstd::string::StringExecFns;

use crate::span::ByteRange;

verus! {

/// The diagnostic tag of a construct kind, as surfaced to users:
/// `literal:<kind>`, `expr:<kind>`, `stmt:<kind>` or `macro:<name>`.
pub open spec fn kind_tag(k: ConstructKind) -> Seq<char> {
    match k {
        ConstructKind::LitByteStr => "literal:bytestr"@,
        ConstructKind::LitCStr => "literal:cstr"@,
        ConstructKind::LitByte => "literal:byte"@,
        ConstructKind::LitChar => "literal:char"@,
        ConstructKind::LitInt => "literal:int"@,
        ConstructKind::LitFloat => "literal:float"@,
        ConstructKind::LitBool => "literal:bool"@,
        ConstructKind::LitVerbatim => "literal:verbatim"@,
        ConstructKind::LitUnknown => "literal:unknown"@,
        ConstructKind::ExprArray => "expr:array"@,
        ConstructKind::ExprAssign => "expr:assign"@,
        ConstructKind::ExprAsync => "expr:async"@,
        ConstructKind::ExprAwait => "expr:await"@,
        ConstructKind::ExprBinary => "expr:binary"@,
        ConstructKind::ExprBlock => "expr:block"@,
        ConstructKind::ExprBreak => "expr:break"@,
        ConstructKind::ExprCall => "expr:call"@,
        ConstructKind::ExprCast => "expr:cast"@,
        ConstructKind::ExprClosure => "expr:closure"@,
        ConstructKind::ExprConst => "expr:const"@,
        ConstructKind::ExprContinue => "expr:continue"@,
        ConstructKind::ExprField => "expr:field"@,
        ConstructKind::ExprForLoop => "expr:forloop"@,
        ConstructKind::ExprGroup => "expr:group"@,
        ConstructKind::ExprIf => "expr:if"@,
        ConstructKind::ExprIndex => "expr:index"@,
        ConstructKind::ExprInfer => "expr:infer"@,
        ConstructKind::ExprLet => "expr:let"@,
        ConstructKind::ExprLoop => "expr:loop"@,
        ConstructKind::ExprMacro => "expr:macro"@,
        ConstructKind::ExprMatch => "expr:match"@,
        ConstructKind::ExprMethodCall => "expr:methodcall"@,
        ConstructKind::ExprParen => "expr:paren"@,
        ConstructKind::ExprPath => "expr:path"@,
        ConstructKind::ExprRange => "expr:range"@,
        ConstructKind::ExprReference => "expr:reference"@,
        ConstructKind::ExprRepeat => "expr:repeat"@,
        ConstructKind::ExprReturn => "expr:return"@,
        ConstructKind::ExprStruct => "expr:struct"@,
        ConstructKind::ExprTry => "expr:try"@,
        ConstructKind::ExprTryBlock => "expr:tryblock"@,
        ConstructKind::ExprTuple => "expr:tuple"@,
        ConstructKind::ExprUnary => "expr:unary"@,
        ConstructKind::ExprUnsafe => "expr:unsafe"@,
        ConstructKind::ExprVerbatim => "expr:verbatim"@,
        ConstructKind::ExprWhile => "expr:while"@,
        ConstructKind::ExprYield => "expr:yield"@,
        ConstructKind::ExprUnknown => "expr:unknown"@,
        ConstructKind::StmtLocal => "stmt:local"@,
        ConstructKind::StmtItem => "stmt:item"@,
        ConstructKind::MacroName { name } => "macro:"@ + name@,
    }
}

/// The kind tag carried by a [`TranslateError::UnsupportedConstruct`]:
/// which node kind of the source tree had no lowering rule.
#[derive(Debug, Clone, PartialEq, Eq)]
pub enum ConstructKind {
    LitByteStr,
    LitCStr,
    LitByte,
    LitChar,
    LitInt,
    LitFloat,
    LitBool,
    LitVerbatim,
    LitUnknown,
    ExprArray,
    ExprAssign,
    ExprAsync,
    ExprAwait,
    ExprBinary,
    ExprBlock,
    ExprBreak,
    ExprCall,
    ExprCast,
    ExprClosure,
    ExprConst,
    ExprContinue,
    ExprField,
    ExprForLoop,
    ExprGroup,
    ExprIf,
    ExprIndex,
    ExprInfer,
    ExprLet,
    ExprLoop,
    ExprMacro,
    ExprMatch,
    ExprMethodCall,
    ExprParen,
    ExprPath,
    ExprRange,
    ExprReference,
    ExprRepeat,
    ExprReturn,
    ExprStruct,
    ExprTry,
    ExprTryBlock,
    ExprTuple,
    ExprUnary,
    ExprUnsafe,
    ExprVerbatim,
    ExprWhile,
    ExprYield,
    ExprUnknown,
    StmtLocal,
    StmtItem,
    /// A macro invocation whose callee is not the recognized print-macro
    /// name; carries that name.
    MacroName { name: String },
}

/// Why a translation aborted.  Every error carries the byte range of the
/// offending source node, for diagnostics.
#[derive(Debug, Clone, PartialEq, Eq)]
pub enum TranslateError {
    /// A syntactically valid source node for which no lowering rule exists.
    UnsupportedConstruct { kind: ConstructKind, span: ByteRange },
    /// The recognized print-macro name was matched, but its token stream did
    /// not re-parse as a non-empty comma-separated expression list.
    MacroArgumentError { span: ByteRange },
}

impl ConstructKind {
    /// The diagnostic tag of this kind, exactly [`kind_tag`].
    pub fn tag(&self) -> (s: String)
        ensures
            s@ == kind_tag(*self),
    {
        match self {
            ConstructKind::LitByteStr => String::from_str("literal:bytestr"),
            ConstructKind::LitCStr => String::from_str("literal:cstr"),
            ConstructKind::LitByte => String::from_str("literal:byte"),
            ConstructKind::LitChar => String::from_str("literal:char"),
            ConstructKind::LitInt => String::from_str("literal:int"),
            ConstructKind::LitFloat => String::from_str("literal:float"),
            ConstructKind::LitBool => String::from_str("literal:bool"),
            ConstructKind::LitVerbatim => String::from_str("literal:verbatim"),
            ConstructKind::LitUnknown => String::from_str("literal:unknown"),
            ConstructKind::ExprArray => String::from_str("expr:array"),
            ConstructKind::ExprAssign => String::from_str("expr:assign"),
            ConstructKind::ExprAsync => String::from_str("expr:async"),
            ConstructKind::ExprAwait => String::from_str("expr:await"),
            ConstructKind::ExprBinary => String::from_str("expr:binary"),
            ConstructKind::ExprBlock => String::from_str("expr:block"),
            ConstructKind::ExprBreak => String::from_str("expr:break"),
            ConstructKind::ExprCall => String::from_str("expr:call"),
            ConstructKind::ExprCast => String::from_str("expr:cast"),
            ConstructKind::ExprClosure => String::from_str("expr:closure"),
            ConstructKind::ExprConst => String::from_str("expr:const"),
            ConstructKind::ExprContinue => String::from_str("expr:continue"),
            ConstructKind::ExprField => String::from_str("expr:field"),
            ConstructKind::ExprForLoop => String::from_str("expr:forloop"),
            ConstructKind::ExprGroup => String::from_str("expr:group"),
            ConstructKind::ExprIf => String::from_str("expr:if"),
            ConstructKind::ExprIndex => String::from_str("expr:index"),
            ConstructKind::ExprInfer => String::from_str("expr:infer"),
            ConstructKind::ExprLet => String::from_str("expr:let"),
            ConstructKind::ExprLoop => String::from_str("expr:loop"),
            ConstructKind::ExprMacro => String::from_str("expr:macro"),
            ConstructKind::ExprMatch => String::from_str("expr:match"),
            ConstructKind::ExprMethodCall => String::from_str("expr:methodcall"),
            ConstructKind::ExprParen => String::from_str("expr:paren"),
            ConstructKind::ExprPath => String::from_str("expr:path"),
            ConstructKind::ExprRange => String::from_str("expr:range"),
            ConstructKind::ExprReference => String::from_str("expr:reference"),
            ConstructKind::ExprRepeat => String::from_str("expr:repeat"),
            ConstructKind::ExprReturn => String::from_str("expr:return"),
            ConstructKind::ExprStruct => String::from_str("expr:struct"),
            ConstructKind::ExprTry => String::from_str("expr:try"),
            ConstructKind::ExprTryBlock => String::from_str("expr:tryblock"),
            ConstructKind::ExprTuple => String::from_str("expr:tuple"),
            ConstructKind::ExprUnary => String::from_str("expr:unary"),
            ConstructKind::ExprUnsafe => String::from_str("expr:unsafe"),
            ConstructKind::ExprVerbatim => String::from_str("expr:verbatim"),
            ConstructKind::ExprWhile => String::from_str("expr:while"),
            ConstructKind::ExprYield => String::from_str("expr:yield"),
            ConstructKind::ExprUnknown => String::from_str("expr:unknown"),
            ConstructKind::StmtLocal => String::from_str("stmt:local"),
            ConstructKind::StmtItem => String::from_str("stmt:item"),
            ConstructKind::MacroName { name } => String::from_str("macro:").concat(name.as_str()),
        }
    }
}

impl TranslateError {
    /// The byte range of the source node the error reports.
    pub fn span(&self) -> (r: ByteRange)
        ensures
            r == self.span_of(),
    {
        match self {
            TranslateError::UnsupportedConstruct { span, .. } => *span,
            TranslateError::MacroArgumentError { span } => *span,
        }
    }

    /// The byte range of the source node the error reports.
    pub open spec fn span_of(&self) -> ByteRange {
        match self {
            TranslateError::UnsupportedConstruct { span, .. } => *span,
            TranslateError::MacroArgumentError { span } => *span,
        }
    }
}

} // verus!
