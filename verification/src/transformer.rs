use vstd::prelude::*;
use vstd::string::StringExecFns;

use crate::error::ConstructKind;
use crate::error::TranslateError;
use crate::source::SourceExpr;
use crate::source::SourceFile;
use crate::source::SourceItem;
use crate::source::SourceItemFn;
use crate::source::SourceLit;
use crate::source::SourceMacro;
use crate::source::SourceStmt;
use crate::span::ByteRange;
use crate::span::Span;
use crate::span::empty_span;
use crate::span::join_byte_ranges;
use crate::span::join_ranges;
use crate::span::span_map;
use crate::span::span_mapper;
use crate::target::Block;
use crate::target::CallExpression;
use crate::target::ExpressionStatement;
use crate::target::FunctionDeclaration;
use crate::target::Identifier;
use crate::target::StringLiteral;
use crate::target::TargetExpr;
use crate::target::TargetModule;
use crate::target::TargetStmt;

verus! {

/// The name of the one recognized source macro: the formatted-print macro.
pub open spec fn print_macro_name() -> Seq<char> {
    "println"@
}

/// The fixed target identifier that every recognized print-macro invocation
/// is rewritten to call.
pub open spec fn intrinsic_name() -> Seq<char> {
    "console.log"@
}

/// Whether a literal node has a lowering rule (only string literals do).
pub open spec fn lit_ok(l: SourceLit) -> bool {
    l is Str
}

/// The byte range a literal node carries.
pub open spec fn lit_span(l: SourceLit) -> ByteRange {
    match l {
        SourceLit::Str { span, .. } => span,
        SourceLit::ByteStr(s) => s,
        SourceLit::CStr(s) => s,
        SourceLit::Byte(s) => s,
        SourceLit::Char(s) => s,
        SourceLit::Int(s) => s,
        SourceLit::Float(s) => s,
        SourceLit::Bool(s) => s,
        SourceLit::Verbatim(s) => s,
        SourceLit::Unknown(s) => s,
    }
}

/// The kind tag reported for an unsupported literal node.
pub open spec fn lit_kind(l: SourceLit) -> ConstructKind {
    match l {
        SourceLit::Str { .. } => arbitrary(),
        SourceLit::ByteStr(_) => ConstructKind::LitByteStr,
        SourceLit::CStr(_) => ConstructKind::LitCStr,
        SourceLit::Byte(_) => ConstructKind::LitByte,
        SourceLit::Char(_) => ConstructKind::LitChar,
        SourceLit::Int(_) => ConstructKind::LitInt,
        SourceLit::Float(_) => ConstructKind::LitFloat,
        SourceLit::Bool(_) => ConstructKind::LitBool,
        SourceLit::Verbatim(_) => ConstructKind::LitVerbatim,
        SourceLit::Unknown(_) => ConstructKind::LitUnknown,
    }
}

/// What a successful literal translation yields: the same decoded content,
/// with the token's byte range mapped onto the target span.
pub open spec fn lit_matches(l: SourceLit, t: StringLiteral) -> bool {
    match l {
        SourceLit::Str { value, span } => t.value@ == value@ && t.span == span_map(span),
        _ => false,
    }
}

/// The exact error a failed literal translation yields.
pub open spec fn lit_err(l: SourceLit, e: TranslateError) -> bool {
    &&& !lit_ok(l)
    &&& e matches TranslateError::UnsupportedConstruct { kind, span } && kind == lit_kind(l)
        && span == lit_span(l)
}

/// Whether an expression node has a lowering rule (only literal expressions
/// holding a supported literal do).
pub open spec fn expr_ok(e: SourceExpr) -> bool {
    match e {
        SourceExpr::Lit(l) => lit_ok(l),
        _ => false,
    }
}

/// The byte range an expression node carries.
pub open spec fn expr_span(e: SourceExpr) -> ByteRange {
    match e {
        SourceExpr::Array(s) => s,
        SourceExpr::Assign(s) => s,
        SourceExpr::Async(s) => s,
        SourceExpr::Await(s) => s,
        SourceExpr::Binary(s) => s,
        SourceExpr::Block(s) => s,
        SourceExpr::Break(s) => s,
        SourceExpr::Call(s) => s,
        SourceExpr::Cast(s) => s,
        SourceExpr::Closure(s) => s,
        SourceExpr::Const(s) => s,
        SourceExpr::Continue(s) => s,
        SourceExpr::Field(s) => s,
        SourceExpr::ForLoop(s) => s,
        SourceExpr::Group(s) => s,
        SourceExpr::If(s) => s,
        SourceExpr::Index(s) => s,
        SourceExpr::Infer(s) => s,
        SourceExpr::Let(s) => s,
        SourceExpr::Lit(l) => lit_span(l),
        SourceExpr::Loop(s) => s,
        SourceExpr::Macro(s) => s,
        SourceExpr::Match(s) => s,
        SourceExpr::MethodCall(s) => s,
        SourceExpr::Paren(s) => s,
        SourceExpr::Path(s) => s,
        SourceExpr::Range(s) => s,
        SourceExpr::Reference(s) => s,
        SourceExpr::Repeat(s) => s,
        SourceExpr::Return(s) => s,
        SourceExpr::Struct(s) => s,
        SourceExpr::Try(s) => s,
        SourceExpr::TryBlock(s) => s,
        SourceExpr::Tuple(s) => s,
        SourceExpr::Unary(s) => s,
        SourceExpr::Unsafe(s) => s,
        SourceExpr::Verbatim(s) => s,
        SourceExpr::While(s) => s,
        SourceExpr::Yield(s) => s,
        SourceExpr::Unknown(s) => s,
    }
}

/// The kind tag reported for an unsupported expression node.
pub open spec fn expr_kind(e: SourceExpr) -> ConstructKind {
    match e {
        SourceExpr::Array(_) => ConstructKind::ExprArray,
        SourceExpr::Assign(_) => ConstructKind::ExprAssign,
        SourceExpr::Async(_) => ConstructKind::ExprAsync,
        SourceExpr::Await(_) => ConstructKind::ExprAwait,
        SourceExpr::Binary(_) => ConstructKind::ExprBinary,
        SourceExpr::Block(_) => ConstructKind::ExprBlock,
        SourceExpr::Break(_) => ConstructKind::ExprBreak,
        SourceExpr::Call(_) => ConstructKind::ExprCall,
        SourceExpr::Cast(_) => ConstructKind::ExprCast,
        SourceExpr::Closure(_) => ConstructKind::ExprClosure,
        SourceExpr::Const(_) => ConstructKind::ExprConst,
        SourceExpr::Continue(_) => ConstructKind::ExprContinue,
        SourceExpr::Field(_) => ConstructKind::ExprField,
        SourceExpr::ForLoop(_) => ConstructKind::ExprForLoop,
        SourceExpr::Group(_) => ConstructKind::ExprGroup,
        SourceExpr::If(_) => ConstructKind::ExprIf,
        SourceExpr::Index(_) => ConstructKind::ExprIndex,
        SourceExpr::Infer(_) => ConstructKind::ExprInfer,
        SourceExpr::Let(_) => ConstructKind::ExprLet,
        SourceExpr::Lit(l) => lit_kind(l),
        SourceExpr::Loop(_) => ConstructKind::ExprLoop,
        SourceExpr::Macro(_) => ConstructKind::ExprMacro,
        SourceExpr::Match(_) => ConstructKind::ExprMatch,
        SourceExpr::MethodCall(_) => ConstructKind::ExprMethodCall,
        SourceExpr::Paren(_) => ConstructKind::ExprParen,
        SourceExpr::Path(_) => ConstructKind::ExprPath,
        SourceExpr::Range(_) => ConstructKind::ExprRange,
        SourceExpr::Reference(_) => ConstructKind::ExprReference,
        SourceExpr::Repeat(_) => ConstructKind::ExprRepeat,
        SourceExpr::Return(_) => ConstructKind::ExprReturn,
        SourceExpr::Struct(_) => ConstructKind::ExprStruct,
        SourceExpr::Try(_) => ConstructKind::ExprTry,
        SourceExpr::TryBlock(_) => ConstructKind::ExprTryBlock,
        SourceExpr::Tuple(_) => ConstructKind::ExprTuple,
        SourceExpr::Unary(_) => ConstructKind::ExprUnary,
        SourceExpr::Unsafe(_) => ConstructKind::ExprUnsafe,
        SourceExpr::Verbatim(_) => ConstructKind::ExprVerbatim,
        SourceExpr::While(_) => ConstructKind::ExprWhile,
        SourceExpr::Yield(_) => ConstructKind::ExprYield,
        SourceExpr::Unknown(_) => ConstructKind::ExprUnknown,
    }
}

/// What a successful expression translation yields.
pub open spec fn expr_matches(e: SourceExpr, t: TargetExpr) -> bool {
    match e {
        SourceExpr::Lit(l) => t matches TargetExpr::Lit(sl) && lit_matches(l, sl),
        _ => false,
    }
}

/// The exact error a failed expression translation yields.
pub open spec fn expr_err(e: SourceExpr, err: TranslateError) -> bool {
    &&& !expr_ok(e)
    &&& err matches TranslateError::UnsupportedConstruct { kind, span } && kind == expr_kind(e)
        && span == expr_span(e)
}

/// Whether a macro invocation's callee is the recognized print-macro name.
pub open spec fn macro_recognized(m: SourceMacro) -> bool {
    m.name@ == print_macro_name()
}

/// Whether a macro invocation's token stream re-parsed as a non-empty
/// comma-separated expression list.
pub open spec fn macro_args_ok(m: SourceMacro) -> bool {
    match m.args {
        Some(a) => a.exprs@.len() > 0,
        None => false,
    }
}

/// Whether a macro invocation lowers without error: recognized name, a
/// well-formed argument list, and every argument supported.
pub open spec fn macro_ok(m: SourceMacro) -> bool {
    &&& macro_recognized(m)
    &&& match m.args {
        Some(a) => a.exprs@.len() > 0 && forall|i: int|
            0 <= i < a.exprs@.len() ==> expr_ok(#[trigger] a.exprs@[i]),
        None => false,
    }
}

/// What the lowered call expression of a recognized print-macro invocation
/// looks like: the fixed intrinsic callee with a synthesized span, and the
/// arguments translated 1:1 in original order — never interpolated.
pub open spec fn macro_call_matches(m: SourceMacro, c: CallExpression) -> bool {
    &&& c.callee.name@ == intrinsic_name()
    &&& c.callee.span == empty_span()
    &&& match m.args {
        Some(a) => {
            &&& c.span == span_map(join_ranges(m.path_span, a.span))
            &&& c.args@.len() == a.exprs@.len()
            &&& forall|i: int|
                0 <= i < a.exprs@.len() ==> expr_matches(a.exprs@[i], #[trigger] c.args@[i])
        },
        None => false,
    }
}

/// What the lowered statement of a recognized print-macro invocation looks
/// like: one expression statement spanning the whole invocation, wrapping
/// one call expression.
pub open spec fn macro_stmt_matches(m: SourceMacro, s: ExpressionStatement) -> bool {
    &&& s.span == span_map(m.span)
    &&& s.expr matches TargetExpr::Call(c) && macro_call_matches(m, c)
}

/// The exact error a failed macro lowering yields: an unrecognized callee
/// name, a token stream that did not re-parse, or the error of the first
/// unsupported argument, in that order of checks.
pub open spec fn macro_err(m: SourceMacro, e: TranslateError) -> bool {
    if !macro_recognized(m) {
        &&& e matches TranslateError::UnsupportedConstruct { kind, span }
            && (kind matches ConstructKind::MacroName { name } && name@ == m.name@)
            && span == m.span
    } else if !macro_args_ok(m) {
        e == (TranslateError::MacroArgumentError { span: m.span })
    } else {
        match m.args {
            Some(a) => exists|k: int|
                {
                    &&& 0 <= k < a.exprs@.len()
                    &&& !expr_ok(#[trigger] a.exprs@[k])
                    &&& forall|j: int| 0 <= j < k ==> expr_ok(#[trigger] a.exprs@[j])
                    &&& expr_err(a.exprs@[k], e)
                },
            None => false,
        }
    }
}

/// Whether a statement node lowers without error.
pub open spec fn stmt_ok(s: SourceStmt) -> bool {
    match s {
        SourceStmt::Local(_) => false,
        SourceStmt::Item(_) => false,
        SourceStmt::Expr { expr, .. } => expr_ok(expr),
        SourceStmt::Macro(m) => macro_ok(m),
    }
}

/// What a successful statement translation yields.
pub open spec fn stmt_matches(s: SourceStmt, t: TargetStmt) -> bool {
    match s {
        SourceStmt::Local(_) => false,
        SourceStmt::Item(_) => false,
        SourceStmt::Expr { expr, span } => {
            &&& t matches TargetStmt::Expr(es)
            &&& es.span == span_map(span)
            &&& expr_matches(expr, es.expr)
        },
        SourceStmt::Macro(m) => t matches TargetStmt::Expr(es) && macro_stmt_matches(m, es),
    }
}

/// The exact error a failed statement translation yields.
pub open spec fn stmt_err(s: SourceStmt, e: TranslateError) -> bool {
    match s {
        SourceStmt::Local(sp) => e matches TranslateError::UnsupportedConstruct { kind, span }
            && kind == ConstructKind::StmtLocal && span == sp,
        SourceStmt::Item(sp) => e matches TranslateError::UnsupportedConstruct { kind, span }
            && kind == ConstructKind::StmtItem && span == sp,
        SourceStmt::Expr { expr, .. } => expr_err(expr, e),
        SourceStmt::Macro(m) => macro_err(m, e),
    }
}

/// Whether every statement of a sequence lowers without error.
pub open spec fn stmts_ok(ss: Seq<SourceStmt>) -> bool {
    forall|i: int| 0 <= i < ss.len() ==> stmt_ok(#[trigger] ss[i])
}

/// What a successful block translation yields: statement count and order
/// preserved 1:1, with a synthesized block span.
pub open spec fn block_matches(ss: Seq<SourceStmt>, b: Block) -> bool {
    &&& b.span == empty_span()
    &&& b.stmts@.len() == ss.len()
    &&& forall|i: int| 0 <= i < ss.len() ==> stmt_matches(ss[i], #[trigger] b.stmts@[i])
}

/// The exact error a failed block translation yields: the error of the
/// first statement without a lowering, left to right.
pub open spec fn stmts_err(ss: Seq<SourceStmt>, e: TranslateError) -> bool {
    exists|k: int|
        {
            &&& 0 <= k < ss.len()
            &&& !stmt_ok(#[trigger] ss[k])
            &&& forall|j: int| 0 <= j < k ==> stmt_ok(#[trigger] ss[j])
            &&& stmt_err(ss[k], e)
        }
}

/// Whether a function item lowers without error: every body statement must.
pub open spec fn fn_ok(f: SourceItemFn) -> bool {
    stmts_ok(f.stmts@)
}

/// What a successful function translation yields: an identical identifier
/// and the body translated statement by statement.
pub open spec fn fn_matches(f: SourceItemFn, d: FunctionDeclaration) -> bool {
    &&& d.ident.name@ == f.name@
    &&& d.ident.span == empty_span()
    &&& block_matches(f.stmts@, d.body)
}

/// Whether a top-level item yields an output node (unrecognized items are
/// dropped instead).
pub open spec fn item_kept(i: SourceItem) -> bool {
    match i {
        SourceItem::Fn(_) => true,
        SourceItem::Macro(m) => macro_recognized(m),
        SourceItem::Other(_) => false,
    }
}

/// Whether a top-level item translates without error.  An unrecognized item
/// is dropped silently, so it is never an error by itself.
pub open spec fn item_ok(i: SourceItem) -> bool {
    match i {
        SourceItem::Fn(f) => fn_ok(f),
        SourceItem::Macro(m) => macro_recognized(m) ==> macro_ok(m),
        SourceItem::Other(_) => true,
    }
}

/// What a kept top-level item translates to.
pub open spec fn item_matches(i: SourceItem, t: TargetStmt) -> bool {
    match i {
        SourceItem::Fn(f) => t matches TargetStmt::Fn(d) && fn_matches(f, d),
        SourceItem::Macro(m) => t matches TargetStmt::Expr(es) && macro_stmt_matches(m, es),
        SourceItem::Other(_) => false,
    }
}

/// The exact error a failed top-level item translation yields.
pub open spec fn item_err(i: SourceItem, e: TranslateError) -> bool {
    match i {
        SourceItem::Fn(f) => stmts_err(f.stmts@, e),
        SourceItem::Macro(m) => macro_recognized(m) && macro_err(m, e),
        SourceItem::Other(_) => false,
    }
}

/// Whether every top-level item of a sequence translates without error.
pub open spec fn items_ok(s: Seq<SourceItem>) -> bool {
    forall|i: int| 0 <= i < s.len() ==> item_ok(#[trigger] s[i])
}

/// The exact error a failed module translation yields: the error of the
/// first failing item, left to right.
pub open spec fn items_err(s: Seq<SourceItem>, e: TranslateError) -> bool {
    exists|k: int|
        {
            &&& 0 <= k < s.len()
            &&& !item_ok(#[trigger] s[k])
            &&& forall|j: int| 0 <= j < k ==> item_ok(#[trigger] s[j])
            &&& item_err(s[k], e)
        }
}

/// The subsequence of top-level items that yield an output node, in order.
pub open spec fn kept_seq(s: Seq<SourceItem>) -> Seq<SourceItem>
    decreases s.len(),
{
    if s.len() == 0 {
        Seq::empty()
    } else {
        kept_seq(s.drop_last()) + (if item_kept(s.last()) {
            seq![s.last()]
        } else {
            Seq::empty()
        })
    }
}

/// What a successful module translation yields: the kept items translated
/// in order, the whole-source span mapped, and the directive line carried
/// through unchanged.
pub open spec fn module_matches(f: SourceFile, m: TargetModule) -> bool {
    &&& m.span == span_map(f.span)
    &&& match (f.shebang, m.shebang) {
        (Some(a), Some(b)) => a@ == b@,
        (None, None) => true,
        _ => false,
    }
    &&& m.body@.len() == kept_seq(f.items@).len()
    &&& forall|i: int|
        0 <= i < m.body@.len() ==> item_matches(kept_seq(f.items@)[i], #[trigger] m.body@[i])
}

/// The outcome of inspecting a macro-invocation node: not the recognized
/// print-macro name; the name matched but the token stream did not re-parse
/// as a non-empty expression list; or recognized, with the ordered argument
/// expressions and the byte range of the argument list.
pub enum Recognition<'a> {
    NotRecognized,
    ArgumentError,
    Recognized { exprs: &'a Vec<SourceExpr>, args_span: ByteRange },
}

/// The translation engine.  It carries no state: translation is a pure
/// function of the input tree.
pub struct Transformer {}

impl Transformer {
    pub fn new() -> (t: Transformer)
        ensures
            t == (Transformer {  }),
    {
        Transformer {  }
    }

    /// Translates a source literal.  Total for string literals; every other
    /// literal kind reports an unsupported construct.
    pub fn lit(&self, l: &SourceLit) -> (r: Result<StringLiteral, TranslateError>)
        ensures
            r is Ok <==> lit_ok(*l),
            r matches Ok(t) ==> lit_matches(*l, t),
            r matches Err(e) ==> lit_err(*l, e),
    {
        match l {
            SourceLit::Str { value, span } => Ok(
                StringLiteral { span: span_mapper(*span), value: value.clone() },
            ),
            SourceLit::ByteStr(s) => Err(
                TranslateError::UnsupportedConstruct { kind: ConstructKind::LitByteStr, span: *s },
            ),
            SourceLit::CStr(s) => Err(
                TranslateError::UnsupportedConstruct { kind: ConstructKind::LitCStr, span: *s },
            ),
            SourceLit::Byte(s) => Err(
                TranslateError::UnsupportedConstruct { kind: ConstructKind::LitByte, span: *s },
            ),
            SourceLit::Char(s) => Err(
                TranslateError::UnsupportedConstruct { kind: ConstructKind::LitChar, span: *s },
            ),
            SourceLit::Int(s) => Err(
                TranslateError::UnsupportedConstruct { kind: ConstructKind::LitInt, span: *s },
            ),
            SourceLit::Float(s) => Err(
                TranslateError::UnsupportedConstruct { kind: ConstructKind::LitFloat, span: *s },
            ),
            SourceLit::Bool(s) => Err(
                TranslateError::UnsupportedConstruct { kind: ConstructKind::LitBool, span: *s },
            ),
            SourceLit::Verbatim(s) => Err(
                TranslateError::UnsupportedConstruct { kind: ConstructKind::LitVerbatim, span: *s },
            ),
            SourceLit::Unknown(s) => Err(
                TranslateError::UnsupportedConstruct { kind: ConstructKind::LitUnknown, span: *s },
            ),
        }
    }

    /// Translates a source expression.  Deliberately total over the tagged
    /// union: the literal case delegates to the literal translator, and
    /// every other kind reports an unsupported construct rather than crash.
    pub fn expr(&self, e: &SourceExpr) -> (r: Result<TargetExpr, TranslateError>)
        ensures
            r is Ok <==> expr_ok(*e),
            r matches Ok(t) ==> expr_matches(*e, t),
            r matches Err(err) ==> expr_err(*e, err),
    {
        match e {
            SourceExpr::Lit(l) => match self.lit(l) {
                Ok(sl) => Ok(TargetExpr::Lit(sl)),
                Err(err) => Err(err),
            },
            SourceExpr::Array(s) => Err(
                TranslateError::UnsupportedConstruct { kind: ConstructKind::ExprArray, span: *s },
            ),
            SourceExpr::Assign(s) => Err(
                TranslateError::UnsupportedConstruct { kind: ConstructKind::ExprAssign, span: *s },
            ),
            SourceExpr::Async(s) => Err(
                TranslateError::UnsupportedConstruct { kind: ConstructKind::ExprAsync, span: *s },
            ),
            SourceExpr::Await(s) => Err(
                TranslateError::UnsupportedConstruct { kind: ConstructKind::ExprAwait, span: *s },
            ),
            SourceExpr::Binary(s) => Err(
                TranslateError::UnsupportedConstruct { kind: ConstructKind::ExprBinary, span: *s },
            ),
            SourceExpr::Block(s) => Err(
                TranslateError::UnsupportedConstruct { kind: ConstructKind::ExprBlock, span: *s },
            ),
            SourceExpr::Break(s) => Err(
                TranslateError::UnsupportedConstruct { kind: ConstructKind::ExprBreak, span: *s },
            ),
            SourceExpr::Call(s) => Err(
                TranslateError::UnsupportedConstruct { kind: ConstructKind::ExprCall, span: *s },
            ),
            SourceExpr::Cast(s) => Err(
                TranslateError::UnsupportedConstruct { kind: ConstructKind::ExprCast, span: *s },
            ),
            SourceExpr::Closure(s) => Err(
                TranslateError::UnsupportedConstruct { kind: ConstructKind::ExprClosure, span: *s },
            ),
            SourceExpr::Const(s) => Err(
                TranslateError::UnsupportedConstruct { kind: ConstructKind::ExprConst, span: *s },
            ),
            SourceExpr::Continue(s) => Err(
                TranslateError::UnsupportedConstruct {
                    kind: ConstructKind::ExprContinue,
                    span: *s,
                },
            ),
            SourceExpr::Field(s) => Err(
                TranslateError::UnsupportedConstruct { kind: ConstructKind::ExprField, span: *s },
            ),
            SourceExpr::ForLoop(s) => Err(
                TranslateError::UnsupportedConstruct { kind: ConstructKind::ExprForLoop, span: *s },
            ),
            SourceExpr::Group(s) => Err(
                TranslateError::UnsupportedConstruct { kind: ConstructKind::ExprGroup, span: *s },
            ),
            SourceExpr::If(s) => Err(
                TranslateError::UnsupportedConstruct { kind: ConstructKind::ExprIf, span: *s },
            ),
            SourceExpr::Index(s) => Err(
                TranslateError::UnsupportedConstruct { kind: ConstructKind::ExprIndex, span: *s },
            ),
            SourceExpr::Infer(s) => Err(
                TranslateError::UnsupportedConstruct { kind: ConstructKind::ExprInfer, span: *s },
            ),
            SourceExpr::Let(s) => Err(
                TranslateError::UnsupportedConstruct { kind: ConstructKind::ExprLet, span: *s },
            ),
            SourceExpr::Loop(s) => Err(
                TranslateError::UnsupportedConstruct { kind: ConstructKind::ExprLoop, span: *s },
            ),
            SourceExpr::Macro(s) => Err(
                TranslateError::UnsupportedConstruct { kind: ConstructKind::ExprMacro, span: *s },
            ),
            SourceExpr::Match(s) => Err(
                TranslateError::UnsupportedConstruct { kind: ConstructKind::ExprMatch, span: *s },
            ),
            SourceExpr::MethodCall(s) => Err(
                TranslateError::UnsupportedConstruct {
                    kind: ConstructKind::ExprMethodCall,
                    span: *s,
                },
            ),
            SourceExpr::Paren(s) => Err(
                TranslateError::UnsupportedConstruct { kind: ConstructKind::ExprParen, span: *s },
            ),
            SourceExpr::Path(s) => Err(
                TranslateError::UnsupportedConstruct { kind: ConstructKind::ExprPath, span: *s },
            ),
            SourceExpr::Range(s) => Err(
                TranslateError::UnsupportedConstruct { kind: ConstructKind::ExprRange, span: *s },
            ),
            SourceExpr::Reference(s) => Err(
                TranslateError::UnsupportedConstruct {
                    kind: ConstructKind::ExprReference,
                    span: *s,
                },
            ),
            SourceExpr::Repeat(s) => Err(
                TranslateError::UnsupportedConstruct { kind: ConstructKind::ExprRepeat, span: *s },
            ),
            SourceExpr::Return(s) => Err(
                TranslateError::UnsupportedConstruct { kind: ConstructKind::ExprReturn, span: *s },
            ),
            SourceExpr::Struct(s) => Err(
                TranslateError::UnsupportedConstruct { kind: ConstructKind::ExprStruct, span: *s },
            ),
            SourceExpr::Try(s) => Err(
                TranslateError::UnsupportedConstruct { kind: ConstructKind::ExprTry, span: *s },
            ),
            SourceExpr::TryBlock(s) => Err(
                TranslateError::UnsupportedConstruct {
                    kind: ConstructKind::ExprTryBlock,
                    span: *s,
                },
            ),
            SourceExpr::Tuple(s) => Err(
                TranslateError::UnsupportedConstruct { kind: ConstructKind::ExprTuple, span: *s },
            ),
            SourceExpr::Unary(s) => Err(
                TranslateError::UnsupportedConstruct { kind: ConstructKind::ExprUnary, span: *s },
            ),
            SourceExpr::Unsafe(s) => Err(
                TranslateError::UnsupportedConstruct { kind: ConstructKind::ExprUnsafe, span: *s },
            ),
            SourceExpr::Verbatim(s) => Err(
                TranslateError::UnsupportedConstruct {
                    kind: ConstructKind::ExprVerbatim,
                    span: *s,
                },
            ),
            SourceExpr::While(s) => Err(
                TranslateError::UnsupportedConstruct { kind: ConstructKind::ExprWhile, span: *s },
            ),
            SourceExpr::Yield(s) => Err(
                TranslateError::UnsupportedConstruct { kind: ConstructKind::ExprYield, span: *s },
            ),
            SourceExpr::Unknown(s) => Err(
                TranslateError::UnsupportedConstruct { kind: ConstructKind::ExprUnknown, span: *s },
            ),
        }
    }

    /// Whether the macro invocation's callee is the recognized print-macro
    /// name.
    fn name_recognized(&self, m: &SourceMacro) -> (b: bool)
        ensures
            b == macro_recognized(*m),
    {
        let print_name: String = String::from_str("println");
        m.name == print_name
    }

    /// Inspects a macro-invocation node: matches its callee name against the
    /// recognized print-macro name and, on a match, hands out the re-parsed
    /// argument list.  No other intrinsic shape is recognized.
    pub fn recognize_macro<'a>(&self, m: &'a SourceMacro) -> (r: Recognition<'a>)
        ensures
            r is NotRecognized <==> !macro_recognized(*m),
            r is ArgumentError <==> macro_recognized(*m) && !macro_args_ok(*m),
            r matches Recognition::Recognized { exprs, args_span } ==> {
                &&& macro_recognized(*m)
                &&& macro_args_ok(*m)
                &&& m.args matches Some(a) && exprs@ == a.exprs@ && args_span == a.span
            },
    {
        if !self.name_recognized(m) {
            Recognition::NotRecognized
        } else {
            match &m.args {
                None => Recognition::ArgumentError,
                Some(a) => {
                    if a.exprs.len() == 0 {
                        Recognition::ArgumentError
                    } else {
                        Recognition::Recognized { exprs: &a.exprs, args_span: a.span }
                    }
                },
            }
        }
    }

    /// The fixed intrinsic identifier that recognized print-macro
    /// invocations are rewritten to call.  Its span is synthesized: the
    /// identifier has no source counterpart.
    fn intrinsic_ident(&self) -> (id: Identifier)
        ensures
            id.name@ == intrinsic_name(),
            id.span == empty_span(),
    {
        Identifier { span: Span::synthesized(), name: String::from_str("console.log") }
    }

    /// Lowers a recognized print-macro invocation to one expression
    /// statement wrapping one call of the intrinsic, the arguments mapped
    /// 1:1 in original order with no interpolation.  Unrecognized names and
    /// token streams that do not re-parse are reported, never dropped.
    pub fn macro_stmt(&self, m: &SourceMacro) -> (r: Result<
        ExpressionStatement,
        TranslateError,
    >)
        ensures
            r is Ok <==> macro_ok(*m),
            r matches Ok(es) ==> macro_stmt_matches(*m, es),
            r matches Err(e) ==> macro_err(*m, e),
    {
        match self.recognize_macro(m) {
            Recognition::NotRecognized => Err(
                TranslateError::UnsupportedConstruct {
                    kind: ConstructKind::MacroName { name: m.name.clone() },
                    span: m.span,
                },
            ),
            Recognition::ArgumentError => Err(TranslateError::MacroArgumentError { span: m.span }),
            Recognition::Recognized { exprs, args_span } => {
                let n = exprs.len();
                let mut out: Vec<TargetExpr> = Vec::new();
                let mut i: usize = 0;
                while i < n
                    invariant
                        self.recognize_ok(*m, exprs@, args_span),
                        n == exprs@.len(),
                        i <= n,
                        out@.len() == i as int,
                        forall|j: int| 0 <= j < i as int ==> expr_ok(#[trigger] exprs@[j]),
                        forall|j: int|
                            0 <= j < i as int ==> expr_matches(
                                exprs@[j],
                                #[trigger] out@[j],
                            ),
                    decreases n - i,
                {
                    match self.expr(&exprs[i]) {
                        Ok(t) => out.push(t),
                        Err(e) => {
                            return Err(e);
                        },
                    }
                    i += 1;
                }
                Ok(
                    ExpressionStatement {
                        span: span_mapper(m.span),
                        expr: TargetExpr::Call(
                            CallExpression {
                                span: span_mapper(join_byte_ranges(m.path_span, args_span)),
                                callee: self.intrinsic_ident(),
                                args: out,
                            },
                        ),
                    },
                )
            },
        }
    }

    /// The facts the recognizer established, carried through the argument
    /// loop above.
    spec fn recognize_ok(&self, m: SourceMacro, exprs: Seq<SourceExpr>, args_span: ByteRange) -> bool {
        &&& macro_recognized(m)
        &&& macro_args_ok(m)
        &&& m.args matches Some(a) && exprs == a.exprs@ && args_span == a.span
    }

    /// Translates a source statement.  Expression statements and recognized
    /// print-macro invocations lower; local bindings and nested items are
    /// reported as unsupported — never silently dropped, unlike top-level
    /// items.
    pub fn stmt(&self, s: &SourceStmt) -> (r: Result<TargetStmt, TranslateError>)
        ensures
            r is Ok <==> stmt_ok(*s),
            r matches Ok(t) ==> stmt_matches(*s, t),
            r matches Err(e) ==> stmt_err(*s, e),
    {
        match s {
            SourceStmt::Local(sp) => Err(
                TranslateError::UnsupportedConstruct { kind: ConstructKind::StmtLocal, span: *sp },
            ),
            SourceStmt::Item(sp) => Err(
                TranslateError::UnsupportedConstruct { kind: ConstructKind::StmtItem, span: *sp },
            ),
            SourceStmt::Expr { expr, span } => match self.expr(expr) {
                Ok(t) => Ok(
                    TargetStmt::Expr(ExpressionStatement { span: span_mapper(*span), expr: t }),
                ),
                Err(e) => Err(e),
            },
            SourceStmt::Macro(m) => match self.macro_stmt(m) {
                Ok(es) => Ok(TargetStmt::Expr(es)),
                Err(e) => Err(e),
            },
        }
    }

    /// Translates a statement list into a target block, statement count and
    /// order preserved 1:1; the first failing statement aborts the whole
    /// block.
    pub fn block(&self, stmts: &Vec<SourceStmt>) -> (r: Result<Block, TranslateError>)
        ensures
            r is Ok <==> stmts_ok(stmts@),
            r matches Ok(b) ==> block_matches(stmts@, b),
            r matches Err(e) ==> stmts_err(stmts@, e),
    {
        let n = stmts.len();
        let mut out: Vec<TargetStmt> = Vec::new();
        let mut i: usize = 0;
        while i < n
            invariant
                n == stmts@.len(),
                i <= n,
                out@.len() == i as int,
                forall|j: int| 0 <= j < i as int ==> stmt_ok(#[trigger] stmts@[j]),
                forall|j: int| 0 <= j < i as int ==> stmt_matches(stmts@[j], #[trigger] out@[j]),
            decreases n - i,
        {
            match self.stmt(&stmts[i]) {
                Ok(t) => out.push(t),
                Err(e) => {
                    return Err(e);
                },
            }
            i += 1;
        }
        Ok(Block { span: Span::synthesized(), stmts: out })
    }

    /// Translates a top-level function item: an identical identifier, and
    /// the body translated statement by statement.  A failure translating
    /// any body statement aborts the whole unit.
    pub fn item_fn(&self, f: &SourceItemFn) -> (r: Result<FunctionDeclaration, TranslateError>)
        ensures
            r is Ok <==> fn_ok(*f),
            r matches Ok(d) ==> fn_matches(*f, d),
            r matches Err(e) ==> stmts_err(f.stmts@, e),
    {
        match self.block(&f.stmts) {
            Ok(b) => Ok(
                FunctionDeclaration {
                    ident: Identifier { span: Span::synthesized(), name: f.name.clone() },
                    body: b,
                },
            ),
            Err(e) => Err(e),
        }
    }

    /// Translates one top-level item.  Function declarations and recognized
    /// print-macro invocations yield a node; any other item kind is omitted
    /// silently (`Ok(None)`), the documented divergence from the
    /// nested-construct policy.
    pub fn item(&self, i: &SourceItem) -> (r: Result<Option<TargetStmt>, TranslateError>)
        ensures
            r is Ok <==> item_ok(*i),
            r matches Ok(o) ==> (o is Some <==> item_kept(*i)),
            r matches Ok(Some(t)) ==> item_matches(*i, t),
            r matches Err(e) ==> item_err(*i, e),
    {
        match i {
            SourceItem::Fn(f) => match self.item_fn(f) {
                Ok(d) => Ok(Some(TargetStmt::Fn(d))),
                Err(e) => Err(e),
            },
            SourceItem::Macro(m) => {
                if !self.name_recognized(m) {
                    Ok(None)
                } else {
                    match self.macro_stmt(m) {
                        Ok(es) => Ok(Some(TargetStmt::Expr(es))),
                        Err(e) => Err(e),
                    }
                }
            },
            SourceItem::Other(_) => Ok(None),
        }
    }

    /// Assembles the target module: translates the top-level items left to
    /// right, fail-fast, keeping output order; carries the whole-source
    /// span and the directive line through.
    pub fn module(&self, f: &SourceFile) -> (r: Result<TargetModule, TranslateError>)
        ensures
            r is Ok <==> items_ok(f.items@),
            r matches Ok(m) ==> module_matches(*f, m),
            r matches Err(e) ==> items_err(f.items@, e),
    {
        let n = f.items.len();
        let mut out: Vec<TargetStmt> = Vec::new();
        let mut i: usize = 0;
        while i < n
            invariant
                n == f.items@.len(),
                i <= n,
                forall|j: int| 0 <= j < i as int ==> item_ok(#[trigger] f.items@[j]),
                out@.len() == kept_seq(f.items@.take(i as int)).len(),
                forall|j: int|
                    0 <= j < out@.len() ==> item_matches(
                        kept_seq(f.items@.take(i as int))[j],
                        #[trigger] out@[j],
                    ),
            decreases n - i,
        {
            proof {
                assert(f.items@.take(i as int + 1).drop_last() =~= f.items@.take(i as int));
                assert(f.items@.take(i as int + 1).last() == f.items@[i as int]);
            }
            match self.item(&f.items[i]) {
                Ok(Some(t)) => out.push(t),
                Ok(None) => (),
                Err(e) => {
                    return Err(e);
                },
            }
            i += 1;
        }
        proof {
            assert(f.items@.take(n as int) =~= f.items@);
        }
        let shebang: Option<String> = match &f.shebang {
            Some(s) => Some(s.clone()),
            None => None,
        };
        Ok(TargetModule { span: span_mapper(f.span), body: out, shebang })
    }
}

/// Law: a top-level item that is neither a function declaration nor a
/// recognized print-macro invocation is dropped without error, wherever it
/// stands: the translated item sequence is the one of the surrounding items
/// alone, so the output module holds exactly one item fewer than a count
/// that charged the item as kept.
pub proof fn lemma_unrecognized_item_dropped(
    pre: Seq<SourceItem>,
    x: SourceItem,
    post: Seq<SourceItem>,
)
    requires
        !item_kept(x),
    ensures
        kept_seq(pre + seq![x] + post) == kept_seq(pre + post),
    decreases post.len(),
{
    if post.len() == 0 {
        assert(pre + seq![x] + post == pre + seq![x]) by {
            assert(pre + seq![x] + post =~= pre + seq![x]);
        }
        assert((pre + seq![x]).drop_last() =~= pre);
        assert((pre + seq![x]).last() == x);
        assert(pre + post =~= pre);
        assert(kept_seq(pre + seq![x]) == kept_seq(pre));
    } else {
        let whole = pre + seq![x] + post;
        assert(whole.last() == post.last());
        assert(whole.drop_last() =~= pre + seq![x] + post.drop_last());
        assert((pre + post).last() == post.last());
        assert((pre + post).drop_last() =~= pre + post.drop_last());
        lemma_unrecognized_item_dropped(pre, x, post.drop_last());
    }
}

/// Law: a kept top-level item contributes exactly one node to the output
/// module, wherever it stands among the items.
pub proof fn lemma_kept_item_counted(pre: Seq<SourceItem>, x: SourceItem, post: Seq<SourceItem>)
    requires
        item_kept(x),
    ensures
        kept_seq(pre + seq![x] + post).len() == kept_seq(pre + post).len() + 1,
    decreases post.len(),
{
    if post.len() == 0 {
        assert(pre + seq![x] + post =~= pre + seq![x]);
        assert((pre + seq![x]).drop_last() =~= pre);
        assert((pre + seq![x]).last() == x);
        assert(pre + post =~= pre);
    } else {
        let whole = pre + seq![x] + post;
        assert(whole.last() == post.last());
        assert(whole.drop_last() =~= pre + seq![x] + post.drop_last());
        assert((pre + post).last() == post.last());
        assert((pre + post).drop_last() =~= pre + post.drop_last());
        lemma_kept_item_counted(pre, x, post.drop_last());
    }
}

/// Law: one unsupported statement anywhere inside a function body makes the
/// whole function translation abort; no output is produced for it.
pub proof fn lemma_unsupported_stmt_aborts(f: SourceItemFn, k: int)
    requires
        0 <= k < f.stmts@.len(),
        !stmt_ok(f.stmts@[k]),
    ensures
        !fn_ok(f),
{
}

} // verus!
