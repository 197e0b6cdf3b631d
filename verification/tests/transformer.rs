// Tests that drive the translator from real parsed source text: the input is
// parsed by syn, converted into the library's source model, translated, and
// (where a test checks printed output) converted into an swc tree and printed
// with swc's code generator.

use swc_core::ecma::ast;
use syn::parse::Parser;
use syn::spanned::Spanned;

use transpile_core::Block;
use transpile_core::ByteRange;
use transpile_core::CallExpression;
use transpile_core::ConstructKind;
use transpile_core::ExpressionStatement;
use transpile_core::FunctionDeclaration;
use transpile_core::Identifier;
use transpile_core::MacroArgs;
use transpile_core::SourceExpr;
use transpile_core::SourceFile;
use transpile_core::SourceItem;
use transpile_core::SourceItemFn;
use transpile_core::SourceLit;
use transpile_core::SourceMacro;
use transpile_core::SourceStmt;
use transpile_core::Span;
use transpile_core::StringLiteral;
use transpile_core::TargetExpr;
use transpile_core::TargetStmt;
use transpile_core::Transformer;
use transpile_core::TranslateError;

fn br(span: proc_macro2::Span) -> ByteRange {
    let range = span.byte_range();
    ByteRange {
        start: range.start as u32,
        end: range.end as u32,
    }
}

fn conv_lit(lit: &syn::Lit) -> SourceLit {
    match lit {
        syn::Lit::Str(s) => SourceLit::Str {
            value: s.value(),
            span: br(s.span()),
        },
        syn::Lit::ByteStr(l) => SourceLit::ByteStr(br(l.span())),
        syn::Lit::CStr(l) => SourceLit::CStr(br(l.span())),
        syn::Lit::Byte(l) => SourceLit::Byte(br(l.span())),
        syn::Lit::Char(l) => SourceLit::Char(br(l.span())),
        syn::Lit::Int(l) => SourceLit::Int(br(l.span())),
        syn::Lit::Float(l) => SourceLit::Float(br(l.span())),
        syn::Lit::Bool(l) => SourceLit::Bool(br(l.span())),
        syn::Lit::Verbatim(l) => SourceLit::Verbatim(br(l.span())),
        other => SourceLit::Unknown(br(other.span())),
    }
}

fn conv_expr(expr: &syn::Expr) -> SourceExpr {
    let sp = br(expr.span());
    match expr {
        syn::Expr::Array(_) => SourceExpr::Array(sp),
        syn::Expr::Assign(_) => SourceExpr::Assign(sp),
        syn::Expr::Async(_) => SourceExpr::Async(sp),
        syn::Expr::Await(_) => SourceExpr::Await(sp),
        syn::Expr::Binary(_) => SourceExpr::Binary(sp),
        syn::Expr::Block(_) => SourceExpr::Block(sp),
        syn::Expr::Break(_) => SourceExpr::Break(sp),
        syn::Expr::Call(_) => SourceExpr::Call(sp),
        syn::Expr::Cast(_) => SourceExpr::Cast(sp),
        syn::Expr::Closure(_) => SourceExpr::Closure(sp),
        syn::Expr::Const(_) => SourceExpr::Const(sp),
        syn::Expr::Continue(_) => SourceExpr::Continue(sp),
        syn::Expr::Field(_) => SourceExpr::Field(sp),
        syn::Expr::ForLoop(_) => SourceExpr::ForLoop(sp),
        syn::Expr::Group(_) => SourceExpr::Group(sp),
        syn::Expr::If(_) => SourceExpr::If(sp),
        syn::Expr::Index(_) => SourceExpr::Index(sp),
        syn::Expr::Infer(_) => SourceExpr::Infer(sp),
        syn::Expr::Let(_) => SourceExpr::Let(sp),
        syn::Expr::Lit(l) => SourceExpr::Lit(conv_lit(&l.lit)),
        syn::Expr::Loop(_) => SourceExpr::Loop(sp),
        syn::Expr::Macro(_) => SourceExpr::Macro(sp),
        syn::Expr::Match(_) => SourceExpr::Match(sp),
        syn::Expr::MethodCall(_) => SourceExpr::MethodCall(sp),
        syn::Expr::Paren(_) => SourceExpr::Paren(sp),
        syn::Expr::Path(_) => SourceExpr::Path(sp),
        syn::Expr::Range(_) => SourceExpr::Range(sp),
        syn::Expr::Reference(_) => SourceExpr::Reference(sp),
        syn::Expr::Repeat(_) => SourceExpr::Repeat(sp),
        syn::Expr::Return(_) => SourceExpr::Return(sp),
        syn::Expr::Struct(_) => SourceExpr::Struct(sp),
        syn::Expr::Try(_) => SourceExpr::Try(sp),
        syn::Expr::TryBlock(_) => SourceExpr::TryBlock(sp),
        syn::Expr::Tuple(_) => SourceExpr::Tuple(sp),
        syn::Expr::Unary(_) => SourceExpr::Unary(sp),
        syn::Expr::Unsafe(_) => SourceExpr::Unsafe(sp),
        syn::Expr::Verbatim(_) => SourceExpr::Verbatim(sp),
        syn::Expr::While(_) => SourceExpr::While(sp),
        syn::Expr::Yield(_) => SourceExpr::Yield(sp),
        _ => SourceExpr::Unknown(sp),
    }
}

fn conv_macro(mac: &syn::Macro, whole: ByteRange) -> SourceMacro {
    let name = mac
        .path
        .segments
        .last()
        .map(|s| s.ident.to_string())
        .unwrap_or_default();
    let path_span = br(mac.path.span());
    let parser =
        syn::punctuated::Punctuated::<syn::Expr, syn::token::Comma>::parse_separated_nonempty;
    let args = match parser.parse2(mac.tokens.clone()) {
        Ok(list) => Some(MacroArgs {
            span: br(list.span()),
            exprs: list.iter().map(conv_expr).collect(),
        }),
        Err(_) => None,
    };
    SourceMacro {
        name,
        span: whole,
        path_span,
        args,
    }
}

fn conv_stmt(stmt: &syn::Stmt) -> SourceStmt {
    match stmt {
        syn::Stmt::Local(l) => SourceStmt::Local(br(l.span())),
        syn::Stmt::Item(i) => SourceStmt::Item(br(i.span())),
        syn::Stmt::Expr(e, _) => SourceStmt::Expr {
            expr: conv_expr(e),
            span: br(stmt.span()),
        },
        syn::Stmt::Macro(m) => SourceStmt::Macro(conv_macro(&m.mac, br(m.span()))),
    }
}

fn conv_item_fn(item_fn: &syn::ItemFn) -> SourceItemFn {
    SourceItemFn {
        name: item_fn.sig.ident.to_string(),
        stmts: item_fn.block.stmts.iter().map(conv_stmt).collect(),
    }
}

fn conv_file(file: &syn::File) -> SourceFile {
    let items = file
        .items
        .iter()
        .map(|item| match item {
            syn::Item::Fn(f) => SourceItem::Fn(conv_item_fn(f)),
            syn::Item::Macro(m) => SourceItem::Macro(conv_macro(&m.mac, br(m.span()))),
            other => SourceItem::Other(br(other.span())),
        })
        .collect();
    SourceFile {
        items,
        span: br(file.span()),
        shebang: file.shebang.clone(),
    }
}

fn swc_span(s: Span) -> swc_core::common::Span {
    swc_core::common::Span::new(
        swc_core::common::BytePos(s.lo),
        swc_core::common::BytePos(s.hi),
    )
}

fn swc_ident(i: &Identifier) -> swc_core::ecma::ast::Ident {
    swc_core::ecma::ast::Ident {
        span: swc_span(i.span),
        ctxt: Default::default(),
        sym: i.name.clone().into(),
        optional: false,
    }
}

fn swc_expr(e: &TargetExpr) -> swc_core::ecma::ast::Expr {
    match e {
        TargetExpr::Lit(sl) => ast::Expr::Lit(ast::Lit::Str(ast::Str {
            span: swc_span(sl.span),
            value: sl.value.clone().into(),
            raw: None,
        })),
        TargetExpr::Ident(i) => ast::Expr::Ident(swc_ident(i)),
        TargetExpr::Call(c) => ast::Expr::Call(ast::CallExpr {
            span: swc_span(c.span),
            ctxt: Default::default(),
            callee: ast::Callee::Expr(Box::new(ast::Expr::Ident(swc_ident(&c.callee)))),
            args: c
                .args
                .iter()
                .map(|a| ast::ExprOrSpread {
                    spread: None,
                    expr: Box::new(swc_expr(a)),
                })
                .collect(),
            type_args: None,
        }),
    }
}

fn swc_fn(d: &FunctionDeclaration) -> swc_core::ecma::ast::FnDecl {
    ast::FnDecl {
        ident: swc_ident(&d.ident),
        declare: false,
        function: Box::new(ast::Function {
            this_param: None,
            params: Vec::new(),
            decorators: Vec::new(),
            span: Default::default(),
            ctxt: Default::default(),
            body: Some(ast::FunctionBody {
                span: swc_span(d.body.span),
                stmts: d.body.stmts.iter().map(swc_stmt).collect(),
            }),
            is_generator: false,
            is_async: false,
            type_params: None,
            return_type: None,
        }),
    }
}

fn swc_stmt(t: &TargetStmt) -> swc_core::ecma::ast::Stmt {
    match t {
        TargetStmt::Expr(es) => ast::Stmt::Expr(ast::ExprStmt {
            span: swc_span(es.span),
            expr: Box::new(swc_expr(&es.expr)),
        }),
        TargetStmt::Fn(d) => ast::Stmt::Decl(ast::Decl::Fn(swc_fn(d))),
    }
}

fn print_fn_decl(d: &FunctionDeclaration) -> String {
    let code = swc_core::ecma::codegen::to_code(&swc_fn(d));
    code.trim_end().to_string()
}

#[test]
fn test_lit() {
    let transformer = Transformer::new();

    let lit = syn::parse_str::<syn::Lit>(r#""Hello, World!""#).unwrap();

    let result = transformer.lit(&conv_lit(&lit));

    assert_eq!(
        result,
        Ok(StringLiteral {
            span: Span { lo: 0, hi: 15 },
            value: "Hello, World!".to_string(),
        })
    );
}

#[test]
fn test_item_fn() {
    let transformer = Transformer::new();

    let item_fn = syn::parse_str::<syn::ItemFn>(
        r#"fn hello_world() {
                println!("Hello, {}!", "world");
            }"#,
    )
    .unwrap();

    let result = transformer.item_fn(&conv_item_fn(&item_fn)).unwrap();

    let code = print_fn_decl(&result);

    assert_eq!(
        code,
        r#"function hello_world() {
    console.log("Hello, {}!", "world");
}"#
    );

    assert_eq!(
        result,
        FunctionDeclaration {
            ident: Identifier {
                span: Span { lo: 0, hi: 0 },
                name: "hello_world".to_string(),
            },
            body: Block {
                span: Span { lo: 0, hi: 0 },
                stmts: vec![TargetStmt::Expr(ExpressionStatement {
                    span: Span { lo: 35, hi: 67 },
                    expr: TargetExpr::Call(CallExpression {
                        span: Span { lo: 35, hi: 65 },
                        callee: Identifier {
                            span: Span { lo: 0, hi: 0 },
                            name: "console.log".to_string(),
                        },
                        args: vec![
                            TargetExpr::Lit(StringLiteral {
                                span: Span { lo: 44, hi: 56 },
                                value: "Hello, {}!".to_string(),
                            }),
                            TargetExpr::Lit(StringLiteral {
                                span: Span { lo: 58, hi: 65 },
                                value: "world".to_string(),
                            }),
                        ],
                    }),
                })],
            },
        }
    );
}

#[test]
fn top_level_print_macro() {
    let transformer = Transformer::new();
    let file = syn::parse_file(r#"println!("hello world");"#).unwrap();
    let module = transformer.module(&conv_file(&file)).unwrap();

    assert_eq!(module.shebang, None);
    assert_eq!(module.body.len(), 1);
    match &module.body[0] {
        TargetStmt::Expr(es) => {
            assert_eq!(es.span, Span { lo: 0, hi: 24 });
            match &es.expr {
                TargetExpr::Call(c) => {
                    assert_eq!(c.span, Span { lo: 0, hi: 22 });
                    assert_eq!(c.callee.name, "console.log");
                    assert_eq!(c.callee.span, Span { lo: 0, hi: 0 });
                    assert_eq!(
                        c.args,
                        vec![TargetExpr::Lit(StringLiteral {
                            span: Span { lo: 9, hi: 22 },
                            value: "hello world".to_string(),
                        })]
                    );
                }
                other => panic!("expected a call, got {:?}", other),
            }
        }
        other => panic!("expected an expression statement, got {:?}", other),
    }
}

#[test]
fn top_level_other_item_dropped() {
    let transformer = Transformer::new();
    let file = syn::parse_file("const GREETING: u32 = 1;").unwrap();
    let module = transformer.module(&conv_file(&file)).unwrap();
    assert_eq!(module.body.len(), 0);
}

#[test]
fn top_level_items_keep_order() {
    let transformer = Transformer::new();
    let file = syn::parse_file(
        r#"struct Zed; fn noop() {} println!("after");"#,
    )
    .unwrap();
    let source = conv_file(&file);
    assert_eq!(source.items.len(), 3);
    let module = transformer.module(&source).unwrap();
    assert_eq!(module.body.len(), 2);
    match &module.body[0] {
        TargetStmt::Fn(d) => assert_eq!(d.ident.name, "noop"),
        other => panic!("expected the function first, got {:?}", other),
    }
    match &module.body[1] {
        TargetStmt::Expr(_) => {}
        other => panic!("expected the lowered macro second, got {:?}", other),
    }
}

#[test]
fn binary_expression_aborts() {
    let transformer = Transformer::new();
    let item_fn = syn::parse_str::<syn::ItemFn>("fn f() { 1 + 2; }").unwrap();
    let result = transformer.item_fn(&conv_item_fn(&item_fn));
    assert_eq!(
        result,
        Err(TranslateError::UnsupportedConstruct {
            kind: ConstructKind::ExprBinary,
            span: ByteRange { start: 9, end: 14 },
        })
    );
}

#[test]
fn macro_argument_error() {
    let transformer = Transformer::new();
    let file = syn::parse_file("println!(,);").unwrap();
    let result = transformer.module(&conv_file(&file));
    assert_eq!(
        result,
        Err(TranslateError::MacroArgumentError {
            span: ByteRange { start: 0, end: 12 },
        })
    );
}

#[test]
fn unrecognized_macro_statement() {
    let transformer = Transformer::new();
    let item_fn = syn::parse_str::<syn::ItemFn>("fn f() { dbg!(); }").unwrap();
    let result = transformer.item_fn(&conv_item_fn(&item_fn));
    assert_eq!(
        result,
        Err(TranslateError::UnsupportedConstruct {
            kind: ConstructKind::MacroName {
                name: "dbg".to_string(),
            },
            span: ByteRange { start: 9, end: 16 },
        })
    );
}

#[test]
fn integer_literal_unsupported() {
    let transformer = Transformer::new();
    let item_fn = syn::parse_str::<syn::ItemFn>("fn f() { 5; }").unwrap();
    let result = transformer.item_fn(&conv_item_fn(&item_fn));
    assert_eq!(
        result,
        Err(TranslateError::UnsupportedConstruct {
            kind: ConstructKind::LitInt,
            span: ByteRange { start: 9, end: 10 },
        })
    );
}

#[test]
fn trailing_expression_statement() {
    let transformer = Transformer::new();
    let item_fn = syn::parse_str::<syn::ItemFn>(r#"fn f() { "done" }"#).unwrap();
    let result = transformer.item_fn(&conv_item_fn(&item_fn)).unwrap();
    assert_eq!(
        result.body.stmts,
        vec![TargetStmt::Expr(ExpressionStatement {
            span: Span { lo: 9, hi: 15 },
            expr: TargetExpr::Lit(StringLiteral {
                span: Span { lo: 9, hi: 15 },
                value: "done".to_string(),
            }),
        })]
    );
}

#[test]
fn local_binding_unsupported() {
    let transformer = Transformer::new();
    let item_fn = syn::parse_str::<syn::ItemFn>("fn f() { let x = 1; }").unwrap();
    let result = transformer.item_fn(&conv_item_fn(&item_fn));
    assert_eq!(
        result,
        Err(TranslateError::UnsupportedConstruct {
            kind: ConstructKind::StmtLocal,
            span: ByteRange { start: 9, end: 19 },
        })
    );
}
