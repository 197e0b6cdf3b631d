// Tests that drive the translator on source-model values written directly,
// with no parser involved.

use transpile_core::ByteRange;
use transpile_core::ConstructKind;
use transpile_core::MacroArgs;
use transpile_core::Recognition;
use transpile_core::SourceExpr;
use transpile_core::SourceFile;
use transpile_core::SourceItem;
use transpile_core::SourceItemFn;
use transpile_core::SourceLit;
use transpile_core::SourceMacro;
use transpile_core::SourceStmt;
use transpile_core::Span;
use transpile_core::TargetExpr;
use transpile_core::TargetStmt;
use transpile_core::Transformer;
use transpile_core::TranslateError;
use transpile_core::span_mapper;

fn range(start: u32, end: u32) -> ByteRange {
    ByteRange { start, end }
}

fn str_lit(value: &str, start: u32, end: u32) -> SourceExpr {
    SourceExpr::Lit(SourceLit::Str {
        value: value.to_string(),
        span: range(start, end),
    })
}

fn print_macro(args: Vec<SourceExpr>, args_span: ByteRange) -> SourceMacro {
    SourceMacro {
        name: "println".to_string(),
        span: range(0, 40),
        path_span: range(0, 7),
        args: Some(MacroArgs {
            exprs: args,
            span: args_span,
        }),
    }
}

#[test]
fn span_mapper_is_pure() {
    let r = range(3, 9);
    let first = span_mapper(r);
    let second = span_mapper(r);
    assert_eq!(first, second);
    assert_eq!(first, Span { lo: 3, hi: 9 });
}

#[test]
fn arguments_not_interpolated() {
    // The first argument looks like a format string; it must be passed
    // through as an ordinary positional value, and the argument count and
    // order must be preserved.
    let transformer = Transformer::new();
    let mac = print_macro(
        vec![
            str_lit("{} and {}", 9, 20),
            str_lit("a", 22, 25),
            str_lit("b", 27, 30),
        ],
        range(9, 30),
    );
    let stmt = transformer.stmt(&SourceStmt::Macro(mac)).unwrap();
    match stmt {
        TargetStmt::Expr(es) => match es.expr {
            TargetExpr::Call(c) => {
                assert_eq!(c.callee.name, "console.log");
                assert_eq!(c.args.len(), 3);
                let values: Vec<String> = c
                    .args
                    .iter()
                    .map(|a| match a {
                        TargetExpr::Lit(sl) => sl.value.clone(),
                        other => panic!("expected a string literal, got {:?}", other),
                    })
                    .collect();
                assert_eq!(values, vec!["{} and {}", "a", "b"]);
            }
            other => panic!("expected a call, got {:?}", other),
        },
        other => panic!("expected an expression statement, got {:?}", other),
    }
}

#[test]
fn recognizer_rejects_other_names() {
    let transformer = Transformer::new();
    let mac = SourceMacro {
        name: "print".to_string(),
        span: range(0, 10),
        path_span: range(0, 5),
        args: Some(MacroArgs {
            exprs: vec![str_lit("x", 6, 9)],
            span: range(6, 9),
        }),
    };
    assert!(matches!(
        transformer.recognize_macro(&mac),
        Recognition::NotRecognized
    ));
}

#[test]
fn recognizer_rejects_unparsed_arguments() {
    let transformer = Transformer::new();
    let mac = SourceMacro {
        name: "println".to_string(),
        span: range(0, 12),
        path_span: range(0, 7),
        args: None,
    };
    assert!(matches!(
        transformer.recognize_macro(&mac),
        Recognition::ArgumentError
    ));
}

#[test]
fn recognizer_rejects_empty_argument_list() {
    let transformer = Transformer::new();
    let mac = print_macro(vec![], range(9, 9));
    assert!(matches!(
        transformer.recognize_macro(&mac),
        Recognition::ArgumentError
    ));
}

#[test]
fn shebang_carried_through() {
    let transformer = Transformer::new();
    let file = SourceFile {
        items: vec![],
        span: range(0, 16),
        shebang: Some("#!/usr/bin/node".to_string()),
    };
    let module = transformer.module(&file).unwrap();
    assert_eq!(module.shebang, Some("#!/usr/bin/node".to_string()));
    assert_eq!(module.span, Span { lo: 0, hi: 16 });
    assert_eq!(module.body.len(), 0);
}

#[test]
fn first_failing_item_reported() {
    // Fail-fast, left to right: the module reports the first failing item's
    // error even when a later item would fail differently.
    let transformer = Transformer::new();
    let bad_fn = SourceItem::Fn(SourceItemFn {
        name: "f".to_string(),
        stmts: vec![SourceStmt::Expr {
            expr: SourceExpr::Binary(range(5, 10)),
            span: range(5, 11),
        }],
    });
    let bad_macro = SourceItem::Macro(SourceMacro {
        name: "println".to_string(),
        span: range(20, 32),
        path_span: range(20, 27),
        args: None,
    });
    let file = SourceFile {
        items: vec![bad_fn, bad_macro],
        span: range(0, 32),
        shebang: None,
    };
    let result = transformer.module(&file);
    assert_eq!(
        result,
        Err(TranslateError::UnsupportedConstruct {
            kind: ConstructKind::ExprBinary,
            span: range(5, 10),
        })
    );
}

#[test]
fn unsupported_literal_kinds_reported() {
    let transformer = Transformer::new();
    let cases = vec![
        (SourceLit::Bool(range(1, 5)), ConstructKind::LitBool),
        (SourceLit::Int(range(1, 3)), ConstructKind::LitInt),
        (SourceLit::Float(range(1, 4)), ConstructKind::LitFloat),
        (SourceLit::Char(range(1, 4)), ConstructKind::LitChar),
    ];
    for (lit, kind) in cases {
        let span = match &lit {
            SourceLit::Bool(s)
            | SourceLit::Int(s)
            | SourceLit::Float(s)
            | SourceLit::Char(s) => *s,
            other => panic!("unexpected case {:?}", other),
        };
        assert_eq!(
            transformer.lit(&lit),
            Err(TranslateError::UnsupportedConstruct { kind, span })
        );
    }
}

#[test]
fn error_span_accessor() {
    let err = TranslateError::MacroArgumentError { span: range(2, 7) };
    assert_eq!(err.span(), range(2, 7));
}

#[test]
fn kind_tags() {
    assert_eq!(ConstructKind::ExprBinary.tag(), "expr:binary");
    assert_eq!(ConstructKind::LitInt.tag(), "literal:int");
    assert_eq!(ConstructKind::StmtLocal.tag(), "stmt:local");
    assert_eq!(
        ConstructKind::MacroName {
            name: "dbg".to_string()
        }
        .tag(),
        "macro:dbg"
    );
}

#[test]
fn nested_item_statement_unsupported() {
    let transformer = Transformer::new();
    let stmt = SourceStmt::Item(range(4, 20));
    assert_eq!(
        transformer.stmt(&stmt),
        Err(TranslateError::UnsupportedConstruct {
            kind: ConstructKind::StmtItem,
            span: range(4, 20),
        })
    );
}
