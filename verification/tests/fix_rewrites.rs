use cairo_lint::fixes::{apply_fixes_to_content, DiagnosticFixSuggestion, FixError, Suggestion};
use cairo_lint::helper::{BlockSyntax, ElseBlockSyntax, IfSyntax, StatementSyntaxKind, StatementSyntaxNode};
use cairo_lint::lints::breaks::fix_break_unit;
use cairo_lint::lints::clone_on_copy::{fix_clone_on_copy, CloneReceiver};
use cairo_lint::lints::collapsible_match::{
    fix_collapsible_match, ArmExpressionSyntax, EnumPatternSyntax, MatchArmSyntax, MatchSyntax, PatternSyntax,
};
use cairo_lint::lints::double_parens::{fix_double_parens, ExprSyntax, ExprSyntaxKind};
use cairo_lint::lints::empty_enum_brackets_variant::fix_empty_enum_brackets_variant;
use cairo_lint::lints::enum_variant_names::fix_enum_variant_names;
use cairo_lint::lints::ifs::collapsible_if::{fix_collapsible_if, CollapsibleIfSyntax, OuterStatementSyntax};
use cairo_lint::lints::ifs::collapsible_if_else::{fix_collapsible_if_else, ElseClauseSyntax, ElseFirstStatement};
use cairo_lint::lints::ifs::equatable_if_let::{fix_equatable_if_let, FirstConditionSyntax};
use cairo_lint::lints::int_op_one::{
    fix_int_ge_min_one, fix_int_ge_plus_one, fix_int_le_min_one, fix_int_le_plus_one, BinaryExprText,
};
use cairo_lint::lints::loops::loop_for_while::{fix_loop_break, LoopSyntax};
use cairo_lint::lints::manual::helpers::{
    fix_manual, ArmExprSyntax, ElseClauseSyntax as ManualElse, ManualSyntax, StatementSyntax,
};
use cairo_lint::lints::manual::manual_assert::{fix_manual_assert, AssertElse, BlockPanicArgs, ManualAssertSyntax};
use cairo_lint::lints::manual::manual_expect::fix_manual_expect;
use cairo_lint::lints::manual::manual_expect_err::fix_manual_expect_err;
use cairo_lint::lints::manual::manual_is::fix_manual_is_some;
use cairo_lint::lints::manual::manual_is_empty::{fix_manual_is_empty, OperandKind, OperandSyntax};
use cairo_lint::lints::manual::manual_unwrap_or::{
    fix_manual_unwrap_or, ArmBodySyntax, ArmSyntax, ElseSyntax, UnwrapOrSyntax,
};
use cairo_lint::lints::manual::manual_unwrap_or_default::{
    extract_comment_only, fix_manual_unwrap_or_default, LetSyntax, UnwrapOrDefaultSyntax,
};
use cairo_lint::lints::performance::inefficient_unwrap_or::fix_inefficient_unwrap_or;
use cairo_lint::lints::redundant_brackets_in_enum_call::fix_redundant_brackets_in_enum_call;
use cairo_lint::lints::unit_return_type::fix_unit_return_type;
use cairo_lint::lints::unwrap_syscall::fix_unwrap_syscall;
use cairo_lint::semantic::Ty;

fn s(x: &str) -> String {
    x.to_string()
}

#[test]
fn manual_assert_fix_negates_condition() {
    let syn = ManualAssertSyntax {
        is_else_if: false,
        indent_text: s("    if a == 5 {"),
        condition: Some(s("a == 5 ")),
        if_statements: s("panic!(\"a shouldn't be equal to 5\");"),
        if_panic_args: BlockPanicArgs::Panic(vec![s("\"a shouldn't be equal to 5\"")]),
        else_clause: AssertElse::NoElse,
    };
    assert_eq!(fix_manual_assert(&syn), Some(s("    assert!(a != 5, \"a shouldn't be equal to 5\");\n")));
}

#[test]
fn manual_assert_fix_wraps_compound_condition() {
    let syn = ManualAssertSyntax {
        is_else_if: false,
        indent_text: s("if a == 5 && b {"),
        condition: Some(s("a == 5 && b")),
        if_statements: s("panic!(\"x\");"),
        if_panic_args: BlockPanicArgs::Panic(vec![s("\"x\"")]),
        else_clause: AssertElse::NoElse,
    };
    assert_eq!(fix_manual_assert(&syn), Some(s("assert!(!(a == 5 && b), \"x\");\n")));
}

#[test]
fn manual_assert_fix_keeps_plain_else_block() {
    let syn = ManualAssertSyntax {
        is_else_if: false,
        indent_text: s("if a == 5 {"),
        condition: Some(s("a == 5")),
        if_statements: s("panic!(\"x\");"),
        if_panic_args: BlockPanicArgs::Panic(vec![s("\"x\"")]),
        else_clause: AssertElse::Block { statements: s("foo();"), panic_args: BlockPanicArgs::Malformed },
    };
    assert_eq!(fix_manual_assert(&syn), Some(s("assert!(a != 5, \"x\");\nfoo();")));
}

#[test]
fn manual_assert_fix_on_else_block_keeps_condition() {
    let syn = ManualAssertSyntax {
        is_else_if: false,
        indent_text: s("if a == 5 {"),
        condition: Some(s("a == 5")),
        if_statements: s("x = 1;"),
        if_panic_args: BlockPanicArgs::OtherMacro,
        else_clause: AssertElse::Block {
            statements: s("panic!(\"a\", b);"),
            panic_args: BlockPanicArgs::Panic(vec![s("\"a\""), s(","), s(" b")]),
        },
    };
    assert_eq!(fix_manual_assert(&syn), Some(s("assert!(a == 5, \"a\", b);\nx = 1;")));
}

#[test]
fn manual_assert_fix_none_when_both_blocks_panic() {
    let syn = ManualAssertSyntax {
        is_else_if: false,
        indent_text: s("if a {"),
        condition: Some(s("a")),
        if_statements: s("panic!(\"x\");"),
        if_panic_args: BlockPanicArgs::Panic(vec![s("\"x\"")]),
        else_clause: AssertElse::Block { statements: s("panic!(\"y\");"), panic_args: BlockPanicArgs::Panic(vec![s("\"y\"")]) },
    };
    assert_eq!(fix_manual_assert(&syn), None);
}

fn bin(lhs: &str, lhs_inner: Option<&str>, rhs: &str, rhs_inner: Option<&str>) -> BinaryExprText {
    BinaryExprText { lhs: s(lhs), lhs_inner_lhs: lhs_inner.map(s), rhs: s(rhs), rhs_inner_lhs: rhs_inner.map(s) }
}

#[test]
fn int_op_one_fixes() {
    assert_eq!(fix_int_ge_plus_one(&bin("x ", None, "y + 1", Some("y "))), "x > y ");
    assert_eq!(fix_int_ge_min_one(&bin("x - 1 ", Some("x "), " y", None)), "x > y ");
    assert_eq!(fix_int_le_plus_one(&bin("x + 1 ", Some("x "), " y", None)), "x < y ");
    assert_eq!(fix_int_le_min_one(&bin("x ", None, "y - 1", Some("y "))), "x < y ");
}

#[test]
fn unwrap_or_fix_on_match_and_if_let() {
    let m = UnwrapOrSyntax::Match {
        node: s("match a {\n    Option::Some(v) => v,\n    Option::None => 0,\n}"),
        matched: s("a "),
        second_arm: Some(ArmSyntax {
            text: s("\n    Option::None => 0"),
            expression: s("0"),
            body: ArmBodySyntax::Expr { arrow_trivia: s(" ") },
        }),
    };
    assert_eq!(fix_manual_unwrap_or(&m), "a.unwrap_or(0)");
    let i = UnwrapOrSyntax::IfLet {
        node: s("    if let Option::Some(v) = a {\n v\n} else {\n 0\n}"),
        matched: Some(s("a ")),
        else_clause: Some(ElseSyntax::Block { statements: s(" 0"), block: s("{\n 0\n}") }),
    };
    assert_eq!(fix_manual_unwrap_or(&i), "    a.unwrap_or(0)");
    let commented = UnwrapOrSyntax::IfLet {
        node: s("if let Option::Some(v) = a {\n v\n} else {\n 0 // zero\n}"),
        matched: Some(s("a")),
        else_clause: Some(ElseSyntax::Block { statements: s(" 0 // zero"), block: s("{\n 0 // zero\n}") }),
    };
    assert_eq!(fix_manual_unwrap_or(&commented), "a.unwrap_or({\n 0 // zero\n})");
}

#[test]
fn unwrap_or_fix_reindents_multiline_arm() {
    let m = UnwrapOrSyntax::Match {
        node: s("match a {\n        Option::Some(v) => v,\n        Option::None => {\n            let x = 1;\n            x\n        },\n    }"),
        matched: s("a"),
        second_arm: Some(ArmSyntax {
            text: s("\n        Option::None => {\n            let x = 1;\n            x\n        }"),
            expression: s("{\n            let x = 1;\n            x\n        }"),
            body: ArmBodySyntax::Block { statements: s("\n            let x = 1;\n            x"), block: s("{\n            let x = 1;\n            x\n        }") },
        }),
    };
    assert_eq!(fix_manual_unwrap_or(&m), "a.unwrap_or({\n       let x = 1;\n       x\n   })");
}

#[test]
fn expect_fixes() {
    let m = ManualSyntax::Match {
        matched: s("opt "),
        arms: vec![ArmExprSyntax::Call(vec![s("x")]), ArmExprSyntax::Call(vec![s("'msg'")])],
    };
    assert_eq!(fix_manual_expect(&m), "opt.expect('msg')");
    assert_eq!(fix_manual_expect_err(&m), "opt.expect_err(x)");
    let i = ManualSyntax::If {
        let_expr: Some(s("res ")),
        else_clause: ManualElse::Block(vec![StatementSyntax::Call(vec![s("'err'")])]),
    };
    assert_eq!(fix_manual_expect(&i), "res.expect('err')");
    let b = ManualSyntax::Match {
        matched: s("r"),
        arms: vec![
            ArmExprSyntax::Block(vec![StatementSyntax::Call(vec![s("'e'")])]),
            ArmExprSyntax::Other,
        ],
    };
    assert_eq!(fix_manual_expect_err(&b), "r.expect_err('e')");
}

#[test]
fn is_some_fix() {
    let m = ManualSyntax::Match { matched: s("opt "), arms: vec![] };
    assert_eq!(fix_manual_is_some(&m), "opt.is_some()");
    let i = ManualSyntax::If { let_expr: Some(s("x ")), else_clause: ManualElse::NoElse };
    assert_eq!(fix_manual("is_err", &i), "x.is_err()");
}

#[test]
fn unwrap_or_default_fix_keeps_comments() {
    let plain = UnwrapOrDefaultSyntax {
        expr: ManualSyntax::Match { matched: s(" a "), arms: vec![] },
        node_text: s("    match a { // note\n    }"),
        parent_let: None,
    };
    assert_eq!(fix_manual_unwrap_or_default(&plain), "    // note\n    a.unwrap_or_default()");
    let in_let = UnwrapOrDefaultSyntax {
        expr: ManualSyntax::If { let_expr: Some(s("a")), else_clause: ManualElse::NoElse },
        node_text: s("if let Some(v) = a { v } else { 0 }"),
        parent_let: Some(LetSyntax {
            text: s("  let x = if let Some(v) = a { v } else { 0 };"),
            text_without_trivia: s("let x = if let Some(v) = a { v } else { 0 };"),
            rhs: s("if let Some(v) = a { v } else { 0 }"),
        }),
    };
    assert_eq!(fix_manual_unwrap_or_default(&in_let), "  let x = a.unwrap_or_default();\n");
}

#[test]
fn comment_extraction() {
    assert_eq!(extract_comment_only("let x = 5; // comment "), Some(s("// comment")));
    assert_eq!(extract_comment_only("let x = 5;"), None);
}

fn pat(text: &str, ep: Option<(&str, &str, &str)>) -> PatternSyntax {
    PatternSyntax {
        text: s(text),
        enum_pattern: ep.map(|(p, l, r)| EnumPatternSyntax { path: s(p), inner_brackets: Some((s(l), s(r))) }),
    }
}

fn marm(p: PatternSyntax, text: &str, e: ArmExpressionSyntax) -> MatchArmSyntax {
    MatchArmSyntax { patterns: vec![p], expression_text: s(text), expression_text_without_trivia: s(text.trim()), expression: e }
}

#[test]
fn collapsible_match_fix() {
    let inner = MatchSyntax {
        matched: s("r"),
        arms: vec![
            marm(pat("Result::Ok(v)", None), "v", ArmExpressionSyntax::Other),
            marm(pat("Result::Err(_)", None), "0", ArmExpressionSyntax::Other),
        ],
    };
    let outer = MatchSyntax {
        matched: s(" x "),
        arms: vec![
            marm(pat("Option::Some(r)", Some(("Option::Some", "(", ")"))), "match r {..}", ArmExpressionSyntax::Match(inner)),
            marm(pat("_", None), "0", ArmExpressionSyntax::Other),
        ],
    };
    assert_eq!(
        fix_collapsible_match(&outer),
        Some(s("match x {\n    Option::Some(Result::Ok(v)) => v,\n    _ => 0,\n}\n"))
    );
}

#[test]
fn collapsible_if_fix() {
    let syn = CollapsibleIfSyntax {
        if_kw: s("if "),
        conditions: s("a "),
        has_else: false,
        statements: vec![OuterStatementSyntax::If { conditions: s("b "), if_block: s("{\nfoo();\n}"), has_else: false }],
        text: s("if a {\nif b {\nfoo();\n}\n}"),
    };
    assert_eq!(fix_collapsible_if(&syn), Some(s("if (a) && (b) {\n    foo();\n}")));
    let with_else = CollapsibleIfSyntax {
        if_kw: s("if "),
        conditions: s("a"),
        has_else: true,
        statements: vec![OuterStatementSyntax::If { conditions: s("b"), if_block: s("{}"), has_else: false }],
        text: s("if a { if b {} } else {}"),
    };
    assert_eq!(fix_collapsible_if(&with_else), Some(s("if a { if b {} } else {}")));
    let two_statements = CollapsibleIfSyntax {
        if_kw: s("if "),
        conditions: s("a"),
        has_else: false,
        statements: vec![OuterStatementSyntax::Other, OuterStatementSyntax::Other],
        text: s("if a { b(); c(); }"),
    };
    assert_eq!(fix_collapsible_if(&two_statements), Some(s("if a { b(); c(); }")));
}

#[test]
fn collapsible_if_else_fix() {
    let e = Some(ElseClauseSyntax {
        text: s(" else {\n if b { x } else { y }\n}"),
        is_block: true,
        first_statement: ElseFirstStatement::If { conditions: s("b"), if_block: s("{ x }"), else_clause: s("else { y }") },
    });
    assert_eq!(fix_collapsible_if_else(&e), Some(s(" else if b { x } else { y }")));
    assert_eq!(fix_collapsible_if_else(&None), None);
}

#[test]
fn equatable_if_let_fix() {
    let c = Some(FirstConditionSyntax::Let { expr: s("a "), patterns: s("2 ") });
    assert_eq!(fix_equatable_if_let("if ", &c, "{ }"), Some(s("if a == 2 { }")));
    assert_eq!(fix_equatable_if_let("if ", &None, "{ }"), None);
}

#[test]
fn loop_to_while_fix() {
    let l = LoopSyntax {
        text: s("    loop {\n        if x > 5 {\n            break;\n        }\n        x += 1;\n    }"),
        leading_trivia: s("    "),
        body: BlockSyntax {
            statements: vec![
                StatementSyntaxNode {
                    text: s("if x > 5 {\n            break;\n        }"),
                    kind: StatementSyntaxKind::If(Box::new(IfSyntax {
                        conditions: s("x > 5 "),
                        conditions_without_trivia: s("x > 5"),
                        if_block: BlockSyntax {
                            statements: vec![StatementSyntaxNode { text: s("break;"), kind: StatementSyntaxKind::Break }],
                        },
                        else_clause: None,
                    })),
                },
                StatementSyntaxNode { text: s("x += 1;"), kind: StatementSyntaxKind::Other },
            ],
        },
    };
    assert_eq!(fix_loop_break(&l), "    while x <= 5 {\n        x += 1;\n    }\n");
}

#[test]
fn loop_to_while_fix_turns_else_if_into_if() {
    let l = LoopSyntax {
        text: s("loop { if a { break; } else if b { c(); } d(); }"),
        leading_trivia: s(""),
        body: BlockSyntax {
            statements: vec![
                StatementSyntaxNode {
                    text: s("if a { break; } else if b { c(); }"),
                    kind: StatementSyntaxKind::If(Box::new(IfSyntax {
                        conditions: s("a "),
                        conditions_without_trivia: s("a"),
                        if_block: BlockSyntax {
                            statements: vec![StatementSyntaxNode { text: s("break;"), kind: StatementSyntaxKind::Break }],
                        },
                        else_clause: Some(Box::new(ElseBlockSyntax::If(IfSyntax {
                            conditions: s("b "),
                            conditions_without_trivia: s("b"),
                            if_block: BlockSyntax {
                                statements: vec![StatementSyntaxNode { text: s("c();"), kind: StatementSyntaxKind::Other }],
                            },
                            else_clause: None,
                        }))),
                    })),
                },
                StatementSyntaxNode { text: s("d();"), kind: StatementSyntaxKind::Other },
            ],
        },
    };
    assert_eq!(fix_loop_break(&l), "while !(a) {\n    if b {\n        c();\n    }\n    d();\n}\n");
}

fn px(text: &str, inner: ExprSyntax) -> ExprSyntax {
    ExprSyntax { text: s(text), kind: ExprSyntaxKind::Parenthesized(Box::new(inner)) }
}

#[test]
fn double_parens_fix() {
    let e = px("((x + y))", px("(x + y)", ExprSyntax { text: s("x + y"), kind: ExprSyntaxKind::Binary }));
    assert_eq!(fix_double_parens(&e, false), "x + y");
    let e2 = px("((x + y))", px("(x + y)", ExprSyntax { text: s("x + y"), kind: ExprSyntaxKind::Binary }));
    assert_eq!(fix_double_parens(&e2, true), "(x + y)");
    let e3 = px("        ((x)) \n", px("(x)", ExprSyntax { text: s("x"), kind: ExprSyntaxKind::Other }));
    assert_eq!(fix_double_parens(&e3, false), "        x\n ");
}

#[test]
fn small_text_fixes() {
    assert_eq!(fix_unit_return_type("fn foo() -> () {", "-> () "), "fn foo() {");
    assert_eq!(fix_unit_return_type("fn foo() -> ();", "-> ()"), "fn foo() ;");
    assert_eq!(fix_break_unit("    break ();\n"), "    break;\n");
    assert_eq!(fix_redundant_brackets_in_enum_call("Option::None(())", "(())"), Some(s("Option::None")));
    assert_eq!(fix_redundant_brackets_in_enum_call("Foo::A", "(())"), None);
    assert_eq!(fix_empty_enum_brackets_variant("    A: (),", ": ()"), "    A,");
    assert_eq!(fix_unwrap_syscall("result", "."), "result.unwrap_syscall()");
    assert_eq!(fix_inefficient_unwrap_or("opt", ".", Some("expensive()")), Some(s("opt.unwrap_or_else(|| expensive())")));
    assert_eq!(fix_inefficient_unwrap_or("opt", ".", None), None);
}

#[test]
fn enum_variant_names_fix() {
    let names = vec![s("ColorRed"), s("ColorGreen")];
    assert_eq!(fix_enum_variant_names("enum Color { ColorRed, ColorGreen }", &names), "enum Color { Red, Green }");
}

#[test]
fn clone_on_copy_fix() {
    let once = CloneReceiver { text: s("a"), ty: Ty::Snapshot(Box::new(Ty::Other)), is_snapshot_expr: true };
    assert_eq!(fix_clone_on_copy(&once), "a");
    let twice = CloneReceiver {
        text: s("a"),
        ty: Ty::Snapshot(Box::new(Ty::Snapshot(Box::new(Ty::Other)))),
        is_snapshot_expr: false,
    };
    assert_eq!(fix_clone_on_copy(&twice), "**a");
}

#[test]
fn is_empty_fix() {
    let ops = Some((
        OperandSyntax { text: s("a.len()"), kind: OperandKind::Binary { lhs: s("a") } },
        OperandSyntax { text: s("0"), kind: OperandKind::Literal },
    ));
    assert_eq!(fix_manual_is_empty(&ops), Some(s("a.is_empty()")));
    let calls = Some((
        OperandSyntax { text: s("ArrayImpl::new()"), kind: OperandKind::FunctionCall { path: s("ArrayImpl::new") } },
        OperandSyntax { text: s("get_arr()"), kind: OperandKind::FunctionCall { path: s("get_arr") } },
    ));
    assert_eq!(fix_manual_is_empty(&calls), Some(s("get_arr().is_empty()")));
    assert_eq!(fix_manual_is_empty(&None), None);
}

#[test]
fn fixes_applied_to_content() {
    let fix = DiagnosticFixSuggestion {
        description: s("d"),
        suggestions: vec![Suggestion { span_start: 8, span_end: 9, code: s("2") }, Suggestion { span_start: 0, span_end: 3, code: s("const") }],
    };
    assert_eq!(apply_fixes_to_content("let x = 1;", &vec![fix]), Ok(s("const x = 2;")));
    let bad = DiagnosticFixSuggestion { description: s("d"), suggestions: vec![Suggestion { span_start: 5, span_end: 100, code: s("") }] };
    assert_eq!(apply_fixes_to_content("let x = 1;", &vec![bad]), Err(FixError::InvalidSpan));
    assert_eq!(apply_fixes_to_content("unchanged", &vec![]), Ok(s("unchanged")));
}

#[test]
fn fixes_sorted_before_applying() {
    let fix = DiagnosticFixSuggestion {
        description: s("d"),
        suggestions: vec![Suggestion { span_start: 0, span_end: 3, code: s("const") }, Suggestion { span_start: 8, span_end: 9, code: s("2") }],
    };
    assert_eq!(apply_fixes_to_content("let x = 1;", &vec![fix]), Ok(s("const x = 2;")));
}

fn default_settings() -> cairo_lint::fixes::FormatSettings {
    cairo_lint::fixes::FormatSettings {
        tab_size: 4,
        max_line_length: 100,
        sort_module_level_items: true,
        tuple_line_by_line: true,
        fixed_array_line_by_line: false,
        macro_call_line_by_line: false,
        merge_use_items: true,
        allow_duplicate_uses: false,
    }
}

#[test]
fn formatting_a_fixed_file() {
    let formatted = cairo_lint::fixes::format_fixed_file(&default_settings(), "fn main(){let x=1;}");
    assert_eq!(formatted, "fn main() {\n    let x = 1;\n}\n");
    let fix = DiagnosticFixSuggestion { description: s("d"), suggestions: vec![Suggestion { span_start: 16, span_end: 17, code: s("2") }] };
    assert_eq!(
        cairo_lint::fixes::fix_file_content("fn main(){let x=1;}", &vec![fix], &default_settings()),
        Ok(s("fn main() {\n    let x = 2;\n}\n"))
    );
}
