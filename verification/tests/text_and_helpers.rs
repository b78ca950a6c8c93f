use cairo_lint::helper::{
    indent_snippet, invert_condition, invert_simple_condition, is_item_ancestor_of_module, is_one,
    is_panic_expr, is_zero, remove_break_from_block, remove_break_from_else_clause, BlockSyntax,
    ElseBlockSyntax, IfSyntax, StatementSyntaxKind, StatementSyntaxNode,
};
use cairo_lint::corelib::{
    call_facts, CalleeIds, CorelibContext, ItemKind, LookupItem, MemberKind, ModuleEntry, ModuleTree, NamedId,
};
use cairo_lint::semantic::{Block, CallArg, Expr, FunctionCall, TraitFunction};

fn call(path: &str) -> FunctionCall {
    FunctionCall {
        full_path: path.to_string(),
        trait_name: String::new(),
        is_impl: false,
        trait_function: TraitFunction::Other,
        function_name: String::new(),
        impl_path: String::new(),
        impl_in_corelib_integer: false,
        impl_is_t_copy_clone: false,
        is_extern_panic: false,
        is_panic_with_byte_array: false,
        returns_never: false,
        debug_name: String::new(),
        args: vec![],
        arg_tys: vec![],
    }
}

fn lit(v: i128) -> Expr {
    Expr::Literal { value: Some(v), ty: "core::felt252".to_string() }
}

#[test]
fn invert_condition_swaps_connective_and_comparisons() {
    assert_eq!(invert_condition("x >= 5 && y < 10"), "x < 5 || y >= 10");
    assert_eq!(invert_condition("a == b || c != d"), "a != b && c == d");
}

#[test]
fn invert_condition_negates_mixed_connectives_whole() {
    assert_eq!(invert_condition("a && b || c"), "!(a && b || c)");
}

#[test]
fn invert_simple_condition_each_operator() {
    assert_eq!(invert_simple_condition("x >= 5"), "x < 5");
    assert_eq!(invert_simple_condition("x <= 5"), "x > 5");
    assert_eq!(invert_simple_condition("x > 5"), "x <= 5");
    assert_eq!(invert_simple_condition("x < 5"), "x >= 5");
    assert_eq!(invert_simple_condition("x == 5"), "x != 5");
    assert_eq!(invert_simple_condition("x != 5"), "x == 5");
    assert_eq!(invert_simple_condition("flag"), "!(flag)");
}

#[test]
fn invert_comparison_twice_gives_it_back() {
    for c in ["a >= b", "a <= b", "a > b", "a < b", "a == b", "a != b"] {
        assert_eq!(invert_simple_condition(&invert_simple_condition(c)), c);
    }
}

#[test]
fn indent_snippet_indents_blocks() {
    assert_eq!(indent_snippet("fn f() {\nlet x = 1;\n}", 0), "fn f() {\n    let x = 1;\n}");
    assert_eq!(indent_snippet("  a\n\n  b", 1), "    a\n\n    b");
    assert_eq!(indent_snippet("}", 0), "}");
}

#[test]
fn zero_and_one_literals() {
    assert!(is_zero(&CallArg::Value(lit(0))));
    assert!(!is_zero(&CallArg::Value(lit(1))));
    assert!(is_one(&CallArg::Value(lit(1))));
    assert!(!is_one(&CallArg::Reference));
}

#[test]
fn panic_expressions() {
    assert!(is_panic_expr(&Expr::FunctionCall(call("core::panics::panic"))));
    assert!(is_panic_expr(&Expr::FunctionCall(call("core::panics::panic_with_byte_array"))));
    let block = Expr::Block(Block {
        statements: vec![],
        tail: Some(Box::new(Expr::FunctionCall(call("core::panics::panic_with_byte_array")))),
    });
    assert!(is_panic_expr(&block));
    let other = Expr::Block(Block { statements: vec![], tail: Some(Box::new(Expr::FunctionCall(call("core::panics::panic")))) });
    assert!(!is_panic_expr(&other));
    assert!(!is_panic_expr(&Expr::FunctionCall(call("core::foo"))));
}

fn named(id: u64, path: &str) -> NamedId {
    NamedId { id, path: path.to_string() }
}

fn sample_tree() -> ModuleTree {
    ModuleTree {
        items: Some(vec![
            ModuleEntry::Other { kind: ItemKind::FreeFunction, id: 1, path: "core::f".to_string() },
            ModuleEntry::Submodule {
                id: 2,
                path: "core::integer".to_string(),
                module: ModuleTree {
                    items: Some(vec![ModuleEntry::Impl {
                        id: 3,
                        path: "core::integer::U32Add".to_string(),
                        functions: Some(vec![named(4, "core::integer::U32Add::add")]),
                        types: None,
                        constants: Some(vec![]),
                    }]),
                },
            },
            ModuleEntry::Trait {
                id: 5,
                path: "core::traits::Add".to_string(),
                functions: Some(vec![named(6, "core::traits::Add::add")]),
                types: Some(vec![]),
                constants: None,
            },
        ]),
    }
}

#[test]
fn ancestor_of_module_finds_nested_items() {
    let tree = sample_tree();
    assert!(is_item_ancestor_of_module(LookupItem::ModuleItem { kind: ItemKind::FreeFunction, id: 1 }, &tree));
    assert!(is_item_ancestor_of_module(LookupItem::ModuleItem { kind: ItemKind::Impl, id: 3 }, &tree));
    assert!(is_item_ancestor_of_module(LookupItem::ImplItem { kind: MemberKind::Function, id: 4 }, &tree));
    assert!(is_item_ancestor_of_module(LookupItem::TraitItem { kind: MemberKind::Function, id: 6 }, &tree));
    assert!(!is_item_ancestor_of_module(LookupItem::ImplItem { kind: MemberKind::Function, id: 6 }, &tree));
    assert!(!is_item_ancestor_of_module(LookupItem::ModuleItem { kind: ItemKind::Submodule, id: 2 }, &tree));
    assert!(!is_item_ancestor_of_module(LookupItem::ModuleItem { kind: ItemKind::Impl, id: 9 }, &ModuleTree { items: None }));
}

fn stmt(text: &str, kind: StatementSyntaxKind) -> StatementSyntaxNode {
    StatementSyntaxNode { text: text.to_string(), kind }
}

#[test]
fn remove_break_keeps_other_statements() {
    let block = BlockSyntax {
        statements: vec![
            stmt("let x = 5;", StatementSyntaxKind::Other),
            stmt("break;", StatementSyntaxKind::Break),
            stmt(" let y = 10;\n   foo(y); ", StatementSyntaxKind::Other),
        ],
    };
    let out: String = remove_break_from_block(&block, &[' ', ' ']).into_iter().collect();
    assert_eq!(out, "      let x = 5;\n      let y = 10;\n      foo(y);\n");
}

#[test]
fn remove_break_from_else_if() {
    let else_if = ElseBlockSyntax::If(IfSyntax {
        conditions: "x > 5".to_string(),
        conditions_without_trivia: "x > 5".to_string(),
        if_block: BlockSyntax {
            statements: vec![stmt("let y = 10;", StatementSyntaxKind::Other), stmt("break;", StatementSyntaxKind::Break)],
        },
        else_clause: None,
    });
    let out: String = remove_break_from_else_clause(&else_if, &[]).into_iter().collect();
    assert_eq!(out, "else if x > 5 {\n    let y = 10;\n}\n");
}

fn integer_tree() -> ModuleTree {
    ModuleTree {
        items: Some(vec![ModuleEntry::Impl {
            id: 91,
            path: "core::integer::U32PartialOrd".to_string(),
            functions: Some(vec![]),
            types: None,
            constants: None,
        }]),
    }
}

fn trait_entry(id: u64, path: &str, fns: Vec<NamedId>) -> ModuleEntry {
    ModuleEntry::Trait { id, path: path.to_string(), functions: Some(fns), types: None, constants: None }
}

fn corelib_tree() -> ModuleTree {
    ModuleTree {
        items: Some(vec![
            ModuleEntry::Impl { id: 10, path: "core::BoolPartialEq".to_string(), functions: None, types: None, constants: None },
            ModuleEntry::Submodule {
                id: 20,
                path: "core::panics".to_string(),
                module: ModuleTree {
                    items: Some(vec![
                        ModuleEntry::Other { kind: ItemKind::ExternFunction, id: 21, path: "core::panics::panic".to_string() },
                        ModuleEntry::Other {
                            kind: ItemKind::FreeFunction,
                            id: 22,
                            path: "core::panics::panic_with_byte_array".to_string(),
                        },
                    ]),
                },
            },
            ModuleEntry::Impl { id: 30, path: "core::clone::TCopyClone".to_string(), functions: None, types: None, constants: None },
            trait_entry(40, "core::traits::PartialOrd", vec![
                named(41, "core::traits::PartialOrd::le"),
                named(42, "core::traits::PartialOrd::ge"),
            ]),
            trait_entry(50, "core::traits::Add", vec![named(51, "core::traits::Add::add")]),
            trait_entry(60, "core::traits::Sub", vec![named(61, "core::traits::Sub::sub")]),
            trait_entry(70, "core::traits::Into", vec![named(71, "core::traits::Into::into")]),
            trait_entry(80, "core::traits::TryInto", vec![named(81, "core::traits::TryInto::try_into")]),
            ModuleEntry::Submodule { id: 90, path: "core::integer".to_string(), module: integer_tree() },
        ]),
    }
}

#[test]
fn call_facts_from_corelib() {
    let ctx = CorelibContext::new(&vec![corelib_tree()]);
    let ids = |e: Option<u64>, f: Option<u64>, i: Option<u64>, t: Option<u64>| CalleeIds {
        extern_function: e,
        free_function: f,
        concrete_impl: i,
        impl_trait_function: t,
    };
    let ge_on_u32 = call_facts(&ctx, &integer_tree(), &ids(None, None, Some(91), Some(42)));
    assert!(ge_on_u32.impl_in_corelib_integer);
    assert_eq!(ge_on_u32.trait_function, TraitFunction::PartialOrdGe);
    assert!(!ge_on_u32.impl_is_t_copy_clone);
    let clone = call_facts(&ctx, &integer_tree(), &ids(None, None, Some(30), Some(99)));
    assert!(clone.impl_is_t_copy_clone);
    assert!(!clone.impl_in_corelib_integer);
    assert_eq!(clone.trait_function, TraitFunction::Other);
    let panic = call_facts(&ctx, &integer_tree(), &ids(Some(21), None, None, None));
    assert!(panic.is_extern_panic);
    assert!(!panic.is_panic_with_byte_array);
    let pwba = call_facts(&ctx, &integer_tree(), &ids(None, Some(22), None, None));
    assert!(pwba.is_panic_with_byte_array);
    assert_eq!(call_facts(&ctx, &integer_tree(), &ids(None, None, None, Some(71))).trait_function, TraitFunction::Into);
    assert_eq!(call_facts(&ctx, &integer_tree(), &ids(None, None, None, Some(81))).trait_function, TraitFunction::TryInto);
    assert_eq!(call_facts(&ctx, &integer_tree(), &ids(None, None, None, Some(51))).trait_function, TraitFunction::Add);
    assert_eq!(call_facts(&ctx, &integer_tree(), &ids(None, None, None, Some(61))).trait_function, TraitFunction::Sub);
    assert_eq!(call_facts(&ctx, &integer_tree(), &ids(None, None, None, Some(41))).trait_function, TraitFunction::PartialOrdLe);
}

#[test]
fn indent_snippet_idempotent_and_shifts() {
    let input = "fn f() {\nlet x = 1;\n\nif x {\ny();\n}\n}";
    let once = indent_snippet(input, 2);
    assert_eq!(indent_snippet(&once, 2), once);
    let deeper = indent_snippet(input, 3);
    let shifted: Vec<String> = once
        .split('\n')
        .map(|l| if l.is_empty() { String::new() } else { format!("    {l}") })
        .collect();
    assert_eq!(deeper.split('\n').map(|l| l.to_string()).collect::<Vec<_>>(), shifted);
}

#[test]
fn indent_snippet_of_empty_text_at_any_level() {
    assert_eq!(indent_snippet("", usize::MAX), "");
    assert_eq!(indent_snippet("  \n ", usize::MAX), "\n");
}
