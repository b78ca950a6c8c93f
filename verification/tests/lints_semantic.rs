use cairo_lint::context::LintRule;
use cairo_lint::lints::assert_on_const::{
    check_assert_on_const, find_bool_not_impl_calls_on_const_values, is_assert_macro_path, AssertCallSite,
    LoweredBlock, LoweredStatement, PathSegmentSyntax,
};
use cairo_lint::lints::breaks::check_break;
use cairo_lint::lints::clone_on_copy::check_clone_on_copy;
use cairo_lint::lints::collapsible_match::check_single_collapsible_match;
use cairo_lint::lints::duplicate_underscore_args::check_duplicate_underscore_args;
use cairo_lint::lints::empty_enum_brackets_variant::{check_empty_enum_brackets_variant, VariantInfo};
use cairo_lint::lints::enum_variant_names::{check_enum_variant_names, get_prefix_and_suffix, letter_case, word_split};
use cairo_lint::lints::ifs::collapsible_if::check_collapsible_if;
use cairo_lint::lints::ifs::collapsible_if_else::check_single_collapsible_if_else;
use cairo_lint::lints::ifs::equatable_if_let::check_single_equatable_if_let;
use cairo_lint::lints::ifs::ifs_same_cond::check_single_duplicate_if_condition;
use cairo_lint::lints::int_op_one::{check_int_op_one, check_single_int_op_one};
use cairo_lint::lints::loops::loop_for_while::check_single_loop_for_while;
use cairo_lint::lints::manual::manual_assert::check_single_manual_assert;
use cairo_lint::lints::manual::manual_is::check_manual_is;
use cairo_lint::lints::manual::{check_manual, check_manual_if, ManualLint};
use cairo_lint::lints::panic::{check_single_panic_usage, CallOrigin, PanicReport};
use cairo_lint::lints::performance::inefficient_unwrap_or::check_inefficient_unwrap_or;
use cairo_lint::lints::redundant_brackets_in_enum_call::{is_redundant_enum_brackets_call, EnumVariantCall};
use cairo_lint::lints::redundant_into::{check_single_redundant_into, IntoCall};
use cairo_lint::lints::unwrap_syscall::check_single_unwrap_syscall;
use cairo_lint::queries::{get_all_conditions, get_all_if_expressions, FunctionBody, LintHit};
use cairo_lint::semantic::{
    Block, CallArg, Condition, Expr, ExprIf, ExprMatch, FunctionCall, GenericArg, MatchArm, Pattern, PatternVariable,
    Statement, TraitFunction, Ty, VarRef,
};

fn call(path: &str, args: Vec<CallArg>) -> FunctionCall {
    FunctionCall {
        full_path: path.to_string(),
        trait_name: String::new(),
        is_impl: false,
        trait_function: TraitFunction::Other,
        function_name: String::new(),
        impl_path: String::new(),
        impl_in_corelib_integer: false,
        impl_is_t_copy_clone: false,
        is_extern_panic: false,
        is_panic_with_byte_array: false,
        returns_never: false,
        debug_name: String::new(),
        args,
        arg_tys: vec![],
    }
}

fn var(id: u64) -> Expr {
    Expr::Var(VarRef::Local(id))
}

fn lit(v: i128) -> Expr {
    Expr::Literal { value: Some(v), ty: "core::integer::u32".to_string() }
}

fn block(statements: Vec<Statement>, tail: Option<Expr>) -> Expr {
    Expr::Block(Block { statements, tail: tail.map(Box::new) })
}

fn cond(e: Expr, text: &str) -> Condition {
    Condition::BoolExpr { expr: e, text: text.to_string() }
}

fn if_expr(c: Condition, body: Expr, else_block: Option<Expr>) -> ExprIf {
    ExprIf { conditions: vec![c], if_block: Box::new(body), else_block: else_block.map(Box::new) }
}

fn variant(path: &str) -> Expr {
    Expr::EnumVariantCtor { variant: path.to_string(), value: Box::new(Expr::Tuple(vec![])) }
}

fn enum_pat(path: &str, inner: Option<Pattern>) -> Pattern {
    Pattern::EnumVariant { variant: path.to_string(), inner: inner.map(Box::new) }
}

fn pvar(id: u64, name: &str) -> Pattern {
    Pattern::Variable(PatternVariable { var_id: id, name: name.to_string(), ty_short_name: String::new(), unused: false })
}

fn arm(p: Pattern, e: Expr, text: &str) -> MatchArm {
    MatchArm { patterns: vec![p], expression: e, expression_text: text.to_string(), syntax_statement_count: 0 }
}

fn cmp_call(tf: TraitFunction, lhs: Expr, rhs: Expr) -> FunctionCall {
    let mut c = call("core::traits::PartialOrd", vec![CallArg::Value(lhs), CallArg::Value(rhs)]);
    c.is_impl = true;
    c.trait_function = tf;
    c.impl_in_corelib_integer = true;
    c
}

fn op_call(tf: TraitFunction, lhs: Expr, rhs: Expr) -> Expr {
    let mut c = call("core::traits::Op", vec![CallArg::Value(lhs), CallArg::Value(rhs)]);
    c.is_impl = true;
    c.trait_function = tf;
    Expr::FunctionCall(c)
}

#[test]
fn int_op_one_shapes() {
    let ge_plus = cmp_call(TraitFunction::PartialOrdGe, var(1), op_call(TraitFunction::Add, var(2), lit(1)));
    assert_eq!(check_single_int_op_one(&ge_plus), vec![LintRule::IntegerGreaterEqualPlusOne]);
    let ge_min = cmp_call(TraitFunction::PartialOrdGe, op_call(TraitFunction::Sub, var(1), lit(1)), var(2));
    assert_eq!(check_single_int_op_one(&ge_min), vec![LintRule::IntegerGreaterEqualMinusOne]);
    let le_plus = cmp_call(TraitFunction::PartialOrdLe, op_call(TraitFunction::Add, var(1), lit(1)), var(2));
    assert_eq!(check_single_int_op_one(&le_plus), vec![LintRule::IntegerLessEqualPlusOne]);
    let le_min = cmp_call(TraitFunction::PartialOrdLe, var(1), op_call(TraitFunction::Sub, var(2), lit(1)));
    assert_eq!(check_single_int_op_one(&le_min), vec![LintRule::IntegerLessEqualMinusOne]);
    let plus_two = cmp_call(TraitFunction::PartialOrdGe, var(1), op_call(TraitFunction::Add, var(2), lit(2)));
    assert!(check_single_int_op_one(&plus_two).is_empty());
    let mut not_integer = cmp_call(TraitFunction::PartialOrdGe, var(1), op_call(TraitFunction::Add, var(2), lit(1)));
    not_integer.impl_in_corelib_integer = false;
    assert!(check_single_int_op_one(&not_integer).is_empty());
    let body = FunctionBody { exprs: vec![var(0), Expr::FunctionCall(ge_plus)], statements: vec![] };
    assert_eq!(check_int_op_one(&body), vec![LintHit { index: 1, rule: LintRule::IntegerGreaterEqualPlusOne }]);
}

fn expr_stmt(e: Expr) -> Statement {
    Statement::Expr(e)
}

#[test]
fn collapsible_if_and_else() {
    let inner = if_expr(cond(var(2), "b"), block(vec![expr_stmt(var(5))], None), None);
    let outer = if_expr(cond(var(1), "a"), block(vec![expr_stmt(Expr::If(inner))], None), None);
    let body = FunctionBody { exprs: vec![Expr::If(outer)], statements: vec![] };
    assert_eq!(check_collapsible_if(&body), vec![LintHit { index: 0, rule: LintRule::CollapsibleIf }]);

    let inner2 = if_expr(cond(var(2), "b"), block(vec![], None), None);
    let with_else = if_expr(cond(var(1), "a"), block(vec![], None), Some(block(vec![], Some(Expr::If(inner2)))));
    assert!(check_single_collapsible_if_else(&with_else));
    let plain_else = if_expr(cond(var(1), "a"), block(vec![], None), Some(block(vec![], Some(var(3)))));
    assert!(!check_single_collapsible_if_else(&plain_else));
}

#[test]
fn equatable_if_let_on_literal_pattern() {
    let i = ExprIf {
        conditions: vec![Condition::Let { expr: var(1), patterns: vec![Pattern::Literal], text: "a".to_string() }],
        if_block: Box::new(block(vec![], None)),
        else_block: None,
    };
    assert!(check_single_equatable_if_let(&i));
    let j = ExprIf {
        conditions: vec![Condition::Let {
            expr: var(1),
            patterns: vec![enum_pat("core::option::Option::Some", Some(pvar(2, "x")))],
            text: "a".to_string(),
        }],
        if_block: Box::new(block(vec![], None)),
        else_block: None,
    };
    assert!(!check_single_equatable_if_let(&j));
}

#[test]
fn duplicate_if_condition_in_else_chain() {
    let third = if_expr(cond(var(1), "a == b"), block(vec![], None), None);
    let second = if_expr(cond(var(2), "c"), block(vec![], None), Some(Expr::If(third)));
    let first = if_expr(cond(var(1), "a == b"), block(vec![], None), Some(Expr::If(second)));
    assert!(check_single_duplicate_if_condition(&first));
    let other = if_expr(cond(var(1), "a == b"), block(vec![], None), Some(block(vec![], None)));
    assert!(!check_single_duplicate_if_condition(&other));
    let mut by_ref = call("f", vec![CallArg::Reference]);
    by_ref.args.push(CallArg::Value(var(3)));
    let third2 = if_expr(cond(Expr::FunctionCall(call("f", vec![CallArg::Reference])), "f(ref x)"), block(vec![], None), None);
    let first2 = if_expr(cond(Expr::FunctionCall(by_ref), "f(ref x)"), block(vec![], None), Some(Expr::If(third2)));
    assert!(!check_single_duplicate_if_condition(&first2));
}

#[test]
fn manual_assert_counts_panicking_blocks() {
    let panic = Expr::FunctionCall(call("core::panics::panic_with_byte_array", vec![]));
    let i = if_expr(cond(var(1), "a"), block(vec![expr_stmt(panic)], None), None);
    assert_eq!(check_single_manual_assert(&i), 1);
    let j = if_expr(cond(var(1), "a"), block(vec![], None), None);
    assert_eq!(check_single_manual_assert(&j), 0);
}

#[test]
fn loop_that_starts_with_breaking_if() {
    let brk = Statement::Break { value: None, value_is_unit: false };
    let i = if_expr(cond(var(1), "x > 5"), block(vec![brk], None), None);
    let body = block(vec![expr_stmt(Expr::If(i)), expr_stmt(var(2))], None);
    assert!(check_single_loop_for_while(&body));
    let brk_value = Statement::Break { value: Some(lit(1)), value_is_unit: false };
    let j = if_expr(cond(var(1), "x > 5"), block(vec![brk_value], None), None);
    assert!(!check_single_loop_for_while(&block(vec![expr_stmt(Expr::If(j))], None)));
}

#[test]
fn break_with_unit_value() {
    let body = FunctionBody {
        exprs: vec![],
        statements: vec![
            Statement::Other,
            Statement::Break { value: Some(Expr::Tuple(vec![])), value_is_unit: true },
            Statement::Break { value: None, value_is_unit: false },
        ],
    };
    assert_eq!(check_break(&body), vec![LintHit { index: 1, rule: LintRule::BreakUnit }]);
}

#[test]
fn manual_is_some_on_match_and_if_let() {
    let some = "core::option::Option::Some";
    let none = "core::option::Option::None";
    let m = ExprMatch {
        matched: Box::new(var(1)),
        arms: vec![
            arm(enum_pat(some, Some(pvar(2, "x"))), variant("core::bool::True"), "true"),
            arm(enum_pat(none, None), variant("core::bool::False"), "false"),
        ],
    };
    assert!(check_manual(&m, ManualLint::ManualIsSome));
    assert!(!check_manual(&m, ManualLint::ManualIsNone));
    let i = ExprIf {
        conditions: vec![Condition::Let { expr: var(1), patterns: vec![enum_pat(some, Some(pvar(2, "x")))], text: "a".to_string() }],
        if_block: Box::new(block(vec![], Some(variant("core::bool::False")))),
        else_block: Some(Box::new(block(vec![], Some(variant("core::bool::True"))))),
    };
    assert!(check_manual_if(&i, ManualLint::ManualIsNone));
    assert!(!check_manual_if(&i, ManualLint::ManualIsSome));
    let body = FunctionBody { exprs: vec![Expr::If(i), Expr::Match(m)], statements: vec![] };
    assert_eq!(
        check_manual_is(&body),
        vec![LintHit { index: 1, rule: LintRule::ManualIsSome }, LintHit { index: 0, rule: LintRule::ManualIsNone }]
    );
}

#[test]
fn collapsible_nested_match() {
    let some = "core::option::Option::Some";
    let ok = "core::result::Result::Ok";
    let err = "core::result::Result::Err";
    let inner = ExprMatch {
        matched: Box::new(var(7)),
        arms: vec![arm(enum_pat(ok, Some(pvar(8, "v"))), var(8), "v"), arm(enum_pat(err, None), lit(0), "0")],
    };
    let m = ExprMatch {
        matched: Box::new(var(1)),
        arms: vec![
            arm(enum_pat(some, Some(pvar(7, "r"))), Expr::Match(inner), "match r {..}"),
            arm(Pattern::Other, lit(0), "0"),
        ],
    };
    assert!(check_single_collapsible_match(&m));
}

#[test]
fn clone_and_unwrap_or() {
    let mut c = call("core::clone::Clone::clone", vec![]);
    c.is_impl = true;
    c.impl_is_t_copy_clone = true;
    let body = FunctionBody { exprs: vec![Expr::FunctionCall(c)], statements: vec![] };
    assert_eq!(check_clone_on_copy(&body), vec![LintHit { index: 0, rule: LintRule::CloneOnCopy }]);

    let mut u = call("unwrap_or", vec![CallArg::Value(var(1)), CallArg::Value(Expr::FunctionCall(call("f", vec![])))]);
    u.is_impl = true;
    u.function_name = "unwrap_or".to_string();
    u.trait_name = "core::option::OptionTrait::unwrap_or".to_string();
    let mut cheap = call("unwrap_or", vec![CallArg::Value(var(1)), CallArg::Value(lit(3))]);
    cheap.is_impl = true;
    cheap.function_name = "unwrap_or".to_string();
    cheap.trait_name = "core::option::OptionTrait::unwrap_or".to_string();
    let body = FunctionBody { exprs: vec![Expr::FunctionCall(cheap), Expr::FunctionCall(u)], statements: vec![] };
    assert_eq!(check_inefficient_unwrap_or(&body), vec![LintHit { index: 1, rule: LintRule::InefficientUnwrapOr }]);
}

#[test]
fn redundant_into_same_type() {
    let c = IntoCall { trait_function: TraitFunction::Into, is_impl: true, ty: 3, option_inner_ty: None, first_arg_ty: Some(Some(3)) };
    assert!(check_single_redundant_into(&c));
    let d = IntoCall { trait_function: TraitFunction::Into, is_impl: true, ty: 3, option_inner_ty: None, first_arg_ty: Some(Some(4)) };
    assert!(!check_single_redundant_into(&d));
    let t = IntoCall { trait_function: TraitFunction::TryInto, is_impl: true, ty: 9, option_inner_ty: Some(4), first_arg_ty: Some(Some(4)) };
    assert!(check_single_redundant_into(&t));
}

fn concrete(path: &str, args: Vec<GenericArg>) -> Ty {
    Ty::Concrete { path: path.to_string(), args }
}

#[test]
fn unwrap_on_syscall_result() {
    let felt = || concrete("core::felt252", vec![]);
    let ty = concrete(
        "core::result::Result",
        vec![GenericArg::Type(felt()), GenericArg::Type(concrete("core::array::Array", vec![GenericArg::Type(felt())]))],
    );
    let mut c = call("unwrap", vec![CallArg::Value(var(1))]);
    c.is_impl = true;
    c.function_name = "unwrap".to_string();
    c.impl_path = "core::result::ResultTraitImpl".to_string();
    assert!(check_single_unwrap_syscall(&c, &ty));
    assert!(!check_single_unwrap_syscall(&c, &felt()));
}

#[test]
fn panic_usage_reports() {
    let mut c = call("core::panics::panic", vec![]);
    c.is_extern_panic = true;
    assert_eq!(check_single_panic_usage(&c, "panic(x)", CallOrigin::InFile), Some(PanicReport::AtCall));
    assert_eq!(check_single_panic_usage(&c, "panic(x)", CallOrigin::FromMacro { located: true }), Some(PanicReport::AtOrigin));
    assert_eq!(check_single_panic_usage(&c, "panic(x)", CallOrigin::FromMacro { located: false }), None);
    let mut a = call("core::panics::panic_with_byte_array", vec![]);
    a.is_panic_with_byte_array = true;
    assert_eq!(check_single_panic_usage(&a, "let __formatter_for_assert_macro__ = ..", CallOrigin::InFile), None);
    assert_eq!(check_single_panic_usage(&call("f", vec![]), "f()", CallOrigin::InFile), None);
}

#[test]
fn assert_on_constant() {
    let blocks = vec![LoweredBlock {
        statements: vec![
            LoweredStatement::StructConstruct { output: 1, is_unit: true },
            LoweredStatement::EnumConstruct { input: 1, output: 2, is_bool: true },
            LoweredStatement::Call { is_bool_not_impl: true, inputs: vec![2], outputs: vec![3] },
            LoweredStatement::Call { is_bool_not_impl: true, inputs: vec![3], outputs: vec![4] },
            LoweredStatement::Call { is_bool_not_impl: true, inputs: vec![9], outputs: vec![5] },
        ],
    }];
    assert_eq!(find_bool_not_impl_calls_on_const_values(&blocks), vec![(0, 2), (0, 3)]);
    let sites = vec![Some(vec![AssertCallSite { at_unary: Some(vec![true, false]) }, AssertCallSite { at_unary: None }]), None];
    assert_eq!(check_assert_on_const(&sites), vec![vec![true, false], vec![]]);
    assert!(is_assert_macro_path(&vec![PathSegmentSyntax { simple: true, ident: "assert".to_string() }]));
    assert!(!is_assert_macro_path(&vec![PathSegmentSyntax { simple: true, ident: "assert_eq".to_string() }]));
}

#[test]
fn duplicate_underscore_params() {
    let names = vec!["a".to_string(), "_a".to_string(), "b".to_string(), "_b".to_string(), "c".to_string()];
    assert_eq!(check_duplicate_underscore_args(&names), vec![false, true, false, true, false]);
}

#[test]
fn empty_brackets_variants() {
    let vs = vec![
        VariantInfo { ty_is_unit: Some(true), has_type_clause: true },
        VariantInfo { ty_is_unit: Some(true), has_type_clause: false },
        VariantInfo { ty_is_unit: None, has_type_clause: true },
        VariantInfo { ty_is_unit: Some(true), has_type_clause: true },
    ];
    assert_eq!(check_empty_enum_brackets_variant(&vs), vec![true, false]);
}

#[test]
fn variant_words() {
    assert_eq!(word_split("HelloWorld"), vec!["Hello".to_string(), "World".to_string()]);
    assert_eq!(word_split("snake_case_name"), vec!["snake".to_string(), "case".to_string(), "name".to_string()]);
    assert_eq!(word_split("ABC"), vec!["ABC".to_string()]);
    let names = vec!["ColorRed".to_string(), "ColorGreen".to_string(), "ColorBlue".to_string()];
    let (p, s) = get_prefix_and_suffix(&names);
    assert_eq!(p, vec!["Color".to_string()]);
    assert!(s.is_empty());
    assert!(check_enum_variant_names(&names));
    let plain = vec!["Red".to_string(), "Green".to_string()];
    assert!(!check_enum_variant_names(&plain));
    let single = vec!["Only".to_string()];
    assert_eq!(get_prefix_and_suffix(&single), (vec![], vec![]));
}

#[test]
fn redundant_unit_brackets() {
    let c = EnumVariantCall {
        variant_ty_is_unit: true,
        args_are_unit: Some(vec![true]),
        type_clause_segments: None,
        generic_params: None,
        call_path: vec![],
    };
    assert!(is_redundant_enum_brackets_call(&c));
    let generic = EnumVariantCall {
        variant_ty_is_unit: true,
        args_are_unit: Some(vec![true]),
        type_clause_segments: Some(vec![Some("T".to_string())]),
        generic_params: Some(vec![Some("T".to_string())]),
        call_path: vec![],
    };
    assert!(!is_redundant_enum_brackets_call(&generic));
}

#[test]
fn if_positions_and_conditions() {
    let i = if_expr(cond(var(1), "a"), block(vec![], None), None);
    let w = Expr::While { condition: Box::new(cond(var(2), "b")), body: Box::new(block(vec![], None)) };
    let body = FunctionBody { exprs: vec![var(0), w, Expr::If(i)], statements: vec![] };
    assert_eq!(get_all_if_expressions(&body), vec![2]);
    assert_eq!(get_all_conditions(&body), vec![(2, 0), (1, 0)]);
}

#[test]
fn variant_affixes_ignore_name_order() {
    let names = vec!["RedColorValue".to_string(), "RedShadeValue".to_string(), "RedToneValue".to_string()];
    let perm = vec!["RedToneValue".to_string(), "RedColorValue".to_string(), "RedShadeValue".to_string()];
    let a = get_prefix_and_suffix(&names);
    assert_eq!(a, get_prefix_and_suffix(&perm));
    assert_eq!(a, (vec!["Red".to_string()], vec!["Value".to_string()]));
}

#[test]
fn word_split_cuts_bytes_at_character_counts() {
    assert_eq!(word_split("éaB"), vec!["é".to_string(), "aB".to_string()]);
    assert_eq!(word_split("ÉtéA"), vec!["Ét".to_string(), "éA".to_string()]);
    assert_eq!(word_split(""), Vec::<String>::new());
}

#[test]
fn letter_case_of_ascii_and_beyond() {
    assert_eq!(letter_case('A'), (true, false));
    assert_eq!(letter_case('z'), (false, true));
    assert_eq!(letter_case('_'), (false, false));
    assert_eq!(letter_case('É'), (true, false));
}

#[test]
fn cake_variants_share_suffix() {
    let names = vec!["BlackForestCake".to_string(), "HummingbirdCake".to_string(), "BattenbergCake".to_string()];
    assert_eq!(get_prefix_and_suffix(&names), (vec![], vec!["Cake".to_string()]));
    assert!(check_enum_variant_names(&names));
}
