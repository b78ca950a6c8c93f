//! Lints against manual rewrites of `Option` and `Result` methods.
use vstd::prelude::*;
use crate::semantic::{Expr, ExprIf, ExprMatch, MatchArm, Pattern};
use crate::lints::{SOME, NONE, OK, ERR, TRUE, FALSE, PANIC_WITH_FELT252};
use crate::lints::manual::helpers::{
    check_is_default, extract_pattern_variable, extract_tail_or_preserve_expr,
    func_call_or_block_returns_never, if_expr_condition_and_block_match_enum_pattern,
    if_expr_pattern_matches_tail_var, is_destructured_variable_used_and_expected_variant,
    is_expected_function, is_expected_variant, match_arm_returns_extracted_var,
};
use crate::text;

pub mod helpers;
pub mod manual_assert;
pub mod manual_expect;
pub mod manual_expect_err;
pub mod manual_is;
pub mod manual_is_empty;
pub mod manual_unwrap_or;
pub mod manual_unwrap_or_default;

verus! {

/// The library method that a `match` or `if let` may rewrite by hand.
#[derive(Debug, Clone, Copy, PartialEq, Eq, Structural)]
pub enum ManualLint {
    ManualOkOr,
    ManualIsSome,
    ManualIsNone,
    ManualExpect,
    ManualUnwrapOrDefault,
    ManualIsOk,
    ManualIsErr,
    ManualOptExpect,
    ManualResExpect,
    ManualOk,
    ManualErr,
    ManualExpectErr,
    ManualUnwrapOr,
    ManualIsEmpty,
}

/// The expression is a call of `panic_with_felt252`.
pub open spec fn is_panic_call(e: Expr) -> bool {
    helpers::is_expected_function_spec(e, PANIC_WITH_FELT252@)
}

/// The expression is a value other than a default one and does not end in
/// a call that never returns: the shape of the fallback of `unwrap_or`.
pub open spec fn is_plain_fallback(e: Expr) -> bool {
    !helpers::returns_never_spec(e) && !helpers::is_default_spec(e)
}

/// What the `Some(x)` arm must yield for the method `l`.
pub open spec fn some_arm_spec(e: Expr, p: Pattern, l: ManualLint) -> bool {
    match l {
        ManualLint::ManualOkOr => helpers::destructured_variable_used_spec(e, p, OK@),
        ManualLint::ManualIsSome => helpers::is_expected_variant_spec(e, TRUE@),
        ManualLint::ManualIsNone => helpers::is_expected_variant_spec(e, FALSE@),
        ManualLint::ManualUnwrapOr | ManualLint::ManualUnwrapOrDefault | ManualLint::ManualOptExpect =>
            helpers::arm_returns_extracted_var_spec(e, p),
        _ => false,
    }
}

/// What the `None` arm must yield for the method `l`.
pub open spec fn none_arm_spec(e: Expr, l: ManualLint) -> bool {
    match l {
        ManualLint::ManualOkOr => helpers::is_expected_variant_spec(e, ERR@),
        ManualLint::ManualIsSome => helpers::is_expected_variant_spec(e, FALSE@),
        ManualLint::ManualIsNone => helpers::is_expected_variant_spec(e, TRUE@),
        ManualLint::ManualOptExpect => is_panic_call(e),
        ManualLint::ManualUnwrapOrDefault => helpers::is_default_spec(e),
        ManualLint::ManualUnwrapOr => is_plain_fallback(e),
        _ => false,
    }
}

/// What the `Ok(x)` arm must yield for the method `l`.
pub open spec fn ok_arm_spec(e: Expr, p: Pattern, l: ManualLint) -> bool {
    match l {
        ManualLint::ManualIsOk => helpers::is_expected_variant_spec(e, TRUE@),
        ManualLint::ManualIsErr => helpers::is_expected_variant_spec(e, FALSE@),
        ManualLint::ManualOk => helpers::destructured_variable_used_spec(e, p, SOME@),
        ManualLint::ManualErr => helpers::is_expected_variant_spec(e, NONE@),
        ManualLint::ManualExpectErr => is_panic_call(e),
        ManualLint::ManualResExpect | ManualLint::ManualUnwrapOr | ManualLint::ManualUnwrapOrDefault =>
            helpers::arm_returns_extracted_var_spec(e, p),
        _ => false,
    }
}

/// The error variable of the `Err` pattern, when there is one, is unused
/// or named with a leading underscore.
pub open spec fn error_variable_ignored(p: Pattern) -> bool {
    match helpers::pattern_variable_spec(p) {
        None => true,
        Some(v) => v.unused || (v.name@.len() > 0 && v.name@[0] == '_'),
    }
}

/// What the `Err(e)` arm must yield for the method `l`.
pub open spec fn err_arm_spec(e: Expr, p: Pattern, l: ManualLint) -> bool {
    match l {
        ManualLint::ManualIsOk => helpers::is_expected_variant_spec(e, FALSE@),
        ManualLint::ManualIsErr => helpers::is_expected_variant_spec(e, TRUE@),
        ManualLint::ManualOk => helpers::is_expected_variant_spec(e, NONE@),
        ManualLint::ManualErr => helpers::destructured_variable_used_spec(e, p, SOME@),
        ManualLint::ManualResExpect => is_panic_call(e) && error_variable_ignored(p),
        ManualLint::ManualExpectErr => helpers::arm_returns_extracted_var_spec(e, p),
        ManualLint::ManualUnwrapOrDefault => helpers::is_default_spec(e),
        ManualLint::ManualUnwrapOr => is_plain_fallback(e),
        _ => false,
    }
}

/// A `match` with exactly two arms, neither written as a block of more
/// than one statement, on `Some`/`None` or on `Ok`/`Err`, whose arms yield
/// what the method `l` yields.
pub open spec fn check_manual_spec(m: ExprMatch, l: ManualLint) -> bool {
    let arms = m.arms@;
    if arms.len() != 2 || arms[0].syntax_statement_count > 1 || arms[1].syntax_statement_count > 1
        || arms[0].patterns@.len() == 0 || arms[1].patterns@.len() == 0 {
        false
    } else {
        let p1 = arms[0].patterns@[0];
        let p2 = arms[1].patterns@[0];
        let e1 = helpers::tail_or_self_spec(arms[0].expression);
        let e2 = helpers::tail_or_self_spec(arms[1].expression);
        match (p1, p2) {
            (Pattern::EnumVariant { variant: v1, .. }, Pattern::EnumVariant { variant: v2, .. }) => {
                if v1@ == SOME@ && v2@ == NONE@ {
                    some_arm_spec(e1, p1, l) && none_arm_spec(e2, l)
                } else if v1@ == OK@ && v2@ == ERR@ {
                    ok_arm_spec(e1, p1, l) && err_arm_spec(e2, p2, l)
                } else {
                    false
                }
            },
            _ => false,
        }
    }
}

fn check_syntax_some_arm(expr: &Expr, pattern: &Pattern, manual_lint: ManualLint) -> (r: bool)
    ensures
        r == some_arm_spec(*expr, *pattern, manual_lint),
{
    match manual_lint {
        ManualLint::ManualOkOr => is_destructured_variable_used_and_expected_variant(expr, pattern, OK),
        ManualLint::ManualIsSome => is_expected_variant(expr, TRUE),
        ManualLint::ManualIsNone => is_expected_variant(expr, FALSE),
        ManualLint::ManualUnwrapOr | ManualLint::ManualUnwrapOrDefault | ManualLint::ManualOptExpect =>
            match_arm_returns_extracted_var(expr, pattern),
        _ => false,
    }
}

fn check_syntax_none_arm(expr: &Expr, manual_lint: ManualLint) -> (r: bool)
    ensures
        r == none_arm_spec(*expr, manual_lint),
{
    match manual_lint {
        ManualLint::ManualOkOr => is_expected_variant(expr, ERR),
        ManualLint::ManualIsSome => is_expected_variant(expr, FALSE),
        ManualLint::ManualIsNone => is_expected_variant(expr, TRUE),
        ManualLint::ManualOptExpect => is_expected_function(expr, PANIC_WITH_FELT252),
        ManualLint::ManualUnwrapOrDefault => check_is_default(expr),
        ManualLint::ManualUnwrapOr => !func_call_or_block_returns_never(expr) && !check_is_default(expr),
        _ => false,
    }
}

fn check_syntax_ok_arm(expr: &Expr, pattern: &Pattern, manual_lint: ManualLint) -> (r: bool)
    ensures
        r == ok_arm_spec(*expr, *pattern, manual_lint),
{
    match manual_lint {
        ManualLint::ManualIsOk => is_expected_variant(expr, TRUE),
        ManualLint::ManualIsErr => is_expected_variant(expr, FALSE),
        ManualLint::ManualOk => is_destructured_variable_used_and_expected_variant(expr, pattern, SOME),
        ManualLint::ManualErr => is_expected_variant(expr, NONE),
        ManualLint::ManualExpectErr => is_expected_function(expr, PANIC_WITH_FELT252),
        ManualLint::ManualResExpect | ManualLint::ManualUnwrapOr | ManualLint::ManualUnwrapOrDefault =>
            match_arm_returns_extracted_var(expr, pattern),
        _ => false,
    }
}

fn check_syntax_err_arm(expr: &Expr, pattern: &Pattern, manual_lint: ManualLint) -> (r: bool)
    ensures
        r == err_arm_spec(*expr, *pattern, manual_lint),
{
    match manual_lint {
        ManualLint::ManualIsOk => is_expected_variant(expr, FALSE),
        ManualLint::ManualIsErr => is_expected_variant(expr, TRUE),
        ManualLint::ManualOk => is_expected_variant(expr, NONE),
        ManualLint::ManualErr => is_destructured_variable_used_and_expected_variant(expr, pattern, SOME),
        ManualLint::ManualResExpect => {
            if !is_expected_function(expr, PANIC_WITH_FELT252) {
                return false;
            }
            match extract_pattern_variable(pattern) {
                None => true,
                Some(v) => {
                    let name = text::chars_of(v.name.as_str());
                    v.unused || (name.len() > 0 && name[0] == '_')
                },
            }
        },
        ManualLint::ManualExpectErr => match_arm_returns_extracted_var(expr, pattern),
        ManualLint::ManualUnwrapOrDefault => check_is_default(expr),
        ManualLint::ManualUnwrapOr => !func_call_or_block_returns_never(expr) && !check_is_default(expr),
        _ => false,
    }
}

/// Whether a `match` rewrites by hand the method `manual_lint` (see
/// `check_manual_spec`).
pub fn check_manual(expr_match: &ExprMatch, manual_lint: ManualLint) -> (r: bool)
    ensures
        r == check_manual_spec(*expr_match, manual_lint),
{
    let arms = &expr_match.arms;
    if arms.len() != 2 {
        return false;
    }
    let first_arm = &arms[0];
    let second_arm = &arms[1];
    if first_arm.syntax_statement_count > 1 || second_arm.syntax_statement_count > 1 {
        return false;
    }
    if first_arm.patterns.len() == 0 || second_arm.patterns.len() == 0 {
        return false;
    }
    let p1 = &first_arm.patterns[0];
    let p2 = &second_arm.patterns[0];
    let e1 = extract_tail_or_preserve_expr(&first_arm.expression);
    let e2 = extract_tail_or_preserve_expr(&second_arm.expression);
    match (p1, p2) {
        (Pattern::EnumVariant { variant: v1, .. }, Pattern::EnumVariant { variant: v2, .. }) => {
            if text::str_eq(v1.as_str(), SOME) && text::str_eq(v2.as_str(), NONE) {
                check_syntax_some_arm(e1, p1, manual_lint) && check_syntax_none_arm(e2, manual_lint)
            } else if text::str_eq(v1.as_str(), OK) && text::str_eq(v2.as_str(), ERR) {
                check_syntax_ok_arm(e1, p1, manual_lint) && check_syntax_err_arm(e2, p2, manual_lint)
            } else {
                false
            }
        },
        _ => false,
    }
}

/// The tail of a block without statements.
pub open spec fn bare_tail(e: Expr) -> Option<Expr> {
    match e {
        Expr::Block(b) => if b.statements@.len() == 0 {
            match b.tail {
                Some(t) => Some(*t),
                None => None,
            }
        } else {
            None
        },
        _ => None,
    }
}

/// The tail of the `else` block, when it is a block without statements.
pub open spec fn else_tail(i: ExprIf) -> Option<Expr> {
    match i.else_block {
        Some(b) => bare_tail(*b),
        None => None,
    }
}

/// What the `if` block of `if let Some(x) = ..` must yield for `l`.
pub open spec fn opt_if_spec(i: ExprIf, l: ManualLint) -> bool {
    match bare_tail(*i.if_block) {
        Some(t) => match l {
            ManualLint::ManualOkOr => helpers::if_condition_and_block_match_spec(i, OK@),
            ManualLint::ManualIsSome => helpers::is_expected_variant_spec(t, TRUE@),
            ManualLint::ManualIsNone => helpers::is_expected_variant_spec(t, FALSE@),
            ManualLint::ManualOptExpect | ManualLint::ManualUnwrapOrDefault | ManualLint::ManualUnwrapOr =>
                helpers::if_pattern_matches_tail_var_spec(i),
            _ => false,
        },
        None => false,
    }
}

/// What the `if` block of `if let Ok(x) = ..` must yield for `l`.
pub open spec fn res_if_spec(i: ExprIf, l: ManualLint) -> bool {
    match bare_tail(*i.if_block) {
        Some(t) => match l {
            ManualLint::ManualIsOk => helpers::is_expected_variant_spec(t, TRUE@),
            ManualLint::ManualIsErr => helpers::is_expected_variant_spec(t, FALSE@),
            ManualLint::ManualOk => helpers::if_condition_and_block_match_spec(i, SOME@),
            ManualLint::ManualResExpect | ManualLint::ManualUnwrapOr | ManualLint::ManualUnwrapOrDefault =>
                helpers::if_pattern_matches_tail_var_spec(i),
            _ => false,
        },
        None => false,
    }
}

/// What the `if` block of `if let Err(e) = ..` must yield for `l`.
pub open spec fn err_if_spec(i: ExprIf, l: ManualLint) -> bool {
    match l {
        ManualLint::ManualErr => helpers::if_condition_and_block_match_spec(i, SOME@),
        ManualLint::ManualExpectErr => helpers::if_pattern_matches_tail_var_spec(i),
        _ => false,
    }
}

/// What the `else` block after `if let Some(x) = ..` must yield for `l`.
pub open spec fn opt_else_spec(i: ExprIf, l: ManualLint) -> bool {
    match else_tail(i) {
        Some(t) => match l {
            ManualLint::ManualOkOr => helpers::is_expected_variant_spec(t, ERR@),
            ManualLint::ManualIsSome => helpers::is_expected_variant_spec(t, FALSE@),
            ManualLint::ManualIsNone => helpers::is_expected_variant_spec(t, TRUE@),
            ManualLint::ManualOptExpect => is_panic_call(t),
            ManualLint::ManualUnwrapOrDefault => helpers::is_default_spec(t),
            ManualLint::ManualUnwrapOr => is_plain_fallback(t),
            _ => false,
        },
        None => false,
    }
}

/// What the `else` block after `if let Ok(x) = ..` must yield for `l`.
pub open spec fn res_else_spec(i: ExprIf, l: ManualLint) -> bool {
    match else_tail(i) {
        Some(t) => match l {
            ManualLint::ManualIsOk => helpers::is_expected_variant_spec(t, FALSE@),
            ManualLint::ManualIsErr => helpers::is_expected_variant_spec(t, TRUE@),
            ManualLint::ManualOk => helpers::is_expected_variant_spec(t, NONE@),
            ManualLint::ManualResExpect => is_panic_call(t),
            ManualLint::ManualUnwrapOr => is_plain_fallback(t),
            ManualLint::ManualUnwrapOrDefault => helpers::is_default_spec(t),
            _ => false,
        },
        None => false,
    }
}

/// What the `else` block after `if let Err(e) = ..` must yield for `l`.
pub open spec fn err_else_spec(i: ExprIf, l: ManualLint) -> bool {
    match else_tail(i) {
        Some(t) => match l {
            ManualLint::ManualErr => helpers::is_expected_variant_spec(t, NONE@),
            ManualLint::ManualExpectErr => is_panic_call(t),
            _ => false,
        },
        None => false,
    }
}

/// An `if let` on `Some`, `Ok` or `Err` whose two blocks yield what the
/// method `l` yields.
pub open spec fn check_manual_if_spec(i: ExprIf, l: ManualLint) -> bool {
    match helpers::first_let(i) {
        Some((_, ps)) => ps.len() > 0 && match ps[0] {
            Pattern::EnumVariant { variant, .. } => {
                if variant@ == SOME@ {
                    opt_if_spec(i, l) && opt_else_spec(i, l)
                } else if variant@ == OK@ {
                    res_if_spec(i, l) && res_else_spec(i, l)
                } else if variant@ == ERR@ {
                    err_if_spec(i, l) && err_else_spec(i, l)
                } else {
                    false
                }
            },
            _ => false,
        },
        None => false,
    }
}

/// The tail of a block without statements.
fn block_bare_tail(e: &Expr) -> (r: Option<&Expr>)
    ensures
        match bare_tail(*e) {
            Some(t) => r is Some && *r->0 == t,
            None => r is None,
        },
{
    match e {
        Expr::Block(b) => if b.statements.len() == 0 {
            match &b.tail {
                Some(t) => Some(&**t),
                None => None,
            }
        } else {
            None
        },
        _ => None,
    }
}

fn else_block_tail(expr: &ExprIf) -> (r: Option<&Expr>)
    ensures
        match else_tail(*expr) {
            Some(t) => r is Some && *r->0 == t,
            None => r is None,
        },
{
    match &expr.else_block {
        Some(b) => block_bare_tail(&**b),
        None => None,
    }
}

fn check_syntax_opt_if(expr: &ExprIf, manual_lint: ManualLint) -> (r: bool)
    ensures
        r == opt_if_spec(*expr, manual_lint),
{
    let t = match block_bare_tail(&*expr.if_block) {
        Some(t) => t,
        None => return false,
    };
    match manual_lint {
        ManualLint::ManualOkOr => if_expr_condition_and_block_match_enum_pattern(expr, OK),
        ManualLint::ManualIsSome => is_expected_variant(t, TRUE),
        ManualLint::ManualIsNone => is_expected_variant(t, FALSE),
        ManualLint::ManualOptExpect | ManualLint::ManualUnwrapOrDefault | ManualLint::ManualUnwrapOr =>
            if_expr_pattern_matches_tail_var(expr),
        _ => false,
    }
}

fn check_syntax_res_if(expr: &ExprIf, manual_lint: ManualLint) -> (r: bool)
    ensures
        r == res_if_spec(*expr, manual_lint),
{
    let t = match block_bare_tail(&*expr.if_block) {
        Some(t) => t,
        None => return false,
    };
    match manual_lint {
        ManualLint::ManualIsOk => is_expected_variant(t, TRUE),
        ManualLint::ManualIsErr => is_expected_variant(t, FALSE),
        ManualLint::ManualOk => if_expr_condition_and_block_match_enum_pattern(expr, SOME),
        ManualLint::ManualResExpect | ManualLint::ManualUnwrapOr | ManualLint::ManualUnwrapOrDefault =>
            if_expr_pattern_matches_tail_var(expr),
        _ => false,
    }
}

fn check_syntax_err_if(expr: &ExprIf, manual_lint: ManualLint) -> (r: bool)
    ensures
        r == err_if_spec(*expr, manual_lint),
{
    match manual_lint {
        ManualLint::ManualErr => if_expr_condition_and_block_match_enum_pattern(expr, SOME),
        ManualLint::ManualExpectErr => if_expr_pattern_matches_tail_var(expr),
        _ => false,
    }
}

fn check_syntax_opt_else(expr: &ExprIf, manual_lint: ManualLint) -> (r: bool)
    ensures
        r == opt_else_spec(*expr, manual_lint),
{
    let t = match else_block_tail(expr) {
        Some(t) => t,
        None => return false,
    };
    match manual_lint {
        ManualLint::ManualOkOr => is_expected_variant(t, ERR),
        ManualLint::ManualIsSome => is_expected_variant(t, FALSE),
        ManualLint::ManualIsNone => is_expected_variant(t, TRUE),
        ManualLint::ManualOptExpect => is_expected_function(t, PANIC_WITH_FELT252),
        ManualLint::ManualUnwrapOrDefault => check_is_default(t),
        ManualLint::ManualUnwrapOr => !check_is_default(t) && !func_call_or_block_returns_never(t),
        _ => false,
    }
}

fn check_syntax_res_else(expr: &ExprIf, manual_lint: ManualLint) -> (r: bool)
    ensures
        r == res_else_spec(*expr, manual_lint),
{
    let t = match else_block_tail(expr) {
        Some(t) => t,
        None => return false,
    };
    match manual_lint {
        ManualLint::ManualIsOk => is_expected_variant(t, FALSE),
        ManualLint::ManualIsErr => is_expected_variant(t, TRUE),
        ManualLint::ManualOk => is_expected_variant(t, NONE),
        ManualLint::ManualResExpect => is_expected_function(t, PANIC_WITH_FELT252),
        ManualLint::ManualUnwrapOr => !check_is_default(t) && !func_call_or_block_returns_never(t),
        ManualLint::ManualUnwrapOrDefault => check_is_default(t),
        _ => false,
    }
}

fn check_syntax_err_else(expr: &ExprIf, manual_lint: ManualLint) -> (r: bool)
    ensures
        r == err_else_spec(*expr, manual_lint),
{
    let t = match else_block_tail(expr) {
        Some(t) => t,
        None => return false,
    };
    match manual_lint {
        ManualLint::ManualErr => is_expected_variant(t, NONE),
        ManualLint::ManualExpectErr => is_expected_function(t, PANIC_WITH_FELT252),
        _ => false,
    }
}

/// Whether an `if let` rewrites by hand the method `manual_lint` (see
/// `check_manual_if_spec`).
pub fn check_manual_if(expr: &ExprIf, manual_lint: ManualLint) -> (r: bool)
    ensures
        r == check_manual_if_spec(*expr, manual_lint),
{
    if expr.conditions.len() == 0 {
        return false;
    }
    let patterns = match &expr.conditions[0] {
        crate::semantic::Condition::Let { patterns, .. } => patterns,
        _ => return false,
    };
    if patterns.len() == 0 {
        return false;
    }
    match &patterns[0] {
        Pattern::EnumVariant { variant, .. } => {
            if text::str_eq(variant.as_str(), SOME) {
                check_syntax_opt_if(expr, manual_lint) && check_syntax_opt_else(expr, manual_lint)
            } else if text::str_eq(variant.as_str(), OK) {
                check_syntax_res_if(expr, manual_lint) && check_syntax_res_else(expr, manual_lint)
            } else if text::str_eq(variant.as_str(), ERR) {
                check_syntax_err_if(expr, manual_lint) && check_syntax_err_else(expr, manual_lint)
            } else {
                false
            }
        },
        _ => false,
    }
}


/// A `match` is never reported both as a manual `is_some` and as a manual
/// `is_none`, nor both as a manual `is_ok` and as a manual `is_err`: the
/// same arm would have to yield both `true` and `false`.
pub proof fn lemma_manual_is_exclusive(m: ExprMatch)
    ensures
        !(check_manual_spec(m, ManualLint::ManualIsSome) && check_manual_spec(m, ManualLint::ManualIsNone)),
        !(check_manual_spec(m, ManualLint::ManualIsOk) && check_manual_spec(m, ManualLint::ManualIsErr)),
{
    reveal_strlit("core::bool::True");
    reveal_strlit("core::bool::False");
    assert(TRUE@ != FALSE@) by {
        assert(TRUE@[12] != FALSE@[12]);
    }
}

/// The same holds of `if let`.
pub proof fn lemma_manual_is_if_exclusive(i: ExprIf)
    ensures
        !(check_manual_if_spec(i, ManualLint::ManualIsSome) && check_manual_if_spec(i, ManualLint::ManualIsNone)),
        !(check_manual_if_spec(i, ManualLint::ManualIsOk) && check_manual_if_spec(i, ManualLint::ManualIsErr)),
{
    reveal_strlit("core::bool::True");
    reveal_strlit("core::bool::False");
    assert(TRUE@ != FALSE@) by {
        assert(TRUE@[12] != FALSE@[12]);
    }
}


/// The arm yields the enum variant `name` (such as `true`): its expression,
/// or the tail of a block without statements, builds that variant.
pub open spec fn arm_yields_variant(arm: MatchArm, name: Seq<char>) -> bool {
    helpers::tail_or_self_spec(arm.expression) matches Expr::EnumVariantCtor { variant, .. } && variant@ == name
}

/// A `match` of two arms, each an expression or a block of at most one
/// statement, whose first patterns are the variants `first` and `second`,
/// in that order.
pub open spec fn two_arm_match_on(m: ExprMatch, first: Seq<char>, second: Seq<char>) -> bool {
    &&& m.arms@.len() == 2
    &&& m.arms@[0].syntax_statement_count <= 1
    &&& m.arms@[1].syntax_statement_count <= 1
    &&& m.arms@[0].patterns@.len() > 0
    &&& m.arms@[1].patterns@.len() > 0
    &&& m.arms@[0].patterns@[0] matches Pattern::EnumVariant { variant: v1, .. }
    &&& v1@ == first
    &&& m.arms@[1].patterns@[0] matches Pattern::EnumVariant { variant: v2, .. }
    &&& v2@ == second
}

/// What the four boolean lints look for: a `match` on `Ok`/`Err` is a
/// manual `is_ok` exactly when its `Ok` arm yields `true` and its `Err`
/// arm `false`, and a manual `is_err` exactly when they yield `false` and
/// `true`; a `match` on `Some`/`None` is a manual `is_some` or `is_none`
/// in the same way.
pub proof fn lemma_manual_is_checks(m: ExprMatch)
    ensures
        check_manual_spec(m, ManualLint::ManualIsOk) <==> (two_arm_match_on(m, OK@, ERR@)
            && arm_yields_variant(m.arms@[0], TRUE@) && arm_yields_variant(m.arms@[1], FALSE@)),
        check_manual_spec(m, ManualLint::ManualIsErr) <==> (two_arm_match_on(m, OK@, ERR@)
            && arm_yields_variant(m.arms@[0], FALSE@) && arm_yields_variant(m.arms@[1], TRUE@)),
        check_manual_spec(m, ManualLint::ManualIsSome) <==> (two_arm_match_on(m, SOME@, NONE@)
            && arm_yields_variant(m.arms@[0], TRUE@) && arm_yields_variant(m.arms@[1], FALSE@)),
        check_manual_spec(m, ManualLint::ManualIsNone) <==> (two_arm_match_on(m, SOME@, NONE@)
            && arm_yields_variant(m.arms@[0], FALSE@) && arm_yields_variant(m.arms@[1], TRUE@)),
{
    reveal_strlit("core::option::Option::Some");
    reveal_strlit("core::option::Option::None");
    reveal_strlit("core::result::Result::Ok");
    reveal_strlit("core::result::Result::Err");
    assert(SOME@ != OK@) by {
        assert(SOME@[6] != OK@[6]);
    }
    assert(SOME@ != ERR@) by {
        assert(SOME@[6] != ERR@[6]);
    }
}

/// The block's value is the enum variant `name`: a block without
/// statements whose tail builds that variant.
pub open spec fn block_yields_variant(e: Expr, name: Seq<char>) -> bool {
    bare_tail(e) matches Some(t) && t matches Expr::EnumVariantCtor { variant, .. } && variant@ == name
}

/// The `else` block's value is the enum variant `name`.
pub open spec fn else_yields_variant(i: ExprIf, name: Seq<char>) -> bool {
    i.else_block matches Some(b) && block_yields_variant(*b, name)
}

/// The `if let` binds its first condition with the enum variant `name` as
/// first pattern.
pub open spec fn if_let_on(i: ExprIf, name: Seq<char>) -> bool {
    &&& helpers::first_let(i) matches Some((_, ps))
    &&& ps.len() > 0
    &&& ps[0] matches Pattern::EnumVariant { variant, .. }
    &&& variant@ == name
}

/// The same four lints on `if let`: `if let Ok(_) = r { true } else { false }`
/// is a manual `is_ok`, with `false` and `true` a manual `is_err`, and
/// likewise on `Some` for `is_some` and `is_none`; nothing else is.
pub proof fn lemma_manual_is_if_checks(i: ExprIf)
    ensures
        check_manual_if_spec(i, ManualLint::ManualIsOk) <==> (if_let_on(i, OK@)
            && block_yields_variant(*i.if_block, TRUE@)
            && else_yields_variant(i, FALSE@)),
        check_manual_if_spec(i, ManualLint::ManualIsErr) <==> (if_let_on(i, OK@)
            && block_yields_variant(*i.if_block, FALSE@)
            && else_yields_variant(i, TRUE@)),
        check_manual_if_spec(i, ManualLint::ManualIsSome) <==> (if_let_on(i, SOME@)
            && block_yields_variant(*i.if_block, TRUE@)
            && else_yields_variant(i, FALSE@)),
        check_manual_if_spec(i, ManualLint::ManualIsNone) <==> (if_let_on(i, SOME@)
            && block_yields_variant(*i.if_block, FALSE@)
            && else_yields_variant(i, TRUE@)),
{
    reveal_strlit("core::option::Option::Some");
    reveal_strlit("core::result::Result::Ok");
    reveal_strlit("core::result::Result::Err");
    assert(SOME@ != OK@) by {
        assert(SOME@[6] != OK@[6]);
    }
    assert(SOME@ != ERR@) by {
        assert(SOME@[6] != ERR@[6]);
    }
    assert(OK@ != ERR@) by {
        assert(OK@[22] != ERR@[22]);
    }
}
} // verus!
