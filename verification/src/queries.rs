//! The checks of a whole function body: each expression of the body is
//! examined in turn, in the order of the body's arena, and each lint it
//! raises is reported with the expression's position.
use vstd::prelude::*;
use crate::context::LintRule;
use crate::lints::clone_on_copy;
use crate::lints::collapsible_match;
use crate::lints::ifs::{collapsible_if, collapsible_if_else, equatable_if_let, ifs_same_cond};
use crate::lints::int_op_one;
use crate::lints::loops::loop_for_while;
use crate::lints::manual::{self, ManualLint};
use crate::lints::manual::manual_assert;
use crate::lints::performance::inefficient_unwrap_or;
use crate::helper::{ASSERT_FORMATTER_NAME, ASSERT_PATH};
use crate::semantic::{Expr, ExprIf, Pattern, Statement};
use crate::text;

verus! {

/// A function body: every expression and every statement of it, in the
/// order of the body's arenas.
#[derive(Debug)]
pub struct FunctionBody {
    pub exprs: Vec<Expr>,
    pub statements: Vec<Statement>,
}

/// A lint raised at a position of the body's expressions (or, for `break`,
/// of its statements).
#[derive(Debug, Clone, Copy, PartialEq, Eq, Structural)]
pub struct LintHit {
    pub index: usize,
    pub rule: LintRule,
}

/// A check run over the expressions of a body.
#[derive(Debug, Clone, Copy, PartialEq, Eq, Structural)]
pub enum BodyCheck {
    CollapsibleIf,
    CollapsibleIfElse,
    EquatableIfLet,
    DuplicateIfCondition,
    ManualAssert,
    CollapsibleMatch,
    IntOpOne,
    CloneOnCopy,
    InefficientUnwrapOr,
    LoopForWhile,
    /// Manual rewrites of the methods of a family, on `match` expressions.
    ManualOnMatch(ManualFamily),
    /// Manual rewrites of the methods of a family, on `if` expressions.
    ManualOnIf(ManualFamily),
}

/// The methods whose manual rewrites one lint function looks for together.
#[derive(Debug, Clone, Copy, PartialEq, Eq, Structural)]
pub enum ManualFamily {
    /// `is_some`, `is_none`, `is_ok`, `is_err`.
    Is,
    /// `expect` on an `Option`, then on a `Result`.
    Expect,
    ExpectErr,
    UnwrapOr,
    UnwrapOrDefault,
}

/// The methods of a family, in the order they are checked.
pub open spec fn family_lints(f: ManualFamily) -> Seq<ManualLint> {
    match f {
        ManualFamily::Is => seq![ManualLint::ManualIsSome, ManualLint::ManualIsNone, ManualLint::ManualIsOk, ManualLint::ManualIsErr],
        ManualFamily::Expect => seq![ManualLint::ManualOptExpect, ManualLint::ManualResExpect],
        ManualFamily::ExpectErr => seq![ManualLint::ManualExpectErr],
        ManualFamily::UnwrapOr => seq![ManualLint::ManualUnwrapOr],
        ManualFamily::UnwrapOrDefault => seq![ManualLint::ManualUnwrapOrDefault],
    }
}

fn family_lints_exec(f: ManualFamily) -> (r: Vec<ManualLint>)
    ensures
        r@ == family_lints(f),
{
    let mut v: Vec<ManualLint> = Vec::new();
    match f {
        ManualFamily::Is => {
            v.push(ManualLint::ManualIsSome);
            v.push(ManualLint::ManualIsNone);
            v.push(ManualLint::ManualIsOk);
            v.push(ManualLint::ManualIsErr);
        },
        ManualFamily::Expect => {
            v.push(ManualLint::ManualOptExpect);
            v.push(ManualLint::ManualResExpect);
        },
        ManualFamily::ExpectErr => v.push(ManualLint::ManualExpectErr),
        ManualFamily::UnwrapOr => v.push(ManualLint::ManualUnwrapOr),
        ManualFamily::UnwrapOrDefault => v.push(ManualLint::ManualUnwrapOrDefault),
    }
    assert(v@ =~= family_lints(f));
    v
}

/// The lint that reports a manual rewrite of the method.
pub open spec fn manual_rule(l: ManualLint) -> Option<LintRule> {
    match l {
        ManualLint::ManualIsSome => Some(LintRule::ManualIsSome),
        ManualLint::ManualIsNone => Some(LintRule::ManualIsNone),
        ManualLint::ManualIsOk => Some(LintRule::ManualIsOk),
        ManualLint::ManualIsErr => Some(LintRule::ManualIsErr),
        ManualLint::ManualOptExpect | ManualLint::ManualResExpect => Some(LintRule::ManualExpect),
        ManualLint::ManualExpectErr => Some(LintRule::ManualExpectErr),
        ManualLint::ManualUnwrapOr => Some(LintRule::ManualUnwrapOr),
        ManualLint::ManualUnwrapOrDefault => Some(LintRule::ManualUnwrapOrDefault),
        ManualLint::ManualIsEmpty => Some(LintRule::ManualIsEmpty),
        _ => None,
    }
}

fn manual_rule_exec(l: ManualLint) -> (r: Option<LintRule>)
    ensures
        r == manual_rule(l),
{
    match l {
        ManualLint::ManualIsSome => Some(LintRule::ManualIsSome),
        ManualLint::ManualIsNone => Some(LintRule::ManualIsNone),
        ManualLint::ManualIsOk => Some(LintRule::ManualIsOk),
        ManualLint::ManualIsErr => Some(LintRule::ManualIsErr),
        ManualLint::ManualOptExpect | ManualLint::ManualResExpect => Some(LintRule::ManualExpect),
        ManualLint::ManualExpectErr => Some(LintRule::ManualExpectErr),
        ManualLint::ManualUnwrapOr => Some(LintRule::ManualUnwrapOr),
        ManualLint::ManualUnwrapOrDefault => Some(LintRule::ManualUnwrapOrDefault),
        ManualLint::ManualIsEmpty => Some(LintRule::ManualIsEmpty),
        _ => None,
    }
}

/// The lints of the methods, in order, that a `match` (`on_match`) or an
/// `if` rewrites by hand.
pub open spec fn manual_rules(e: Expr, lints: Seq<ManualLint>, on_match: bool) -> Seq<LintRule>
    decreases lints.len(),
{
    if lints.len() == 0 {
        seq![]
    } else {
        let rest = manual_rules(e, lints.drop_last(), on_match);
        let l = lints.last();
        let hit = if on_match {
            e matches Expr::Match(m) && manual::check_manual_spec(m, l)
        } else {
            e matches Expr::If(i) && manual::check_manual_if_spec(i, l)
        };
        if hit && manual_rule(l) is Some { rest.push(manual_rule(l)->0) } else { rest }
    }
}

/// `n` copies of the rule.
pub open spec fn repeat_rule(r: LintRule, n: nat) -> Seq<LintRule>
    decreases n,
{
    if n == 0 { seq![] } else { repeat_rule(r, (n - 1) as nat).push(r) }
}

/// The lints one check raises on one expression, in the order reported.
pub open spec fn rules_for(c: BodyCheck, e: Expr) -> Seq<LintRule> {
    let one = |b: bool, r: LintRule| if b { seq![r] } else { Seq::<LintRule>::empty() };
    match c {
        BodyCheck::CollapsibleIf => one(e matches Expr::If(i) && collapsible_if::collapsible_if_spec(i), LintRule::CollapsibleIf),
        BodyCheck::CollapsibleIfElse => one(e matches Expr::If(i) && collapsible_if_else::collapsible_if_else_spec(i), LintRule::CollapsibleIfElse),
        BodyCheck::EquatableIfLet => one(e matches Expr::If(i) && equatable_if_let::equatable_if_let_spec(i), LintRule::EquatableIfLet),
        BodyCheck::DuplicateIfCondition => one(e matches Expr::If(i) && ifs_same_cond::duplicate_if_condition_spec(i), LintRule::DuplicateIfCondition),
        BodyCheck::ManualAssert => match e {
            Expr::If(i) => repeat_rule(LintRule::ManualAssert, manual_assert::manual_assert_hits(i)),
            _ => seq![],
        },
        BodyCheck::CollapsibleMatch => one(e matches Expr::Match(m) && collapsible_match::collapsible_match_spec(m), LintRule::CollapsibleMatch),
        BodyCheck::IntOpOne => match e {
            Expr::FunctionCall(fc) => int_op_one::int_op_one_spec(fc),
            _ => seq![],
        },
        BodyCheck::CloneOnCopy => one(e matches Expr::FunctionCall(fc) && clone_on_copy::clone_on_copy_spec(fc), LintRule::CloneOnCopy),
        BodyCheck::InefficientUnwrapOr => one(e matches Expr::FunctionCall(fc) && inefficient_unwrap_or::inefficient_unwrap_or_spec(fc), LintRule::InefficientUnwrapOr),
        BodyCheck::LoopForWhile => one(e matches Expr::Loop(b) && loop_for_while::loop_for_while_spec(*b), LintRule::LoopForWhile),
        BodyCheck::ManualOnMatch(f) => manual_rules(e, family_lints(f), true),
        BodyCheck::ManualOnIf(f) => manual_rules(e, family_lints(f), false),
    }
}

/// The inputs on which a check panics.
pub open spec fn check_panics(c: BodyCheck, e: Expr) -> bool {
    match c {
        BodyCheck::CollapsibleIf => e matches Expr::If(i) && collapsible_if::collapsible_if_panics(i),
        BodyCheck::IntOpOne => e matches Expr::FunctionCall(fc)
            && int_op_one::is_integer_comparison(fc) && fc.args@.len() < 2,
        _ => false,
    }
}

/// The lints raised by the check on the expressions, with their positions,
/// in the order of the expressions.
pub open spec fn body_hits(c: BodyCheck, es: Seq<Expr>) -> Seq<(int, LintRule)>
    decreases es.len(),
{
    if es.len() == 0 {
        seq![]
    } else {
        let n = es.len() - 1;
        body_hits(c, es.drop_last()) + rules_for(c, es.last()).map_values(|r: LintRule| (n, r))
    }
}

/// A hit as a position and a rule.
pub open spec fn hit_views(hs: Seq<LintHit>) -> Seq<(int, LintRule)> {
    hs.map_values(|h: LintHit| (h.index as int, h.rule))
}

fn manual_rules_exec(e: &Expr, lints: &Vec<ManualLint>, on_match: bool) -> (r: Vec<LintRule>)
    ensures
        r@ == manual_rules(*e, lints@, on_match),
{
    let mut out: Vec<LintRule> = Vec::new();
    let mut k: usize = 0;
    while k < lints.len()
        invariant
            k <= lints@.len(),
            out@ == manual_rules(*e, lints@.take(k as int), on_match),
        decreases lints@.len() - k,
    {
        assert(lints@.take(k + 1).drop_last() =~= lints@.take(k as int));
        assert(lints@.take(k + 1).last() == lints@[k as int]);
        let l = lints[k];
        let hit = if on_match {
            match e {
                Expr::Match(m) => manual::check_manual(m, l),
                _ => false,
            }
        } else {
            match e {
                Expr::If(i) => manual::check_manual_if(i, l),
                _ => false,
            }
        };
        if hit {
            if let Some(rule) = manual_rule_exec(l) {
                out.push(rule);
            }
        }
        k = k + 1;
    }
    assert(lints@.take(k as int) =~= lints@);
    out
}

fn one_rule(b: bool, r: LintRule) -> (v: Vec<LintRule>)
    ensures
        v@ == if b { seq![r] } else { Seq::<LintRule>::empty() },
{
    let mut v: Vec<LintRule> = Vec::new();
    if b {
        v.push(r);
    }
    v
}

fn repeat_rule_exec(r: LintRule, n: usize) -> (v: Vec<LintRule>)
    ensures
        v@ == repeat_rule(r, n as nat),
{
    let mut v: Vec<LintRule> = Vec::new();
    let mut k: usize = 0;
    while k < n
        invariant
            k <= n,
            v@ == repeat_rule(r, k as nat),
        decreases n - k,
    {
        v.push(r);
        k = k + 1;
    }
    v
}

fn rules_for_exec(c: &BodyCheck, e: &Expr) -> (r: Vec<LintRule>)
    requires
        !check_panics(*c, *e),
    ensures
        r@ == rules_for(*c, *e),
{
    match c {
        BodyCheck::CollapsibleIf => one_rule(match e {
            Expr::If(i) => collapsible_if::check_single_collapsible_if(i),
            _ => false,
        }, LintRule::CollapsibleIf),
        BodyCheck::CollapsibleIfElse => one_rule(match e {
            Expr::If(i) => collapsible_if_else::check_single_collapsible_if_else(i),
            _ => false,
        }, LintRule::CollapsibleIfElse),
        BodyCheck::EquatableIfLet => one_rule(match e {
            Expr::If(i) => equatable_if_let::check_single_equatable_if_let(i),
            _ => false,
        }, LintRule::EquatableIfLet),
        BodyCheck::DuplicateIfCondition => one_rule(match e {
            Expr::If(i) => ifs_same_cond::check_single_duplicate_if_condition(i),
            _ => false,
        }, LintRule::DuplicateIfCondition),
        BodyCheck::ManualAssert => match e {
            Expr::If(i) => {
                let n = manual_assert::check_single_manual_assert(i);
                repeat_rule_exec(LintRule::ManualAssert, n)
            },
            _ => Vec::new(),
        },
        BodyCheck::CollapsibleMatch => one_rule(match e {
            Expr::Match(m) => collapsible_match::check_single_collapsible_match(m),
            _ => false,
        }, LintRule::CollapsibleMatch),
        BodyCheck::IntOpOne => match e {
            Expr::FunctionCall(fc) => int_op_one::check_single_int_op_one(fc),
            _ => Vec::new(),
        },
        BodyCheck::CloneOnCopy => one_rule(match e {
            Expr::FunctionCall(fc) => clone_on_copy::check_clone_usage(fc),
            _ => false,
        }, LintRule::CloneOnCopy),
        BodyCheck::InefficientUnwrapOr => one_rule(match e {
            Expr::FunctionCall(fc) => inefficient_unwrap_or::is_inefficient_unwrap_or_call(fc),
            _ => false,
        }, LintRule::InefficientUnwrapOr),
        BodyCheck::LoopForWhile => one_rule(match e {
            Expr::Loop(b) => loop_for_while::check_single_loop_for_while(&**b),
            _ => false,
        }, LintRule::LoopForWhile),
        BodyCheck::ManualOnMatch(f) => {
            let ls = family_lints_exec(*f);
            manual_rules_exec(e, &ls, true)
        },
        BodyCheck::ManualOnIf(f) => {
            let ls = family_lints_exec(*f);
            manual_rules_exec(e, &ls, false)
        },
    }
}

/// The lints that a check raises on a body (see `body_hits`).
pub fn check_body(c: &BodyCheck, body: &FunctionBody) -> (r: Vec<LintHit>)
    requires
        forall|k: int| 0 <= k < body.exprs@.len() ==> !check_panics(*c, #[trigger] body.exprs@[k]),
    ensures
        hit_views(r@) == body_hits(*c, body.exprs@),
{
    let mut out: Vec<LintHit> = Vec::new();
    let mut k: usize = 0;
    while k < body.exprs.len()
        invariant
            k <= body.exprs@.len(),
            forall|j: int| 0 <= j < body.exprs@.len() ==> !check_panics(*c, #[trigger] body.exprs@[j]),
            hit_views(out@) == body_hits(*c, body.exprs@.take(k as int)),
        decreases body.exprs@.len() - k,
    {
        let ghost es = body.exprs@;
        assert(es.take(k + 1).drop_last() =~= es.take(k as int));
        assert(es.take(k + 1).last() == es[k as int]);
        let rules = rules_for_exec(c, &body.exprs[k]);
        let ghost before = out@;
        let mut j: usize = 0;
        while j < rules.len()
            invariant
                j <= rules@.len(),
                out@ == before + rules@.take(j as int).map_values(|r: LintRule| LintHit { index: k, rule: r }),
            decreases rules@.len() - j,
        {
            assert(rules@.take(j + 1) =~= rules@.take(j as int).push(rules@[j as int]));
            out.push(LintHit { index: k, rule: rules[j] });
            assert(out@ =~= before + rules@.take(j + 1).map_values(|r: LintRule| LintHit { index: k, rule: r }));
            j = j + 1;
        }
        assert(rules@.take(j as int) =~= rules@);
        assert(hit_views(out@) =~= hit_views(before) + rules@.map_values(|r: LintRule| (k as int, r)));
        k = k + 1;
    }
    assert(body.exprs@.take(k as int) =~= body.exprs@);
    out
}

} // verus!

verus! {

fn append_hits(dst: &mut Vec<LintHit>, src: Vec<LintHit>)
    ensures
        hit_views(final(dst)@) == hit_views(old(dst)@) + hit_views(src@),
{
    let ghost before = dst@;
    let mut k: usize = 0;
    while k < src.len()
        invariant
            k <= src@.len(),
            dst@ == before + src@.take(k as int),
        decreases src@.len() - k,
    {
        dst.push(src[k]);
        assert(src@.take(k + 1) =~= src@.take(k as int).push(src@[k as int]));
        k = k + 1;
    }
    assert(src@.take(k as int) =~= src@);
    assert(hit_views(before + src@) =~= hit_views(before) + hit_views(src@));
}

/// The manual rewrites of a family of methods in a body: those in `match`
/// expressions first, then those in `if` expressions.
pub fn check_manual_family(f: ManualFamily, body: &FunctionBody) -> (r: Vec<LintHit>)
    ensures
        hit_views(r@) == body_hits(BodyCheck::ManualOnMatch(f), body.exprs@)
            + body_hits(BodyCheck::ManualOnIf(f), body.exprs@),
{
    let mut out = check_body(&BodyCheck::ManualOnMatch(f), body);
    let ifs = check_body(&BodyCheck::ManualOnIf(f), body);
    append_hits(&mut out, ifs);
    out
}

/// The `if` comes from the expansion of `assert!`: its block starts by
/// binding the formatter variable of that expansion.
pub open spec fn is_assert_macro_call_spec(i: ExprIf) -> bool {
    match *i.if_block {
        Expr::Block(b) => b.statements@[0] matches Statement::Let { pattern: Pattern::Variable(v), .. }
            && v.name@ == ASSERT_FORMATTER_NAME@ && v.ty_short_name@ == ASSERT_PATH@,
        _ => false,
    }
}

/// Whether an `if` is the expansion of `assert!` (see
/// `is_assert_macro_call_spec`).
pub fn is_assert_macro_call(i: &ExprIf) -> (r: bool)
    requires
        *i.if_block matches Expr::Block(b) ==> b.statements@.len() > 0,
    ensures
        r == is_assert_macro_call_spec(*i),
{
    match &*i.if_block {
        Expr::Block(b) => match &b.statements[0] {
            Statement::Let { pattern: Pattern::Variable(v), .. } =>
                text::str_eq(v.name.as_str(), ASSERT_FORMATTER_NAME)
                    && text::str_eq(v.ty_short_name.as_str(), ASSERT_PATH),
            _ => false,
        },
        _ => false,
    }
}


/// Positions of the expressions that satisfy a kind test.
pub open spec fn positions_where(es: Seq<Expr>, kind: ExprKind) -> Seq<int>
    decreases es.len(),
{
    if es.len() == 0 {
        seq![]
    } else {
        let rest = positions_where(es.drop_last(), kind);
        if has_kind(es.last(), kind) { rest.push(es.len() - 1) } else { rest }
    }
}

/// The kinds of expressions the queries look for.
#[derive(Debug, Clone, Copy, PartialEq, Eq, Structural)]
pub enum ExprKind {
    If,
    Match,
    Loop,
    While,
    FunctionCall,
    LogicalOperator,
}

/// The expression is of the kind.
pub open spec fn has_kind(e: Expr, kind: ExprKind) -> bool {
    match kind {
        ExprKind::If => e is If,
        ExprKind::Match => e is Match,
        ExprKind::Loop => e is Loop,
        ExprKind::While => e is While,
        ExprKind::FunctionCall => e is FunctionCall,
        ExprKind::LogicalOperator => e is LogicalOperator,
    }
}

fn has_kind_exec(e: &Expr, kind: ExprKind) -> (r: bool)
    ensures
        r == has_kind(*e, kind),
{
    match kind {
        ExprKind::If => matches!(e, Expr::If(_)),
        ExprKind::Match => matches!(e, Expr::Match(_)),
        ExprKind::Loop => matches!(e, Expr::Loop(_)),
        ExprKind::While => matches!(e, Expr::While { .. }),
        ExprKind::FunctionCall => matches!(e, Expr::FunctionCall(_)),
        ExprKind::LogicalOperator => matches!(e, Expr::LogicalOperator { .. }),
    }
}

/// The positions of the body's expressions of a kind, in order.
pub fn positions_of_kind(body: &FunctionBody, kind: ExprKind) -> (r: Vec<usize>)
    ensures
        r@.map_values(|i: usize| i as int) == positions_where(body.exprs@, kind),
{
    let mut out: Vec<usize> = Vec::new();
    let mut k: usize = 0;
    while k < body.exprs.len()
        invariant
            k <= body.exprs@.len(),
            out@.map_values(|i: usize| i as int) == positions_where(body.exprs@.take(k as int), kind),
        decreases body.exprs@.len() - k,
    {
        let ghost es = body.exprs@;
        assert(es.take(k + 1).drop_last() =~= es.take(k as int));
        assert(es.take(k + 1).last() == es[k as int]);
        let ghost before = out@;
        if has_kind_exec(&body.exprs[k], kind) {
            out.push(k);
            assert(out@.map_values(|i: usize| i as int) =~= before.map_values(|i: usize| i as int).push(k as int));
        }
        k = k + 1;
    }
    assert(body.exprs@.take(k as int) =~= body.exprs@);
    out
}

/// The positions of the `if` expressions of a body.
pub fn get_all_if_expressions(body: &FunctionBody) -> (r: Vec<usize>)
    ensures
        r@.map_values(|i: usize| i as int) == positions_where(body.exprs@, ExprKind::If),
{
    positions_of_kind(body, ExprKind::If)
}

/// The positions of the `match` expressions of a body.
pub fn get_all_match_expressions(body: &FunctionBody) -> (r: Vec<usize>)
    ensures
        r@.map_values(|i: usize| i as int) == positions_where(body.exprs@, ExprKind::Match),
{
    positions_of_kind(body, ExprKind::Match)
}

/// The positions of the `loop` expressions of a body.
pub fn get_all_loop_expressions(body: &FunctionBody) -> (r: Vec<usize>)
    ensures
        r@.map_values(|i: usize| i as int) == positions_where(body.exprs@, ExprKind::Loop),
{
    positions_of_kind(body, ExprKind::Loop)
}

/// The positions of the `while` expressions of a body.
pub fn get_all_while_expressions(body: &FunctionBody) -> (r: Vec<usize>)
    ensures
        r@.map_values(|i: usize| i as int) == positions_where(body.exprs@, ExprKind::While),
{
    positions_of_kind(body, ExprKind::While)
}

/// The positions of the function calls of a body.
pub fn get_all_function_calls(body: &FunctionBody) -> (r: Vec<usize>)
    ensures
        r@.map_values(|i: usize| i as int) == positions_where(body.exprs@, ExprKind::FunctionCall),
{
    positions_of_kind(body, ExprKind::FunctionCall)
}

/// The positions of the logical operators of a body.
pub fn get_all_logical_operator_expressions(body: &FunctionBody) -> (r: Vec<usize>)
    ensures
        r@.map_values(|i: usize| i as int) == positions_where(body.exprs@, ExprKind::LogicalOperator),
{
    positions_of_kind(body, ExprKind::LogicalOperator)
}

/// The positions of the `break` statements of a body.
pub open spec fn break_positions(ss: Seq<Statement>) -> Seq<int>
    decreases ss.len(),
{
    if ss.len() == 0 {
        seq![]
    } else {
        let rest = break_positions(ss.drop_last());
        if ss.last() is Break { rest.push(ss.len() - 1) } else { rest }
    }
}

/// The positions of the `break` statements of a body.
pub fn get_all_break_statements(body: &FunctionBody) -> (r: Vec<usize>)
    ensures
        r@.map_values(|i: usize| i as int) == break_positions(body.statements@),
{
    let mut out: Vec<usize> = Vec::new();
    let mut k: usize = 0;
    while k < body.statements.len()
        invariant
            k <= body.statements@.len(),
            out@.map_values(|i: usize| i as int) == break_positions(body.statements@.take(k as int)),
        decreases body.statements@.len() - k,
    {
        let ghost ss = body.statements@;
        assert(ss.take(k + 1).drop_last() =~= ss.take(k as int));
        assert(ss.take(k + 1).last() == ss[k as int]);
        let ghost before = out@;
        if matches!(body.statements[k], Statement::Break { .. }) {
            out.push(k);
            assert(out@.map_values(|i: usize| i as int) =~= before.map_values(|i: usize| i as int).push(k as int));
        }
        k = k + 1;
    }
    assert(body.statements@.take(k as int) =~= body.statements@);
    out
}

/// The conditions of a body, by position: every condition of each `if`
/// (the position of the `if` and the condition's rank), then the condition
/// of each `while` (rank zero).
pub open spec fn condition_positions(es: Seq<Expr>) -> Seq<(int, int)> {
    if_condition_positions(es) + positions_where(es, ExprKind::While).map_values(|i: int| (i, 0))
}

/// The conditions of the `if`s, by position and rank.
pub open spec fn if_condition_positions(es: Seq<Expr>) -> Seq<(int, int)>
    decreases es.len(),
{
    if es.len() == 0 {
        seq![]
    } else {
        let rest = if_condition_positions(es.drop_last());
        match es.last() {
            Expr::If(i) => rest + Seq::new(i.conditions@.len(), |c: int| (es.len() - 1, c)),
            _ => rest,
        }
    }
}

/// The conditions of a body (see `condition_positions`).
pub fn get_all_conditions(body: &FunctionBody) -> (r: Vec<(usize, usize)>)
    ensures
        r@.map_values(|p: (usize, usize)| (p.0 as int, p.1 as int)) == condition_positions(body.exprs@),
{
    let mut out: Vec<(usize, usize)> = Vec::new();
    let mut k: usize = 0;
    while k < body.exprs.len()
        invariant
            k <= body.exprs@.len(),
            out@.map_values(|p: (usize, usize)| (p.0 as int, p.1 as int)) == if_condition_positions(body.exprs@.take(k as int)),
        decreases body.exprs@.len() - k,
    {
        let ghost es = body.exprs@;
        assert(es.take(k + 1).drop_last() =~= es.take(k as int));
        assert(es.take(k + 1).last() == es[k as int]);
        if let Expr::If(i) = &body.exprs[k] {
            let ghost before = out@.map_values(|p: (usize, usize)| (p.0 as int, p.1 as int));
            let mut c: usize = 0;
            while c < i.conditions.len()
                invariant
                    c <= i.conditions@.len(),
                    out@.map_values(|p: (usize, usize)| (p.0 as int, p.1 as int))
                        == before + Seq::new(c as nat, |j: int| (k as int, j)),
                decreases i.conditions@.len() - c,
            {
                let ghost mid = out@;
                out.push((k, c));
                assert(out@.map_values(|p: (usize, usize)| (p.0 as int, p.1 as int))
                    =~= mid.map_values(|p: (usize, usize)| (p.0 as int, p.1 as int)).push((k as int, c as int)));
                assert(out@.map_values(|p: (usize, usize)| (p.0 as int, p.1 as int))
                    =~= before + Seq::new((c + 1) as nat, |j: int| (k as int, j)));
                c = c + 1;
            }
        }
        k = k + 1;
    }
    assert(body.exprs@.take(k as int) =~= body.exprs@);
    let whiles = positions_of_kind(body, ExprKind::While);
    let ghost before = out@.map_values(|p: (usize, usize)| (p.0 as int, p.1 as int));
    let mut j: usize = 0;
    while j < whiles.len()
        invariant
            j <= whiles@.len(),
            whiles@.map_values(|i: usize| i as int) == positions_where(body.exprs@, ExprKind::While),
            out@.map_values(|p: (usize, usize)| (p.0 as int, p.1 as int))
                == before + whiles@.take(j as int).map_values(|i: usize| (i as int, 0int)),
        decreases whiles@.len() - j,
    {
        let ghost mid = out@;
        out.push((whiles[j], 0));
        assert(out@.map_values(|p: (usize, usize)| (p.0 as int, p.1 as int))
            =~= mid.map_values(|p: (usize, usize)| (p.0 as int, p.1 as int)).push((whiles@[j as int] as int, 0int)));
        assert(whiles@.take(j + 1) =~= whiles@.take(j as int).push(whiles@[j as int]));
        assert(out@.map_values(|p: (usize, usize)| (p.0 as int, p.1 as int))
            =~= before + whiles@.take(j + 1).map_values(|i: usize| (i as int, 0int)));
        j = j + 1;
    }
    assert(whiles@.take(j as int) =~= whiles@);
    assert(whiles@.map_values(|i: usize| (i as int, 0int))
        =~= positions_where(body.exprs@, ExprKind::While).map_values(|i: int| (i, 0)));
    out
}

/// The concatenation of the texts.
pub open spec fn concat_all(ts: Seq<Seq<char>>) -> Seq<char>
    decreases ts.len(),
{
    if ts.len() == 0 { seq![] } else { concat_all(ts.drop_last()) + ts.last() }
}

/// The text of a node with all its trivia removed, nested ones too: the
/// texts of its tokens, each without trivia, put together.
pub fn syntax_node_to_str_without_all_nested_trivia(tokens: &Vec<String>) -> (r: String)
    ensures
        r@ == concat_all(text::string_views(tokens@)),
{
    let ghost ts = text::string_views(tokens@);
    let mut out: Vec<char> = Vec::new();
    let mut k: usize = 0;
    while k < tokens.len()
        invariant
            ts == text::string_views(tokens@),
            k <= ts.len(),
            out@ == concat_all(ts.take(k as int)),
        decreases ts.len() - k,
    {
        assert(ts.take(k + 1).drop_last() =~= ts.take(k as int));
        assert(ts.take(k + 1).last() == tokens@[k as int]@);
        text::push_str(&mut out, tokens[k].as_str());
        k = k + 1;
    }
    assert(ts.take(k as int) =~= ts);
    text::string_of(out.as_slice())
}


/// Every position a check reports lies within the body.
pub proof fn lemma_body_hits_in_range(c: BodyCheck, es: Seq<Expr>)
    ensures
        forall|h: int| 0 <= h < body_hits(c, es).len() ==> 0 <= #[trigger] body_hits(c, es)[h].0 < es.len(),
    decreases es.len(),
{
    if es.len() > 0 {
        lemma_body_hits_in_range(c, es.drop_last());
        let rest = body_hits(c, es.drop_last());
        let n = es.len() - 1;
        let added = rules_for(c, es.last()).map_values(|r: LintRule| (n, r));
        assert forall|h: int| 0 <= h < body_hits(c, es).len() implies 0 <= #[trigger] body_hits(c, es)[h].0 < es.len() by {
            if h < rest.len() {
                assert(body_hits(c, es)[h] == rest[h]);
            } else {
                assert(body_hits(c, es)[h] == added[h - rest.len()]);
            }
        }
    }
}
} // verus!
