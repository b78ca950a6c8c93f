use vstd::prelude::*;
use crate::context::{Lint, LintRule};
use crate::queries;
use crate::semantic::{Condition, Expr, ExprIf, Pattern};
use crate::text;

verus! {

/// Checks for `if let` pattern matching that can be replaced by a simple comparison.
pub struct EquatableIfLet;

impl Lint for EquatableIfLet {
    open spec fn rule(&self) -> LintRule {
        LintRule::EquatableIfLet
    }

    fn lint_rule(&self) -> (r: LintRule) {
        LintRule::EquatableIfLet
    }
}


/// A literal, a string literal or a variable.
pub open spec fn is_simple_expr(e: Expr) -> bool {
    e is Literal || e is StringLiteral || e is Var
}

/// Scanning the patterns in order, the first literal pattern, or enum
/// pattern (without an inner pattern or with a literal one), decides:
/// a literal says yes, an enum pattern says whether its inner pattern is
/// absent or literal; no deciding pattern says no.
pub open spec fn simple_equality_condition_spec(ps: Seq<Pattern>) -> bool
    decreases ps.len(),
{
    if ps.len() == 0 {
        false
    } else {
        match ps[0] {
            Pattern::Literal | Pattern::StringLiteral => true,
            Pattern::EnumVariant { inner, .. } => match inner {
                None => true,
                Some(p) => *p is Literal || *p is StringLiteral,
            },
            _ => simple_equality_condition_spec(ps.drop_first()),
        }
    }
}

fn is_simple_equality_condition(ps: &Vec<Pattern>) -> (r: bool)
    ensures
        r == simple_equality_condition_spec(ps@),
{
    let mut k: usize = 0;
    assert(ps@.skip(0) =~= ps@);
    while k < ps.len()
        invariant
            k <= ps@.len(),
            simple_equality_condition_spec(ps@) == simple_equality_condition_spec(ps@.skip(k as int)),
        decreases ps@.len() - k,
    {
        assert(ps@.skip(k as int).drop_first() =~= ps@.skip(k + 1));
        assert(ps@.skip(k as int)[0] == ps@[k as int]);
        match &ps[k] {
            Pattern::Literal | Pattern::StringLiteral => return true,
            Pattern::EnumVariant { inner, .. } => {
                return match inner {
                    None => true,
                    Some(p) => matches!(**p, Pattern::Literal | Pattern::StringLiteral),
                };
            },
            _ => {},
        }
        k = k + 1;
    }
    assert(ps@.skip(k as int) =~= Seq::<Pattern>::empty());
    false
}

/// An `if let` on a simple expression whose pattern a comparison can test.
pub open spec fn equatable_if_let_spec(i: ExprIf) -> bool {
    i.conditions@.len() > 0 && match i.conditions@[0] {
        Condition::Let { expr, patterns, .. } => is_simple_expr(expr) && simple_equality_condition_spec(patterns@),
        _ => false,
    }
}

/// Whether an `if let` can be an equality test (see
/// `equatable_if_let_spec`).
pub fn check_single_equatable_if_let(i: &ExprIf) -> (r: bool)
    ensures
        r == equatable_if_let_spec(*i),
{
    if i.conditions.len() == 0 {
        return false;
    }
    match &i.conditions[0] {
        Condition::Let { expr, patterns, .. } => {
            let simple = matches!(expr, Expr::Literal { .. } | Expr::StringLiteral(_) | Expr::Var(_));
            simple && is_simple_equality_condition(patterns)
        },
        _ => false,
    }
}

/// The first condition of an `if`, as the fix reads it.
#[derive(Debug)]
pub enum FirstConditionSyntax {
    /// `let {patterns} = {expr}`: the text of each part.
    Let { expr: String, patterns: String },
    Expr,
}

/// The fix: `if {expr} == {patterns} {block}`.
pub open spec fn fix_equatable_if_let_spec(if_kw: Seq<char>, c: Option<FirstConditionSyntax>, block: Seq<char>) -> Option<Seq<char>> {
    match c {
        Some(FirstConditionSyntax::Let { expr, patterns }) =>
            Some(if_kw + text::trim_end(expr@) + " == "@ + text::trim_end(patterns@) + " "@ + block),
        _ => None,
    }
}

/// The fix of an equatable `if let` (see `fix_equatable_if_let_spec`);
/// the first condition, when there is one, must be a `let`.
pub fn fix_equatable_if_let(if_kw: &str, first_condition: &Option<FirstConditionSyntax>, if_block: &str) -> (r: Option<String>)
    requires
        !(*first_condition matches Some(FirstConditionSyntax::Expr)),
    ensures
        text::opt_view(r) == fix_equatable_if_let_spec(if_kw@, *first_condition, if_block@),
{
    match first_condition {
        Some(FirstConditionSyntax::Let { expr, patterns }) => {
            let mut out = text::chars_of(if_kw);
            let e = text::chars_of(expr.as_str());
            let et = text::trim_end_chars(e.as_slice());
            text::push_all(&mut out, et.as_slice());
            text::push_str(&mut out, " == ");
            let p = text::chars_of(patterns.as_str());
            let pt = text::trim_end_chars(p.as_slice());
            text::push_all(&mut out, pt.as_slice());
            text::push_str(&mut out, " ");
            text::push_str(&mut out, if_block);
            Some(text::string_of(out.as_slice()))
        },
        _ => None,
    }
}


/// The `if let`s of a function body that can be equality tests.
pub fn check_equatable_if_let(body: &queries::FunctionBody) -> (r: Vec<queries::LintHit>)
    ensures
        queries::hit_views(r@) == queries::body_hits(queries::BodyCheck::EquatableIfLet, body.exprs@),
{
    queries::check_body(&queries::BodyCheck::EquatableIfLet, body)
}


/// An `if let` is reported exactly when it can be an `==` test, judged by
/// its first condition: a `let` on a variable or literal whose first
/// pattern is a literal, a bare enum variant, or an enum variant around a
/// literal is reported; a `let` on any other expression, or whose first
/// pattern is an enum variant binding a variable, is not; nor is an `if`
/// whose first condition is a plain boolean.
pub proof fn lemma_equatable_if_let_decided_by_first_pattern(i: ExprIf)
    ensures
        ({
            &&& i.conditions@.len() > 0
            &&& i.conditions@[0] matches Condition::Let { expr, patterns, .. }
            &&& (expr is Var || expr is Literal || expr is StringLiteral)
            &&& patterns@.len() > 0
            &&& match patterns@[0] {
                Pattern::Literal => true,
                Pattern::StringLiteral => true,
                Pattern::EnumVariant { inner, .. } => match inner {
                    None => true,
                    Some(q) => *q is Literal || *q is StringLiteral,
                },
                _ => false,
            }
        }) ==> equatable_if_let_spec(i),
        ({
            &&& i.conditions@.len() > 0
            &&& i.conditions@[0] matches Condition::Let { expr, .. }
            &&& !(expr is Var || expr is Literal || expr is StringLiteral)
        }) ==> !equatable_if_let_spec(i),
        ({
            &&& i.conditions@.len() > 0
            &&& i.conditions@[0] matches Condition::Let { patterns, .. }
            &&& patterns@.len() > 0
            &&& patterns@[0] matches Pattern::EnumVariant { inner: Some(q), .. }
            &&& *q is Variable
        }) ==> !equatable_if_let_spec(i),
        (i.conditions@.len() == 0 || i.conditions@[0] is BoolExpr) ==> !equatable_if_let_spec(i),
{
}
} // verus!
