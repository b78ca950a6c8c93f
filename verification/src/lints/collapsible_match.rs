use vstd::prelude::*;
use crate::context::{Lint, LintRule};
use crate::queries;
use crate::lints::manual::helpers;
use crate::semantic::{Expr, ExprMatch, MatchArm, Pattern, Statement, VarRef};
use crate::text;

verus! {

/// Checks for nested `match` statements that can be collapsed into a single `match` statement.
/// Note that this lint is not intended to find all cases where nested match patterns can be merged, but only cases where merging would most likely make the code more readable.
pub struct CollapsibleMatch;

impl Lint for CollapsibleMatch {
    open spec fn rule(&self) -> LintRule {
        LintRule::CollapsibleMatch
    }

    fn lint_rule(&self) -> (r: LintRule) {
        LintRule::CollapsibleMatch
    }
}


/// The `match` that an arm consists of: its expression, or the only
/// statement (an expression) of its block, or the tail of a block without
/// statements.
pub open spec fn inner_match_spec(arm: MatchArm) -> Option<ExprMatch> {
    match arm.expression {
        Expr::Match(m) => Some(m),
        Expr::Block(b) => if b.statements@.len() == 0 {
            match b.tail {
                Some(t) => match *t {
                    Expr::Match(m) => Some(m),
                    _ => None,
                },
                None => None,
            }
        } else if b.statements@.len() == 1 {
            match b.statements@[0] {
                Statement::Expr(Expr::Match(m)) => Some(m),
                _ => None,
            }
        } else {
            None
        },
        _ => None,
    }
}

fn get_inner_match_expression_if_single_one(arm: &MatchArm) -> (r: Option<&ExprMatch>)
    ensures
        match inner_match_spec(*arm) {
            Some(m) => r is Some && *r->0 == m,
            None => r is None,
        },
{
    match &arm.expression {
        Expr::Match(m) => Some(m),
        Expr::Block(b) => {
            if b.statements.len() == 0 {
                match &b.tail {
                    Some(t) => match &**t {
                        Expr::Match(m) => Some(m),
                        _ => None,
                    },
                    None => None,
                }
            } else if b.statements.len() == 1 {
                match &b.statements[0] {
                    Statement::Expr(Expr::Match(m)) => Some(m),
                    _ => None,
                }
            } else {
                None
            }
        },
        _ => None,
    }
}

/// The arm of a two-arm inner `match` whose expression reads as the outer
/// arm's expression: the first such arm.
pub open spec fn same_expression_arm(outer: MatchArm, inner: ExprMatch) -> Option<int> {
    if outer.expression_text@ == inner.arms@[0].expression_text@ {
        Some(0)
    } else if outer.expression_text@ == inner.arms@[1].expression_text@ {
        Some(1)
    } else {
        None
    }
}

/// The outer arm binds a variable inside an enum-variant pattern, the inner
/// `match` matches on that variable, one of its arms repeats the other
/// outer arm, and its other arm has a single enum-variant pattern.
pub open spec fn matches_are_simplifiable(main: MatchArm, secondary: MatchArm, inner: ExprMatch) -> bool {
    &&& inner.arms@.len() == 2
    &&& same_expression_arm(secondary, inner) matches Some(dup)
    &&& {
        let collapsible = inner.arms@[1 - dup];
        &&& collapsible.patterns@.len() == 1
        &&& collapsible.patterns@[0] is EnumVariant
        &&& main.patterns@.len() == 1
        &&& helpers::pattern_variable_spec(main.patterns@[0]) matches Some(pv)
        &&& *inner.matched matches Expr::Var(VarRef::Local(id))
        &&& id == pv.var_id
    }
}

/// The position of the inner arm whose expression reads as the outer arm's
/// expression (see `same_expression_arm`).
fn get_inner_arm_with_same_expression_as_outer_match_arm(outer: &MatchArm, inner: &ExprMatch) -> (r: Option<usize>)
    requires
        inner.arms@.len() == 2,
    ensures
        match same_expression_arm(*outer, *inner) {
            Some(i) => r == Some(i as usize),
            None => r is None,
        },
{
    if text::str_eq(outer.expression_text.as_str(), inner.arms[0].expression_text.as_str()) {
        Some(0)
    } else if text::str_eq(outer.expression_text.as_str(), inner.arms[1].expression_text.as_str()) {
        Some(1)
    } else {
        None
    }
}

fn check_if_matches_are_simplifiable(main: &MatchArm, secondary: &MatchArm, inner: &ExprMatch) -> (r: bool)
    ensures
        r == matches_are_simplifiable(*main, *secondary, *inner),
{
    if inner.arms.len() != 2 {
        return false;
    }
    let dup = match get_inner_arm_with_same_expression_as_outer_match_arm(secondary, inner) {
        Some(i) => i,
        None => return false,
    };
    let collapsible = &inner.arms[1 - dup];
    if collapsible.patterns.len() != 1 {
        return false;
    }
    if !matches!(collapsible.patterns[0], Pattern::EnumVariant { .. }) {
        return false;
    }
    if main.patterns.len() != 1 {
        return false;
    }
    let pv = match helpers::extract_pattern_variable(&main.patterns[0]) {
        Some(pv) => pv,
        None => return false,
    };
    match &*inner.matched {
        Expr::Var(VarRef::Local(id)) => *id == pv.var_id,
        _ => false,
    }
}

/// A two-arm `match` one of whose arms (and only one) consists of an inner
/// `match` that can be merged into it.
pub open spec fn collapsible_match_spec(m: ExprMatch) -> bool {
    let arms = m.arms@;
    if arms.len() != 2 {
        false
    } else {
        match (inner_match_spec(arms[0]), inner_match_spec(arms[1])) {
            (Some(i), None) => arms[0].patterns@.len() == 1 && matches_are_simplifiable(arms[0], arms[1], i),
            (None, Some(i)) => arms[1].patterns@.len() == 1 && matches_are_simplifiable(arms[1], arms[0], i),
            _ => false,
        }
    }
}

/// Whether a `match` is reported as collapsible (see
/// `collapsible_match_spec`).
pub fn check_single_collapsible_match(m: &ExprMatch) -> (r: bool)
    ensures
        r == collapsible_match_spec(*m),
{
    if m.arms.len() != 2 {
        return false;
    }
    let first_arm = &m.arms[0];
    let second_arm = &m.arms[1];
    let first_inner = get_inner_match_expression_if_single_one(first_arm);
    let second_inner = get_inner_match_expression_if_single_one(second_arm);
    match (first_inner, second_inner) {
        (Some(inner), None) => {
            if first_arm.patterns.len() != 1 {
                return false;
            }
            check_if_matches_are_simplifiable(first_arm, second_arm, inner)
        },
        (None, Some(inner)) => {
            if second_arm.patterns.len() != 1 {
                return false;
            }
            check_if_matches_are_simplifiable(second_arm, first_arm, inner)
        },
        _ => false,
    }
}

/// An enum pattern such as `Some(x)`: the text of its path and, when it has
/// an inner pattern, the text of the brackets around it.
#[derive(Debug)]
pub struct EnumPatternSyntax {
    pub path: String,
    pub inner_brackets: Option<(String, String)>,
}

/// A pattern: its text and, for an enum pattern, its parts.
#[derive(Debug)]
pub struct PatternSyntax {
    pub text: String,
    pub enum_pattern: Option<EnumPatternSyntax>,
}

/// A statement of a block that is the expression of an arm.
#[derive(Debug)]
pub enum ArmStatementSyntax {
    /// An expression statement that is a `match`.
    Match(MatchSyntax),
    Other,
}

/// The expression of an arm, as far as the fix reads it.
#[derive(Debug)]
pub enum ArmExpressionSyntax {
    Match(MatchSyntax),
    Block(Vec<ArmStatementSyntax>),
    Other,
}

/// An arm of a `match`.
#[derive(Debug)]
pub struct MatchArmSyntax {
    pub patterns: Vec<PatternSyntax>,
    /// The text of the expression, with and without its surrounding trivia.
    pub expression_text: String,
    pub expression_text_without_trivia: String,
    pub expression: ArmExpressionSyntax,
}

/// The source of a `match`: the text of the matched expression and its arms.
#[derive(Debug)]
pub struct MatchSyntax {
    pub matched: String,
    pub arms: Vec<MatchArmSyntax>,
}

/// The `match` that an arm consists of, in the source: its expression, or
/// the only statement of its block.
pub open spec fn inner_match_syntax(arm: MatchArmSyntax) -> Option<MatchSyntax> {
    match arm.expression {
        ArmExpressionSyntax::Match(m) => Some(m),
        ArmExpressionSyntax::Block(stmts) => if stmts@.len() == 1 {
            match stmts@[0] {
                ArmStatementSyntax::Match(m) => Some(m),
                _ => None,
            }
        } else {
            None
        },
        ArmExpressionSyntax::Other => None,
    }
}

fn get_inner_match_syntax_expression(arm: &MatchArmSyntax) -> (r: Option<&MatchSyntax>)
    ensures
        match inner_match_syntax(*arm) {
            Some(m) => r is Some && *r->0 == m,
            None => r is None,
        },
{
    match &arm.expression {
        ArmExpressionSyntax::Match(m) => Some(m),
        ArmExpressionSyntax::Block(stmts) => {
            if stmts.len() == 1 {
                match &stmts[0] {
                    ArmStatementSyntax::Match(m) => Some(m),
                    _ => None,
                }
            } else {
                None
            }
        },
        ArmExpressionSyntax::Other => None,
    }
}

/// The inner arm to merge: the second where the first repeats the other
/// outer arm, the first otherwise.
pub open spec fn arm_to_collapse(secondary: MatchArmSyntax, inner: MatchSyntax) -> MatchArmSyntax {
    if inner.arms@[0].expression_text_without_trivia@ == secondary.expression_text_without_trivia@ {
        inner.arms@[1]
    } else {
        inner.arms@[0]
    }
}

/// The inputs on which building the collapsed `match` panics.
pub open spec fn collapsed_match_panics(main: MatchArmSyntax, secondary: MatchArmSyntax, inner: MatchSyntax) -> bool {
    ||| inner.arms@.len() != 2
    ||| arm_to_collapse(secondary, inner).patterns@.len() != 1
    ||| main.patterns@.len() == 0
    ||| !(main.patterns@[0].enum_pattern matches Some(ep) && ep.inner_brackets is Some)
}

/// The merged pattern: the outer variant around the inner pattern, e.g.
/// `Some(Ok(x))`.
pub open spec fn collapsed_pattern(main: MatchArmSyntax, inner_pattern: PatternSyntax) -> Seq<char> {
    let ep = main.patterns@[0].enum_pattern->0;
    let (l, r) = ep.inner_brackets->0;
    text::trim(ep.path@) + text::trim(l@) + text::trim(inner_pattern.text@) + text::trim(r@)
}

/// The collapsed `match`: the merged pattern with the inner arm's
/// expression, and a wildcard arm with the repeated expression.
pub open spec fn collapsed_match_spec(m: Seq<char>, main: MatchArmSyntax, secondary: MatchArmSyntax, inner: MatchSyntax) -> Seq<char> {
    let collapse = arm_to_collapse(secondary, inner);
    "match "@ + m + " {\n    "@ + collapsed_pattern(main, collapse.patterns@[0]) + " => "@
        + collapse.expression_text@ + ",\n    _ => "@ + secondary.expression_text_without_trivia@ + ",\n}\n"@
}

fn get_collapsed_match(m: &[char], main: &MatchArmSyntax, secondary: &MatchArmSyntax, inner: &MatchSyntax) -> (r: String)
    requires
        !collapsed_match_panics(*main, *secondary, *inner),
    ensures
        r@ == collapsed_match_spec(m@, *main, *secondary, *inner),
{
    let collapse: &MatchArmSyntax = if text::str_eq(inner.arms[0].expression_text_without_trivia.as_str(),
        secondary.expression_text_without_trivia.as_str()) {
        &inner.arms[1]
    } else {
        &inner.arms[0]
    };
    let inner_pattern = &collapse.patterns[0];
    let ep = match &main.patterns[0].enum_pattern {
        Some(ep) => ep,
        None => return String::new(),
    };
    let (l, r) = match &ep.inner_brackets {
        Some(b) => (&b.0, &b.1),
        None => return String::new(),
    };
    let mut out: Vec<char> = Vec::new();
    text::push_str(&mut out, "match ");
    text::push_all(&mut out, m);
    text::push_str(&mut out, " {\n    ");
    text::push_trimmed(&mut out, ep.path.as_str());
    text::push_trimmed(&mut out, l.as_str());
    text::push_trimmed(&mut out, inner_pattern.text.as_str());
    text::push_trimmed(&mut out, r.as_str());
    text::push_str(&mut out, " => ");
    text::push_str(&mut out, collapse.expression_text.as_str());
    text::push_str(&mut out, ",\n    _ => ");
    text::push_str(&mut out, secondary.expression_text_without_trivia.as_str());
    text::push_str(&mut out, ",\n}\n");
    text::string_of(out.as_slice())
}

/// The fix of a collapsible `match`: the collapsed `match` built from the
/// first arm that consists of an inner `match`, if any.
pub open spec fn fix_collapsible_match_spec(s: MatchSyntax) -> Option<Seq<char>> {
    let m = text::trim(s.matched@);
    let (a0, a1) = (s.arms@[0], s.arms@[1]);
    match inner_match_syntax(a0) {
        Some(i) => Some(collapsed_match_spec(m, a0, a1, i)),
        None => match inner_match_syntax(a1) {
            Some(i) => Some(collapsed_match_spec(m, a1, a0, i)),
            None => None,
        },
    }
}

/// The inputs on which the fix panics.
pub open spec fn fix_collapsible_match_panics(s: MatchSyntax) -> bool {
    ||| s.arms@.len() != 2
    ||| (inner_match_syntax(s.arms@[0]) matches Some(i) && collapsed_match_panics(s.arms@[0], s.arms@[1], i))
    ||| (inner_match_syntax(s.arms@[0]) is None && (inner_match_syntax(s.arms@[1]) matches Some(i)
        && collapsed_match_panics(s.arms@[1], s.arms@[0], i)))
}

/// The fix of a collapsible `match` (see `fix_collapsible_match_spec`).
pub fn fix_collapsible_match(s: &MatchSyntax) -> (r: Option<String>)
    requires
        !fix_collapsible_match_panics(*s),
    ensures
        text::opt_view(r) == fix_collapsible_match_spec(*s),
{
    let mc = text::chars_of(s.matched.as_str());
    let m = text::trim_chars(mc.as_slice());
    let first_arm = &s.arms[0];
    let second_arm = &s.arms[1];
    if let Some(inner) = get_inner_match_syntax_expression(first_arm) {
        return Some(get_collapsed_match(m.as_slice(), first_arm, second_arm, inner));
    }
    if let Some(inner) = get_inner_match_syntax_expression(second_arm) {
        return Some(get_collapsed_match(m.as_slice(), second_arm, first_arm, inner));
    }
    None
}


/// The collapsible `match`es of a function body.
pub fn check_collapsible_match(body: &queries::FunctionBody) -> (r: Vec<queries::LintHit>)
    ensures
        queries::hit_views(r@) == queries::body_hits(queries::BodyCheck::CollapsibleMatch, body.exprs@),
{
    queries::check_body(&queries::BodyCheck::CollapsibleMatch, body)
}

} // verus!
