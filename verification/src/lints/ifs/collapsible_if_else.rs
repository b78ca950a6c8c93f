use vstd::prelude::*;
use crate::context::{Lint, LintRule};
use crate::queries;
use crate::semantic::{Block, Expr, ExprIf, Statement};
use crate::text;

verus! {

/// Checks for nested `if` statements inside the `else` statement
/// that can be collapsed into a single `if-else` statement.
pub struct CollapsibleIfElse;

impl Lint for CollapsibleIfElse {
    open spec fn rule(&self) -> LintRule {
        LintRule::CollapsibleIfElse
    }

    fn lint_rule(&self) -> (r: LintRule) {
        LintRule::CollapsibleIfElse
    }
}


/// The block holds nothing but an `if`: as its only statement (with no
/// tail) or as its tail (with no statement).
pub open spec fn is_only_statement_if_spec(b: Block) -> bool {
    if b.statements@.len() == 1 && b.tail is None {
        b.statements@[0] matches Statement::Expr(Expr::If(_))
    } else if b.statements@.len() == 0 {
        match b.tail {
            Some(t) => *t is If,
            None => false,
        }
    } else {
        false
    }
}

/// An `if` whose `else` block holds nothing but another `if`.
pub open spec fn collapsible_if_else_spec(i: ExprIf) -> bool {
    match i.else_block {
        Some(e) => match *e {
            Expr::Block(b) => is_only_statement_if_spec(b),
            _ => false,
        },
        None => false,
    }
}

fn is_only_statement_if(b: &Block) -> (r: bool)
    ensures
        r == is_only_statement_if_spec(*b),
{
    if b.statements.len() == 1 && b.tail.is_none() {
        return matches!(b.statements[0], Statement::Expr(Expr::If(_)));
    }
    if b.statements.len() == 0 {
        if let Some(t) = &b.tail {
            return matches!(**t, Expr::If(_));
        }
    }
    false
}

/// Whether an `else` block can become an `else if` (see
/// `collapsible_if_else_spec`).
pub fn check_single_collapsible_if_else(i: &ExprIf) -> (r: bool)
    ensures
        r == collapsible_if_else_spec(*i),
{
    match &i.else_block {
        Some(e) => match &**e {
            Expr::Block(b) => is_only_statement_if(b),
            _ => false,
        },
        None => false,
    }
}

/// The first statement of the `else` block, as the fix reads it.
#[derive(Debug)]
pub enum ElseFirstStatement {
    /// An `if` expression: the text of its conditions, of its block and of
    /// its `else` clause (empty when it has none).
    If { conditions: String, if_block: String, else_clause: String },
    Other,
    NoStatement,
}

/// The `else` clause of the `if`.
#[derive(Debug)]
pub struct ElseClauseSyntax {
    /// The text of the clause with its leading trivia.
    pub text: String,
    /// Whether it is a block (and not an `else if`).
    pub is_block: bool,
    pub first_statement: ElseFirstStatement,
}

/// The fix: the `else` block replaced by `else if` with the inner `if`'s
/// condition, block and `else`, at the indentation of the `else` clause.
pub open spec fn fix_collapsible_if_else_spec(e: Option<ElseClauseSyntax>) -> Option<Seq<char>> {
    match e {
        Some(c) => if c.is_block {
            match c.first_statement {
                ElseFirstStatement::If { conditions, if_block, else_clause } =>
                    Some(text::leading_ws(c.text@) + "else if "@ + conditions@ + " "@ + if_block@ + " "@ + else_clause@),
                _ => None,
            }
        } else {
            None
        },
        None => None,
    }
}

/// The fix of a collapsible `else` (see `fix_collapsible_if_else_spec`).
pub fn fix_collapsible_if_else(e: &Option<ElseClauseSyntax>) -> (r: Option<String>)
    ensures
        text::opt_view(r) == fix_collapsible_if_else_spec(*e),
{
    let c = match e {
        Some(c) => c,
        None => return None,
    };
    if !c.is_block {
        return None;
    }
    match &c.first_statement {
        ElseFirstStatement::If { conditions, if_block, else_clause } => {
            let t = text::chars_of(c.text.as_str());
            let n = text::leading_ws_len(t.as_slice());
            let mut out = text::subrange_chars(t.as_slice(), 0, n);
            text::push_str(&mut out, "else if ");
            text::push_str(&mut out, conditions.as_str());
            text::push_str(&mut out, " ");
            text::push_str(&mut out, if_block.as_str());
            text::push_str(&mut out, " ");
            text::push_str(&mut out, else_clause.as_str());
            Some(text::string_of(out.as_slice()))
        },
        _ => None,
    }
}


/// The `else` blocks of a function body that can be `else if`s.
pub fn check_collapsible_if_else(body: &queries::FunctionBody) -> (r: Vec<queries::LintHit>)
    ensures
        queries::hit_views(r@) == queries::body_hits(queries::BodyCheck::CollapsibleIfElse, body.exprs@),
{
    queries::check_body(&queries::BodyCheck::CollapsibleIfElse, body)
}


/// No `if` is reported both as a collapsible `if` (which has no `else`)
/// and as a collapsible `else`.
pub proof fn lemma_collapsible_if_excludes_if_else(i: ExprIf)
    ensures
        !(crate::lints::ifs::collapsible_if::collapsible_if_spec(i) && collapsible_if_else_spec(i)),
{
}

} // verus!
