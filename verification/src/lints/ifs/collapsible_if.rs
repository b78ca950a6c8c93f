use vstd::prelude::*;
use crate::context::{Lint, LintRule};
use crate::queries;
use crate::helper;
use crate::semantic::{Block, Condition, Expr, ExprIf, Pattern, Statement};
use crate::text;

verus! {

/// Checks for nested `if` statements that can be collapsed into a single `if` statement.
pub struct CollapsibleIf;

impl Lint for CollapsibleIf {
    open spec fn rule(&self) -> LintRule {
        LintRule::CollapsibleIf
    }

    fn lint_rule(&self) -> (r: LintRule) {
        LintRule::CollapsibleIf
    }
}


/// The first condition of the `if` is a `let`.
pub open spec fn first_is_let(i: ExprIf) -> bool {
    i.conditions@.len() > 0 && i.conditions@[0] is Let
}

/// The inner `if` of the first shape that `collapsible_if_spec` checks:
/// the only statement of the block, with no tail.
pub open spec fn single_statement_if(b: Block) -> Option<ExprIf> {
    if b.statements@.len() == 1 && b.tail is None {
        match b.statements@[0] {
            Statement::Expr(Expr::If(inner)) => Some(inner),
            _ => None,
        }
    } else {
        None
    }
}

/// The inner `if` of the second shape: the tail of a block without
/// statements.
pub open spec fn tail_if(b: Block) -> Option<ExprIf> {
    if b.statements@.len() == 0 {
        match b.tail {
            Some(t) => match *t {
                Expr::If(inner) => Some(inner),
                _ => None,
            },
            None => None,
        }
    } else {
        None
    }
}

/// The inputs on which the check panics: the `assert!` test reads the
/// first statement of an inner `if` block that has none.
pub open spec fn collapsible_if_panics(i: ExprIf) -> bool {
    match *i.if_block {
        Expr::Block(b) => match single_statement_if(b) {
            Some(inner) => !first_is_let(i) && !first_is_let(inner)
                && (*inner.if_block matches Expr::Block(ib) && ib.statements@.len() == 0),
            None => false,
        },
        _ => false,
    }
}

/// An `if` without `else` whose block only holds another `if` without
/// `else`, neither an `if let`, and the inner one not from `assert!`.
pub open spec fn collapsible_if_spec(i: ExprIf) -> bool {
    match *i.if_block {
        Expr::Block(b) => {
            ||| (single_statement_if(b) matches Some(inner) && !first_is_let(i) && !first_is_let(inner)
                && !queries::is_assert_macro_call_spec(inner) && inner.else_block is None && i.else_block is None)
            ||| (tail_if(b) matches Some(inner) && !first_is_let(i) && !first_is_let(inner)
                && i.else_block is None && inner.else_block is None)
        },
        _ => false,
    }
}

fn first_condition_is_let(i: &ExprIf) -> (r: bool)
    ensures
        r == first_is_let(*i),
{
    i.conditions.len() > 0 && matches!(i.conditions[0], Condition::Let { .. })
}

/// Whether an `if` can be collapsed into its inner `if` (see
/// `collapsible_if_spec`).
pub fn check_single_collapsible_if(i: &ExprIf) -> (r: bool)
    requires
        !collapsible_if_panics(*i),
    ensures
        r == collapsible_if_spec(*i),
{
    let b = match &*i.if_block {
        Expr::Block(b) => b,
        _ => return false,
    };
    if b.statements.len() == 1 && b.tail.is_none() {
        if let Statement::Expr(Expr::If(inner)) = &b.statements[0] {
            if !first_condition_is_let(i) && !first_condition_is_let(inner) && !queries::is_assert_macro_call(inner)
                && inner.else_block.is_none() && i.else_block.is_none() {
                return true;
            }
        }
    }
    if b.statements.len() == 0 {
        if let Some(t) = &b.tail {
            if let Expr::If(inner) = &**t {
                return !first_condition_is_let(i) && !first_condition_is_let(inner)
                    && i.else_block.is_none() && inner.else_block.is_none();
            }
        }
    }
    false
}

/// A statement of the outer `if` block, as the fix reads it.
#[derive(Debug)]
pub enum OuterStatementSyntax {
    /// An `if` expression: the text of its conditions and of its block,
    /// and whether it has an `else`.
    If { conditions: String, if_block: String, has_else: bool },
    Other,
}

/// The source of an `if` reported as collapsible.
#[derive(Debug)]
pub struct CollapsibleIfSyntax {
    /// The text of the `if` keyword with its leading trivia.
    pub if_kw: String,
    pub conditions: String,
    pub has_else: bool,
    pub statements: Vec<OuterStatementSyntax>,
    /// The text of the whole `if`.
    pub text: String,
}

/// The fix: one `if` on both conditions, each in parentheses, with the
/// inner block, re-indented at the level of the `if`; where the block is not
/// a single `if` or either `if` has an `else`, nothing is collapsed and the
/// text of the `if` is given back as it is.
pub open spec fn fix_collapsible_if_spec(s: CollapsibleIfSyntax) -> Option<Seq<char>> {
    if s.statements@.len() != 1 {
        Some(s.text@)
    } else {
        match s.statements@[0] {
            OuterStatementSyntax::If { conditions, if_block, has_else } => if has_else || s.has_else {
                Some(s.text@)
            } else {
                let combined = "("@ + text::trim(s.conditions@) + ") && ("@ + text::trim(conditions@) + ")"@;
                Some(helper::indent_snippet_spec("if "@ + combined + " "@ + if_block@,
                    text::leading_ws(s.if_kw@).len() / 4))
            },
            OuterStatementSyntax::Other => Some(s.text@),
        }
    }
}

/// The fix of a collapsible `if` (see `fix_collapsible_if_spec`).
pub fn fix_collapsible_if(s: &CollapsibleIfSyntax) -> (r: Option<String>)
    requires
        s.if_kw@.len() + s.conditions@.len() + (if s.statements@.len() == 1 {
            match s.statements@[0] {
                OuterStatementSyntax::If { conditions, if_block, .. } => conditions@.len() + if_block@.len(),
                OuterStatementSyntax::Other => 0,
            }
        } else {
            0
        }) + 32 < usize::MAX,
    ensures
        text::opt_view(r) == fix_collapsible_if_spec(*s),
{
    if s.statements.len() != 1 {
        return Some(crate::lints::manual::helpers::copy_string(&s.text));
    }
    match &s.statements[0] {
        OuterStatementSyntax::If { conditions, if_block, has_else } => {
            if *has_else || s.has_else {
                return Some(crate::lints::manual::helpers::copy_string(&s.text));
            }
            let mut body: Vec<char> = Vec::new();
            text::push_str(&mut body, "if ");
            text::push_str(&mut body, "(");
            text::push_trimmed(&mut body, s.conditions.as_str());
            text::push_str(&mut body, ") && (");
            text::push_trimmed(&mut body, conditions.as_str());
            text::push_str(&mut body, ")");
            text::push_str(&mut body, " ");
            text::push_str(&mut body, if_block.as_str());
            proof {
                text::lemma_trim_len(s.conditions@);
                text::lemma_trim_len(conditions@);
                reveal_strlit("if ");
                reveal_strlit("(");
                reveal_strlit(") && (");
                reveal_strlit(")");
                reveal_strlit(" ");
            }
            let ghost combined = "("@ + text::trim(s.conditions@) + ") && ("@ + text::trim(conditions@) + ")"@;
            assert(body@ =~= "if "@ + combined + " "@ + if_block@);
            let kw = text::chars_of(s.if_kw.as_str());
            let n = text::leading_ws_len(kw.as_slice());
            let bs = text::string_of(body.as_slice());
            proof { helper::lemma_indent_snippet_fits(bs@, (n / 4) as nat); }
            Some(helper::indent_snippet(bs.as_str(), n / 4))
        },
        OuterStatementSyntax::Other => Some(crate::lints::manual::helpers::copy_string(&s.text)),
    }
}


/// The collapsible `if`s of a function body.
pub fn check_collapsible_if(body: &queries::FunctionBody) -> (r: Vec<queries::LintHit>)
    requires
        forall|k: int| 0 <= k < body.exprs@.len()
            ==> !queries::check_panics(queries::BodyCheck::CollapsibleIf, #[trigger] body.exprs@[k]),
    ensures
        queries::hit_views(r@) == queries::body_hits(queries::BodyCheck::CollapsibleIf, body.exprs@),
{
    queries::check_body(&queries::BodyCheck::CollapsibleIf, body)
}

} // verus!
