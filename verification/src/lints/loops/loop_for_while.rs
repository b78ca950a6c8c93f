use vstd::prelude::*;
use crate::context::{Lint, LintRule};
use crate::queries;
use crate::helper::{self, BlockSyntax, ElseBlockSyntax, StatementSyntaxKind, StatementSyntaxNode};
use crate::semantic::{Expr, Statement};
use crate::text;

verus! {

/// Checks for `loop` expressions that contain a conditional `if` statement with break inside that
/// can be simplified to a `while` loop.
pub struct LoopForWhile;

impl Lint for LoopForWhile {
    open spec fn rule(&self) -> LintRule {
        LintRule::LoopForWhile
    }

    fn lint_rule(&self) -> (r: LintRule) {
        LintRule::LoopForWhile
    }
}


/// An `if` whose block starts with a `break` without a value.
pub open spec fn breaks_without_value(e: Expr) -> bool {
    match e {
        Expr::If(i) => match *i.if_block {
            Expr::Block(b) => b.statements@.len() > 0
                && (b.statements@[0] matches Statement::Break { value: None, .. }),
            _ => false,
        },
        _ => false,
    }
}

fn check_if_contains_break_with_no_return_value(e: &Expr) -> (r: bool)
    ensures
        r == breaks_without_value(*e),
{
    match e {
        Expr::If(i) => match &*i.if_block {
            Expr::Block(b) => b.statements.len() > 0
                && matches!(b.statements[0], Statement::Break { value: None, .. }),
            _ => false,
        },
        _ => false,
    }
}

/// A `loop` whose body starts with such an `if` (as its first statement,
/// or as its tail when it has no statement).
pub open spec fn loop_for_while_spec(body: Expr) -> bool {
    match body {
        Expr::Block(b) => {
            ||| (b.statements@.len() > 0 && (b.statements@[0] matches Statement::Expr(e) && breaks_without_value(e)))
            ||| (b.statements@.len() == 0 && (b.tail matches Some(t) && breaks_without_value(*t)))
        },
        _ => false,
    }
}

/// Whether a `loop`, by its body, can be a `while` (see
/// `loop_for_while_spec`).
pub fn check_single_loop_for_while(body: &Expr) -> (r: bool)
    ensures
        r == loop_for_while_spec(*body),
{
    let b = match body {
        Expr::Block(b) => b,
        _ => return false,
    };
    if b.statements.len() > 0 {
        if let Statement::Expr(e) = &b.statements[0] {
            if check_if_contains_break_with_no_return_value(e) {
                return true;
            }
        }
    }
    if b.statements.len() == 0 {
        if let Some(t) = &b.tail {
            return check_if_contains_break_with_no_return_value(&**t);
        }
    }
    false
}

/// The source of a `loop`: its text, the trivia before it, and its body.
#[derive(Debug)]
pub struct LoopSyntax {
    pub text: String,
    pub leading_trivia: String,
    pub body: BlockSyntax,
}

/// The statements after the first, each trimmed, one level in.
pub open spec fn rest_statements(stmts: Seq<StatementSyntaxNode>, indent: Seq<char>) -> Seq<char>
    decreases stmts.len(),
{
    if stmts.len() <= 1 {
        seq![]
    } else {
        rest_statements(stmts.drop_last(), indent) + indent + "    "@ + text::trim(stmts.last().text@) + "\n"@
    }
}

/// The `else` clause of the breaking `if`, as code of the `while` body: a
/// block gives its statements; an `else if` becomes an `if` on the same
/// condition, one level in, keeping the rest of its chain as its `else`.
/// `break`s are left out throughout.
pub open spec fn else_in_loop(e: ElseBlockSyntax, indent: Seq<char>) -> Seq<char>
    decreases e,
{
    match e {
        ElseBlockSyntax::Block(b) => helper::block_without_breaks(b.statements@, indent),
        ElseBlockSyntax::If(i) => {
            let inner = indent + "    "@;
            inner + "if "@ + i.conditions_without_trivia@ + " {\n"@
                + helper::block_without_breaks(i.if_block.statements@, inner) + match i.else_clause {
                Some(e2) => inner + "} else {\n"@ + else_in_loop(*e2, inner) + inner + "}\n"@,
                None => inner + "}\n"@,
            }
        },
    }
}

/// The `else` clause as code of the `while` body (see `else_in_loop`).
fn remove_break_from_else_in_loop(e: &ElseBlockSyntax, indent: &[char]) -> (r: Vec<char>)
    ensures
        r@ == else_in_loop(*e, indent@),
    decreases e,
{
    match e {
        ElseBlockSyntax::Block(b) => helper::remove_break_from_block(b, indent),
        ElseBlockSyntax::If(i) => {
            let mut inner: Vec<char> = Vec::new();
            text::push_all(&mut inner, indent);
            text::push_str(&mut inner, "    ");
            let mut out: Vec<char> = Vec::new();
            text::push_all(&mut out, inner.as_slice());
            text::push_str(&mut out, "if ");
            text::push_str(&mut out, i.conditions_without_trivia.as_str());
            text::push_str(&mut out, " {\n");
            let body = helper::remove_break_from_block(&i.if_block, inner.as_slice());
            text::push_all(&mut out, body.as_slice());
            match &i.else_clause {
                Some(e2) => {
                    text::push_all(&mut out, inner.as_slice());
                    text::push_str(&mut out, "} else {\n");
                    let eb = remove_break_from_else_in_loop(&**e2, inner.as_slice());
                    text::push_all(&mut out, eb.as_slice());
                    text::push_all(&mut out, inner.as_slice());
                    text::push_str(&mut out, "}\n");
                },
                None => {
                    text::push_all(&mut out, inner.as_slice());
                    text::push_str(&mut out, "}\n");
                },
            }
            out
        },
    }
}

/// The condition and the body taken from the first statement when it is an
/// `if`: the inverted condition, and both blocks without their `break`s.
pub open spec fn loop_if_parts(stmts: Seq<StatementSyntaxNode>, indent: Seq<char>) -> (Seq<char>, Seq<char>) {
    if stmts.len() > 0 && stmts[0].kind is If {
        let i = *stmts[0].kind->If_0;
        (helper::invert_condition_spec(i.conditions_without_trivia@),
            helper::block_without_breaks(i.if_block.statements@, indent) + match i.else_clause {
                Some(e) => else_in_loop(*e, indent),
                None => seq![],
            })
    } else {
        (seq![], seq![])
    }
}

/// The fix: the comment before the loop, then a `while` on the inverted
/// condition of the first `if`, whose body is that `if`'s blocks without
/// their `break`s followed by the other statements.
pub open spec fn fix_loop_break_spec(l: LoopSyntax) -> Seq<char> {
    let indent = text::leading_ws(l.text@);
    let t = text::trim(l.leading_trivia@);
    let trivia = if t.len() == 0 { t } else { indent + t + "\n"@ };
    let (cond, body) = loop_if_parts(l.body.statements@, indent);
    trivia + indent + "while "@ + cond + " {\n"@ + body + rest_statements(l.body.statements@, indent) + indent + "}\n"@
}

/// The fix of a `loop` that can be a `while` (see `fix_loop_break_spec`).
pub fn fix_loop_break(l: &LoopSyntax) -> (r: String)
    ensures
        r@ == fix_loop_break_spec(*l),
{
    let tc = text::chars_of(l.text.as_str());
    let n = text::leading_ws_len(tc.as_slice());
    let indent = text::subrange_chars(tc.as_slice(), 0, n);
    let trv = text::chars_of(l.leading_trivia.as_str());
    let t = text::trim_chars(trv.as_slice());
    let mut out: Vec<char> = Vec::new();
    if t.len() > 0 {
        text::push_all(&mut out, indent.as_slice());
        text::push_all(&mut out, t.as_slice());
        text::push_str(&mut out, "\n");
    }
    let stmts = &l.body.statements;
    let mut cond: Vec<char> = Vec::new();
    let mut body: Vec<char> = Vec::new();
    if stmts.len() > 0 {
        if let StatementSyntaxKind::If(i) = &stmts[0].kind {
            let c = helper::invert_condition(i.conditions_without_trivia.as_str());
            cond = text::chars_of(c.as_str());
            body = helper::remove_break_from_block(&i.if_block, indent.as_slice());
            if let Some(e) = &i.else_clause {
                let eb = remove_break_from_else_in_loop(&**e, indent.as_slice());
                text::push_all(&mut body, eb.as_slice());
            }
        }
    }
    text::push_all(&mut out, indent.as_slice());
    text::push_str(&mut out, "while ");
    text::push_all(&mut out, cond.as_slice());
    text::push_str(&mut out, " {\n");
    text::push_all(&mut out, body.as_slice());
    let ghost before_rest = out@;
    if stmts.len() > 0 {
        let mut k: usize = 1;
        assert(stmts@.take(1).len() == 1);
        assert(out@ =~= before_rest + rest_statements(stmts@.take(1), indent@));
        while k < stmts.len()
            invariant
                1 <= k <= stmts@.len(),
                out@ == before_rest + rest_statements(stmts@.take(k as int), indent@),
            decreases stmts@.len() - k,
        {
            assert(stmts@.take(k + 1).drop_last() =~= stmts@.take(k as int));
            assert(stmts@.take(k + 1).last() == stmts@[k as int]);
            text::push_all(&mut out, indent.as_slice());
            text::push_str(&mut out, "    ");
            text::push_trimmed(&mut out, stmts[k].text.as_str());
            text::push_str(&mut out, "\n");
            assert(out@ =~= before_rest + rest_statements(stmts@.take(k + 1), indent@));
            k = k + 1;
        }
        assert(stmts@.take(k as int) =~= stmts@);
    } else {
        assert(out@ =~= before_rest + rest_statements(stmts@, indent@));
    }
    text::push_all(&mut out, indent.as_slice());
    text::push_str(&mut out, "}\n");
    text::string_of(out.as_slice())
}


/// The `loop`s of a function body that can be `while`s.
pub fn check_loop_for_while(body: &queries::FunctionBody) -> (r: Vec<queries::LintHit>)
    ensures
        queries::hit_views(r@) == queries::body_hits(queries::BodyCheck::LoopForWhile, body.exprs@),
{
    queries::check_body(&queries::BodyCheck::LoopForWhile, body)
}


/// A `loop` is reported exactly when the first thing its body does is an
/// `if` whose block starts with a plain `break;`: a body that starts with
/// anything else, or an `if` that starts with another statement or with a
/// `break` carrying a value, is not.
pub proof fn lemma_loop_for_while_first_if_breaks(body: Expr)
    ensures
        ({
            &&& body matches Expr::Block(b)
            &&& b.statements@.len() > 0
            &&& b.statements@[0] matches Statement::Expr(Expr::If(i))
            &&& *i.if_block matches Expr::Block(ib)
            &&& ib.statements@.len() > 0
            &&& ib.statements@[0] matches Statement::Break { value: None, .. }
        }) ==> loop_for_while_spec(body),
        ({
            &&& body matches Expr::Block(b)
            &&& b.statements@.len() > 0
            &&& b.statements@[0] matches Statement::Expr(Expr::If(i))
            &&& *i.if_block matches Expr::Block(ib)
            &&& ib.statements@.len() > 0
            &&& ib.statements@[0] matches Statement::Break { value: Some(_), .. }
        }) ==> !loop_for_while_spec(body),
        ({
            &&& body matches Expr::Block(b)
            &&& b.statements@.len() > 0
            &&& !(b.statements@[0] matches Statement::Expr(Expr::If(_)))
        }) ==> !loop_for_while_spec(body),
        !(body is Block) ==> !loop_for_while_spec(body),
{
}
} // verus!
