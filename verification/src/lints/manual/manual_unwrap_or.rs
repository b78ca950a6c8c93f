use vstd::prelude::*;
use crate::context::{Lint, LintRule};
use crate::queries;
use crate::text;

verus! {

/// Finds patterns that reimplement `Option::unwrap_or` or `Result::unwrap_or`.
pub struct ManualUnwrapOr;

impl Lint for ManualUnwrapOr {
    open spec fn rule(&self) -> LintRule {
        LintRule::ManualUnwrapOr
    }

    fn lint_rule(&self) -> (r: LintRule) {
        LintRule::ManualUnwrapOr
    }
}


/// The body of a `match` arm, as the fix reads it.
#[derive(Debug)]
pub enum ArmBodySyntax {
    /// A block: the text of its statements and of the whole block.
    Block { statements: String, block: String },
    /// Another expression, with the trailing trivia of the arm's arrow.
    Expr { arrow_trivia: String },
}

/// The source of a `match` arm.
#[derive(Debug)]
pub struct ArmSyntax {
    /// The text of the arm, its leading trivia included.
    pub text: String,
    /// The text of the arm's expression.
    pub expression: String,
    pub body: ArmBodySyntax,
}

/// The `else` of an `if let`.
#[derive(Debug)]
pub enum ElseSyntax {
    /// An `else` block: the text of its statements and of the whole block.
    Block { statements: String, block: String },
    ElseIf,
}

/// The source of the expression that a manual `unwrap_or` was reported on.
#[derive(Debug)]
pub enum UnwrapOrSyntax {
    /// A `match`: its text, the text of the matched expression, and its
    /// second arm when it has one.
    Match { node: String, matched: String, second_arm: Option<ArmSyntax> },
    /// An `if`: its text, the matched expression of its first condition
    /// when that is a `let`, and its `else` clause when it has one.
    IfLet { node: String, matched: Option<String>, else_clause: Option<ElseSyntax> },
    Other,
}

/// A line without its first `d` characters when they are whitespace and
/// more follow.
pub open spec fn dedent_line(l: Seq<char>, d: nat) -> Seq<char> {
    if l.len() > d && text::trim(l.take(d as int)).len() == 0 { l.skip(d as int) } else { l }
}

/// The indentation of the last line of the expression (its closing
/// bracket).
pub open spec fn bracket_indent(node: Seq<char>) -> nat {
    text::leading_ws(text::lines(node).last()).len()
}

/// The arm body with every line moved left by as many columns as the arm
/// is indented beyond the closing bracket of the expression; unchanged
/// where it is not indented beyond it.
pub open spec fn adjusted_arm_body(node: Seq<char>, arm: Seq<char>, body: Seq<char>) -> Seq<char> {
    let bi = bracket_indent(node);
    let ai = text::leading_ws(arm).len();
    if ai <= bi {
        body
    } else {
        let d = (ai - bi) as nat;
        let ls = text::lines(body);
        text::join(Seq::new(ls.len(), |i: int| dedent_line(ls[i], d)), "\n"@)
    }
}

/// Whether the text has more than one line or holds a comment.
pub open spec fn is_multiline_or_commented(lines_of: Seq<char>, commented: Seq<char>) -> bool {
    text::lines(lines_of).len() > 1 || text::contains(commented, "//"@)
}

/// The fallback value of `unwrap_or`, taken from the second arm of a
/// `match`.
pub open spec fn match_or_body(node: Seq<char>, arm: ArmSyntax) -> Seq<char> {
    match arm.body {
        ArmBodySyntax::Block { statements, block } => {
            if is_multiline_or_commented(statements@, block@) {
                adjusted_arm_body(node, arm.text@, arm.expression@)
            } else {
                text::trim(statements@)
            }
        },
        ArmBodySyntax::Expr { arrow_trivia } => {
            let arrow = text::trim_end(arrow_trivia@);
            if is_multiline_or_commented(arm.expression@, arrow) {
                arrow + "\n"@ + adjusted_arm_body(node, arm.text@, arm.expression@) + "\n"@
                    + text::repeat(" "@, bracket_indent(node))
            } else {
                text::trim(arm.expression@)
            }
        },
    }
}

/// The fallback value of `unwrap_or`, taken from the `else` block: its
/// statements, or the whole block where they span lines or hold a comment.
pub open spec fn else_or_body(statements: Seq<char>, block: Seq<char>) -> Seq<char> {
    text::trim(if is_multiline_or_commented(statements, block) { block } else { statements })
}

/// The inputs on which the fix panics: a `match` without a second arm, an
/// `if` whose first condition is not a `let` or that has no plain `else`
/// block, another expression, or a `match` whose arm must be re-indented
/// while its text has no line.
pub open spec fn unwrap_or_fix_panics(s: UnwrapOrSyntax) -> bool {
    match s {
        UnwrapOrSyntax::Match { node, second_arm, .. } => match second_arm {
            None => true,
            Some(arm) => text::lines(node@).len() == 0 && match arm.body {
                ArmBodySyntax::Block { statements, block } => is_multiline_or_commented(statements@, block@),
                ArmBodySyntax::Expr { arrow_trivia } =>
                    is_multiline_or_commented(arm.expression@, text::trim_end(arrow_trivia@)),
            },
        },
        UnwrapOrSyntax::IfLet { matched, else_clause, .. } =>
            matched is None || !(else_clause matches Some(ElseSyntax::Block { .. })),
        UnwrapOrSyntax::Other => true,
    }
}

/// The fix: `{indent}{matched}.unwrap_or({fallback})`, where the indent is
/// that of the expression and the matched expression is trimmed at its end.
pub open spec fn fix_manual_unwrap_or_spec(s: UnwrapOrSyntax) -> Seq<char> {
    match s {
        UnwrapOrSyntax::Match { node, matched, second_arm } =>
            text::leading_ws(node@) + text::trim_end(matched@) + ".unwrap_or("@
                + match_or_body(node@, second_arm->0) + ")"@,
        UnwrapOrSyntax::IfLet { node, matched, else_clause } => {
            let body = match else_clause {
                Some(ElseSyntax::Block { statements, block }) => else_or_body(statements@, block@),
                _ => Seq::empty(),
            };
            text::leading_ws(node@) + text::trim_end(matched->0@) + ".unwrap_or("@ + body + ")"@
        },
        UnwrapOrSyntax::Other => Seq::empty(),
    }
}

fn multiline_or_commented(lines_of: &str, commented: &[char]) -> (r: bool)
    ensures
        r == is_multiline_or_commented(lines_of@, commented@),
{
    let c = text::chars_of(lines_of);
    let ls = text::lines_chars(c.as_slice());
    let slashes = text::chars_of("//");
    ls.len() > 1 || text::contains_chars(commented, slashes.as_slice())
}

fn dedent(l: &Vec<char>, d: usize) -> (r: Vec<char>)
    ensures
        r@ == dedent_line(l@, d as nat),
{
    if l.len() > d {
        let head = text::subrange_chars(l.as_slice(), 0, d);
        assert(head@ =~= l@.take(d as int));
        let t = text::trim_chars(head.as_slice());
        if t.len() == 0 {
            let r = text::subrange_chars(l.as_slice(), d, l.len());
            assert(r@ =~= l@.skip(d as int));
            return r;
        }
    }
    text::subrange_chars(l.as_slice(), 0, l.len())
}

/// The indentation of the last line of `node`.
fn last_line_indent(node: &[char]) -> (r: usize)
    requires
        text::lines(node@).len() > 0,
    ensures
        r == bracket_indent(node@),
{
    let ls = text::lines_chars(node);
    let last = &ls[ls.len() - 1];
    assert(last@ == text::lines(node@).last());
    text::leading_ws_len(last.as_slice())
}

fn get_adjusted_lines_and_indent(node: &[char], arm_text: &str, body: &str) -> (r: Vec<char>)
    requires
        text::lines(node@).len() > 0,
    ensures
        r@ == adjusted_arm_body(node@, arm_text@, body@),
{
    let bi = last_line_indent(node);
    let arm_chars = text::chars_of(arm_text);
    let ai = text::leading_ws_len(arm_chars.as_slice());
    let body_chars = text::chars_of(body);
    if ai <= bi {
        return body_chars;
    }
    let d = ai - bi;
    let ls = text::lines_chars(body_chars.as_slice());
    let ghost lv = text::lines(body@);
    let mut out: Vec<Vec<char>> = Vec::new();
    let mut k: usize = 0;
    while k < ls.len()
        invariant
            text::views(ls@) == lv,
            k <= ls@.len(),
            text::views(out@) =~= Seq::new(k as nat, |i: int| dedent_line(lv[i], d as nat)),
        decreases ls@.len() - k,
    {
        let x = dedent(&ls[k], d);
        let ghost before = text::views(out@);
        let ghost xv = x@;
        out.push(x);
        assert(text::views(out@) =~= before.push(xv));
        k = k + 1;
    }
    let nl = text::chars_of("\n");
    text::join_chars(out.as_slice(), nl.as_slice())
}

/// The fix of a manual `unwrap_or` (see `fix_manual_unwrap_or_spec`).
pub fn fix_manual_unwrap_or(s: &UnwrapOrSyntax) -> (r: String)
    requires
        !unwrap_or_fix_panics(*s),
    ensures
        r@ == fix_manual_unwrap_or_spec(*s),
{
    let (node, matched, body): (&String, &String, Vec<char>) = match s {
        UnwrapOrSyntax::Match { node, matched, second_arm } => {
            let arm = match second_arm {
                Some(a) => a,
                None => return String::new(),
            };
            let node_chars = text::chars_of(node.as_str());
            let body: Vec<char> = match &arm.body {
                ArmBodySyntax::Block { statements, block } => {
                    let block_chars = text::chars_of(block.as_str());
                    if multiline_or_commented(statements.as_str(), block_chars.as_slice()) {
                        get_adjusted_lines_and_indent(node_chars.as_slice(), arm.text.as_str(), arm.expression.as_str())
                    } else {
                        let mut b: Vec<char> = Vec::new();
                        text::push_trimmed(&mut b, statements.as_str());
                        b
                    }
                },
                ArmBodySyntax::Expr { arrow_trivia } => {
                    let tc = text::chars_of(arrow_trivia.as_str());
                    let arrow = text::trim_end_chars(tc.as_slice());
                    if multiline_or_commented(arm.expression.as_str(), arrow.as_slice()) {
                        let adjusted = get_adjusted_lines_and_indent(node_chars.as_slice(), arm.text.as_str(),
                            arm.expression.as_str());
                        let bi = last_line_indent(node_chars.as_slice());
                        let space = text::chars_of(" ");
                        let pad = text::repeat_chars(space.as_slice(), bi);
                        let mut b: Vec<char> = Vec::new();
                        text::push_all(&mut b, arrow.as_slice());
                        text::push_str(&mut b, "\n");
                        text::push_all(&mut b, adjusted.as_slice());
                        text::push_str(&mut b, "\n");
                        text::push_all(&mut b, pad.as_slice());
                        b
                    } else {
                        let mut b: Vec<char> = Vec::new();
                        text::push_trimmed(&mut b, arm.expression.as_str());
                        b
                    }
                },
            };
            (node, matched, body)
        },
        UnwrapOrSyntax::IfLet { node, matched, else_clause } => {
            let m = match matched {
                Some(m) => m,
                None => return String::new(),
            };
            let body: Vec<char> = match else_clause {
                Some(ElseSyntax::Block { statements, block }) => {
                    let block_chars = text::chars_of(block.as_str());
                    let mut b: Vec<char> = Vec::new();
                    if multiline_or_commented(statements.as_str(), block_chars.as_slice()) {
                        text::push_trimmed(&mut b, block.as_str());
                    } else {
                        text::push_trimmed(&mut b, statements.as_str());
                    }
                    b
                },
                _ => return String::new(),
            };
            (node, m, body)
        },
        UnwrapOrSyntax::Other => return String::new(),
    };
    let node_chars = text::chars_of(node.as_str());
    let n = text::leading_ws_len(node_chars.as_slice());
    let indent = text::subrange_chars(node_chars.as_slice(), 0, n);
    let mut out: Vec<char> = Vec::new();
    text::push_all(&mut out, indent.as_slice());
    let mc = text::chars_of(matched.as_str());
    let mt = text::trim_end_chars(mc.as_slice());
    text::push_all(&mut out, mt.as_slice());
    text::push_str(&mut out, ".unwrap_or(");
    text::push_all(&mut out, body.as_slice());
    text::push_str(&mut out, ")");
    text::string_of(out.as_slice())
}


/// The manual `unwrap_or`s of a function body.
pub fn check_manual_unwrap_or(body: &queries::FunctionBody) -> (r: Vec<queries::LintHit>)
    ensures
        queries::hit_views(r@) == queries::body_hits(queries::BodyCheck::ManualOnMatch(queries::ManualFamily::UnwrapOr), body.exprs@)
            + queries::body_hits(queries::BodyCheck::ManualOnIf(queries::ManualFamily::UnwrapOr), body.exprs@),
{
    queries::check_manual_family(queries::ManualFamily::UnwrapOr, body)
}

} // verus!
