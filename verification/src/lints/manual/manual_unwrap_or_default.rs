use vstd::prelude::*;
use crate::context::{Lint, LintRule};
use crate::queries;
use crate::lints::manual::helpers;
use crate::text;

verus! {

/// Checks for manual unwrapping of an Option or Result.
pub struct ManualUnwrapOrDefault;

impl Lint for ManualUnwrapOrDefault {
    open spec fn rule(&self) -> LintRule {
        LintRule::ManualUnwrapOrDefault
    }

    fn lint_rule(&self) -> (r: LintRule) {
        LintRule::ManualUnwrapOrDefault
    }
}


/// The manual `unwrap_or_default`s of a function body.
pub fn check_manual_unwrap_or_default(body: &queries::FunctionBody) -> (r: Vec<queries::LintHit>)
    ensures
        queries::hit_views(r@) == queries::body_hits(queries::BodyCheck::ManualOnMatch(queries::ManualFamily::UnwrapOrDefault), body.exprs@)
            + queries::body_hits(queries::BodyCheck::ManualOnIf(queries::ManualFamily::UnwrapOrDefault), body.exprs@),
{
    queries::check_manual_family(queries::ManualFamily::UnwrapOrDefault, body)
}

/// The comment part of a line: from the first `//`, trimmed.
pub open spec fn comment_of(line: Seq<char>) -> Option<Seq<char>> {
    match text::find(line, "//"@) {
        Some(i) => Some(text::trim(line.skip(i))),
        None => None,
    }
}

/// Extracts only the comment of a line, e.g. `// comment` out of
/// `let x = 5; // comment`.
pub fn extract_comment_only(line: &str) -> (r: Option<String>)
    ensures
        text::opt_view(r) == comment_of(line@),
{
    let c = text::chars_of(line);
    let slashes = text::chars_of("//");
    proof { text::lemma_find_bounds(c@, slashes@); }
    match text::find_chars(c.as_slice(), slashes.as_slice()) {
        Some(i) => {
            let rest = text::subrange_chars(c.as_slice(), i, c.len());
            assert(rest@ =~= c@.skip(i as int));
            let t = text::trim_chars(rest.as_slice());
            Some(text::string_of(t.as_slice()))
        },
        None => None,
    }
}

/// The indented comments of the lines that hold one.
pub open spec fn comment_lines(ls: Seq<Seq<char>>, indent: Seq<char>) -> Seq<Seq<char>>
    decreases ls.len(),
{
    if ls.len() == 0 {
        Seq::empty()
    } else {
        let rest = comment_lines(ls.drop_last(), indent);
        match comment_of(ls.last()) {
            Some(c) => rest.push(indent + c),
            None => rest,
        }
    }
}

/// The comments of a text, one per line and indented, ending in a line
/// feed; empty when there is none.
pub open spec fn extract_comments_spec(t: Seq<char>, indent: Seq<char>) -> Seq<char> {
    let cs = comment_lines(text::lines(t), indent);
    if cs.len() == 0 {
        Seq::empty()
    } else {
        let j = text::join(cs, "\n"@);
        if text::has_suffix(j, "\n"@) { j } else { j.push('\n') }
    }
}

fn extract_comments(t: &str, indent: &[char]) -> (r: Vec<char>)
    ensures
        r@ == extract_comments_spec(t@, indent@),
{
    let c = text::chars_of(t);
    let ls = text::lines_chars(c.as_slice());
    let ghost lv = text::lines(t@);
    let mut cs: Vec<Vec<char>> = Vec::new();
    let mut k: usize = 0;
    while k < ls.len()
        invariant
            text::views(ls@) == lv,
            k <= ls@.len(),
            text::views(cs@) == comment_lines(lv.take(k as int), indent@),
        decreases ls@.len() - k,
    {
        assert(lv.take(k + 1).drop_last() =~= lv.take(k as int));
        assert(lv.take(k + 1).last() == ls@[k as int]@);
        let line = text::string_of(ls[k].as_slice());
        match extract_comment_only(line.as_str()) {
            Some(cm) => {
                let mut item: Vec<char> = Vec::new();
                text::push_all(&mut item, indent);
                text::push_str(&mut item, cm.as_str());
                let ghost before = text::views(cs@);
                let ghost iv = item@;
                cs.push(item);
                assert(text::views(cs@) =~= before.push(iv));
            },
            None => {},
        }
        k = k + 1;
    }
    assert(lv.take(ls@.len() as int) =~= lv);
    if cs.len() == 0 {
        return Vec::new();
    }
    let nl = text::chars_of("\n");
    let mut j = text::join_chars(cs.as_slice(), nl.as_slice());
    let n = j.len();
    let ends = n > 0 && j[n - 1] == '\n';
    proof {
        reveal_strlit("\n");
        if ends {
            assert(j@.skip(n - 1) =~= "\n"@);
        }
        if text::has_suffix(j@, "\n"@) {
            assert(j@.skip(j@.len() - 1)[0] == j@[n - 1]);
        }
    }
    if !ends {
        j.push('\n');
    }
    j
}

/// The `let` statement that a `match` or `if let` is the value of.
#[derive(Debug)]
pub struct LetSyntax {
    /// The text of the statement with its surrounding trivia.
    pub text: String,
    /// The text of the statement without its surrounding trivia.
    pub text_without_trivia: String,
    /// The text of the statement's value.
    pub rhs: String,
}

/// The source read by the fix of a manual `unwrap_or_default`.
#[derive(Debug)]
pub struct UnwrapOrDefaultSyntax {
    pub expr: helpers::ManualSyntax,
    /// The text of the expression with its surrounding trivia.
    pub node_text: String,
    /// The `let` statement whose value the expression is, if any.
    pub parent_let: Option<LetSyntax>,
}

/// The replacement and the text of the node it replaces: the whole `let`
/// statement with its value replaced, or the expression itself.
pub open spec fn unwrap_or_default_parts(s: UnwrapOrDefaultSyntax) -> (Seq<char>, Seq<char>) {
    let call = text::trim(helpers::manual_target(s.expr)->0) + ".unwrap_or_default()"@;
    match s.parent_let {
        Some(l) => (text::replace(l.text_without_trivia@, l.rhs@, call).push('\n'), l.text@),
        None => (call, s.node_text@),
    }
}

/// The rewrite of a manual `unwrap_or_default`: the comments of the
/// replaced text, then its indentation and the replacement.
pub open spec fn fix_manual_unwrap_or_default_spec(s: UnwrapOrDefaultSyntax) -> Seq<char> {
    let (expression, target) = unwrap_or_default_parts(s);
    let indent = text::leading_ws(target);
    extract_comments_spec(target, indent) + indent + expression
}

/// The fix of a manual `unwrap_or_default` (see
/// `fix_manual_unwrap_or_default_spec`).
pub fn fix_manual_unwrap_or_default(s: &UnwrapOrDefaultSyntax) -> (r: String)
    requires
        helpers::manual_target(s.expr) is Some,
    ensures
        r@ == fix_manual_unwrap_or_default_spec(*s),
{
    let target_expr: &String = match &s.expr {
        helpers::ManualSyntax::Match { matched, .. } => matched,
        helpers::ManualSyntax::If { let_expr: Some(e), .. } => e,
        _ => return String::new(),
    };
    let mut call: Vec<char> = Vec::new();
    text::push_trimmed(&mut call, target_expr.as_str());
    text::push_str(&mut call, ".unwrap_or_default()");
    let (expression, target): (Vec<char>, &String) = match &s.parent_let {
        Some(l) => {
            let w = text::chars_of(l.text_without_trivia.as_str());
            let rhs = text::chars_of(l.rhs.as_str());
            let mut e = text::replace_chars(w.as_slice(), rhs.as_slice(), call.as_slice());
            e.push('\n');
            (e, &l.text)
        },
        None => (call, &s.node_text),
    };
    let tc = text::chars_of(target.as_str());
    let n = text::leading_ws_len(tc.as_slice());
    let indent = text::subrange_chars(tc.as_slice(), 0, n);
    let mut out = extract_comments(target.as_str(), indent.as_slice());
    text::push_all(&mut out, indent.as_slice());
    text::push_all(&mut out, expression.as_slice());
    text::string_of(out.as_slice())
}



} // verus!
