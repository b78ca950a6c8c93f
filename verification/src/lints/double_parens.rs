use vstd::prelude::*;
use crate::context::{Lint, LintRule};
use crate::helper;
use crate::text;

verus! {

/// Checks for unnecessary double parentheses in expressions.
pub struct DoubleParens;

impl Lint for DoubleParens {
    open spec fn rule(&self) -> LintRule {
        LintRule::DoubleParens
    }

    fn lint_rule(&self) -> (r: LintRule) {
        LintRule::DoubleParens
    }
}


/// An expression in the source: its text and its kind.
#[derive(Debug)]
pub struct ExprSyntax {
    pub text: String,
    pub kind: ExprSyntaxKind,
}

/// The kinds of expressions the lint tells apart.
#[derive(Debug)]
pub enum ExprSyntaxKind {
    /// `(e)`, with the inner expression.
    Parenthesized(Box<ExprSyntax>),
    Binary,
    Tuple,
    Other,
}

/// Parentheses around parentheses or around a tuple.
pub open spec fn double_parens_spec(e: ExprSyntax) -> bool {
    match e.kind {
        ExprSyntaxKind::Parenthesized(inner) => inner.kind is Parenthesized || inner.kind is Tuple,
        _ => false,
    }
}

/// Whether an expression is wrapped in redundant parentheses.
pub fn check_single_double_parens(e: &ExprSyntax) -> (r: bool)
    ensures
        r == double_parens_spec(*e),
{
    match &e.kind {
        ExprSyntaxKind::Parenthesized(inner) => match &inner.kind {
            ExprSyntaxKind::Parenthesized(_) | ExprSyntaxKind::Tuple => true,
            _ => false,
        },
        _ => false,
    }
}

/// The expression without its layers of parentheses; the last layer is
/// kept around a binary expression where `keep_last` holds.
pub open spec fn peel_parens(e: ExprSyntax, keep_last: bool) -> ExprSyntax
    decreases e,
{
    match e.kind {
        ExprSyntaxKind::Parenthesized(inner) => if keep_last && inner.kind is Binary {
            e
        } else {
            peel_parens(*inner, keep_last)
        },
        _ => e,
    }
}

fn peel(e: &ExprSyntax, keep_last: bool) -> (r: &ExprSyntax)
    ensures
        *r == peel_parens(*e, keep_last),
    decreases e,
{
    match &e.kind {
        ExprSyntaxKind::Parenthesized(inner) => {
            if keep_last && matches!(inner.kind, ExprSyntaxKind::Binary) {
                e
            } else {
                peel(&**inner, keep_last)
            }
        },
        _ => e,
    }
}

/// The number of bytes of a character in UTF-8.
pub open spec fn utf8_len(c: char) -> nat {
    let u = c as u32;
    if u < 0x80 { 1 } else if u < 0x800 { 2 } else if u < 0x10000 { 3 } else { 4 }
}

/// The number of bytes of a text in UTF-8.
pub open spec fn utf8_len_of(s: Seq<char>) -> nat
    decreases s.len(),
{
    if s.len() == 0 { 0 } else { utf8_len_of(s.drop_last()) + utf8_len(s.last()) }
}

fn byte_len(s: &[char]) -> (r: usize)
    requires
        s@.len() < usize::MAX / 4,
    ensures
        r == utf8_len_of(s@),
        r <= 4 * s@.len(),
{
    let mut n: usize = 0;
    let mut k: usize = 0;
    while k < s.len()
        invariant
            k <= s@.len(),
            s@.len() < usize::MAX / 4,
            n == utf8_len_of(s@.take(k as int)),
            n <= 4 * k,
        decreases s@.len() - k,
    {
        assert(s@.take(k + 1).drop_last() =~= s@.take(k as int));
        let c = s[k];
        let w: usize = if (c as u32) < 0x80 { 1 } else if (c as u32) < 0x800 { 2 } else if (c as u32) < 0x10000 { 3 } else { 4 };
        n = n + w;
        k = k + 1;
    }
    assert(s@.take(k as int) =~= s@);
    n
}

/// The fix: the innermost expression re-indented at the level given by the
/// byte length of the node's indentation, followed by the node's trailing
/// whitespace in reverse order.
pub open spec fn fix_double_parens_spec(node: ExprSyntax, parent_is_unary_or_binary: bool) -> Seq<char> {
    let inner = peel_parens(node, parent_is_unary_or_binary);
    helper::indent_snippet_spec(inner.text@, utf8_len_of(text::leading_ws(node.text@)) / 4)
        + text::trailing_ws(node.text@).reverse()
}

/// Text lengths that keep the arithmetic of the fix within `usize`.
pub open spec fn double_parens_sizes_fit(node: ExprSyntax, parent_is_unary_or_binary: bool) -> bool {
    node.text@.len() < usize::MAX / 8 && peel_parens(node, parent_is_unary_or_binary).text@.len() < usize::MAX / 8
}

/// The fix of double parentheses (see `fix_double_parens_spec`).
pub fn fix_double_parens(node: &ExprSyntax, parent_is_unary_or_binary: bool) -> (r: String)
    requires
        double_parens_sizes_fit(*node, parent_is_unary_or_binary),
    ensures
        r@ == fix_double_parens_spec(*node, parent_is_unary_or_binary),
{
    let inner = peel(node, parent_is_unary_or_binary);
    let tc = text::chars_of(node.text.as_str());
    let n = text::leading_ws_len(tc.as_slice());
    let ws = text::subrange_chars(tc.as_slice(), 0, n);
    let bytes = byte_len(ws.as_slice());
    proof { helper::lemma_indent_snippet_fits(inner.text@, (bytes / 4) as nat); }
    let indented = helper::indent_snippet(inner.text.as_str(), bytes / 4);
    let mut out = text::chars_of(indented.as_str());
    let m = text::trailing_ws_len(tc.as_slice());
    let ghost tw = text::trailing_ws(tc@);
    let ghost base = out@;
    let mut k: usize = 0;
    while k < m
        invariant
            k <= m,
            m == tw.len(),
            m <= tc@.len(),
            tc@.skip(tc@.len() - m) == tw,
            out@ == base + tw.reverse().take(k as int),
        decreases m - k,
    {
        let c = tc[tc.len() - 1 - k];
        assert(tw.reverse()[k as int] == tw[m - 1 - k]);
        assert(tw[m - 1 - k] == tc@[tc@.len() - 1 - k]);
        out.push(c);
        assert(tw.reverse().take(k + 1) =~= tw.reverse().take(k as int).push(c));
        k = k + 1;
    }
    assert(tw.reverse().take(m as int) =~= tw.reverse());
    text::string_of(out.as_slice())
}


/// For each parenthesized expression of an item, whether it is reported.
pub fn check_double_parens(exprs: &Vec<ExprSyntax>) -> (r: Vec<bool>)
    ensures
        r@.len() == exprs@.len(),
        forall|i: int| 0 <= i < r@.len() ==> #[trigger] r@[i] == double_parens_spec(exprs@[i]),
{
    let mut out: Vec<bool> = Vec::new();
    let mut k: usize = 0;
    while k < exprs.len()
        invariant
            k <= exprs@.len(),
            out@.len() == k,
            forall|i: int| 0 <= i < k ==> #[trigger] out@[i] == double_parens_spec(exprs@[i]),
        decreases exprs@.len() - k,
    {
        out.push(check_single_double_parens(&exprs[k]));
        k = k + 1;
    }
    out
}


/// Without a reason to keep the last parentheses, the fix removes every
/// layer of them.
pub proof fn lemma_peel_removes_all_parens(e: ExprSyntax)
    ensures
        !(peel_parens(e, false).kind is Parenthesized),
    decreases e,
{
    match e.kind {
        ExprSyntaxKind::Parenthesized(inner) => lemma_peel_removes_all_parens(*inner),
        _ => {},
    }
}

} // verus!
