use vstd::prelude::*;
use crate::context::{Lint, LintRule};
use crate::queries;
use crate::semantic::Statement;
use crate::text;

verus! {

/// Checks for `break ();` statements and suggests removing the parentheses.
pub struct BreakUnit;

impl Lint for BreakUnit {
    open spec fn rule(&self) -> LintRule {
        LintRule::BreakUnit
    }

    fn lint_rule(&self) -> (r: LintRule) {
        LintRule::BreakUnit
    }
}


/// A `break` with a value of the unit type.
pub open spec fn break_unit_spec(s: Statement) -> bool {
    s matches Statement::Break { value: Some(_), value_is_unit: true }
}

/// Whether a statement breaks with `()`.
pub fn check_single_break(s: &Statement) -> (r: bool)
    ensures
        r == break_unit_spec(*s),
{
    match s {
        Statement::Break { value: Some(_), value_is_unit } => *value_is_unit,
        _ => false,
    }
}

/// The fix: `break ();` written `break;`, everywhere in the text.
pub fn fix_break_unit(node_text: &str) -> (r: String)
    ensures
        r@ == text::rust_replace(node_text@, "break ();"@, "break;"@),
{
    let c = text::chars_of(node_text);
    let from = text::chars_of("break ();");
    let to = text::chars_of("break;");
    let r = text::rust_replace_chars(c.as_slice(), from.as_slice(), to.as_slice());
    text::string_of(r.as_slice())
}

/// The `break`s with a unit value among the statements of a body, by
/// position.
pub open spec fn break_hits(ss: Seq<Statement>) -> Seq<(int, LintRule)>
    decreases ss.len(),
{
    if ss.len() == 0 {
        seq![]
    } else {
        let rest = break_hits(ss.drop_last());
        if break_unit_spec(ss.last()) { rest.push((ss.len() - 1, LintRule::BreakUnit)) } else { rest }
    }
}

/// The `break ()` statements of a body (see `break_hits`).
pub fn check_break(body: &queries::FunctionBody) -> (r: Vec<queries::LintHit>)
    ensures
        queries::hit_views(r@) == break_hits(body.statements@),
{
    let mut out: Vec<queries::LintHit> = Vec::new();
    let mut k: usize = 0;
    while k < body.statements.len()
        invariant
            k <= body.statements@.len(),
            queries::hit_views(out@) == break_hits(body.statements@.take(k as int)),
        decreases body.statements@.len() - k,
    {
        let ghost ss = body.statements@;
        assert(ss.take(k + 1).drop_last() =~= ss.take(k as int));
        assert(ss.take(k + 1).last() == ss[k as int]);
        let ghost before = out@;
        if check_single_break(&body.statements[k]) {
            out.push(queries::LintHit { index: k, rule: LintRule::BreakUnit });
            assert(queries::hit_views(out@) =~= queries::hit_views(before).push((k as int, LintRule::BreakUnit)));
        }
        k = k + 1;
    }
    assert(body.statements@.take(k as int) =~= body.statements@);
    out
}


/// Only a `break` that carries a value of the unit type is reported: a
/// plain `break;`, a `break` with another value, and any other statement
/// are not.
pub proof fn lemma_break_unit_only(s: Statement)
    ensures
        (s matches Statement::Break { value: Some(_), value_is_unit: true }) ==> break_unit_spec(s),
        (s matches Statement::Break { value: None, .. }) ==> !break_unit_spec(s),
        (s matches Statement::Break { value_is_unit: false, .. }) ==> !break_unit_spec(s),
        !(s is Break) ==> !break_unit_spec(s),
{
}
} // verus!
