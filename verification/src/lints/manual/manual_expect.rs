use vstd::prelude::*;
use crate::context::{Lint, LintRule};
use crate::queries;
use crate::lints::manual::helpers;

verus! {

/// Checks for manual implementations of `expect`.
pub struct ManualExpect;

impl Lint for ManualExpect {
    open spec fn rule(&self) -> LintRule {
        LintRule::ManualExpect
    }

    fn lint_rule(&self) -> (r: LintRule) {
        LintRule::ManualExpect
    }
}


/// The manual `expect`s of a function body.
pub fn check_manual_expect(body: &queries::FunctionBody) -> (r: Vec<queries::LintHit>)
    ensures
        queries::hit_views(r@) == queries::body_hits(queries::BodyCheck::ManualOnMatch(queries::ManualFamily::Expect), body.exprs@)
            + queries::body_hits(queries::BodyCheck::ManualOnIf(queries::ManualFamily::Expect), body.exprs@),
{
    queries::check_manual_family(queries::ManualFamily::Expect, body)
}

/// The rewrite of a manual `expect`: the message is the argument of the
/// panic in the second arm of a `match`, or in the `else` block.
pub fn fix_manual_expect(s: &helpers::ManualSyntax) -> (r: String)
    requires
        s is Match ==> helpers::manual_err_arg(*s, 1) is Some,
        s is If ==> helpers::manual_err_arg(*s, 0) is Some,
        !(s is Other),
    ensures
        r@ == helpers::fix_expect_spec("expect"@, *s, if s is Match { 1 } else { 0 }),
{
    helpers::fix_expect_like("expect", s, 1)
}


} // verus!
