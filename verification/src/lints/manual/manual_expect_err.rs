use vstd::prelude::*;
use crate::context::{Lint, LintRule};
use crate::queries;
use crate::lints::manual::helpers;

verus! {

/// Checks for manual implementation of `expect_err` method in match and if expressions.
pub struct ManualExpectErr;

impl Lint for ManualExpectErr {
    open spec fn rule(&self) -> LintRule {
        LintRule::ManualExpectErr
    }

    fn lint_rule(&self) -> (r: LintRule) {
        LintRule::ManualExpectErr
    }
}


/// The manual `expect_err`s of a function body.
pub fn check_manual_expect_err(body: &queries::FunctionBody) -> (r: Vec<queries::LintHit>)
    ensures
        queries::hit_views(r@) == queries::body_hits(queries::BodyCheck::ManualOnMatch(queries::ManualFamily::ExpectErr), body.exprs@)
            + queries::body_hits(queries::BodyCheck::ManualOnIf(queries::ManualFamily::ExpectErr), body.exprs@),
{
    queries::check_manual_family(queries::ManualFamily::ExpectErr, body)
}

/// The rewrite of a manual `expect_err`: the message is the argument of
/// the panic in the first arm of a `match`, or in the `else` block.
pub fn fix_manual_expect_err(s: &helpers::ManualSyntax) -> (r: String)
    requires
        helpers::manual_err_arg(*s, 0) is Some,
    ensures
        r@ == helpers::fix_expect_spec("expect_err"@, *s, 0),
{
    helpers::fix_expect_like("expect_err", s, 0)
}


} // verus!
