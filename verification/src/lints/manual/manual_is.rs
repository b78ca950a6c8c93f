use vstd::prelude::*;
use crate::context::{Lint, LintRule};
use crate::lints::manual::helpers;
use crate::queries;

verus! {

/// Checks for manual implementations of `is_some`.
pub struct ManualIsSome;

impl Lint for ManualIsSome {
    open spec fn rule(&self) -> LintRule {
        LintRule::ManualIsSome
    }

    fn lint_rule(&self) -> (r: LintRule) {
        LintRule::ManualIsSome
    }
}

/// Checks for manual implementations of `is_none`.
pub struct ManualIsNone;

impl Lint for ManualIsNone {
    open spec fn rule(&self) -> LintRule {
        LintRule::ManualIsNone
    }

    fn lint_rule(&self) -> (r: LintRule) {
        LintRule::ManualIsNone
    }
}

/// Checks for manual implementations of `is_ok`.
pub struct ManualIsOk;

impl Lint for ManualIsOk {
    open spec fn rule(&self) -> LintRule {
        LintRule::ManualIsOk
    }

    fn lint_rule(&self) -> (r: LintRule) {
        LintRule::ManualIsOk
    }
}

/// Checks for manual implementations of `is_err`.
pub struct ManualIsErr;

impl Lint for ManualIsErr {
    open spec fn rule(&self) -> LintRule {
        LintRule::ManualIsErr
    }

    fn lint_rule(&self) -> (r: LintRule) {
        LintRule::ManualIsErr
    }
}


/// The manual `is_some`, `is_none`, `is_ok` and `is_err` of a function body.
pub fn check_manual_is(body: &queries::FunctionBody) -> (r: Vec<queries::LintHit>)
    ensures
        queries::hit_views(r@) == queries::body_hits(queries::BodyCheck::ManualOnMatch(queries::ManualFamily::Is), body.exprs@)
            + queries::body_hits(queries::BodyCheck::ManualOnIf(queries::ManualFamily::Is), body.exprs@),
{
    queries::check_manual_family(queries::ManualFamily::Is, body)
}


/// Rewrites a manual implementation of `is_some`.
pub fn fix_manual_is_some(s: &helpers::ManualSyntax) -> (r: String)
    requires
        helpers::manual_target(*s) is Some,
    ensures
        r@ == helpers::fix_manual_spec("is_some"@, *s),
{
    helpers::fix_manual("is_some", s)
}

/// Rewrites a manual implementation of `is_none`.
pub fn fix_manual_is_none(s: &helpers::ManualSyntax) -> (r: String)
    requires
        helpers::manual_target(*s) is Some,
    ensures
        r@ == helpers::fix_manual_spec("is_none"@, *s),
{
    helpers::fix_manual("is_none", s)
}

/// Rewrites a manual implementation of `is_ok`.
pub fn fix_manual_is_ok(s: &helpers::ManualSyntax) -> (r: String)
    requires
        helpers::manual_target(*s) is Some,
    ensures
        r@ == helpers::fix_manual_spec("is_ok"@, *s),
{
    helpers::fix_manual("is_ok", s)
}

/// Rewrites a manual implementation of `is_err`.
pub fn fix_manual_is_err(s: &helpers::ManualSyntax) -> (r: String)
    requires
        helpers::manual_target(*s) is Some,
    ensures
        r@ == helpers::fix_manual_spec("is_err"@, *s),
{
    helpers::fix_manual("is_err", s)
}

} // verus!
