//! Verified core of a linter for the Cairo language: lint metadata and
//! registry, the decisions each lint takes on a model of the analysed code,
//! the text rewrites that its fixes propose, and the application of fixes to
//! a file.
use vstd::prelude::*;

pub mod context;
pub mod corelib;
pub mod fixes;
pub mod helper;
pub mod lints;
pub mod plugin;
pub mod queries;
pub mod semantic;
pub mod text;

verus! {

/// Name under which the linter registers itself as a tool.
pub const CAIRO_LINT_TOOL_NAME: &'static str = "cairo-lint";

/// Whether a diagnostic with the message `message` comes from the lint
/// against `panic` in code.
pub fn is_panic_diagnostic(message: &str) -> (r: bool)
    ensures
        r == (message@ == context::LintRule::PanicInCode.message()),
{
    proof {
        context::lemma_panic_message(message@);
    }
    context::get_lint_type_from_diagnostic_message(message) == context::CairoLintKind::Panic
}

} // verus!
