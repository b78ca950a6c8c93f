use vstd::prelude::*;
use crate::context::{Lint, LintRule};
use crate::text;

verus! {

/// Detects if the function has a unit return type, which is not needed to be specified.
pub struct UnitReturnType;

impl Lint for UnitReturnType {
    open spec fn rule(&self) -> LintRule {
        LintRule::UnitReturnType
    }

    fn lint_rule(&self) -> (r: LintRule) {
        LintRule::UnitReturnType
    }
}


/// A function whose return type is the unit type and written out.
pub open spec fn unit_return_type_spec(return_type_is_unit: bool, has_return_type_clause: bool) -> bool {
    return_type_is_unit && has_return_type_clause
}

/// Whether a function signature spells out a unit return type.
pub fn check_unit_return_type(return_type_is_unit: bool, has_return_type_clause: bool) -> (r: bool)
    ensures
        r == unit_return_type_spec(return_type_is_unit, has_return_type_clause),
{
    return_type_is_unit && has_return_type_clause
}

/// The fix: the signature without its return type clause; trimmed at the
/// end where the clause did not end in a space.
pub open spec fn fix_unit_return_type_spec(signature: Seq<char>, clause: Seq<char>) -> Seq<char> {
    let fixed = text::rust_replace(signature, clause, seq![]);
    if text::has_suffix(clause, " "@) { fixed } else { text::trim_end(fixed) }
}

/// The fix of a unit return type (see `fix_unit_return_type_spec`); the
/// signature must have a return type clause, whose text is given.
pub fn fix_unit_return_type(signature: &str, return_type_clause: &str) -> (r: String)
    ensures
        r@ == fix_unit_return_type_spec(signature@, return_type_clause@),
{
    let s = text::chars_of(signature);
    let c = text::chars_of(return_type_clause);
    let empty: Vec<char> = Vec::new();
    let fixed = text::rust_replace_chars(s.as_slice(), c.as_slice(), empty.as_slice());
    let n = c.len();
    let ends_with_space = n > 0 && c[n - 1] == ' ';
    proof {
        reveal_strlit(" ");
        if ends_with_space {
            assert(c@.skip(n - 1) =~= " "@);
        }
        if text::has_suffix(c@, " "@) {
            assert(c@.skip(c@.len() - 1)[0] == c@[n - 1]);
        }
    }
    if ends_with_space {
        text::string_of(fixed.as_slice())
    } else {
        let t = text::trim_end_chars(fixed.as_slice());
        text::string_of(t.as_slice())
    }
}


/// Only a signature that writes a return type clause, and whose return type
/// is the unit type, is reported: without a clause there is nothing to
/// remove, and a clause naming another type is needed.
pub proof fn lemma_unit_return_type_needs_written_unit(return_type_is_unit: bool, has_return_type_clause: bool)
    ensures
        !unit_return_type_spec(return_type_is_unit, false),
        !unit_return_type_spec(false, has_return_type_clause),
        unit_return_type_spec(true, true),
{
}
} // verus!
