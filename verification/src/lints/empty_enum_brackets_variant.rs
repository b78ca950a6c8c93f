use vstd::prelude::*;
use crate::context::{Lint, LintRule};
use crate::text;

verus! {

/// Finds enum variants that are declared with empty brackets.
pub struct EmptyEnumBracketsVariant;

impl Lint for EmptyEnumBracketsVariant {
    open spec fn rule(&self) -> LintRule {
        LintRule::EmptyEnumBracketsVariant
    }

    fn lint_rule(&self) -> (r: LintRule) {
        LintRule::EmptyEnumBracketsVariant
    }
}


/// A variant of an enum: whether its type is the unit type (`None` where
/// it cannot be read), and whether it has a type clause.
#[derive(Debug)]
pub struct VariantInfo {
    pub ty_is_unit: Option<bool>,
    pub has_type_clause: bool,
}

/// A variant of unit type written with a type clause, such as `A: ()`.
pub open spec fn empty_brackets_variant(v: VariantInfo) -> bool {
    v.ty_is_unit == Some(true) && v.has_type_clause
}

/// The number of variants checked: up to the first whose type cannot be
/// read.
pub open spec fn checked_variants(vs: Seq<VariantInfo>) -> int
    decreases vs.len(),
{
    if vs.len() == 0 {
        0
    } else if vs[0].ty_is_unit is None {
        0
    } else {
        1 + checked_variants(vs.drop_first())
    }
}

/// For each checked variant of an enum, whether it is reported (see
/// `empty_brackets_variant`); the check stops at the first variant whose
/// type cannot be read.
pub fn check_empty_enum_brackets_variant(variants: &Vec<VariantInfo>) -> (r: Vec<bool>)
    ensures
        r@.len() == checked_variants(variants@),
        forall|i: int| 0 <= i < r@.len() ==> #[trigger] r@[i] == empty_brackets_variant(variants@[i]),
{
    let mut out: Vec<bool> = Vec::new();
    let mut k: usize = 0;
    assert(variants@.skip(0) =~= variants@);
    while k < variants.len()
        invariant
            k <= variants@.len(),
            out@.len() == k,
            checked_variants(variants@) == k + checked_variants(variants@.skip(k as int)),
            forall|i: int| 0 <= i < k ==> #[trigger] out@[i] == empty_brackets_variant(variants@[i]),
        decreases variants@.len() - k,
    {
        assert(variants@.skip(k as int).drop_first() =~= variants@.skip(k + 1));
        assert(variants@.skip(k as int)[0] == variants@[k as int]);
        match variants[k].ty_is_unit {
            None => return out,
            Some(u) => out.push(u && variants[k].has_type_clause),
        }
        k = k + 1;
    }
    assert(variants@.skip(k as int) =~= Seq::<VariantInfo>::empty());
    out
}

/// The fix: the variant's text with its type clause (compared without
/// trivia) removed.
pub fn fix_empty_enum_brackets_variant(variant_text: &str, type_clause: &str) -> (r: String)
    ensures
        r@ == text::rust_replace(variant_text@, type_clause@, seq![]),
{
    let t = text::chars_of(variant_text);
    let c = text::chars_of(type_clause);
    let empty: Vec<char> = Vec::new();
    let r = text::rust_replace_chars(t.as_slice(), c.as_slice(), empty.as_slice());
    text::string_of(r.as_slice())
}


/// A variant is reported only when it is of unit type and writes a type
/// clause: without a clause there is nothing to remove, and a clause of
/// another type is needed.
pub proof fn lemma_empty_brackets_needs_written_unit(v: VariantInfo)
    ensures
        (v.ty_is_unit == Some(true) && v.has_type_clause) ==> empty_brackets_variant(v),
        !v.has_type_clause ==> !empty_brackets_variant(v),
        v.ty_is_unit != Some(true) ==> !empty_brackets_variant(v),
{
}
} // verus!
