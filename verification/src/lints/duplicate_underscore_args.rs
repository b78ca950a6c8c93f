use vstd::prelude::*;
use crate::context::{Lint, LintRule};
use crate::text;

verus! {

/// Checks for functions that have the same argument name but prefix with `_`.
pub struct DuplicateUnderscoreArgs;

impl Lint for DuplicateUnderscoreArgs {
    open spec fn rule(&self) -> LintRule {
        LintRule::DuplicateUnderscoreArgs
    }

    fn lint_rule(&self) -> (r: LintRule) {
        LintRule::DuplicateUnderscoreArgs
    }
}


/// A name without one leading underscore.
pub open spec fn strip_underscore(n: Seq<char>) -> Seq<char> {
    if n.len() > 0 && n[0] == '_' { n.drop_first() } else { n }
}

/// For each parameter, whether an earlier one has the same name once a
/// leading underscore is dropped from both.
pub open spec fn duplicate_underscore_spec(names: Seq<Seq<char>>, i: int) -> bool {
    exists|j: int| 0 <= j < i && #[trigger] strip_underscore(names[j]) == strip_underscore(names[i])
}

fn stripped(n: &str) -> (r: Vec<char>)
    ensures
        r@ == strip_underscore(n@),
{
    let c = text::chars_of(n);
    if c.len() > 0 && c[0] == '_' {
        let r = text::subrange_chars(c.as_slice(), 1, c.len());
        assert(r@ =~= c@.drop_first());
        r
    } else {
        c
    }
}

/// For each parameter of a function, by name, whether it repeats the name
/// of an earlier one up to a leading underscore (see
/// `duplicate_underscore_spec`).
pub fn check_duplicate_underscore_args(param_names: &Vec<String>) -> (r: Vec<bool>)
    ensures
        r@.len() == param_names@.len(),
        forall|i: int| 0 <= i < r@.len() ==>
            #[trigger] r@[i] == duplicate_underscore_spec(text::string_views(param_names@), i),
{
    let ghost names = text::string_views(param_names@);
    let mut registered: Vec<Vec<char>> = Vec::new();
    let mut out: Vec<bool> = Vec::new();
    let mut k: usize = 0;
    while k < param_names.len()
        invariant
            names == text::string_views(param_names@),
            k <= names.len(),
            out@.len() == k,
            registered@.len() == k,
            forall|j: int| 0 <= j < k ==> (#[trigger] registered@[j])@ == strip_underscore(names[j]),
            forall|i: int| 0 <= i < k ==> #[trigger] out@[i] == duplicate_underscore_spec(names, i),
        decreases names.len() - k,
    {
        let s = stripped(param_names[k].as_str());
        assert(s@ == strip_underscore(names[k as int]));
        let mut seen = false;
        let mut j: usize = 0;
        while j < k
            invariant
                j <= k,
                k < names.len(),
                registered@.len() == k,
                forall|m: int| 0 <= m < k ==> (#[trigger] registered@[m])@ == strip_underscore(names[m]),
                s@ == strip_underscore(names[k as int]),
                seen == exists|m: int| 0 <= m < j && #[trigger] strip_underscore(names[m]) == s@,
            decreases k - j,
        {
            let rj = text::string_of(registered[j].as_slice());
            let sj = text::string_of(s.as_slice());
            if text::str_eq(rj.as_str(), sj.as_str()) {
                assert(strip_underscore(names[j as int]) == s@);
                seen = true;
            }
            j = j + 1;
        }
        out.push(seen);
        registered.push(s);
        k = k + 1;
    }
    out
}


/// The first parameter never repeats an earlier one; a parameter that is
/// an earlier one's name with an underscore in front (`x` then `_x`), or
/// the same name, is reported; and where no two of the first names agree
/// once a leading underscore is dropped, none of them is reported.
pub proof fn lemma_duplicate_underscore_pairs(names: Seq<Seq<char>>, i: int, j: int)
    ensures
        !duplicate_underscore_spec(names, 0),
        (0 <= j < i < names.len() && names[i] == seq!['_'] + names[j]
            && !(names[j].len() > 0 && names[j][0] == '_')) ==> duplicate_underscore_spec(names, i),
        (0 <= j < i < names.len() && names[i] == names[j]) ==> duplicate_underscore_spec(names, i),
        (0 <= i < names.len() && forall|a: int, b: int| 0 <= a < b <= i
            ==> strip_underscore(names[a]) != strip_underscore(names[b])) ==> !duplicate_underscore_spec(names, i),
{
    if 0 <= j < i < names.len() && names[i] == seq!['_'] + names[j] && !(names[j].len() > 0 && names[j][0] == '_') {
        assert((seq!['_'] + names[j]).drop_first() =~= names[j]);
        assert(strip_underscore(names[j]) == strip_underscore(names[i]));
    }
    if 0 <= j < i < names.len() && names[i] == names[j] {
        assert(strip_underscore(names[j]) == strip_underscore(names[i]));
    }
}
} // verus!
