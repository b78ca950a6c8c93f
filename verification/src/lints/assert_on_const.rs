use vstd::prelude::*;
use crate::context::{Lint, LintRule};
use crate::text;

verus! {

/// Checks for assertions on boolean literals, constants and expressions
/// which are simplified to constants by the compiler.
pub struct AssertOnConst;

impl Lint for AssertOnConst {
    open spec fn rule(&self) -> LintRule {
        LintRule::AssertOnConst
    }

    fn lint_rule(&self) -> (r: LintRule) {
        LintRule::AssertOnConst
    }
}


/// A statement of a function's lowered body, as far as the lint reads it:
/// variables are given by their identifiers.
#[derive(Debug)]
pub enum LoweredStatement {
    /// A constant written in the code.
    Const { output: u64 },
    /// A struct construction; whether its type is the unit type.
    StructConstruct { output: u64, is_unit: bool },
    /// An enum construction; whether the enum is `bool`.
    EnumConstruct { input: u64, output: u64, is_bool: bool },
    /// A call; whether it calls the corelib's `bool_not_impl`.
    Call { is_bool_not_impl: bool, inputs: Vec<u64>, outputs: Vec<u64> },
    Other,
}

/// A block of the lowered body.
#[derive(Debug)]
pub struct LoweredBlock {
    pub statements: Vec<LoweredStatement>,
}

/// What the scan of the lowered body has gathered so far: outputs of
/// constants (over all blocks), of unit structs and of `bool` literals
/// (in the current block), and the positions and outputs of the calls of
/// `bool_not_impl` on constant values found.
pub struct ConstScan {
    pub consts: Seq<u64>,
    pub units: Seq<u64>,
    pub bools: Seq<u64>,
    pub found: Seq<(int, int)>,
    pub found_outputs: Seq<u64>,
}

/// Whether a variable is known to hold a constant `bool`: a constant, a
/// `bool` built from a unit struct, or the negation of such a value.
pub open spec fn is_const_input(s: ConstScan, v: u64) -> bool {
    s.consts.contains(v) || s.bools.contains(v) || s.found_outputs.contains(v)
}

/// One statement of the scan, at block `b`, position `i`.
pub open spec fn scan_step(s: ConstScan, st: LoweredStatement, b: int, i: int) -> ConstScan {
    match st {
        LoweredStatement::Const { output } => ConstScan { consts: s.consts.push(output), ..s },
        LoweredStatement::StructConstruct { output, is_unit } =>
            if is_unit { ConstScan { units: s.units.push(output), ..s } } else { s },
        LoweredStatement::EnumConstruct { input, output, is_bool } =>
            if s.units.contains(input) && is_bool { ConstScan { bools: s.bools.push(output), ..s } } else { s },
        LoweredStatement::Call { is_bool_not_impl, inputs, outputs } =>
            if is_bool_not_impl && is_const_input(s, inputs@[0]) {
                ConstScan { found: s.found.push((b, i)), found_outputs: s.found_outputs + outputs@, ..s }
            } else {
                s
            },
        LoweredStatement::Other => s,
    }
}

/// The scan of the first `n` statements of block `b`.
pub open spec fn scan_statements(s: ConstScan, stmts: Seq<LoweredStatement>, b: int, n: nat) -> ConstScan
    decreases n,
{
    if n == 0 {
        s
    } else {
        scan_step(scan_statements(s, stmts, b, (n - 1) as nat), stmts[n - 1], b, n - 1)
    }
}

/// The scan of the first `n` blocks; unit structs and `bool` literals are
/// gathered anew in each block.
pub open spec fn scan_blocks(blocks: Seq<LoweredBlock>, n: nat) -> ConstScan
    decreases n,
{
    if n == 0 {
        ConstScan { consts: seq![], units: seq![], bools: seq![], found: seq![], found_outputs: seq![] }
    } else {
        let s = scan_blocks(blocks, (n - 1) as nat);
        let start = ConstScan { units: seq![], bools: seq![], ..s };
        let stmts = blocks[n - 1].statements@;
        scan_statements(start, stmts, n - 1, stmts.len())
    }
}

/// Every call of `bool_not_impl` has an argument.
pub open spec fn bool_not_calls_have_input(blocks: Seq<LoweredBlock>) -> bool {
    forall|b: int, i: int| 0 <= b < blocks.len() && 0 <= i < blocks[b].statements@.len()
        ==> (#[trigger] blocks[b].statements@[i] matches LoweredStatement::Call { is_bool_not_impl, inputs, .. }
            ==> (is_bool_not_impl ==> inputs@.len() > 0))
}

fn vec_contains(v: &Vec<u64>, x: u64) -> (r: bool)
    ensures
        r == v@.contains(x),
{
    let mut k: usize = 0;
    while k < v.len()
        invariant
            k <= v@.len(),
            forall|j: int| 0 <= j < k ==> v@[j] != x,
        decreases v@.len() - k,
    {
        if v[k] == x {
            assert(v@[k as int] == x);
            return true;
        }
        k = k + 1;
    }
    false
}

fn push_all_u64(dst: &mut Vec<u64>, src: &Vec<u64>)
    ensures
        final(dst)@ == old(dst)@ + src@,
{
    let mut k: usize = 0;
    while k < src.len()
        invariant
            k <= src@.len(),
            dst@ == old(dst)@ + src@.take(k as int),
        decreases src@.len() - k,
    {
        dst.push(src[k]);
        assert(src@.take(k + 1) =~= src@.take(k as int).push(src@[k as int]));
        k = k + 1;
    }
    assert(src@.take(src@.len() as int) =~= src@);
}

/// The positions (block, statement) of the calls of `bool_not_impl` whose
/// argument is a constant `bool`: a constant, a `bool` literal built in
/// the same block, or the result of such a call found before.
pub fn find_bool_not_impl_calls_on_const_values(blocks: &Vec<LoweredBlock>) -> (r: Vec<(usize, usize)>)
    requires
        bool_not_calls_have_input(blocks@),
    ensures
        r@.len() == scan_blocks(blocks@, blocks@.len()).found.len(),
        forall|j: int| 0 <= j < r@.len() ==>
            (#[trigger] r@[j]).0 as int == scan_blocks(blocks@, blocks@.len()).found[j].0
            && r@[j].1 as int == scan_blocks(blocks@, blocks@.len()).found[j].1,
{
    let mut consts: Vec<u64> = Vec::new();
    let mut found: Vec<(usize, usize)> = Vec::new();
    let mut found_outputs: Vec<u64> = Vec::new();
    let mut b: usize = 0;
    while b < blocks.len()
        invariant
            b <= blocks@.len(),
            bool_not_calls_have_input(blocks@),
            consts@ == scan_blocks(blocks@, b as nat).consts,
            found_outputs@ == scan_blocks(blocks@, b as nat).found_outputs,
            found@.len() == scan_blocks(blocks@, b as nat).found.len(),
            forall|j: int| 0 <= j < found@.len() ==>
                (#[trigger] found@[j]).0 as int == scan_blocks(blocks@, b as nat).found[j].0
                && found@[j].1 as int == scan_blocks(blocks@, b as nat).found[j].1,
        decreases blocks@.len() - b,
    {
        let stmts = &blocks[b].statements;
        let ghost prev = scan_blocks(blocks@, b as nat);
        let ghost start = ConstScan { units: seq![], bools: seq![], ..prev };
        let mut units: Vec<u64> = Vec::new();
        let mut bools: Vec<u64> = Vec::new();
        let mut i: usize = 0;
        while i < stmts.len()
            invariant
                b < blocks@.len(),
                *stmts == blocks@[b as int].statements,
                i <= stmts@.len(),
                bool_not_calls_have_input(blocks@),
                consts@ == scan_statements(start, stmts@, b as int, i as nat).consts,
                units@ == scan_statements(start, stmts@, b as int, i as nat).units,
                bools@ == scan_statements(start, stmts@, b as int, i as nat).bools,
                found_outputs@ == scan_statements(start, stmts@, b as int, i as nat).found_outputs,
                found@.len() == scan_statements(start, stmts@, b as int, i as nat).found.len(),
                forall|j: int| 0 <= j < found@.len() ==>
                    (#[trigger] found@[j]).0 as int == scan_statements(start, stmts@, b as int, i as nat).found[j].0
                    && found@[j].1 as int == scan_statements(start, stmts@, b as int, i as nat).found[j].1,
            decreases stmts@.len() - i,
        {
            let ghost before = scan_statements(start, stmts@, b as int, i as nat);
            assert(scan_statements(start, stmts@, b as int, (i + 1) as nat)
                == scan_step(before, stmts@[i as int], b as int, i as int));
            match &stmts[i] {
                LoweredStatement::Const { output } => {
                    consts.push(*output);
                },
                LoweredStatement::StructConstruct { output, is_unit } => {
                    if *is_unit {
                        units.push(*output);
                    }
                },
                LoweredStatement::EnumConstruct { input, output, is_bool } => {
                    if vec_contains(&units, *input) && *is_bool {
                        bools.push(*output);
                    }
                },
                LoweredStatement::Call { is_bool_not_impl, inputs, outputs } => {
                    if *is_bool_not_impl {
                        assert(blocks@[b as int].statements@[i as int] == stmts@[i as int]);
                        let v = inputs[0];
                        if vec_contains(&consts, v) || vec_contains(&bools, v) || vec_contains(&found_outputs, v) {
                            found.push((b, i));
                            push_all_u64(&mut found_outputs, outputs);
                        }
                    }
                },
                LoweredStatement::Other => {},
            }
            i = i + 1;
        }
        b = b + 1;
    }
    found
}


/// A segment of a path: whether it is a plain identifier, and its text.
#[derive(Debug)]
pub struct PathSegmentSyntax {
    pub simple: bool,
    pub ident: String,
}

/// The path of a macro call is the single plain segment `assert`.
pub open spec fn is_assert_path_spec(segments: Seq<PathSegmentSyntax>) -> bool {
    segments.len() == 1 && segments[0].simple && segments[0].ident@ == "assert"@
}

/// Whether an inline macro call, by its path, is a call of `assert!`.
pub fn is_assert_macro_path(segments: &Vec<PathSegmentSyntax>) -> (r: bool)
    ensures
        r == is_assert_path_spec(segments@),
{
    segments.len() == 1 && segments[0].simple && text::str_eq(segments[0].ident.as_str(), "assert")
}

/// How many of the values hold.
pub open spec fn count_true(v: Seq<bool>) -> nat
    decreases v.len(),
{
    if v.len() == 0 { 0 } else { count_true(v.drop_last()) + if v.last() { 1nat } else { 0nat } }
}

/// Whether exactly one of the calls of `bool_not_impl` on constants takes
/// its argument from the negation that `assert!` expanded to; for each
/// call, `at_unary` tells whether one of the locations of its argument is
/// that negation.
pub fn is_unary_expr_a_bool_not_impl_call_on_const(at_unary: &Vec<bool>) -> (r: bool)
    ensures
        r == (count_true(at_unary@) == 1),
{
    let mut n: usize = 0;
    let mut k: usize = 0;
    while k < at_unary.len()
        invariant
            k <= at_unary@.len(),
            n == count_true(at_unary@.take(k as int)),
            n <= k,
        decreases at_unary@.len() - k,
    {
        assert(at_unary@.take(k + 1).drop_last() =~= at_unary@.take(k as int));
        if at_unary[k] {
            n = n + 1;
        }
        k = k + 1;
    }
    assert(at_unary@.take(k as int) =~= at_unary@);
    n == 1
}

/// An `assert!` call of a function, as the lint reads it: for its
/// expansion, when found and holding a negation, whether each call of
/// `bool_not_impl` on constants takes its argument from that negation.
#[derive(Debug)]
pub struct AssertCallSite {
    pub at_unary: Option<Vec<bool>>,
}

/// An `assert!` is on a constant when exactly one call of `bool_not_impl`
/// on constants comes from its negation.
pub open spec fn assert_on_const_spec(site: AssertCallSite) -> bool {
    match site.at_unary {
        Some(v) => count_true(v@) == 1,
        None => false,
    }
}

/// For each `assert!` call of a function, whether it is reported.
pub fn check_assert_on_const_for_function_with_body(sites: &Vec<AssertCallSite>) -> (r: Vec<bool>)
    ensures
        r@.len() == sites@.len(),
        forall|i: int| 0 <= i < sites@.len() ==> #[trigger] r@[i] == assert_on_const_spec(sites@[i]),
{
    let mut out: Vec<bool> = Vec::new();
    let mut k: usize = 0;
    while k < sites.len()
        invariant
            k <= sites@.len(),
            out@.len() == k,
            forall|i: int| 0 <= i < k ==> #[trigger] out@[i] == assert_on_const_spec(sites@[i]),
        decreases sites@.len() - k,
    {
        let hit = match &sites[k].at_unary {
            Some(v) => is_unary_expr_a_bool_not_impl_call_on_const(v),
            None => false,
        };
        out.push(hit);
        k = k + 1;
    }
    out
}


/// For each function of an item (`None` where its lowered body cannot be
/// had), for each `assert!` call, whether it asserts a constant.
pub fn check_assert_on_const(functions: &Vec<Option<Vec<AssertCallSite>>>) -> (r: Vec<Vec<bool>>)
    ensures
        r@.len() == functions@.len(),
        forall|f: int| 0 <= f < r@.len() ==> match #[trigger] functions@[f] {
            Some(sites) => r@[f]@.len() == sites@.len()
                && forall|i: int| 0 <= i < sites@.len() ==> #[trigger] r@[f]@[i] == assert_on_const_spec(sites@[i]),
            None => r@[f]@.len() == 0,
        },
{
    let mut out: Vec<Vec<bool>> = Vec::new();
    let mut k: usize = 0;
    while k < functions.len()
        invariant
            k <= functions@.len(),
            out@.len() == k,
            forall|f: int| 0 <= f < k ==> match #[trigger] functions@[f] {
                Some(sites) => out@[f]@.len() == sites@.len()
                    && forall|i: int| 0 <= i < sites@.len() ==> #[trigger] out@[f]@[i] == assert_on_const_spec(sites@[i]),
                None => out@[f]@.len() == 0,
            },
        decreases functions@.len() - k,
    {
        let hits = match &functions[k] {
            Some(sites) => check_assert_on_const_for_function_with_body(sites),
            None => Vec::new(),
        };
        out.push(hits);
        k = k + 1;
    }
    out
}

} // verus!
