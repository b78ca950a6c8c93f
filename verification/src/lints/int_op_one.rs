use vstd::prelude::*;
use crate::context::{Lint, LintRule};
use crate::queries;
use crate::semantic::{CallArg, Expr, FunctionCall, TraitFunction};
use crate::text;

verus! {

/// Check for unnecessary add operation in integer >= comparison.
pub struct IntegerGreaterEqualPlusOne;

impl Lint for IntegerGreaterEqualPlusOne {
    open spec fn rule(&self) -> LintRule {
        LintRule::IntegerGreaterEqualPlusOne
    }

    fn lint_rule(&self) -> (r: LintRule) {
        LintRule::IntegerGreaterEqualPlusOne
    }
}

/// Check for unnecessary sub operation in integer >= comparison.
pub struct IntegerGreaterEqualMinusOne;

impl Lint for IntegerGreaterEqualMinusOne {
    open spec fn rule(&self) -> LintRule {
        LintRule::IntegerGreaterEqualMinusOne
    }

    fn lint_rule(&self) -> (r: LintRule) {
        LintRule::IntegerGreaterEqualMinusOne
    }
}

/// Check for unnecessary add operation in integer <= comparison.
pub struct IntegerLessEqualPlusOne;

impl Lint for IntegerLessEqualPlusOne {
    open spec fn rule(&self) -> LintRule {
        LintRule::IntegerLessEqualPlusOne
    }

    fn lint_rule(&self) -> (r: LintRule) {
        LintRule::IntegerLessEqualPlusOne
    }
}

/// Check for unnecessary sub operation in integer <= comparison.
pub struct IntegerLessEqualMinusOne;

impl Lint for IntegerLessEqualMinusOne {
    open spec fn rule(&self) -> LintRule {
        LintRule::IntegerLessEqualMinusOne
    }

    fn lint_rule(&self) -> (r: LintRule) {
        LintRule::IntegerLessEqualMinusOne
    }
}


/// The argument is a variable.
pub open spec fn is_variable_arg(a: CallArg) -> bool {
    a matches CallArg::Value(Expr::Var(_))
}

/// The argument is an impl function call of the trait function `op`
/// with two arguments, the first a variable (or a `ref` argument) and the
/// second the literal `1`.
pub open spec fn is_op_one_arg(a: CallArg, op: TraitFunction) -> bool {
    match a {
        CallArg::Value(Expr::FunctionCall(fc)) => {
            &&& fc.is_impl
            &&& fc.trait_function == op
            &&& fc.args@.len() == 2
            &&& !(fc.args@[0] matches CallArg::Value(e) && !(e is Var))
            &&& fc.args@[1] matches CallArg::Value(Expr::Literal { value: Some(v), .. }) && v == 1
        },
        _ => false,
    }
}

/// A `>=` or `<=` of an integer type of the corelib.
pub open spec fn is_integer_comparison(call: FunctionCall) -> bool {
    &&& call.is_impl
    &&& (call.trait_function == TraitFunction::PartialOrdGe
        || call.trait_function == TraitFunction::PartialOrdLe)
    &&& call.impl_in_corelib_integer
}

/// The lints that a comparison call raises, in the order they are reported:
/// `x >= y + 1`, `x - 1 >= y`, `x + 1 <= y`, `x <= y - 1`.
pub open spec fn int_op_one_spec(call: FunctionCall) -> Seq<LintRule> {
    if !is_integer_comparison(call) {
        Seq::empty()
    } else {
        let lhs = call.args@[0];
        let rhs = call.args@[1];
        let ge = call.trait_function == TraitFunction::PartialOrdGe;
        let le = call.trait_function == TraitFunction::PartialOrdLe;
        let s1: Seq<LintRule> = if ge && is_variable_arg(lhs) && is_op_one_arg(rhs, TraitFunction::Add) {
            seq![LintRule::IntegerGreaterEqualPlusOne]
        } else {
            Seq::empty()
        };
        let s2: Seq<LintRule> = if ge && is_op_one_arg(lhs, TraitFunction::Sub) && is_variable_arg(rhs) {
            seq![LintRule::IntegerGreaterEqualMinusOne]
        } else {
            Seq::empty()
        };
        let s3: Seq<LintRule> = if le && is_op_one_arg(lhs, TraitFunction::Add) && is_variable_arg(rhs) {
            seq![LintRule::IntegerLessEqualPlusOne]
        } else {
            Seq::empty()
        };
        let s4: Seq<LintRule> = if le && is_variable_arg(lhs) && is_op_one_arg(rhs, TraitFunction::Sub) {
            seq![LintRule::IntegerLessEqualMinusOne]
        } else {
            Seq::empty()
        };
        s1 + s2 + s3 + s4
    }
}

fn check_is_variable(arg: &CallArg) -> (r: bool)
    ensures
        r == is_variable_arg(*arg),
{
    match arg {
        CallArg::Value(Expr::Var(_)) => true,
        _ => false,
    }
}

fn check_is_add_or_sub_one(arg: &CallArg, op: TraitFunction) -> (r: bool)
    ensures
        r == is_op_one_arg(*arg, op),
{
    let func_call = match arg {
        CallArg::Value(Expr::FunctionCall(fc)) => fc,
        _ => return false,
    };
    if !func_call.is_impl || func_call.trait_function != op || func_call.args.len() != 2 {
        return false;
    }
    if let CallArg::Value(e) = &func_call.args[0] {
        if !matches!(e, Expr::Var(_)) {
            return false;
        }
    }
    match &func_call.args[1] {
        CallArg::Value(Expr::Literal { value: Some(v), .. }) => *v == 1,
        _ => false,
    }
}

/// The lints raised by one call of `>=` or `<=` on integers: a comparison
/// with a variable on one side and the other side one more or one less
/// than a variable, where comparing with `>` or `<` says the same.
pub fn check_single_int_op_one(call: &FunctionCall) -> (r: Vec<LintRule>)
    requires
        is_integer_comparison(*call) ==> call.args@.len() >= 2,
    ensures
        r@ == int_op_one_spec(*call),
{
    let mut out: Vec<LintRule> = Vec::new();
    if !call.is_impl {
        return out;
    }
    if call.trait_function != TraitFunction::PartialOrdGe && call.trait_function != TraitFunction::PartialOrdLe {
        return out;
    }
    if !call.impl_in_corelib_integer {
        return out;
    }
    let lhs = &call.args[0];
    let rhs = &call.args[1];
    let ge = call.trait_function == TraitFunction::PartialOrdGe;
    let le = call.trait_function == TraitFunction::PartialOrdLe;
    let ghost s = int_op_one_spec(*call);
    if ge && check_is_variable(lhs) && check_is_add_or_sub_one(rhs, TraitFunction::Add) {
        out.push(LintRule::IntegerGreaterEqualPlusOne);
    }
    if ge && check_is_add_or_sub_one(lhs, TraitFunction::Sub) && check_is_variable(rhs) {
        out.push(LintRule::IntegerGreaterEqualMinusOne);
    }
    if le && check_is_add_or_sub_one(lhs, TraitFunction::Add) && check_is_variable(rhs) {
        out.push(LintRule::IntegerLessEqualPlusOne);
    }
    if le && check_is_variable(lhs) && check_is_add_or_sub_one(rhs, TraitFunction::Sub) {
        out.push(LintRule::IntegerLessEqualMinusOne);
    }
    assert(out@ =~= s);
    out
}

/// The source text of a binary expression: the text of each operand and,
/// where an operand is itself a binary expression, the text of its left
/// operand.
pub struct BinaryExprText {
    pub lhs: String,
    pub lhs_inner_lhs: Option<String>,
    pub rhs: String,
    pub rhs_inner_lhs: Option<String>,
}

/// `"{a} {op} {b} "` with `a` and `b` trimmed.
pub open spec fn comparison_text(a: Seq<char>, op: Seq<char>, b: Seq<char>) -> Seq<char> {
    text::trim(a) + seq![' '] + op + seq![' '] + text::trim(b) + seq![' ']
}

fn comparison(a: &str, op: &str, b: &str) -> (r: String)
    ensures
        r@ == comparison_text(a@, op@, b@),
{
    let mut out: Vec<char> = Vec::new();
    text::push_trimmed(&mut out, a);
    out.push(' ');
    text::push_str(&mut out, op);
    out.push(' ');
    text::push_trimmed(&mut out, b);
    out.push(' ');
    text::string_of(out.as_slice())
}

/// Fix of `x >= y + 1`: `x > y`.
pub fn fix_int_ge_plus_one(node: &BinaryExprText) -> (r: String)
    requires
        node.rhs_inner_lhs is Some,
    ensures
        r@ == comparison_text(node.lhs@, ">"@, node.rhs_inner_lhs->0@),
{
    match &node.rhs_inner_lhs {
        Some(y) => comparison(node.lhs.as_str(), ">", y.as_str()),
        None => String::new(),
    }
}

/// Fix of `x - 1 >= y`: `x > y`.
pub fn fix_int_ge_min_one(node: &BinaryExprText) -> (r: String)
    requires
        node.lhs_inner_lhs is Some,
    ensures
        r@ == comparison_text(node.lhs_inner_lhs->0@, ">"@, node.rhs@),
{
    match &node.lhs_inner_lhs {
        Some(x) => comparison(x.as_str(), ">", node.rhs.as_str()),
        None => String::new(),
    }
}

/// Fix of `x + 1 <= y`: `x < y`.
pub fn fix_int_le_plus_one(node: &BinaryExprText) -> (r: String)
    requires
        node.lhs_inner_lhs is Some,
    ensures
        r@ == comparison_text(node.lhs_inner_lhs->0@, "<"@, node.rhs@),
{
    match &node.lhs_inner_lhs {
        Some(x) => comparison(x.as_str(), "<", node.rhs.as_str()),
        None => String::new(),
    }
}

/// Fix of `x <= y - 1`: `x < y`.
pub fn fix_int_le_min_one(node: &BinaryExprText) -> (r: String)
    requires
        node.rhs_inner_lhs is Some,
    ensures
        r@ == comparison_text(node.lhs@, "<"@, node.rhs_inner_lhs->0@),
{
    match &node.rhs_inner_lhs {
        Some(y) => comparison(node.lhs.as_str(), "<", y.as_str()),
        None => String::new(),
    }
}


/// The integer comparisons of a function body that can drop a `+ 1` or `- 1`.
pub fn check_int_op_one(body: &queries::FunctionBody) -> (r: Vec<queries::LintHit>)
    requires
        forall|k: int| 0 <= k < body.exprs@.len()
            ==> !queries::check_panics(queries::BodyCheck::IntOpOne, #[trigger] body.exprs@[k]),
    ensures
        queries::hit_views(r@) == queries::body_hits(queries::BodyCheck::IntOpOne, body.exprs@),
{
    queries::check_body(&queries::BodyCheck::IntOpOne, body)
}


/// A comparison raises at most one of the four lints: the shapes
/// `x >= y + 1`, `x - 1 >= y`, `x + 1 <= y` and `x <= y - 1` exclude each
/// other.
pub proof fn lemma_int_op_one_at_most_one(call: FunctionCall)
    ensures
        int_op_one_spec(call).len() <= 1,
{
}


/// The argument is a variable.
pub open spec fn arg_is_var(a: CallArg) -> bool {
    a matches CallArg::Value(Expr::Var(_))
}

/// The argument is `x op 1` for a variable `x`, where `op` is the trait
/// function of an impl.
pub open spec fn arg_is_var_op_one(a: CallArg, op: TraitFunction) -> bool {
    &&& a matches CallArg::Value(Expr::FunctionCall(fc))
    &&& fc.is_impl
    &&& fc.trait_function == op
    &&& fc.args@.len() == 2
    &&& arg_is_var(fc.args@[0])
    &&& fc.args@[1] matches CallArg::Value(Expr::Literal { value: Some(v), .. })
    &&& v == 1
}

/// A corelib integer comparison with the operator `op`.
pub open spec fn integer_comparison_with(call: FunctionCall, op: TraitFunction) -> bool {
    call.is_impl && call.impl_in_corelib_integer && call.trait_function == op && call.args@.len() == 2
}

/// What the four lints are for: `x >= y + 1` raises only "greater or equal
/// plus one", `x - 1 >= y` only "greater or equal minus one", `x + 1 <= y`
/// only "less or equal plus one", and `x <= y - 1` only "less or equal
/// minus one"; and nothing is raised by a call that is not a `>=` or `<=`
/// of a corelib integer type.
pub proof fn lemma_int_op_one_shapes(call: FunctionCall)
    ensures
        int_op_one_spec(call).len() > 0 ==> call.is_impl && call.impl_in_corelib_integer
            && (call.trait_function == TraitFunction::PartialOrdGe
                || call.trait_function == TraitFunction::PartialOrdLe),
        integer_comparison_with(call, TraitFunction::PartialOrdGe) && arg_is_var(call.args@[0])
            && arg_is_var_op_one(call.args@[1], TraitFunction::Add)
            ==> int_op_one_spec(call) == seq![LintRule::IntegerGreaterEqualPlusOne],
        integer_comparison_with(call, TraitFunction::PartialOrdGe) && arg_is_var_op_one(call.args@[0], TraitFunction::Sub)
            && arg_is_var(call.args@[1])
            ==> int_op_one_spec(call) == seq![LintRule::IntegerGreaterEqualMinusOne],
        integer_comparison_with(call, TraitFunction::PartialOrdLe) && arg_is_var_op_one(call.args@[0], TraitFunction::Add)
            && arg_is_var(call.args@[1])
            ==> int_op_one_spec(call) == seq![LintRule::IntegerLessEqualPlusOne],
        integer_comparison_with(call, TraitFunction::PartialOrdLe) && arg_is_var(call.args@[0])
            && arg_is_var_op_one(call.args@[1], TraitFunction::Sub)
            ==> int_op_one_spec(call) == seq![LintRule::IntegerLessEqualMinusOne],
{
    assert(Seq::<LintRule>::empty() + seq![LintRule::IntegerGreaterEqualPlusOne] + Seq::<LintRule>::empty()
        + Seq::<LintRule>::empty() =~= seq![LintRule::IntegerGreaterEqualPlusOne]);
    assert(seq![LintRule::IntegerGreaterEqualPlusOne] + Seq::<LintRule>::empty() + Seq::<LintRule>::empty()
        + Seq::<LintRule>::empty() =~= seq![LintRule::IntegerGreaterEqualPlusOne]);
    assert(Seq::<LintRule>::empty() + seq![LintRule::IntegerGreaterEqualMinusOne] + Seq::<LintRule>::empty()
        + Seq::<LintRule>::empty() =~= seq![LintRule::IntegerGreaterEqualMinusOne]);
    assert(Seq::<LintRule>::empty() + Seq::<LintRule>::empty() + seq![LintRule::IntegerLessEqualPlusOne]
        + Seq::<LintRule>::empty() =~= seq![LintRule::IntegerLessEqualPlusOne]);
    assert(Seq::<LintRule>::empty() + Seq::<LintRule>::empty() + Seq::<LintRule>::empty()
        + seq![LintRule::IntegerLessEqualMinusOne] =~= seq![LintRule::IntegerLessEqualMinusOne]);
}
} // verus!
