use vstd::prelude::*;
use crate::context::{Lint, LintRule};
use crate::semantic::{CallArg, Condition, Expr, FunctionCall, Ty};
use crate::text;

verus! {

/// Checks for manual implementation of `is_empty` method in match and if expressions.
pub struct ManualIsEmpty;

impl Lint for ManualIsEmpty {
    open spec fn rule(&self) -> LintRule {
        LintRule::ManualIsEmpty
    }

    fn lint_rule(&self) -> (r: LintRule) {
        LintRule::ManualIsEmpty
    }
}


/// The name of `==` on `u32`.
pub const ARRAY_LEN_EQ_FUNC_NAME: &'static str = "U32PartialEq::eq";
/// The name of `==` on arrays.
pub const ARRAY_EQ_FUNC_NAME: &'static str = "ArrayPartialEq::eq";
/// The name of the array constructor.
pub const ARRAY_CONSTRUCTOR_FUNC_NAME: &'static str = "ArrayImpl::new";
/// The full name of `u32`.
pub const U32: &'static str = "core::integer::u32";
/// The full path of `Array`.
pub const ARRAY: &'static str = "core::array::Array";
/// The full path of `Span`.
pub const SPAN: &'static str = "core::array::Span";

/// The type is an array or a span, or a snapshot of one.
pub open spec fn is_std_collection_spec(t: Ty) -> bool
    decreases t,
{
    match t {
        Ty::Snapshot(inner) => is_std_collection_spec(*inner),
        Ty::Concrete { path, .. } => path@ == ARRAY@ || path@ == SPAN@,
        Ty::Other => false,
    }
}

fn is_std_collection_type(t: &Ty) -> (r: bool)
    ensures
        r == is_std_collection_spec(*t),
    decreases t,
{
    match t {
        Ty::Snapshot(inner) => is_std_collection_type(&**inner),
        Ty::Concrete { path, .. } => text::str_eq(path.as_str(), ARRAY) || text::str_eq(path.as_str(), SPAN),
        Ty::Other => false,
    }
}

/// The literal `0` of type `u32`.
pub open spec fn is_zero_u32_spec(e: Expr) -> bool {
    e matches Expr::Literal { value: Some(v), ty } && ty@ == U32@ && v == 0
}

fn expr_is_zero_literal(e: &Expr) -> (r: bool)
    ensures
        r == is_zero_u32_spec(*e),
{
    match e {
        Expr::Literal { value: Some(v), ty } => text::str_eq(ty.as_str(), U32) && *v == 0,
        _ => false,
    }
}

/// A call of a function named `...::len` on an array or a span.
pub open spec fn is_length_call_spec(e: Expr) -> bool {
    match e {
        Expr::FunctionCall(fc) => {
            &&& fc.args@.len() == 1
            &&& text::has_suffix(fc.debug_name@, "::len\""@)
            &&& fc.args@[0] is Value
            &&& fc.arg_tys@.len() >= 1
            &&& is_std_collection_spec(fc.arg_tys@[0])
        },
        _ => false,
    }
}

fn expr_is_collection_length_call(e: &Expr) -> (r: bool)
    ensures
        r == is_length_call_spec(*e),
{
    match e {
        Expr::FunctionCall(fc) => {
            if fc.args.len() != 1 {
                return false;
            }
            let name = text::chars_of(fc.debug_name.as_str());
            let suffix = text::chars_of("::len\"");
            if suffix.len() > name.len() {
                return false;
            }
            let start = name.len() - suffix.len();
            proof {
                let t = name@.skip(start as int);
                assert(t.take(suffix@.len() as int) =~= t);
            }
            if !text::matches_at(name.as_slice(), start, suffix.as_slice()) {
                return false;
            }
            if !matches!(fc.args[0], CallArg::Value(_)) || fc.arg_tys.len() < 1 {
                return false;
            }
            is_std_collection_type(&fc.arg_tys[0])
        },
        _ => false,
    }
}

/// An empty array: a call of the array constructor without arguments, or
/// (as the source tells) code produced by `array![]`.
pub open spec fn is_empty_collection_spec(e: Expr, from_empty_array_macro: bool) -> bool {
    (e matches Expr::FunctionCall(fc) && fc.args@.len() == 0 && fc.function_name@ == ARRAY_CONSTRUCTOR_FUNC_NAME@)
        || from_empty_array_macro
}

fn expr_is_empty_collection(e: &Expr, from_empty_array_macro: bool) -> (r: bool)
    ensures
        r == is_empty_collection_spec(*e, from_empty_array_macro),
{
    let is_new = match e {
        Expr::FunctionCall(fc) => fc.args.len() == 0 && text::str_eq(fc.function_name.as_str(), ARRAY_CONSTRUCTOR_FUNC_NAME),
        _ => false,
    };
    is_new || from_empty_array_macro
}

/// A condition of an `if` or a `while`, with what its source tells of the
/// two sides of a comparison: whether each is code produced by `array![]`.
#[derive(Debug)]
pub struct IsEmptyCondition {
    pub condition: Condition,
    pub lhs_from_empty_array_macro: bool,
    pub rhs_from_empty_array_macro: bool,
}

/// Both arguments are snapshots of: a length and zero, zero and a length,
/// or values one of which is an empty array.
pub open spec fn comparison_args_incorrect_spec(fc: FunctionCall, lm: bool, rm: bool) -> bool {
    match (fc.args@[0], fc.args@[1]) {
        (CallArg::Value(Expr::Snapshot(l)), CallArg::Value(Expr::Snapshot(r))) => {
            ||| (is_zero_u32_spec(*r) && is_length_call_spec(*l))
            ||| (is_zero_u32_spec(*l) && is_length_call_spec(*r))
            ||| is_empty_collection_spec(*l, lm)
            ||| is_empty_collection_spec(*r, rm)
        },
        _ => false,
    }
}

/// The condition calls `==` on `u32` or on arrays.
pub open spec fn is_emptiness_comparison(c: Condition) -> bool {
    c matches Condition::BoolExpr { expr: Expr::FunctionCall(fc), .. }
        && (fc.function_name@ == ARRAY_LEN_EQ_FUNC_NAME@ || fc.function_name@ == ARRAY_EQ_FUNC_NAME@)
}

/// A condition that tests by hand whether a collection is empty.
pub open spec fn manual_is_empty_spec(c: IsEmptyCondition) -> bool {
    is_emptiness_comparison(c.condition) && match c.condition {
        Condition::BoolExpr { expr: Expr::FunctionCall(fc), .. } =>
            comparison_args_incorrect_spec(fc, c.lhs_from_empty_array_macro, c.rhs_from_empty_array_macro),
        _ => false,
    }
}

/// The inputs on which the check panics: a comparison that does not take
/// two arguments.
pub open spec fn manual_is_empty_panics(c: IsEmptyCondition) -> bool {
    is_emptiness_comparison(c.condition) && match c.condition {
        Condition::BoolExpr { expr: Expr::FunctionCall(fc), .. } => fc.args@.len() != 2,
        _ => false,
    }
}

fn check_if_comparison_args_are_incorrect(fc: &FunctionCall, lm: bool, rm: bool) -> (r: bool)
    requires
        fc.args@.len() == 2,
    ensures
        r == comparison_args_incorrect_spec(*fc, lm, rm),
{
    match (&fc.args[0], &fc.args[1]) {
        (CallArg::Value(Expr::Snapshot(l)), CallArg::Value(Expr::Snapshot(r))) => {
            if expr_is_zero_literal(&**r) && expr_is_collection_length_call(&**l) {
                return true;
            }
            if expr_is_zero_literal(&**l) && expr_is_collection_length_call(&**r) {
                return true;
            }
            expr_is_empty_collection(&**l, lm) || expr_is_empty_collection(&**r, rm)
        },
        _ => false,
    }
}

/// For each condition of a function body (those of its `if`s, then those
/// of its `while`s), whether it tests emptiness by hand (see
/// `manual_is_empty_spec`).
pub fn check_manual_is_empty(conditions: &Vec<IsEmptyCondition>) -> (r: Vec<bool>)
    requires
        forall|i: int| 0 <= i < conditions@.len() ==> !manual_is_empty_panics(#[trigger] conditions@[i]),
    ensures
        r@.len() == conditions@.len(),
        forall|i: int| 0 <= i < r@.len() ==> #[trigger] r@[i] == manual_is_empty_spec(conditions@[i]),
{
    let mut out: Vec<bool> = Vec::new();
    let mut k: usize = 0;
    while k < conditions.len()
        invariant
            k <= conditions@.len(),
            out@.len() == k,
            forall|i: int| 0 <= i < conditions@.len() ==> !manual_is_empty_panics(#[trigger] conditions@[i]),
            forall|i: int| 0 <= i < k ==> #[trigger] out@[i] == manual_is_empty_spec(conditions@[i]),
        decreases conditions@.len() - k,
    {
        let c = &conditions[k];
        let hit = match &c.condition {
            Condition::BoolExpr { expr: Expr::FunctionCall(fc), .. } => {
                if text::str_eq(fc.function_name.as_str(), ARRAY_LEN_EQ_FUNC_NAME)
                    || text::str_eq(fc.function_name.as_str(), ARRAY_EQ_FUNC_NAME) {
                    assert(!manual_is_empty_panics(conditions@[k as int]));
                    check_if_comparison_args_are_incorrect(fc, c.lhs_from_empty_array_macro, c.rhs_from_empty_array_macro)
                } else {
                    false
                }
            },
            _ => false,
        };
        out.push(hit);
        k = k + 1;
    }
    out
}

/// An operand of the comparison, as the fix reads it: its text without
/// trivia, and its kind.
#[derive(Debug)]
pub struct OperandSyntax {
    pub text: String,
    pub kind: OperandKind,
}

/// The kinds of operands the fix tells apart.
#[derive(Debug)]
pub enum OperandKind {
    /// A binary expression, with the text of its left operand.
    Binary { lhs: String },
    Literal,
    /// A function call, with the text of its path.
    FunctionCall { path: String },
    InlineMacro,
    Other,
}

/// The operand to call `is_empty` on: the collection of a length compared
/// with a literal; of two calls, the one that does not build an array;
/// otherwise the operand beside a call or a macro.
pub open spec fn is_empty_target(l: OperandSyntax, r: OperandSyntax) -> Option<Seq<char>> {
    match (l.kind, r.kind) {
        (OperandKind::Binary { lhs }, OperandKind::Literal) => Some(lhs@),
        (OperandKind::Literal, OperandKind::Binary { lhs }) => Some(lhs@),
        (OperandKind::FunctionCall { path }, OperandKind::FunctionCall { .. }) =>
            if text::contains(path@, ARRAY_CONSTRUCTOR_FUNC_NAME@) { Some(r.text@) } else { Some(l.text@) },
        (OperandKind::FunctionCall { .. }, _) | (OperandKind::InlineMacro, _) => Some(r.text@),
        (_, OperandKind::FunctionCall { .. }) | (_, OperandKind::InlineMacro) => Some(l.text@),
        _ => None,
    }
}

/// The fix of a manual emptiness test: `{target}.is_empty()` (see
/// `is_empty_target`); none when the node is not a comparison of that shape.
pub fn fix_manual_is_empty(operands: &Option<(OperandSyntax, OperandSyntax)>) -> (r: Option<String>)
    ensures
        text::opt_view(r) == match *operands {
            Some((l, rr)) => match is_empty_target(l, rr) {
                Some(t) => Some(t + ".is_empty()"@),
                None => None,
            },
            None => None,
        },
{
    let (l, r) = match operands {
        Some((l, r)) => (l, r),
        None => return None,
    };
    let target: &String = match (&l.kind, &r.kind) {
        (OperandKind::Binary { lhs }, OperandKind::Literal) => lhs,
        (OperandKind::Literal, OperandKind::Binary { lhs }) => lhs,
        (OperandKind::FunctionCall { path }, OperandKind::FunctionCall { .. }) => {
            let p = text::chars_of(path.as_str());
            let n = text::chars_of(ARRAY_CONSTRUCTOR_FUNC_NAME);
            if text::contains_chars(p.as_slice(), n.as_slice()) { &r.text } else { &l.text }
        },
        (OperandKind::FunctionCall { .. }, _) | (OperandKind::InlineMacro, _) => &r.text,
        (_, OperandKind::FunctionCall { .. }) | (_, OperandKind::InlineMacro) => &l.text,
        _ => return None,
    };
    let mut out = text::chars_of(target.as_str());
    text::push_str(&mut out, ".is_empty()");
    Some(text::string_of(out.as_slice()))
}

} // verus!
