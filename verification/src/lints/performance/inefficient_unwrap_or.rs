use vstd::prelude::*;
use crate::context::{Lint, LintRule};
use crate::queries;
use crate::lints::{FALSE, TRUE};
use crate::semantic::{CallArg, Expr, FunctionCall};
use crate::text;

verus! {

/// Finds calls of `Option::unwrap_or` or `Result::unwrap_or`
/// which can be optimized by lazy-evaluation, using `unwrap_or_else`.
pub struct InefficientUnwrapOr;

impl Lint for InefficientUnwrapOr {
    open spec fn rule(&self) -> LintRule {
        LintRule::InefficientUnwrapOr
    }

    fn lint_rule(&self) -> (r: LintRule) {
        LintRule::InefficientUnwrapOr
    }
}


/// The full path of `OptionTrait::unwrap_or`.
pub const OPTION_UNWRAP_OR: &'static str = "core::option::OptionTrait::unwrap_or";
/// The full path of `ResultTrait::unwrap_or`.
pub const RESULT_UNWRAP_OR: &'static str = "core::result::ResultTrait::unwrap_or";

/// A call of `unwrap_or` of the corelib's `OptionTrait` or `ResultTrait`.
pub open spec fn is_unwrap_or_call(call: FunctionCall) -> bool {
    &&& call.is_impl
    &&& call.function_name@ == "unwrap_or"@
    &&& (call.trait_name@ == OPTION_UNWRAP_OR@ || call.trait_name@ == RESULT_UNWRAP_OR@)
}

/// A literal `true` or `false`.
pub open spec fn is_bool_literal_spec(e: Expr) -> bool {
    e matches Expr::EnumVariantCtor { variant, .. } && (variant@ == TRUE@ || variant@ == FALSE@)
}

/// The expression costs something to evaluate: calls, control flow and
/// arrays; tuples, structs, snapshots and variants of such; a logical
/// operator unless both sides are literals; a member access through `Deref`.
pub open spec fn is_nontrivial(e: Expr) -> bool
    decreases e,
{
    match e {
        Expr::FunctionCall(_) | Expr::Match(_) | Expr::If(_) | Expr::Block(_) | Expr::Loop(_)
        | Expr::While { .. } | Expr::For(_) | Expr::FixedSizeArrayRepeat(_) | Expr::FixedSizeArrayItems(_) => true,
        Expr::Tuple(items) => any_nontrivial(items@),
        Expr::StructCtor(members) => any_nontrivial(members@),
        Expr::Snapshot(inner) => is_nontrivial(*inner),
        Expr::Desnap(inner) => is_nontrivial(*inner),
        Expr::EnumVariantCtor { value, .. } => is_nontrivial(*value),
        Expr::LogicalOperator { lhs, rhs } => !is_bool_literal_spec(*lhs) || !is_bool_literal_spec(*rhs),
        Expr::MemberAccess { via_deref } => via_deref,
        _ => false,
    }
}

/// One of the expressions is non-trivial.
pub open spec fn any_nontrivial(es: Seq<Expr>) -> bool
    decreases es,
{
    if es.len() == 0 {
        false
    } else {
        is_nontrivial(es[0]) || any_nontrivial(es.drop_first())
    }
}

fn is_bool_literal(e: &Expr) -> (r: bool)
    ensures
        r == is_bool_literal_spec(*e),
{
    match e {
        Expr::EnumVariantCtor { variant, .. } => text::str_eq(variant.as_str(), TRUE)
            || text::str_eq(variant.as_str(), FALSE),
        _ => false,
    }
}

fn any_nontrivial_exec(es: &Vec<Expr>) -> (r: bool)
    ensures
        r == any_nontrivial(es@),
    decreases es,
{
    let mut k: usize = 0;
    assert(es@.skip(0) =~= es@);
    while k < es.len()
        invariant
            k <= es@.len(),
            any_nontrivial(es@) == any_nontrivial(es@.skip(k as int)),
        decreases es@.len() - k,
    {
        proof {
            assert(decreases_to!(*es => es@));
            assert(decreases_to!(es@ => es@[k as int]));
            assert(es@.skip(k as int).drop_first() =~= es@.skip(k + 1));
            assert(es@.skip(k as int)[0] == es@[k as int]);
        }
        if contains_nontrivial_expression(&es[k]) {
            return true;
        }
        k = k + 1;
    }
    assert(es@.skip(k as int) =~= Seq::<Expr>::empty());
    false
}

/// Whether evaluating the expression costs something (see `is_nontrivial`).
pub fn contains_nontrivial_expression(e: &Expr) -> (r: bool)
    ensures
        r == is_nontrivial(*e),
    decreases e,
{
    match e {
        Expr::FunctionCall(_) | Expr::Match(_) | Expr::If(_) | Expr::Block(_) | Expr::Loop(_)
        | Expr::While { .. } | Expr::For(_) | Expr::FixedSizeArrayRepeat(_) | Expr::FixedSizeArrayItems(_) => true,
        Expr::Tuple(items) => any_nontrivial_exec(items),
        Expr::StructCtor(members) => any_nontrivial_exec(members),
        Expr::Snapshot(inner) => contains_nontrivial_expression(&**inner),
        Expr::Desnap(inner) => contains_nontrivial_expression(&**inner),
        Expr::EnumVariantCtor { value, .. } => contains_nontrivial_expression(&**value),
        Expr::LogicalOperator { lhs, rhs } => !is_bool_literal(&**lhs) || !is_bool_literal(&**rhs),
        Expr::MemberAccess { via_deref } => *via_deref,
        _ => false,
    }
}

/// A call of `unwrap_or` whose fallback, its second argument, costs
/// something to evaluate.
pub open spec fn inefficient_unwrap_or_spec(call: FunctionCall) -> bool {
    &&& is_unwrap_or_call(call)
    &&& call.args@.len() > 1
    &&& call.args@[1] matches CallArg::Value(v) && is_nontrivial(v)
}

/// Whether a call evaluates an expensive fallback eagerly (see
/// `inefficient_unwrap_or_spec`).
pub fn is_inefficient_unwrap_or_call(call: &FunctionCall) -> (r: bool)
    ensures
        r == inefficient_unwrap_or_spec(*call),
{
    let is_unwrap_or = call.is_impl && text::str_eq(call.function_name.as_str(), "unwrap_or")
        && (text::str_eq(call.trait_name.as_str(), OPTION_UNWRAP_OR)
            || text::str_eq(call.trait_name.as_str(), RESULT_UNWRAP_OR));
    if !is_unwrap_or || call.args.len() <= 1 {
        return false;
    }
    match &call.args[1] {
        CallArg::Value(v) => contains_nontrivial_expression(v),
        _ => false,
    }
}

/// The fix: the receiver and the operator, then `unwrap_or_else` with the
/// fallback in a closure; none when the call has no argument.
pub fn fix_inefficient_unwrap_or(receiver: &str, op: &str, first_argument: Option<&str>) -> (r: Option<String>)
    ensures
        match first_argument {
            Some(a) => r is Some && r->0@ == receiver@ + op@ + "unwrap_or_else(|| "@ + a@ + ")"@,
            None => r is None,
        },
{
    match first_argument {
        Some(a) => {
            let mut out: Vec<char> = Vec::new();
            text::push_str(&mut out, receiver);
            text::push_str(&mut out, op);
            text::push_str(&mut out, "unwrap_or_else(|| ");
            text::push_str(&mut out, a);
            text::push_str(&mut out, ")");
            Some(text::string_of(out.as_slice()))
        },
        None => None,
    }
}


/// The calls of `unwrap_or` with an expensive fallback in a function body.
pub fn check_inefficient_unwrap_or(body: &queries::FunctionBody) -> (r: Vec<queries::LintHit>)
    ensures
        queries::hit_views(r@) == queries::body_hits(queries::BodyCheck::InefficientUnwrapOr, body.exprs@),
{
    queries::check_body(&queries::BodyCheck::InefficientUnwrapOr, body)
}

} // verus!
