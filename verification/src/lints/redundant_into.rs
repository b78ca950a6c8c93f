use vstd::prelude::*;
use crate::context::{Lint, LintRule};
use crate::semantic::TraitFunction;

verus! {

/// Detects redundant calls to `into()` or `try_into()` where the input and output
/// types are the same, i.e., the conversion is a no-op and can be removed.
pub struct RedundantInto;

impl Lint for RedundantInto {
    open spec fn rule(&self) -> LintRule {
        LintRule::RedundantInto
    }

    fn lint_rule(&self) -> (r: LintRule) {
        LintRule::RedundantInto
    }
}


/// A call of `Into::into` or `TryInto::try_into`, with the types it reads,
/// by identifier: the call's type, the `T` of that type when it is
/// `Option<T>`, and the type of the first argument (`None` when there is no
/// argument, `Some(None)` when it is passed by reference).
#[derive(Debug)]
pub struct IntoCall {
    pub trait_function: TraitFunction,
    pub is_impl: bool,
    pub ty: u64,
    pub option_inner_ty: Option<u64>,
    pub first_arg_ty: Option<Option<u64>>,
}

/// A conversion into the type that the value already has.
pub open spec fn redundant_into_spec(c: IntoCall) -> bool {
    let target: Option<u64> = if !c.is_impl {
        None
    } else if c.trait_function == TraitFunction::Into {
        Some(c.ty)
    } else if c.trait_function == TraitFunction::TryInto {
        c.option_inner_ty
    } else {
        None
    };
    match (target, c.first_arg_ty) {
        (Some(t), Some(Some(i))) => i == t,
        _ => false,
    }
}

/// Whether a conversion is redundant (see `redundant_into_spec`).
pub fn check_single_redundant_into(c: &IntoCall) -> (r: bool)
    ensures
        r == redundant_into_spec(*c),
{
    if !c.is_impl {
        return false;
    }
    let target = if c.trait_function == TraitFunction::Into {
        c.ty
    } else if c.trait_function == TraitFunction::TryInto {
        match c.option_inner_ty {
            Some(t) => t,
            None => return false,
        }
    } else {
        return false;
    };
    match c.first_arg_ty {
        Some(Some(i)) => i == target,
        _ => false,
    }
}


/// For each conversion call of a function body, whether it is redundant.
pub fn check_redundant_into(calls: &Vec<IntoCall>) -> (r: Vec<bool>)
    ensures
        r@.len() == calls@.len(),
        forall|i: int| 0 <= i < r@.len() ==> #[trigger] r@[i] == redundant_into_spec(calls@[i]),
{
    let mut out: Vec<bool> = Vec::new();
    let mut k: usize = 0;
    while k < calls.len()
        invariant
            k <= calls@.len(),
            out@.len() == k,
            forall|i: int| 0 <= i < k ==> #[trigger] out@[i] == redundant_into_spec(calls@[i]),
        decreases calls@.len() - k,
    {
        out.push(check_single_redundant_into(&calls[k]));
        k = k + 1;
    }
    out
}


/// A conversion is reported exactly when it gives back the type it is
/// given: `Into::into` whose argument already has the call's type, or
/// `TryInto::try_into` whose argument already has the `T` of the call's
/// `Option<T>`; an argument passed by reference, or a missing one, is never
/// reported, nor is any other function.
pub proof fn lemma_redundant_into_same_type(c: IntoCall)
    ensures
        redundant_into_spec(c) ==> ({
            &&& c.is_impl
            &&& c.first_arg_ty matches Some(Some(t))
            &&& ((c.trait_function == TraitFunction::Into && t == c.ty)
                || (c.trait_function == TraitFunction::TryInto && c.option_inner_ty == Some(t)))
        }),
        (c.is_impl && c.trait_function == TraitFunction::Into && c.first_arg_ty == Some(Some(c.ty)))
            ==> redundant_into_spec(c),
        (c.is_impl && c.trait_function == TraitFunction::TryInto && c.option_inner_ty is Some
            && c.first_arg_ty == Some(c.option_inner_ty)) ==> redundant_into_spec(c),
{
}
} // verus!
