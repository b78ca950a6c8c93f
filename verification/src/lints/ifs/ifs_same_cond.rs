use vstd::prelude::*;
use crate::context::{Lint, LintRule};
use crate::queries;
use crate::semantic::{CallArg, Condition, Expr, ExprIf, FunctionCall};
use crate::text;

verus! {

/// Checks for consecutive `if` expressions with the same condition.
pub struct DuplicateIfCondition;

impl Lint for DuplicateIfCondition {
    open spec fn rule(&self) -> LintRule {
        LintRule::DuplicateIfCondition
    }

    fn lint_rule(&self) -> (r: LintRule) {
        LintRule::DuplicateIfCondition
    }
}


/// Some argument of the call, or of a call among its arguments at any
/// depth, is passed by reference.
pub open spec fn has_ref_arg(fc: FunctionCall) -> bool
    decreases fc,
{
    args_have_ref(fc.args@)
}

/// One of the arguments is passed by reference, or is a call that has such
/// an argument.
pub open spec fn args_have_ref(args: Seq<CallArg>) -> bool
    decreases args,
{
    if args.len() == 0 {
        false
    } else {
        (match args[0] {
            CallArg::Reference => true,
            CallArg::Value(Expr::FunctionCall(f)) => has_ref_arg(f),
            CallArg::Value(_) => false,
        }) || args_have_ref(args.drop_first())
    }
}

/// Whether a call has an argument passed by reference, at any depth of
/// nested calls (see `has_ref_arg`).
pub fn ensure_no_ref_arg(fc: &FunctionCall) -> (r: bool)
    ensures
        r == has_ref_arg(*fc),
    decreases fc,
{
    let mut k: usize = 0;
    assert(fc.args@.skip(0) =~= fc.args@);
    while k < fc.args.len()
        invariant
            k <= fc.args@.len(),
            args_have_ref(fc.args@) == args_have_ref(fc.args@.skip(k as int)),
        decreases fc.args@.len() - k,
    {
        proof {
            assert(decreases_to!(*fc => fc.args));
            assert(decreases_to!(fc.args => fc.args@));
            assert(decreases_to!(fc.args@ => fc.args@[k as int]));
            assert(fc.args@.skip(k as int).drop_first() =~= fc.args@.skip(k + 1));
            assert(fc.args@.skip(k as int)[0] == fc.args@[k as int]);
        }
        let hit = match &fc.args[k] {
            CallArg::Reference => true,
            CallArg::Value(Expr::FunctionCall(f)) => {
                proof {
                    assert(decreases_to!(fc.args@[k as int] => fc.args@[k as int]->Value_0));
                }
                ensure_no_ref_arg(f)
            },
            CallArg::Value(_) => false,
        };
        if hit {
            return true;
        }
        k = k + 1;
    }
    assert(fc.args@.skip(k as int) =~= Seq::<CallArg>::empty());
    false
}

/// The expression and text of the first condition of an `if`.
pub open spec fn first_condition(i: ExprIf) -> Option<(Expr, Seq<char>)> {
    if i.conditions@.len() == 0 {
        None
    } else {
        match i.conditions@[0] {
            Condition::BoolExpr { expr, text } => Some((expr, text@)),
            Condition::Let { expr, text, .. } => Some((expr, text@)),
        }
    }
}

/// A condition that calls a function with an argument by reference may
/// have effects: it is not compared.
pub open spec fn is_skipped_condition(e: Expr) -> bool {
    e matches Expr::FunctionCall(fc) && has_ref_arg(fc)
}

/// Some `else if` of the chain has a compared condition with the text `t`.
pub open spec fn else_chain_repeats(e: Option<Box<Expr>>, t: Seq<char>) -> bool
    decreases e,
{
    match e {
        Some(b) => match *b {
            Expr::If(ei) => match first_condition(ei) {
                Some((ce, ct)) => if !is_skipped_condition(ce) && ct == t {
                    true
                } else {
                    else_chain_repeats(ei.else_block, t)
                },
                None => else_chain_repeats(ei.else_block, t),
            },
            _ => false,
        },
        None => false,
    }
}

/// An `if` whose condition is repeated, to the letter, by an `else if` of
/// its chain.
pub open spec fn duplicate_if_condition_spec(i: ExprIf) -> bool {
    match first_condition(i) {
        Some((ce, ct)) => !is_skipped_condition(ce) && else_chain_repeats(i.else_block, ct),
        None => false,
    }
}

fn first_condition_of(i: &ExprIf) -> (r: Option<(&Expr, &String)>)
    ensures
        match first_condition(*i) {
            Some((e, t)) => r matches Some((e2, t2)) && *e2 == e && t2@ == t,
            None => r is None,
        },
{
    if i.conditions.len() == 0 {
        return None;
    }
    match &i.conditions[0] {
        Condition::BoolExpr { expr, text } => Some((expr, text)),
        Condition::Let { expr, text, .. } => Some((expr, text)),
    }
}

fn skipped_condition(e: &Expr) -> (r: bool)
    ensures
        r == is_skipped_condition(*e),
{
    match e {
        Expr::FunctionCall(fc) => ensure_no_ref_arg(fc),
        _ => false,
    }
}

fn check_else_chain(e: &Option<Box<Expr>>, t: &str) -> (r: bool)
    ensures
        r == else_chain_repeats(*e, t@),
    decreases e,
{
    match e {
        Some(b) => match &**b {
            Expr::If(ei) => {
                match first_condition_of(ei) {
                    Some((ce, ct)) => {
                        if !skipped_condition(ce) && text::str_eq(ct.as_str(), t) {
                            return true;
                        }
                    },
                    None => {},
                }
                check_else_chain(&ei.else_block, t)
            },
            _ => false,
        },
        None => false,
    }
}

/// Whether an `if` repeats its condition in an `else if` (see
/// `duplicate_if_condition_spec`).
pub fn check_single_duplicate_if_condition(i: &ExprIf) -> (r: bool)
    ensures
        r == duplicate_if_condition_spec(*i),
{
    match first_condition_of(i) {
        Some((ce, ct)) => {
            if skipped_condition(ce) {
                return false;
            }
            check_else_chain(&i.else_block, ct.as_str())
        },
        None => false,
    }
}


/// The `if`s of a function body whose condition an `else if` repeats.
pub fn check_duplicate_if_condition(body: &queries::FunctionBody) -> (r: Vec<queries::LintHit>)
    ensures
        queries::hit_views(r@) == queries::body_hits(queries::BodyCheck::DuplicateIfCondition, body.exprs@),
{
    queries::check_body(&queries::BodyCheck::DuplicateIfCondition, body)
}

} // verus!
