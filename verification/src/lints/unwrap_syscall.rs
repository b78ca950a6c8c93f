use vstd::prelude::*;
use crate::context::{Lint, LintRule};
use crate::semantic::{CallArg, FunctionCall, GenericArg, Ty};
use crate::text;

verus! {

/// Detects if the function uses `unwrap` on a `SyscallResult` object.
pub struct UnwrapSyscall;

impl Lint for UnwrapSyscall {
    open spec fn rule(&self) -> LintRule {
        LintRule::UnwrapSyscall
    }

    fn lint_rule(&self) -> (r: LintRule) {
        LintRule::UnwrapSyscall
    }
}


/// The path of the trait that provides `unwrap_syscall`.
pub const UNWRAP_SYSCALL_TRAIT_PATH: &'static str = "starknet::SyscallResultTrait";

/// The type is a concrete type of the given generic type.
pub open spec fn is_concrete_of(t: Ty, path: Seq<char>) -> bool {
    t matches Ty::Concrete { path: p, .. } && p@ == path
}

/// The type is `Result<felt252, Array<felt252>>`, the result of a syscall.
pub open spec fn is_syscall_result_type_spec(t: Ty) -> bool {
    match t {
        Ty::Concrete { path, args } => {
            &&& path@ == "core::result::Result"@
            &&& args@.len() == 2
            &&& args@[0] matches GenericArg::Type(ok) && is_concrete_of(ok, "core::felt252"@)
            &&& args@[1] matches GenericArg::Type(Ty::Concrete { path: ep, args: eargs })
            &&& ep@ == "core::array::Array"@
            &&& eargs@.len() == 1
            &&& eargs@[0] matches GenericArg::Type(el) && is_concrete_of(el, "core::felt252"@)
        },
        _ => false,
    }
}

fn is_specific_concrete_type(t: &Ty, path: &str) -> (r: bool)
    ensures
        r == is_concrete_of(*t, path@),
{
    match t {
        Ty::Concrete { path: p, .. } => text::str_eq(p.as_str(), path),
        _ => false,
    }
}

fn is_felt_arg(a: &GenericArg) -> (r: bool)
    ensures
        r == (*a matches GenericArg::Type(t) && is_concrete_of(t, "core::felt252"@)),
{
    match a {
        GenericArg::Type(t) => is_specific_concrete_type(t, "core::felt252"),
        _ => false,
    }
}

/// The generic arguments of the type when it is a concrete type of the
/// generic type at `full_path` with `n` generic arguments.
fn is_specific_concrete_generic_type<'a>(t: &'a Ty, full_path: &str, n: usize) -> (r: Option<&'a Vec<GenericArg>>)
    ensures
        match r {
            Some(a) => *t matches Ty::Concrete { path, args } && path@ == full_path@ && args@.len() == n
                && a@ == args@,
            None => !(*t matches Ty::Concrete { path, args } && path@ == full_path@ && args@.len() == n),
        },
{
    match t {
        Ty::Concrete { path, args } => {
            if text::str_eq(path.as_str(), full_path) && args.len() == n {
                Some(args)
            } else {
                None
            }
        },
        _ => None,
    }
}

/// Whether the type is that of a syscall's result (see
/// `is_syscall_result_type_spec`).
pub fn is_syscall_result_type(t: &Ty) -> (r: bool)
    ensures
        r == is_syscall_result_type_spec(*t),
{
    let args = match is_specific_concrete_generic_type(t, "core::result::Result", 2) {
        Some(a) => a,
        None => return false,
    };
    if !is_felt_arg(&args[0]) {
        return false;
    }
    match &args[1] {
        GenericArg::Type(e) => match is_specific_concrete_generic_type(e, "core::array::Array", 1) {
            Some(eargs) => is_felt_arg(&eargs[0]),
            None => false,
        },
        _ => false,
    }
}

/// A call of `unwrap` of the corelib's `ResultTraitImpl`.
pub open spec fn is_result_unwrap_spec(call: FunctionCall) -> bool {
    call.is_impl && call.function_name@ == "unwrap"@ && call.impl_path@ == "core::result::ResultTraitImpl"@
}

/// Whether the call calls `unwrap` of the corelib's `ResultTraitImpl`.
fn is_result_trait_impl_unwrap_call(call: &FunctionCall) -> (r: bool)
    ensures
        r == is_result_unwrap_spec(*call),
{
    call.is_impl && text::str_eq(call.function_name.as_str(), "unwrap")
        && text::str_eq(call.impl_path.as_str(), "core::result::ResultTraitImpl")
}

/// A call of `Result::unwrap` on the result of a syscall: its first
/// argument is a value whose type is `receiver_ty`.
pub open spec fn unwrap_syscall_spec(call: FunctionCall, receiver_ty: Ty) -> bool {
    &&& is_result_unwrap_spec(call)
    &&& call.args@.len() > 0
    &&& call.args@[0] is Value
    &&& is_syscall_result_type_spec(receiver_ty)
}

/// Whether a call unwraps the result of a syscall (see
/// `unwrap_syscall_spec`).
pub fn check_single_unwrap_syscall(call: &FunctionCall, receiver_ty: &Ty) -> (r: bool)
    ensures
        r == unwrap_syscall_spec(*call, *receiver_ty),
{
    if !is_result_trait_impl_unwrap_call(call) || call.args.len() == 0 {
        return false;
    }
    match &call.args[0] {
        CallArg::Value(_) => is_syscall_result_type(receiver_ty),
        _ => false,
    }
}

/// The fix: the receiver and the operator, then `unwrap_syscall()`.
pub fn fix_unwrap_syscall(lhs: &str, op: &str) -> (r: String)
    ensures
        r@ == lhs@ + op@ + "unwrap_syscall()"@,
{
    let mut out: Vec<char> = Vec::new();
    text::push_str(&mut out, lhs);
    text::push_str(&mut out, op);
    text::push_str(&mut out, "unwrap_syscall()");
    text::string_of(out.as_slice())
}


/// A call with the type of its receiver.
#[derive(Debug)]
pub struct UnwrapCallSite {
    pub call: FunctionCall,
    pub receiver_ty: Ty,
}

/// For each call of a function body, whether it unwraps a syscall result.
pub fn check_unwrap_syscall(sites: &Vec<UnwrapCallSite>) -> (r: Vec<bool>)
    ensures
        r@.len() == sites@.len(),
        forall|i: int| 0 <= i < r@.len() ==>
            #[trigger] r@[i] == unwrap_syscall_spec(sites@[i].call, sites@[i].receiver_ty),
{
    let mut out: Vec<bool> = Vec::new();
    let mut k: usize = 0;
    while k < sites.len()
        invariant
            k <= sites@.len(),
            out@.len() == k,
            forall|i: int| 0 <= i < k ==>
                #[trigger] out@[i] == unwrap_syscall_spec(sites@[i].call, sites@[i].receiver_ty),
        decreases sites@.len() - k,
    {
        out.push(check_single_unwrap_syscall(&sites[k].call, &sites[k].receiver_ty));
        k = k + 1;
    }
    out
}


/// `unwrap` is reported only on the result of a syscall: a type built as
/// `core::result::Result` of `core::felt252` and `core::array::Array` of
/// `core::felt252`. Any other type, such as a `Result` with another `Ok`
/// or `Err` type, is never reported; and the corelib's
/// `ResultTraitImpl::unwrap` with a value argument on a syscall result always
/// is.
pub proof fn lemma_unwrap_syscall_only_on_syscall_results(call: FunctionCall, receiver_ty: Ty)
    ensures
        unwrap_syscall_spec(call, receiver_ty) ==> {
            &&& receiver_ty matches Ty::Concrete { path, args }
            &&& path@ == "core::result::Result"@
            &&& args@.len() == 2
            &&& args@[0] matches GenericArg::Type(Ty::Concrete { path: ok_path, .. })
            &&& ok_path@ == "core::felt252"@
            &&& args@[1] matches GenericArg::Type(Ty::Concrete { path: err_path, args: err_args })
            &&& err_path@ == "core::array::Array"@
            &&& err_args@.len() == 1
            &&& err_args@[0] matches GenericArg::Type(Ty::Concrete { path: elem_path, .. })
            &&& elem_path@ == "core::felt252"@
        },
        ({
            &&& call.is_impl
            &&& call.function_name@ == "unwrap"@
            &&& call.impl_path@ == "core::result::ResultTraitImpl"@
            &&& call.args@.len() > 0
            &&& call.args@[0] is Value
            &&& receiver_ty matches Ty::Concrete { path, args }
            &&& path@ == "core::result::Result"@
            &&& args@.len() == 2
            &&& args@[0] matches GenericArg::Type(Ty::Concrete { path: ok_path, .. })
            &&& ok_path@ == "core::felt252"@
            &&& args@[1] matches GenericArg::Type(Ty::Concrete { path: err_path, args: err_args })
            &&& err_path@ == "core::array::Array"@
            &&& err_args@.len() == 1
            &&& err_args@[0] matches GenericArg::Type(Ty::Concrete { path: elem_path, .. })
            &&& elem_path@ == "core::felt252"@
        }) ==> unwrap_syscall_spec(call, receiver_ty),
{
}
} // verus!
