use vstd::prelude::*;
use crate::context::{Lint, LintRule};
use crate::queries;
use crate::semantic::{FunctionCall, Ty};
use crate::text;

verus! {

/// Checks for usage of `.clone()` on a `Copy` type.
pub struct CloneOnCopy;

impl Lint for CloneOnCopy {
    open spec fn rule(&self) -> LintRule {
        LintRule::CloneOnCopy
    }

    fn lint_rule(&self) -> (r: LintRule) {
        LintRule::CloneOnCopy
    }
}


/// A call of `clone` that the impl `TCopyClone` of the corelib provides:
/// cloning a value of a `Copy` type.
pub open spec fn clone_on_copy_spec(call: FunctionCall) -> bool {
    call.is_impl && call.impl_is_t_copy_clone
}

/// Whether a call clones a value of a `Copy` type.
pub fn check_clone_usage(call: &FunctionCall) -> (r: bool)
    ensures
        r == clone_on_copy_spec(*call),
{
    call.is_impl && call.impl_is_t_copy_clone
}

/// The number of snapshots `@` that wrap a type.
pub open spec fn snapshot_depth(t: Ty) -> nat
    decreases t,
{
    match t {
        Ty::Snapshot(inner) => 1 + snapshot_depth(*inner),
        _ => 0,
    }
}

fn peel_snapshots(t: &Ty) -> (r: usize)
    requires
        snapshot_depth(*t) < usize::MAX,
    ensures
        r == snapshot_depth(*t),
    decreases t,
{
    match t {
        Ty::Snapshot(inner) => 1 + peel_snapshots(&**inner),
        _ => 0,
    }
}

/// The receiver of `clone`, as the fix reads it: its text, its type, and
/// whether the compiler wrapped it in a snapshot itself.
#[derive(Debug)]
pub struct CloneReceiver {
    pub text: String,
    pub ty: Ty,
    pub is_snapshot_expr: bool,
}

/// The number of desnaps the fix writes: the snapshots of the receiver's
/// type, less the one the compiler added.
pub open spec fn desnap_count(r: CloneReceiver) -> nat {
    if r.is_snapshot_expr { (snapshot_depth(r.ty) - 1) as nat } else { snapshot_depth(r.ty) }
}

/// The fix: the receiver, desnapped as many times as it is a snapshot.
pub open spec fn fix_clone_on_copy_spec(r: CloneReceiver) -> Seq<char> {
    text::repeat("*"@, desnap_count(r)) + r.text@
}

/// The fix of a `clone` on a `Copy` value (see `fix_clone_on_copy_spec`).
pub fn fix_clone_on_copy(receiver: &CloneReceiver) -> (r: String)
    requires
        snapshot_depth(receiver.ty) < usize::MAX,
        receiver.is_snapshot_expr ==> snapshot_depth(receiver.ty) >= 1,
    ensures
        r@ == fix_clone_on_copy_spec(*receiver),
{
    let mut count = peel_snapshots(&receiver.ty);
    if receiver.is_snapshot_expr {
        count = count - 1;
    }
    let star = text::chars_of("*");
    let mut out = text::repeat_chars(star.as_slice(), count);
    text::push_str(&mut out, receiver.text.as_str());
    text::string_of(out.as_slice())
}


/// The clones of `Copy` values in a function body.
pub fn check_clone_on_copy(body: &queries::FunctionBody) -> (r: Vec<queries::LintHit>)
    ensures
        queries::hit_views(r@) == queries::body_hits(queries::BodyCheck::CloneOnCopy, body.exprs@),
{
    queries::check_body(&queries::BodyCheck::CloneOnCopy, body)
}


/// A call is reported exactly when it is the `clone` of the corelib's
/// `TCopyClone` impl: no other impl, and no function outside an impl.
pub proof fn lemma_clone_on_copy_only_t_copy_clone(call: FunctionCall)
    ensures
        (call.is_impl && call.impl_is_t_copy_clone) ==> clone_on_copy_spec(call),
        !call.impl_is_t_copy_clone ==> !clone_on_copy_spec(call),
        !call.is_impl ==> !clone_on_copy_spec(call),
{
}
} // verus!
