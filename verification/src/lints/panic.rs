use vstd::prelude::*;
use crate::context::{Lint, LintRule};
use crate::helper::ASSERT_FORMATTER_NAME;
use crate::semantic::FunctionCall;
use crate::text;

verus! {

/// Checks for panic usages.
pub struct PanicInCode;

impl Lint for PanicInCode {
    open spec fn rule(&self) -> LintRule {
        LintRule::PanicInCode
    }

    fn lint_rule(&self) -> (r: LintRule) {
        LintRule::PanicInCode
    }
}


/// Where the code of a call comes from.
#[derive(Debug, Clone, Copy, PartialEq, Eq, Structural)]
pub enum CallOrigin {
    /// Written in the file itself.
    InFile,
    /// Generated by a macro; whether the position of the code that
    /// generated it could be located.
    FromMacro { located: bool },
}

/// Where a panic is reported.
#[derive(Debug, Clone, Copy, PartialEq, Eq, Structural)]
pub enum PanicReport {
    /// At the call itself.
    AtCall,
    /// At the code in the on-disk file that generated the call.
    AtOrigin,
}

/// A call of the corelib's `panic` or `panic_with_byte_array`, except the
/// one that `assert!` expands to (its text holds the formatter variable of
/// the expansion), is reported: at the call when it is written in the
/// file, at the generating code when a macro produced it and that code
/// could be located.
pub open spec fn panic_usage_spec(call: FunctionCall, call_text: Seq<char>, origin: CallOrigin) -> Option<PanicReport> {
    let is_assert_panic = call.is_panic_with_byte_array && text::contains(call_text, ASSERT_FORMATTER_NAME@);
    if !(call.is_extern_panic || call.is_panic_with_byte_array) || is_assert_panic {
        None
    } else {
        match origin {
            CallOrigin::InFile => Some(PanicReport::AtCall),
            CallOrigin::FromMacro { located } => if located { Some(PanicReport::AtOrigin) } else { None },
        }
    }
}

/// The report of one call, if it is a panic (see `panic_usage_spec`).
pub fn check_single_panic_usage(call: &FunctionCall, call_text: &str, origin: CallOrigin) -> (r: Option<PanicReport>)
    ensures
        r == panic_usage_spec(*call, call_text@, origin),
{
    let is_panic = call.is_extern_panic;
    let is_panic_with_byte_array = call.is_panic_with_byte_array;
    let is_assert_panic = is_panic_with_byte_array && {
        let t = text::chars_of(call_text);
        let f = text::chars_of(ASSERT_FORMATTER_NAME);
        text::contains_chars(t.as_slice(), f.as_slice())
    };
    if !(is_panic || is_panic_with_byte_array) || is_assert_panic {
        return None;
    }
    match origin {
        CallOrigin::InFile => Some(PanicReport::AtCall),
        CallOrigin::FromMacro { located } => if located { Some(PanicReport::AtOrigin) } else { None },
    }
}


/// A call of a function body, with what the check reads beside it: the
/// call's source text and where its code comes from.
#[derive(Debug)]
pub struct PanicCallSite {
    pub call: FunctionCall,
    pub call_text: String,
    pub origin: CallOrigin,
}

/// For each call of a function body, where it is reported as a panic, if
/// it is (see `panic_usage_spec`).
pub fn check_panic_usage(sites: &Vec<PanicCallSite>) -> (r: Vec<Option<PanicReport>>)
    ensures
        r@.len() == sites@.len(),
        forall|i: int| 0 <= i < r@.len() ==>
            #[trigger] r@[i] == panic_usage_spec(sites@[i].call, sites@[i].call_text@, sites@[i].origin),
{
    let mut out: Vec<Option<PanicReport>> = Vec::new();
    let mut k: usize = 0;
    while k < sites.len()
        invariant
            k <= sites@.len(),
            out@.len() == k,
            forall|i: int| 0 <= i < k ==>
                #[trigger] out@[i] == panic_usage_spec(sites@[i].call, sites@[i].call_text@, sites@[i].origin),
        decreases sites@.len() - k,
    {
        let s = &sites[k];
        out.push(check_single_panic_usage(&s.call, s.call_text.as_str(), s.origin));
        k = k + 1;
    }
    out
}


/// What the lint is for: a call that is neither the corelib's `panic` nor
/// its `panic_with_byte_array` is never reported; a call of `panic`
/// written in the file is reported at the call, and one produced by a
/// macro at the generating code when that code is located, never when it
/// is not.
pub proof fn lemma_panic_usage_reports(call: FunctionCall, call_text: Seq<char>, origin: CallOrigin)
    ensures
        !(call.is_extern_panic || call.is_panic_with_byte_array) ==> panic_usage_spec(call, call_text, origin) is None,
        (call.is_extern_panic && !call.is_panic_with_byte_array && origin == CallOrigin::InFile)
            ==> panic_usage_spec(call, call_text, origin) == Some(PanicReport::AtCall),
        (call.is_extern_panic && !call.is_panic_with_byte_array && origin == (CallOrigin::FromMacro { located: true }))
            ==> panic_usage_spec(call, call_text, origin) == Some(PanicReport::AtOrigin),
        origin == (CallOrigin::FromMacro { located: false }) ==> panic_usage_spec(call, call_text, origin) is None,
        panic_usage_spec(call, call_text, origin) == Some(PanicReport::AtCall) ==> origin == CallOrigin::InFile,
{
}
} // verus!
