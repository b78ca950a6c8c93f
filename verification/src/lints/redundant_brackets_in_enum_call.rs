use vstd::prelude::*;
use crate::context::{Lint, LintRule};
use crate::text;

verus! {

/// Detects calls to enum variant constructors with redundant parentheses
pub struct RedundantBracketsInEnumCall;

impl Lint for RedundantBracketsInEnumCall {
    open spec fn rule(&self) -> LintRule {
        LintRule::RedundantBracketsInEnumCall
    }

    fn lint_rule(&self) -> (r: LintRule) {
        LintRule::RedundantBracketsInEnumCall
    }
}


/// The value of a generic argument: whether it is the empty tuple `()`
/// (`None` where it is not an expression).
#[derive(Debug)]
pub enum GenericArgSyntax {
    Named { name: String, value_is_unit: Option<bool> },
    Unnamed { value_is_unit: Option<bool> },
}

/// A segment of the path of the call: with its generic arguments, or plain.
#[derive(Debug)]
pub enum CallPathSegment {
    WithGenericArgs(Vec<GenericArgSyntax>),
    Simple,
}

/// The construction of an enum variant, as the lint reads it.
#[derive(Debug)]
pub struct EnumVariantCall {
    /// Whether the variant holds the unit type.
    pub variant_ty_is_unit: bool,
    /// For a construction written as a call: whether each argument is an
    /// unnamed empty tuple `()`; `None` when it is not written as a call.
    pub args_are_unit: Option<Vec<bool>>,
    /// The segments of the path of the variant's type clause (`None` when
    /// there is none or it is not a path), each with its name when plain.
    pub type_clause_segments: Option<Vec<Option<String>>>,
    /// The names of the enum's generic parameters (`None` where they cannot
    /// be read).
    pub generic_params: Option<Vec<Option<String>>>,
    /// The segments of the path of the call.
    pub call_path: Vec<CallPathSegment>,
}

/// The position of the first parameter with the given name.
pub open spec fn param_position(params: Seq<Option<String>>, name: Seq<char>) -> Option<int>
    decreases params.len(),
{
    if params.len() == 0 {
        None
    } else if params[0] matches Some(p) && p@ == name {
        Some(0)
    } else {
        match param_position(params.drop_first(), name) {
            Some(i) => Some(i + 1),
            None => None,
        }
    }
}

/// The first segment of the type clause that names a generic parameter of
/// the enum: its position among the parameters and its name.
pub open spec fn generic_param_in(segs: Seq<Option<String>>, params: Seq<Option<String>>) -> Option<(int, Seq<char>)>
    decreases segs.len(),
{
    if segs.len() == 0 {
        None
    } else {
        match segs[0] {
            Some(name) => match param_position(params, name@) {
                Some(i) => Some((i, name@)),
                None => generic_param_in(segs.drop_first(), params),
            },
            None => generic_param_in(segs.drop_first(), params),
        }
    }
}

/// The generic parameter that the variant's type is, if any.
pub open spec fn find_generic_param_spec(c: EnumVariantCall) -> Option<(int, Seq<char>)> {
    match (c.type_clause_segments, c.generic_params) {
        (Some(segs), Some(params)) => generic_param_in(segs@, params@),
        _ => None,
    }
}

/// The generic argument at position `index` of a segment is `()`: unnamed,
/// or named after the parameter.
pub open spec fn unit_arg_at(args: Seq<GenericArgSyntax>, index: int, name: Seq<char>) -> bool {
    0 <= index < args.len() && match args[index] {
        GenericArgSyntax::Named { name: n, value_is_unit } => n@ == name && value_is_unit == Some(true),
        GenericArgSyntax::Unnamed { value_is_unit } => value_is_unit == Some(true),
    }
}

/// Some segment of the call's path gives `()` as the generic argument at
/// that position.
pub open spec fn has_unit_generic_arg_spec(path: Seq<CallPathSegment>, index: int, name: Seq<char>) -> bool {
    exists|k: int| 0 <= k < path.len() && #[trigger] segment_has_unit_arg(path[k], index, name)
}

/// The segment gives `()` as the generic argument at that position.
pub open spec fn segment_has_unit_arg(seg: CallPathSegment, index: int, name: Seq<char>) -> bool {
    match seg {
        CallPathSegment::WithGenericArgs(args) => unit_arg_at(args@, index, name),
        CallPathSegment::Simple => false,
    }
}

/// A unit variant built as `Variant(())`, where the brackets are not needed
/// to say which type the variant holds.
pub open spec fn redundant_brackets_spec(c: EnumVariantCall) -> bool {
    &&& c.variant_ty_is_unit
    &&& c.args_are_unit matches Some(args)
    &&& args@.len() == 1
    &&& args@[0]
    &&& match find_generic_param_spec(c) {
        None => true,
        Some((i, name)) => has_unit_generic_arg_spec(c.call_path@, i, name),
    }
}

proof fn lemma_param_position_bounds(params: Seq<Option<String>>, name: Seq<char>)
    ensures
        param_position(params, name) matches Some(i) ==> 0 <= i < params.len(),
    decreases params.len(),
{
    if params.len() > 0 {
        lemma_param_position_bounds(params.drop_first(), name);
    }
}

fn param_position_exec(params: &Vec<Option<String>>, name: &str) -> (r: Option<usize>)
    ensures
        match r {
            Some(j) => param_position(params@, name@) == Some(j as int),
            None => param_position(params@, name@) is None,
        },
{
    proof { lemma_param_position_bounds(params@, name@); }
    let mut k: usize = 0;
    assert(params@.skip(0) =~= params@);
    while k < params.len()
        invariant
            k <= params@.len(),
            param_position(params@, name@) == match param_position(params@.skip(k as int), name@) {
                Some(i) => Some(i + k),
                None => None,
            },
            k <= params@.len(),
        decreases params@.len() - k,
    {
        assert(params@.skip(k as int).drop_first() =~= params@.skip(k + 1));
        assert(params@.skip(k as int)[0] == params@[k as int]);
        match &params[k] {
            Some(p) => {
                if text::str_eq(p.as_str(), name) {
                    return Some(k);
                }
            },
            None => {},
        }
        k = k + 1;
    }
    assert(params@.skip(k as int) =~= Seq::<Option<String>>::empty());
    None
}

fn find_generic_param_with_index(c: &EnumVariantCall) -> (r: Option<(usize, String)>)
    ensures
        match find_generic_param_spec(*c) {
            Some((i, n)) => r matches Some((ri, rn)) && ri == i && rn@ == n,
            None => r is None,
        },
{
    let (segs, params) = match (&c.type_clause_segments, &c.generic_params) {
        (Some(s), Some(p)) => (s, p),
        _ => return None,
    };
    let mut k: usize = 0;
    assert(segs@.skip(0) =~= segs@);
    while k < segs.len()
        invariant
            k <= segs@.len(),
            c.type_clause_segments == Some(*segs),
            c.generic_params == Some(*params),
            generic_param_in(segs@, params@) == generic_param_in(segs@.skip(k as int), params@),
        decreases segs@.len() - k,
    {
        assert(segs@.skip(k as int).drop_first() =~= segs@.skip(k + 1));
        assert(segs@.skip(k as int)[0] == segs@[k as int]);
        match &segs[k] {
            Some(name) => {
                let nm = name.as_str();
                let found = param_position_exec(params, nm);
                match found {
                    Some(i) => {
                        assert(generic_param_in(segs@.skip(k as int), params@) == Some((i as int, name@)));
                        let copy = crate::lints::manual::helpers::copy_string(name);
                        return Some((i, copy));
                    },
                    None => {},
                }
            },
            None => {},
        }
        k = k + 1;
    }
    assert(segs@.skip(k as int) =~= Seq::<Option<String>>::empty());
    None
}

fn has_unit_generic_arg_at_index(path: &Vec<CallPathSegment>, index: usize, name: &str) -> (r: bool)
    ensures
        r == has_unit_generic_arg_spec(path@, index as int, name@),
{
    let mut k: usize = 0;
    while k < path.len()
        invariant
            k <= path@.len(),
            forall|j: int| 0 <= j < k ==> !#[trigger] segment_has_unit_arg(path@[j], index as int, name@),
        decreases path@.len() - k,
    {
        match &path[k] {
            CallPathSegment::WithGenericArgs(args) => {
                if index < args.len() {
                    let hit = match &args[index] {
                        GenericArgSyntax::Named { name: n, value_is_unit } =>
                            text::str_eq(n.as_str(), name) && *value_is_unit == Some(true),
                        GenericArgSyntax::Unnamed { value_is_unit } => *value_is_unit == Some(true),
                    };
                    if hit {
                        assert(segment_has_unit_arg(path@[k as int], index as int, name@));
                        return true;
                    }
                }
            },
            CallPathSegment::Simple => {},
        }
        k = k + 1;
    }
    false
}

/// Whether a variant construction has redundant brackets (see
/// `redundant_brackets_spec`).
pub fn is_redundant_enum_brackets_call(c: &EnumVariantCall) -> (r: bool)
    ensures
        r == redundant_brackets_spec(*c),
{
    if !c.variant_ty_is_unit {
        return false;
    }
    match &c.args_are_unit {
        Some(args) => {
            if args.len() != 1 || !args[0] {
                return false;
            }
        },
        None => return false,
    }
    match find_generic_param_with_index(c) {
        None => true,
        Some((i, name)) => has_unit_generic_arg_at_index(&c.call_path, i, name.as_str()),
    }
}

/// The fix: the call's text without its argument list (compared without
/// trivia) at its end; none where the text does not end with it.
pub open spec fn fix_redundant_brackets_spec(call_text: Seq<char>, arguments: Seq<char>) -> Option<Seq<char>> {
    if text::has_suffix(call_text, arguments) {
        Some(call_text.take(call_text.len() - arguments.len()))
    } else {
        None
    }
}

/// The fix of redundant brackets (see `fix_redundant_brackets_spec`).
pub fn fix_redundant_brackets_in_enum_call(call_text: &str, arguments: &str) -> (r: Option<String>)
    ensures
        text::opt_view(r) == fix_redundant_brackets_spec(call_text@, arguments@),
{
    let t = text::chars_of(call_text);
    let a = text::chars_of(arguments);
    if a.len() > t.len() {
        return None;
    }
    let start = t.len() - a.len();
    proof {
        let s = t@.skip(start as int);
        assert(s.take(a@.len() as int) =~= s);
    }
    if text::matches_at(t.as_slice(), start, a.as_slice()) {
        let r = text::subrange_chars(t.as_slice(), 0, start);
        assert(r@ =~= t@.take(start as int));
        Some(text::string_of(r.as_slice()))
    } else {
        None
    }
}


/// For each variant construction of a function body, whether its brackets
/// are redundant.
pub fn check_redundant_brackets_in_enum_call(calls: &Vec<EnumVariantCall>) -> (r: Vec<bool>)
    ensures
        r@.len() == calls@.len(),
        forall|i: int| 0 <= i < r@.len() ==> #[trigger] r@[i] == redundant_brackets_spec(calls@[i]),
{
    let mut out: Vec<bool> = Vec::new();
    let mut k: usize = 0;
    while k < calls.len()
        invariant
            k <= calls@.len(),
            out@.len() == k,
            forall|i: int| 0 <= i < k ==> #[trigger] out@[i] == redundant_brackets_spec(calls@[i]),
        decreases calls@.len() - k,
    {
        out.push(is_redundant_enum_brackets_call(&calls[k]));
        k = k + 1;
    }
    out
}


/// The fix removes exactly the argument list at the end of the call: put
/// back, it gives the call's text.
pub proof fn lemma_fix_brackets_restores(call_text: Seq<char>, arguments: Seq<char>)
    ensures
        fix_redundant_brackets_spec(call_text, arguments) matches Some(f) ==> f + arguments == call_text,
{
    if text::has_suffix(call_text, arguments) {
        assert(call_text.take(call_text.len() - arguments.len()) + arguments =~= call_text);
    }
}

} // verus!
