//! The lints: for each, the decision on the modelled code and the
//! rewriting that its fix proposes.
use vstd::prelude::*;

pub mod assert_on_const;
pub mod breaks;
pub mod clone_on_copy;
pub mod collapsible_match;
pub mod double_parens;
pub mod duplicate_underscore_args;
pub mod empty_enum_brackets_variant;
pub mod enum_variant_names;
pub mod ifs;
pub mod int_op_one;
pub mod loops;
pub mod manual;
pub mod panic;
pub mod performance;
pub mod redundant_brackets_in_enum_call;
pub mod redundant_into;
pub mod unit_return_type;
pub mod unwrap_syscall;

verus! {

/// Full path of `Option::Some`.
pub const SOME: &'static str = "core::option::Option::Some";
/// Full path of `Option::None`.
pub const NONE: &'static str = "core::option::Option::None";
/// Full path of `Result::Ok`.
pub const OK: &'static str = "core::result::Result::Ok";
/// Full path of `Result::Err`.
pub const ERR: &'static str = "core::result::Result::Err";
/// Full path of `true`.
pub const TRUE: &'static str = "core::bool::True";
/// Full path of `false`.
pub const FALSE: &'static str = "core::bool::False";
/// Full path of `panic_with_felt252`.
pub const PANIC_WITH_FELT252: &'static str = "core::panic_with_felt252";
/// Full path of `Default::default`.
pub const DEFAULT: &'static str = "core::traits::Default::default";
/// Full path of `ArrayTrait::new`.
pub const ARRAY_NEW: &'static str = "core::array::ArrayTrait::new";

} // verus!
