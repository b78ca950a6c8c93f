//! The lints known to the linter and their metadata: the name under which
//! a lint is allowed or configured, its diagnostic message, its kind,
//! whether it is on by default, whether it has a fix and the fix's message.
use vstd::prelude::*;
use crate::text;

verus! {

/// The kind of a lint, as reported for a diagnostic message.
#[derive(Debug, Clone, Copy, PartialEq, Eq, Structural)]
pub enum CairoLintKind {
    RedundantOperation,
    BreakUnit,
    CloneOnCopy,
    CollapsibleMatch,
    DoubleParens,
    DuplicateUnderscoreArgs,
    EnumEmptyVariantBrackets,
    EnumVariantNames,
    CollapsibleIf,
    CollapsibleIfElse,
    EquatableIfLet,
    DuplicateIfCondition,
    IntGePlusOne,
    IntGeMinOne,
    IntLePlusOne,
    IntLeMinOne,
    LoopForWhile,
    ManualAssert,
    ManualExpect,
    ManualExpectErr,
    ManualIsSome,
    ManualIsNone,
    ManualIsOk,
    ManualIsErr,
    ManualIsEmpty,
    ManualUnwrapOr,
    ManualUnwrapOrDefault,
    Panic,
    InefficientUnwrapOr,
    RedundantInto,
    UnitReturnType,
    UnwrapSyscall,
    Unknown,
}

/// Every lint of the linter.
#[derive(Debug, Clone, Copy, PartialEq, Eq, Structural)]
pub enum LintRule {
    AssertOnConst,
    BreakUnit,
    CloneOnCopy,
    CollapsibleMatch,
    DoubleParens,
    DuplicateUnderscoreArgs,
    EmptyEnumBracketsVariant,
    EnumVariantNames,
    CollapsibleIf,
    CollapsibleIfElse,
    EquatableIfLet,
    DuplicateIfCondition,
    IntegerGreaterEqualPlusOne,
    IntegerGreaterEqualMinusOne,
    IntegerLessEqualPlusOne,
    IntegerLessEqualMinusOne,
    LoopForWhile,
    ManualAssert,
    ManualExpect,
    ManualExpectErr,
    ManualIsSome,
    ManualIsNone,
    ManualIsOk,
    ManualIsErr,
    ManualIsEmpty,
    ManualUnwrapOr,
    ManualUnwrapOrDefault,
    PanicInCode,
    InefficientUnwrapOr,
    RedundantBracketsInEnumCall,
    RedundantInto,
    UnitReturnType,
    UnwrapSyscall,
}

impl LintRule {
    /// The name under which the lint is allowed or configured.
    pub open spec fn name(self) -> Seq<char> {
        match self {
            LintRule::AssertOnConst => "assert_on_const"@,
            LintRule::BreakUnit => "break_unit"@,
            LintRule::CloneOnCopy => "clone_on_copy"@,
            LintRule::CollapsibleMatch => "collapsible_match"@,
            LintRule::DoubleParens => "double_parens"@,
            LintRule::DuplicateUnderscoreArgs => "duplicate_underscore_args"@,
            LintRule::EmptyEnumBracketsVariant => "empty_enum_brackets_variant"@,
            LintRule::EnumVariantNames => "enum_variant_names"@,
            LintRule::CollapsibleIf => "collapsible_if"@,
            LintRule::CollapsibleIfElse => "collapsible_if_else"@,
            LintRule::EquatableIfLet => "equatable_if_let"@,
            LintRule::DuplicateIfCondition => "ifs_same_cond"@,
            LintRule::IntegerGreaterEqualPlusOne => "int_ge_plus_one"@,
            LintRule::IntegerGreaterEqualMinusOne => "int_ge_min_one"@,
            LintRule::IntegerLessEqualPlusOne => "int_le_plus_one"@,
            LintRule::IntegerLessEqualMinusOne => "int_le_min_one"@,
            LintRule::LoopForWhile => "loop_for_while"@,
            LintRule::ManualAssert => "manual_assert"@,
            LintRule::ManualExpect => "manual_expect"@,
            LintRule::ManualExpectErr => "manual_expect_err"@,
            LintRule::ManualIsSome => "manual_is_some"@,
            LintRule::ManualIsNone => "manual_is_none"@,
            LintRule::ManualIsOk => "manual_is_ok"@,
            LintRule::ManualIsErr => "manual_is_err"@,
            LintRule::ManualIsEmpty => "manual_is_empty"@,
            LintRule::ManualUnwrapOr => "manual_unwrap_or"@,
            LintRule::ManualUnwrapOrDefault => "manual_unwrap_or_default"@,
            LintRule::PanicInCode => "panic"@,
            LintRule::InefficientUnwrapOr => "inefficient_unwrap_or"@,
            LintRule::RedundantBracketsInEnumCall => "redundant_brackets_in_enum_call"@,
            LintRule::RedundantInto => "redundant_into"@,
            LintRule::UnitReturnType => "unit_return_type"@,
            LintRule::UnwrapSyscall => "unwrap_syscall"@,
        }
    }

    /// The message of the diagnostics that the lint emits.
    pub open spec fn message(self) -> Seq<char> {
        match self {
            LintRule::AssertOnConst => "Unnecessary assert on a const value detected."@,
            LintRule::BreakUnit => "unnecessary double parentheses found after break. Consider removing them."@,
            LintRule::CloneOnCopy => "using `clone` on type which implements `Copy` trait"@,
            LintRule::CollapsibleMatch => "Nested `match` statements can be collapsed into a single `match` statement."@,
            LintRule::DoubleParens => "unnecessary double parentheses found. Consider removing them."@,
            LintRule::DuplicateUnderscoreArgs => "duplicate arguments, having another argument having almost the same name makes code comprehension and documentation more difficult"@,
            LintRule::EmptyEnumBracketsVariant => "redundant parentheses in enum variant definition"@,
            LintRule::EnumVariantNames => "All enum variants are prefixed or suffixed by the same characters."@,
            LintRule::CollapsibleIf => "Each `if`-statement adds one level of nesting, which makes code look more complex than it really is."@,
            LintRule::CollapsibleIfElse => "Consider using else if instead of else { if ... }"@,
            LintRule::EquatableIfLet => "`if let` pattern used for equatable value. Consider using a simple comparison `==` instead"@,
            LintRule::DuplicateIfCondition => "Consecutive `if` with the same condition found."@,
            LintRule::IntegerGreaterEqualPlusOne => "Unnecessary add operation in integer >= comparison. Use simplified comparison."@,
            LintRule::IntegerGreaterEqualMinusOne => "Unnecessary sub operation in integer >= comparison. Use simplified comparison."@,
            LintRule::IntegerLessEqualPlusOne => "Unnecessary add operation in integer <= comparison. Use simplified comparison."@,
            LintRule::IntegerLessEqualMinusOne => "Unnecessary sub operation in integer <= comparison. Use simplified comparison."@,
            LintRule::LoopForWhile => "you seem to be trying to use `loop`. Consider replacing this `loop` with a `while` loop for clarity and conciseness"@,
            LintRule::ManualAssert => "Manual assert detected. Consider using assert!() macro instead."@,
            LintRule::ManualExpect => "Manual match for expect detected. Consider using `expect()` instead"@,
            LintRule::ManualExpectErr => "Manual match for `expect_err` detected. Consider using `expect_err()` instead"@,
            LintRule::ManualIsSome => "Manual match for `is_some` detected. Consider using `is_some()` instead"@,
            LintRule::ManualIsNone => "Manual match for `is_none` detected. Consider using `is_none()` instead"@,
            LintRule::ManualIsOk => "Manual match for `is_ok` detected. Consider using `is_ok()` instead"@,
            LintRule::ManualIsErr => "Manual match for `is_err` detected. Consider using `is_err()` instead"@,
            LintRule::ManualIsEmpty => "Manual check for `is_empty` detected. Consider using `is_empty()` instead"@,
            LintRule::ManualUnwrapOr => "Manual `unwrap_or` detected. Consider using `unwrap_or()` instead."@,
            LintRule::ManualUnwrapOrDefault => "This can be done in one call with `.unwrap_or_default()`"@,
            LintRule::PanicInCode => "Leaving `panic` in the code is discouraged."@,
            LintRule::InefficientUnwrapOr => "Inefficient `unwrap_or` detected. Consider using `unwrap_or_else()` instead."@,
            LintRule::RedundantBracketsInEnumCall => "redundant parentheses in enum call"@,
            LintRule::RedundantInto => "Redundant conversion: input and output types are the same."@,
            LintRule::UnitReturnType => "unnecessary declared unit return type `()`"@,
            LintRule::UnwrapSyscall => "consider using `unwrap_syscall` instead of `unwrap`"@,
        }
    }

    /// The kind of the lint.
    pub open spec fn kind(self) -> CairoLintKind {
        match self {
            LintRule::AssertOnConst => CairoLintKind::RedundantOperation,
            LintRule::BreakUnit => CairoLintKind::BreakUnit,
            LintRule::CloneOnCopy => CairoLintKind::CloneOnCopy,
            LintRule::CollapsibleMatch => CairoLintKind::CollapsibleMatch,
            LintRule::DoubleParens => CairoLintKind::DoubleParens,
            LintRule::DuplicateUnderscoreArgs => CairoLintKind::DuplicateUnderscoreArgs,
            LintRule::EmptyEnumBracketsVariant => CairoLintKind::EnumEmptyVariantBrackets,
            LintRule::EnumVariantNames => CairoLintKind::EnumVariantNames,
            LintRule::CollapsibleIf => CairoLintKind::CollapsibleIf,
            LintRule::CollapsibleIfElse => CairoLintKind::CollapsibleIfElse,
            LintRule::EquatableIfLet => CairoLintKind::EquatableIfLet,
            LintRule::DuplicateIfCondition => CairoLintKind::DuplicateIfCondition,
            LintRule::IntegerGreaterEqualPlusOne => CairoLintKind::IntGePlusOne,
            LintRule::IntegerGreaterEqualMinusOne => CairoLintKind::IntGeMinOne,
            LintRule::IntegerLessEqualPlusOne => CairoLintKind::IntLePlusOne,
            LintRule::IntegerLessEqualMinusOne => CairoLintKind::IntLeMinOne,
            LintRule::LoopForWhile => CairoLintKind::LoopForWhile,
            LintRule::ManualAssert => CairoLintKind::ManualAssert,
            LintRule::ManualExpect => CairoLintKind::ManualExpect,
            LintRule::ManualExpectErr => CairoLintKind::ManualExpectErr,
            LintRule::ManualIsSome => CairoLintKind::ManualIsSome,
            LintRule::ManualIsNone => CairoLintKind::ManualIsNone,
            LintRule::ManualIsOk => CairoLintKind::ManualIsOk,
            LintRule::ManualIsErr => CairoLintKind::ManualIsErr,
            LintRule::ManualIsEmpty => CairoLintKind::ManualIsEmpty,
            LintRule::ManualUnwrapOr => CairoLintKind::ManualUnwrapOr,
            LintRule::ManualUnwrapOrDefault => CairoLintKind::ManualUnwrapOrDefault,
            LintRule::PanicInCode => CairoLintKind::Panic,
            LintRule::InefficientUnwrapOr => CairoLintKind::InefficientUnwrapOr,
            LintRule::RedundantBracketsInEnumCall => CairoLintKind::EnumEmptyVariantBrackets,
            LintRule::RedundantInto => CairoLintKind::RedundantInto,
            LintRule::UnitReturnType => CairoLintKind::UnitReturnType,
            LintRule::UnwrapSyscall => CairoLintKind::UnwrapSyscall,
        }
    }

    /// Whether the lint is on when the configuration does not name it.
    pub open spec fn enabled(self) -> bool {
        match self {
            LintRule::EnumVariantNames => false,
            LintRule::PanicInCode => false,
            _ => true,
        }
    }

    /// Whether the lint proposes a fix.
    pub open spec fn has_fixer(self) -> bool {
        match self {
            LintRule::AssertOnConst => false,
            LintRule::DuplicateUnderscoreArgs => false,
            LintRule::DuplicateIfCondition => false,
            LintRule::PanicInCode => false,
            LintRule::RedundantInto => false,
            _ => true,
        }
    }

    /// The description of the lint's fix, when it has one.
    pub open spec fn fix_message(self) -> Option<Seq<char>> {
        match self {
            LintRule::BreakUnit => Some("Remove unnecessary parentheses from break"@),
            LintRule::CloneOnCopy => Some("Remove redundant `.clone()`"@),
            LintRule::CollapsibleMatch => Some("Combine nested matches into a single match"@),
            LintRule::DoubleParens => Some("Remove nested parentheses"@),
            LintRule::EmptyEnumBracketsVariant => Some("Remove unit type definition from enum variant"@),
            LintRule::EnumVariantNames => Some("Remove redundant prefix/suffix from enum variants"@),
            LintRule::CollapsibleIf => Some("Combine nested ifs into a single condition"@),
            LintRule::CollapsibleIfElse => Some("Use else-if instead of nested if"@),
            LintRule::EquatableIfLet => Some("Replace `if let` with `==` comparison"@),
            LintRule::IntegerGreaterEqualPlusOne => Some("Replace with simplified '>' comparison"@),
            LintRule::IntegerGreaterEqualMinusOne => Some("Replace with simplified '>' comparison"@),
            LintRule::IntegerLessEqualPlusOne => Some("Replace with simplified '<' comparison"@),
            LintRule::IntegerLessEqualMinusOne => Some("Replace with simplified '<' comparison"@),
            LintRule::LoopForWhile => Some("Replace `loop` with `while` for clarity"@),
            LintRule::ManualAssert => Some("Replace manual assert with `assert!` macro"@),
            LintRule::ManualExpect => Some("Replace manual `expect` with `expect()` method"@),
            LintRule::ManualExpectErr => Some("Replace manual `expect_err` with `expect_err()` method"@),
            LintRule::ManualIsSome => Some("Replace manual check with `is_some()`"@),
            LintRule::ManualIsNone => Some("Replace manual check with `is_none()`"@),
            LintRule::ManualIsOk => Some("Replace manual check with `is_ok()`"@),
            LintRule::ManualIsErr => Some("Replace manual check with `is_err()`"@),
            LintRule::ManualIsEmpty => Some("Replace condition with `is_empty()` method"@),
            LintRule::ManualUnwrapOr => Some("Use `unwrap_or()` instead of manual pattern"@),
            LintRule::ManualUnwrapOrDefault => Some("Use `unwrap_or_default()` instead of manual pattern"@),
            LintRule::InefficientUnwrapOr => Some("Use `unwrap_or_else()` instead of `unwrap_or()`"@),
            LintRule::RedundantBracketsInEnumCall => Some("Remove redundant parentheses in enum call"@),
            LintRule::UnitReturnType => Some("Remove explicit unit return type"@),
            LintRule::UnwrapSyscall => Some("Replace with `unwrap_syscall()` for syscall results"@),
            _ => None,
        }
    }

    /// The name under which the lint is allowed or configured.
    pub fn allowed_name(&self) -> (r: &'static str)
        ensures
            r@ == self.name(),
    {
        match self {
            LintRule::AssertOnConst => "assert_on_const",
            LintRule::BreakUnit => "break_unit",
            LintRule::CloneOnCopy => "clone_on_copy",
            LintRule::CollapsibleMatch => "collapsible_match",
            LintRule::DoubleParens => "double_parens",
            LintRule::DuplicateUnderscoreArgs => "duplicate_underscore_args",
            LintRule::EmptyEnumBracketsVariant => "empty_enum_brackets_variant",
            LintRule::EnumVariantNames => "enum_variant_names",
            LintRule::CollapsibleIf => "collapsible_if",
            LintRule::CollapsibleIfElse => "collapsible_if_else",
            LintRule::EquatableIfLet => "equatable_if_let",
            LintRule::DuplicateIfCondition => "ifs_same_cond",
            LintRule::IntegerGreaterEqualPlusOne => "int_ge_plus_one",
            LintRule::IntegerGreaterEqualMinusOne => "int_ge_min_one",
            LintRule::IntegerLessEqualPlusOne => "int_le_plus_one",
            LintRule::IntegerLessEqualMinusOne => "int_le_min_one",
            LintRule::LoopForWhile => "loop_for_while",
            LintRule::ManualAssert => "manual_assert",
            LintRule::ManualExpect => "manual_expect",
            LintRule::ManualExpectErr => "manual_expect_err",
            LintRule::ManualIsSome => "manual_is_some",
            LintRule::ManualIsNone => "manual_is_none",
            LintRule::ManualIsOk => "manual_is_ok",
            LintRule::ManualIsErr => "manual_is_err",
            LintRule::ManualIsEmpty => "manual_is_empty",
            LintRule::ManualUnwrapOr => "manual_unwrap_or",
            LintRule::ManualUnwrapOrDefault => "manual_unwrap_or_default",
            LintRule::PanicInCode => "panic",
            LintRule::InefficientUnwrapOr => "inefficient_unwrap_or",
            LintRule::RedundantBracketsInEnumCall => "redundant_brackets_in_enum_call",
            LintRule::RedundantInto => "redundant_into",
            LintRule::UnitReturnType => "unit_return_type",
            LintRule::UnwrapSyscall => "unwrap_syscall",
        }
    }

    /// The message of the diagnostics that the lint emits.
    pub fn diagnostic_message(&self) -> (r: &'static str)
        ensures
            r@ == self.message(),
    {
        match self {
            LintRule::AssertOnConst => "Unnecessary assert on a const value detected.",
            LintRule::BreakUnit => "unnecessary double parentheses found after break. Consider removing them.",
            LintRule::CloneOnCopy => "using `clone` on type which implements `Copy` trait",
            LintRule::CollapsibleMatch => "Nested `match` statements can be collapsed into a single `match` statement.",
            LintRule::DoubleParens => "unnecessary double parentheses found. Consider removing them.",
            LintRule::DuplicateUnderscoreArgs => "duplicate arguments, having another argument having almost the same name makes code comprehension and documentation more difficult",
            LintRule::EmptyEnumBracketsVariant => "redundant parentheses in enum variant definition",
            LintRule::EnumVariantNames => "All enum variants are prefixed or suffixed by the same characters.",
            LintRule::CollapsibleIf => "Each `if`-statement adds one level of nesting, which makes code look more complex than it really is.",
            LintRule::CollapsibleIfElse => "Consider using else if instead of else { if ... }",
            LintRule::EquatableIfLet => "`if let` pattern used for equatable value. Consider using a simple comparison `==` instead",
            LintRule::DuplicateIfCondition => "Consecutive `if` with the same condition found.",
            LintRule::IntegerGreaterEqualPlusOne => "Unnecessary add operation in integer >= comparison. Use simplified comparison.",
            LintRule::IntegerGreaterEqualMinusOne => "Unnecessary sub operation in integer >= comparison. Use simplified comparison.",
            LintRule::IntegerLessEqualPlusOne => "Unnecessary add operation in integer <= comparison. Use simplified comparison.",
            LintRule::IntegerLessEqualMinusOne => "Unnecessary sub operation in integer <= comparison. Use simplified comparison.",
            LintRule::LoopForWhile => "you seem to be trying to use `loop`. Consider replacing this `loop` with a `while` loop for clarity and conciseness",
            LintRule::ManualAssert => "Manual assert detected. Consider using assert!() macro instead.",
            LintRule::ManualExpect => "Manual match for expect detected. Consider using `expect()` instead",
            LintRule::ManualExpectErr => "Manual match for `expect_err` detected. Consider using `expect_err()` instead",
            LintRule::ManualIsSome => "Manual match for `is_some` detected. Consider using `is_some()` instead",
            LintRule::ManualIsNone => "Manual match for `is_none` detected. Consider using `is_none()` instead",
            LintRule::ManualIsOk => "Manual match for `is_ok` detected. Consider using `is_ok()` instead",
            LintRule::ManualIsErr => "Manual match for `is_err` detected. Consider using `is_err()` instead",
            LintRule::ManualIsEmpty => "Manual check for `is_empty` detected. Consider using `is_empty()` instead",
            LintRule::ManualUnwrapOr => "Manual `unwrap_or` detected. Consider using `unwrap_or()` instead.",
            LintRule::ManualUnwrapOrDefault => "This can be done in one call with `.unwrap_or_default()`",
            LintRule::PanicInCode => "Leaving `panic` in the code is discouraged.",
            LintRule::InefficientUnwrapOr => "Inefficient `unwrap_or` detected. Consider using `unwrap_or_else()` instead.",
            LintRule::RedundantBracketsInEnumCall => "redundant parentheses in enum call",
            LintRule::RedundantInto => "Redundant conversion: input and output types are the same.",
            LintRule::UnitReturnType => "unnecessary declared unit return type `()`",
            LintRule::UnwrapSyscall => "consider using `unwrap_syscall` instead of `unwrap`",
        }
    }

    /// The kind of the lint.
    pub fn lint_kind(&self) -> (r: CairoLintKind)
        ensures
            r == self.kind(),
    {
        match self {
            LintRule::AssertOnConst => CairoLintKind::RedundantOperation,
            LintRule::BreakUnit => CairoLintKind::BreakUnit,
            LintRule::CloneOnCopy => CairoLintKind::CloneOnCopy,
            LintRule::CollapsibleMatch => CairoLintKind::CollapsibleMatch,
            LintRule::DoubleParens => CairoLintKind::DoubleParens,
            LintRule::DuplicateUnderscoreArgs => CairoLintKind::DuplicateUnderscoreArgs,
            LintRule::EmptyEnumBracketsVariant => CairoLintKind::EnumEmptyVariantBrackets,
            LintRule::EnumVariantNames => CairoLintKind::EnumVariantNames,
            LintRule::CollapsibleIf => CairoLintKind::CollapsibleIf,
            LintRule::CollapsibleIfElse => CairoLintKind::CollapsibleIfElse,
            LintRule::EquatableIfLet => CairoLintKind::EquatableIfLet,
            LintRule::DuplicateIfCondition => CairoLintKind::DuplicateIfCondition,
            LintRule::IntegerGreaterEqualPlusOne => CairoLintKind::IntGePlusOne,
            LintRule::IntegerGreaterEqualMinusOne => CairoLintKind::IntGeMinOne,
            LintRule::IntegerLessEqualPlusOne => CairoLintKind::IntLePlusOne,
            LintRule::IntegerLessEqualMinusOne => CairoLintKind::IntLeMinOne,
            LintRule::LoopForWhile => CairoLintKind::LoopForWhile,
            LintRule::ManualAssert => CairoLintKind::ManualAssert,
            LintRule::ManualExpect => CairoLintKind::ManualExpect,
            LintRule::ManualExpectErr => CairoLintKind::ManualExpectErr,
            LintRule::ManualIsSome => CairoLintKind::ManualIsSome,
            LintRule::ManualIsNone => CairoLintKind::ManualIsNone,
            LintRule::ManualIsOk => CairoLintKind::ManualIsOk,
            LintRule::ManualIsErr => CairoLintKind::ManualIsErr,
            LintRule::ManualIsEmpty => CairoLintKind::ManualIsEmpty,
            LintRule::ManualUnwrapOr => CairoLintKind::ManualUnwrapOr,
            LintRule::ManualUnwrapOrDefault => CairoLintKind::ManualUnwrapOrDefault,
            LintRule::PanicInCode => CairoLintKind::Panic,
            LintRule::InefficientUnwrapOr => CairoLintKind::InefficientUnwrapOr,
            LintRule::RedundantBracketsInEnumCall => CairoLintKind::EnumEmptyVariantBrackets,
            LintRule::RedundantInto => CairoLintKind::RedundantInto,
            LintRule::UnitReturnType => CairoLintKind::UnitReturnType,
            LintRule::UnwrapSyscall => CairoLintKind::UnwrapSyscall,
        }
    }

    /// Whether the lint is on when the configuration does not name it.
    pub fn is_enabled(&self) -> (r: bool)
        ensures
            r == self.enabled(),
    {
        match self {
            LintRule::EnumVariantNames => false,
            LintRule::PanicInCode => false,
            _ => true,
        }
    }

    /// Whether the lint proposes a fix.
    pub fn lint_has_fixer(&self) -> (r: bool)
        ensures
            r == self.has_fixer(),
    {
        match self {
            LintRule::AssertOnConst => false,
            LintRule::DuplicateUnderscoreArgs => false,
            LintRule::DuplicateIfCondition => false,
            LintRule::PanicInCode => false,
            LintRule::RedundantInto => false,
            _ => true,
        }
    }

    /// The description of the lint's fix, when it has one.
    pub fn lint_fix_message(&self) -> (r: Option<&'static str>)
        ensures
            match (r, self.fix_message()) {
                (Some(s), Some(t)) => s@ == t,
                (None, None) => true,
                _ => false,
            },
    {
        match self {
            LintRule::BreakUnit => Some("Remove unnecessary parentheses from break"),
            LintRule::CloneOnCopy => Some("Remove redundant `.clone()`"),
            LintRule::CollapsibleMatch => Some("Combine nested matches into a single match"),
            LintRule::DoubleParens => Some("Remove nested parentheses"),
            LintRule::EmptyEnumBracketsVariant => Some("Remove unit type definition from enum variant"),
            LintRule::EnumVariantNames => Some("Remove redundant prefix/suffix from enum variants"),
            LintRule::CollapsibleIf => Some("Combine nested ifs into a single condition"),
            LintRule::CollapsibleIfElse => Some("Use else-if instead of nested if"),
            LintRule::EquatableIfLet => Some("Replace `if let` with `==` comparison"),
            LintRule::IntegerGreaterEqualPlusOne => Some("Replace with simplified '>' comparison"),
            LintRule::IntegerGreaterEqualMinusOne => Some("Replace with simplified '>' comparison"),
            LintRule::IntegerLessEqualPlusOne => Some("Replace with simplified '<' comparison"),
            LintRule::IntegerLessEqualMinusOne => Some("Replace with simplified '<' comparison"),
            LintRule::LoopForWhile => Some("Replace `loop` with `while` for clarity"),
            LintRule::ManualAssert => Some("Replace manual assert with `assert!` macro"),
            LintRule::ManualExpect => Some("Replace manual `expect` with `expect()` method"),
            LintRule::ManualExpectErr => Some("Replace manual `expect_err` with `expect_err()` method"),
            LintRule::ManualIsSome => Some("Replace manual check with `is_some()`"),
            LintRule::ManualIsNone => Some("Replace manual check with `is_none()`"),
            LintRule::ManualIsOk => Some("Replace manual check with `is_ok()`"),
            LintRule::ManualIsErr => Some("Replace manual check with `is_err()`"),
            LintRule::ManualIsEmpty => Some("Replace condition with `is_empty()` method"),
            LintRule::ManualUnwrapOr => Some("Use `unwrap_or()` instead of manual pattern"),
            LintRule::ManualUnwrapOrDefault => Some("Use `unwrap_or_default()` instead of manual pattern"),
            LintRule::InefficientUnwrapOr => Some("Use `unwrap_or_else()` instead of `unwrap_or()`"),
            LintRule::RedundantBracketsInEnumCall => Some("Remove redundant parentheses in enum call"),
            LintRule::UnitReturnType => Some("Remove explicit unit return type"),
            LintRule::UnwrapSyscall => Some("Replace with `unwrap_syscall()` for syscall results"),
            _ => None,
        }
    }
}

/// All lints, in the order in which they are consulted.
pub open spec fn all_rules() -> Seq<LintRule> {
    seq![
        LintRule::AssertOnConst,
        LintRule::BreakUnit,
        LintRule::CloneOnCopy,
        LintRule::CollapsibleMatch,
        LintRule::DoubleParens,
        LintRule::DuplicateUnderscoreArgs,
        LintRule::EmptyEnumBracketsVariant,
        LintRule::EnumVariantNames,
        LintRule::CollapsibleIf,
        LintRule::CollapsibleIfElse,
        LintRule::EquatableIfLet,
        LintRule::DuplicateIfCondition,
        LintRule::IntegerGreaterEqualPlusOne,
        LintRule::IntegerGreaterEqualMinusOne,
        LintRule::IntegerLessEqualPlusOne,
        LintRule::IntegerLessEqualMinusOne,
        LintRule::LoopForWhile,
        LintRule::ManualAssert,
        LintRule::ManualExpect,
        LintRule::ManualExpectErr,
        LintRule::ManualIsSome,
        LintRule::ManualIsNone,
        LintRule::ManualIsOk,
        LintRule::ManualIsErr,
        LintRule::ManualIsEmpty,
        LintRule::ManualUnwrapOr,
        LintRule::ManualUnwrapOrDefault,
        LintRule::PanicInCode,
        LintRule::InefficientUnwrapOr,
        LintRule::RedundantBracketsInEnumCall,
        LintRule::RedundantInto,
        LintRule::UnitReturnType,
        LintRule::UnwrapSyscall,
    ]
}

/// All lints, in the order in which they are consulted.
pub fn all_lint_rules() -> (r: Vec<LintRule>)
    ensures
        r@ == all_rules(),
{
    let r = vec![
        LintRule::AssertOnConst,
        LintRule::BreakUnit,
        LintRule::CloneOnCopy,
        LintRule::CollapsibleMatch,
        LintRule::DoubleParens,
        LintRule::DuplicateUnderscoreArgs,
        LintRule::EmptyEnumBracketsVariant,
        LintRule::EnumVariantNames,
        LintRule::CollapsibleIf,
        LintRule::CollapsibleIfElse,
        LintRule::EquatableIfLet,
        LintRule::DuplicateIfCondition,
        LintRule::IntegerGreaterEqualPlusOne,
        LintRule::IntegerGreaterEqualMinusOne,
        LintRule::IntegerLessEqualPlusOne,
        LintRule::IntegerLessEqualMinusOne,
        LintRule::LoopForWhile,
        LintRule::ManualAssert,
        LintRule::ManualExpect,
        LintRule::ManualExpectErr,
        LintRule::ManualIsSome,
        LintRule::ManualIsNone,
        LintRule::ManualIsOk,
        LintRule::ManualIsErr,
        LintRule::ManualIsEmpty,
        LintRule::ManualUnwrapOr,
        LintRule::ManualUnwrapOrDefault,
        LintRule::PanicInCode,
        LintRule::InefficientUnwrapOr,
        LintRule::RedundantBracketsInEnumCall,
        LintRule::RedundantInto,
        LintRule::UnitReturnType,
        LintRule::UnwrapSyscall,
    ];
    assert(r@ =~= all_rules());
    r
}

/// Position of a lint in `all_rules`.
pub open spec fn rule_index(r: LintRule) -> int {
    match r {
        LintRule::AssertOnConst => 0,
        LintRule::BreakUnit => 1,
        LintRule::CloneOnCopy => 2,
        LintRule::CollapsibleMatch => 3,
        LintRule::DoubleParens => 4,
        LintRule::DuplicateUnderscoreArgs => 5,
        LintRule::EmptyEnumBracketsVariant => 6,
        LintRule::EnumVariantNames => 7,
        LintRule::CollapsibleIf => 8,
        LintRule::CollapsibleIfElse => 9,
        LintRule::EquatableIfLet => 10,
        LintRule::DuplicateIfCondition => 11,
        LintRule::IntegerGreaterEqualPlusOne => 12,
        LintRule::IntegerGreaterEqualMinusOne => 13,
        LintRule::IntegerLessEqualPlusOne => 14,
        LintRule::IntegerLessEqualMinusOne => 15,
        LintRule::LoopForWhile => 16,
        LintRule::ManualAssert => 17,
        LintRule::ManualExpect => 18,
        LintRule::ManualExpectErr => 19,
        LintRule::ManualIsSome => 20,
        LintRule::ManualIsNone => 21,
        LintRule::ManualIsOk => 22,
        LintRule::ManualIsErr => 23,
        LintRule::ManualIsEmpty => 24,
        LintRule::ManualUnwrapOr => 25,
        LintRule::ManualUnwrapOrDefault => 26,
        LintRule::PanicInCode => 27,
        LintRule::InefficientUnwrapOr => 28,
        LintRule::RedundantBracketsInEnumCall => 29,
        LintRule::RedundantInto => 30,
        LintRule::UnitReturnType => 31,
        LintRule::UnwrapSyscall => 32,
    }
}

/// The lint at a position of `all_rules` (the last one past the end).
pub open spec fn rule_at(i: int) -> LintRule {
    if i == 0 {
        LintRule::AssertOnConst
    } else if i == 1 {
        LintRule::BreakUnit
    } else if i == 2 {
        LintRule::CloneOnCopy
    } else if i == 3 {
        LintRule::CollapsibleMatch
    } else if i == 4 {
        LintRule::DoubleParens
    } else if i == 5 {
        LintRule::DuplicateUnderscoreArgs
    } else if i == 6 {
        LintRule::EmptyEnumBracketsVariant
    } else if i == 7 {
        LintRule::EnumVariantNames
    } else if i == 8 {
        LintRule::CollapsibleIf
    } else if i == 9 {
        LintRule::CollapsibleIfElse
    } else if i == 10 {
        LintRule::EquatableIfLet
    } else if i == 11 {
        LintRule::DuplicateIfCondition
    } else if i == 12 {
        LintRule::IntegerGreaterEqualPlusOne
    } else if i == 13 {
        LintRule::IntegerGreaterEqualMinusOne
    } else if i == 14 {
        LintRule::IntegerLessEqualPlusOne
    } else if i == 15 {
        LintRule::IntegerLessEqualMinusOne
    } else if i == 16 {
        LintRule::LoopForWhile
    } else if i == 17 {
        LintRule::ManualAssert
    } else if i == 18 {
        LintRule::ManualExpect
    } else if i == 19 {
        LintRule::ManualExpectErr
    } else if i == 20 {
        LintRule::ManualIsSome
    } else if i == 21 {
        LintRule::ManualIsNone
    } else if i == 22 {
        LintRule::ManualIsOk
    } else if i == 23 {
        LintRule::ManualIsErr
    } else if i == 24 {
        LintRule::ManualIsEmpty
    } else if i == 25 {
        LintRule::ManualUnwrapOr
    } else if i == 26 {
        LintRule::ManualUnwrapOrDefault
    } else if i == 27 {
        LintRule::PanicInCode
    } else if i == 28 {
        LintRule::InefficientUnwrapOr
    } else if i == 29 {
        LintRule::RedundantBracketsInEnumCall
    } else if i == 30 {
        LintRule::RedundantInto
    } else if i == 31 {
        LintRule::UnitReturnType
    } else {
        LintRule::UnwrapSyscall
    }
}

/// Position of the lint whose diagnostic message is `m`, told apart by
/// length and then by characters.
pub open spec fn message_key(m: Seq<char>) -> int {
    if m.len() == 45 {
        0
    } else if m.len() == 73 {
        if m[0] == 'u' {
            1
        } else {
            24
        }
    } else if m.len() == 51 {
        if m[0] == 'u' {
            2
        } else {
            32
        }
    } else if m.len() == 75 {
        3
    } else if m.len() == 61 {
        4
    } else if m.len() == 130 {
        5
    } else if m.len() == 48 {
        6
    } else if m.len() == 66 {
        if m[0] == 'A' {
            7
        } else {
            25
        }
    } else if m.len() == 100 {
        8
    } else if m.len() == 49 {
        9
    } else if m.len() == 90 {
        10
    } else if m.len() == 47 {
        11
    } else if m.len() == 78 {
        if m[12] == 'a' {
            if m[37] == '>' {
                12
            } else {
                14
            }
        } else {
            if m[37] == '>' {
                13
            } else {
                15
            }
        }
    } else if m.len() == 115 {
        16
    } else if m.len() == 63 {
        17
    } else if m.len() == 67 {
        if m[17] == 'e' {
            18
        } else {
            22
        }
    } else if m.len() == 77 {
        19
    } else if m.len() == 71 {
        if m[21] == 's' {
            20
        } else {
            21
        }
    } else if m.len() == 69 {
        23
    } else if m.len() == 56 {
        26
    } else if m.len() == 43 {
        27
    } else if m.len() == 76 {
        28
    } else if m.len() == 34 {
        29
    } else if m.len() == 58 {
        30
    } else if m.len() == 42 {
        31
    } else {
        -1
    }
}

/// Position of the lint whose name is `m`, told apart by length and then
/// by characters.
pub open spec fn name_key(m: Seq<char>) -> int {
    if m.len() == 15 {
        if m[4] == 'r' {
            0
        } else if m[4] == 'g' {
            12
        } else if m[4] == 'l' {
            14
        } else {
            24
        }
    } else if m.len() == 10 {
        1
    } else if m.len() == 13 {
        if m[7] == 'n' {
            2
        } else if m[7] == 'p' {
            4
        } else if m[7] == 'e' {
            if m[0] == 'i' {
                11
            } else {
                18
            }
        } else if m[7] == 'a' {
            17
        } else {
            23
        }
    } else if m.len() == 17 {
        if m[0] == 'c' {
            3
        } else {
            19
        }
    } else if m.len() == 25 {
        5
    } else if m.len() == 27 {
        6
    } else if m.len() == 18 {
        7
    } else if m.len() == 14 {
        if m[10] == 'e' {
            8
        } else if m[10] == '_' {
            if m[4] == 'g' {
                13
            } else {
                15
            }
        } else if m[10] == 'h' {
            16
        } else if m[10] == 's' {
            20
        } else if m[10] == 'n' {
            21
        } else if m[10] == 'i' {
            30
        } else {
            32
        }
    } else if m.len() == 19 {
        9
    } else if m.len() == 16 {
        if m[0] == 'e' {
            10
        } else if m[0] == 'm' {
            25
        } else {
            31
        }
    } else if m.len() == 12 {
        22
    } else if m.len() == 24 {
        26
    } else if m.len() == 5 {
        27
    } else if m.len() == 21 {
        28
    } else if m.len() == 31 {
        29
    } else {
        -1
    }
}

proof fn lemma_rule_index(r: LintRule)
    ensures
        0 <= rule_index(r) < all_rules().len(),
        all_rules()[rule_index(r)] == r,
        rule_at(rule_index(r)) == r,
{
}

proof fn lemma_message_key(r: LintRule)
    ensures
        message_key(r.message()) == rule_index(r),
{
    reveal_strlit("Unnecessary assert on a const value detected.");
    reveal_strlit("unnecessary double parentheses found after break. Consider removing them.");
    reveal_strlit("using `clone` on type which implements `Copy` trait");
    reveal_strlit("Nested `match` statements can be collapsed into a single `match` statement.");
    reveal_strlit("unnecessary double parentheses found. Consider removing them.");
    reveal_strlit("duplicate arguments, having another argument having almost the same name makes code comprehension and documentation more difficult");
    reveal_strlit("redundant parentheses in enum variant definition");
    reveal_strlit("All enum variants are prefixed or suffixed by the same characters.");
    reveal_strlit("Each `if`-statement adds one level of nesting, which makes code look more complex than it really is.");
    reveal_strlit("Consider using else if instead of else { if ... }");
    reveal_strlit("`if let` pattern used for equatable value. Consider using a simple comparison `==` instead");
    reveal_strlit("Consecutive `if` with the same condition found.");
    reveal_strlit("Unnecessary add operation in integer >= comparison. Use simplified comparison.");
    reveal_strlit("Unnecessary sub operation in integer >= comparison. Use simplified comparison.");
    reveal_strlit("Unnecessary add operation in integer <= comparison. Use simplified comparison.");
    reveal_strlit("Unnecessary sub operation in integer <= comparison. Use simplified comparison.");
    reveal_strlit("you seem to be trying to use `loop`. Consider replacing this `loop` with a `while` loop for clarity and conciseness");
    reveal_strlit("Manual assert detected. Consider using assert!() macro instead.");
    reveal_strlit("Manual match for expect detected. Consider using `expect()` instead");
    reveal_strlit("Manual match for `expect_err` detected. Consider using `expect_err()` instead");
    reveal_strlit("Manual match for `is_some` detected. Consider using `is_some()` instead");
    reveal_strlit("Manual match for `is_none` detected. Consider using `is_none()` instead");
    reveal_strlit("Manual match for `is_ok` detected. Consider using `is_ok()` instead");
    reveal_strlit("Manual match for `is_err` detected. Consider using `is_err()` instead");
    reveal_strlit("Manual check for `is_empty` detected. Consider using `is_empty()` instead");
    reveal_strlit("Manual `unwrap_or` detected. Consider using `unwrap_or()` instead.");
    reveal_strlit("This can be done in one call with `.unwrap_or_default()`");
    reveal_strlit("Leaving `panic` in the code is discouraged.");
    reveal_strlit("Inefficient `unwrap_or` detected. Consider using `unwrap_or_else()` instead.");
    reveal_strlit("redundant parentheses in enum call");
    reveal_strlit("Redundant conversion: input and output types are the same.");
    reveal_strlit("unnecessary declared unit return type `()`");
    reveal_strlit("consider using `unwrap_syscall` instead of `unwrap`");
    match r {
        LintRule::AssertOnConst => {},
        LintRule::BreakUnit => {},
        LintRule::CloneOnCopy => {},
        LintRule::CollapsibleMatch => {},
        LintRule::DoubleParens => {},
        LintRule::DuplicateUnderscoreArgs => {},
        LintRule::EmptyEnumBracketsVariant => {},
        LintRule::EnumVariantNames => {},
        LintRule::CollapsibleIf => {},
        LintRule::CollapsibleIfElse => {},
        LintRule::EquatableIfLet => {},
        LintRule::DuplicateIfCondition => {},
        LintRule::IntegerGreaterEqualPlusOne => {},
        LintRule::IntegerGreaterEqualMinusOne => {},
        LintRule::IntegerLessEqualPlusOne => {},
        LintRule::IntegerLessEqualMinusOne => {},
        LintRule::LoopForWhile => {},
        LintRule::ManualAssert => {},
        LintRule::ManualExpect => {},
        LintRule::ManualExpectErr => {},
        LintRule::ManualIsSome => {},
        LintRule::ManualIsNone => {},
        LintRule::ManualIsOk => {},
        LintRule::ManualIsErr => {},
        LintRule::ManualIsEmpty => {},
        LintRule::ManualUnwrapOr => {},
        LintRule::ManualUnwrapOrDefault => {},
        LintRule::PanicInCode => {},
        LintRule::InefficientUnwrapOr => {},
        LintRule::RedundantBracketsInEnumCall => {},
        LintRule::RedundantInto => {},
        LintRule::UnitReturnType => {},
        LintRule::UnwrapSyscall => {},
    }
}

proof fn lemma_name_key(r: LintRule)
    ensures
        name_key(r.name()) == rule_index(r),
{
    reveal_strlit("assert_on_const");
    reveal_strlit("break_unit");
    reveal_strlit("clone_on_copy");
    reveal_strlit("collapsible_match");
    reveal_strlit("double_parens");
    reveal_strlit("duplicate_underscore_args");
    reveal_strlit("empty_enum_brackets_variant");
    reveal_strlit("enum_variant_names");
    reveal_strlit("collapsible_if");
    reveal_strlit("collapsible_if_else");
    reveal_strlit("equatable_if_let");
    reveal_strlit("ifs_same_cond");
    reveal_strlit("int_ge_plus_one");
    reveal_strlit("int_ge_min_one");
    reveal_strlit("int_le_plus_one");
    reveal_strlit("int_le_min_one");
    reveal_strlit("loop_for_while");
    reveal_strlit("manual_assert");
    reveal_strlit("manual_expect");
    reveal_strlit("manual_expect_err");
    reveal_strlit("manual_is_some");
    reveal_strlit("manual_is_none");
    reveal_strlit("manual_is_ok");
    reveal_strlit("manual_is_err");
    reveal_strlit("manual_is_empty");
    reveal_strlit("manual_unwrap_or");
    reveal_strlit("manual_unwrap_or_default");
    reveal_strlit("panic");
    reveal_strlit("inefficient_unwrap_or");
    reveal_strlit("redundant_brackets_in_enum_call");
    reveal_strlit("redundant_into");
    reveal_strlit("unit_return_type");
    reveal_strlit("unwrap_syscall");
    match r {
        LintRule::AssertOnConst => {},
        LintRule::BreakUnit => {},
        LintRule::CloneOnCopy => {},
        LintRule::CollapsibleMatch => {},
        LintRule::DoubleParens => {},
        LintRule::DuplicateUnderscoreArgs => {},
        LintRule::EmptyEnumBracketsVariant => {},
        LintRule::EnumVariantNames => {},
        LintRule::CollapsibleIf => {},
        LintRule::CollapsibleIfElse => {},
        LintRule::EquatableIfLet => {},
        LintRule::DuplicateIfCondition => {},
        LintRule::IntegerGreaterEqualPlusOne => {},
        LintRule::IntegerGreaterEqualMinusOne => {},
        LintRule::IntegerLessEqualPlusOne => {},
        LintRule::IntegerLessEqualMinusOne => {},
        LintRule::LoopForWhile => {},
        LintRule::ManualAssert => {},
        LintRule::ManualExpect => {},
        LintRule::ManualExpectErr => {},
        LintRule::ManualIsSome => {},
        LintRule::ManualIsNone => {},
        LintRule::ManualIsOk => {},
        LintRule::ManualIsErr => {},
        LintRule::ManualIsEmpty => {},
        LintRule::ManualUnwrapOr => {},
        LintRule::ManualUnwrapOrDefault => {},
        LintRule::PanicInCode => {},
        LintRule::InefficientUnwrapOr => {},
        LintRule::RedundantBracketsInEnumCall => {},
        LintRule::RedundantInto => {},
        LintRule::UnitReturnType => {},
        LintRule::UnwrapSyscall => {},
    }
}

/// Two lints with the same diagnostic message are the same lint.
pub proof fn lemma_message_determines_rule(a: LintRule, b: LintRule)
    requires
        a.message() == b.message(),
    ensures
        a == b,
{
    lemma_message_key(a);
    lemma_message_key(b);
    lemma_rule_index(a);
    lemma_rule_index(b);
}

/// Two lints with the same name are the same lint.
pub proof fn lemma_name_determines_rule(a: LintRule, b: LintRule)
    requires
        a.name() == b.name(),
    ensures
        a == b,
{
    lemma_name_key(a);
    lemma_name_key(b);
    lemma_rule_index(a);
    lemma_rule_index(b);
}

/// The lint whose diagnostic message is `m`, if there is one (there is at
/// most one: `lemma_message_determines_rule`).
pub open spec fn rule_for_message(m: Seq<char>) -> Option<LintRule> {
    if exists|r: LintRule| r.message() == m {
        Some(choose|r: LintRule| r.message() == m)
    } else {
        None
    }
}

/// Every lint occurs in `all_rules`.
pub proof fn lemma_all_rules_complete(r: LintRule)
    ensures
        all_rules().contains(r),
{
    lemma_rule_index(r);
}

/// The lint that emits diagnostics with the message `message`.
pub fn find_rule_by_message(message: &str) -> (r: Option<LintRule>)
    ensures
        r == rule_for_message(message@),
{
    let rules = all_lint_rules();
    let mut i: usize = 0;
    while i < rules.len()
        invariant
            rules@ == all_rules(),
            i <= rules@.len(),
            forall|k: int| 0 <= k < i ==> (#[trigger] rules@[k]).message() != message@,
        decreases rules@.len() - i,
    {
        let rule = rules[i];
        if text::str_eq(rule.diagnostic_message(), message) {
            proof {
                let c = choose|x: LintRule| x.message() == message@;
                lemma_message_determines_rule(c, rule);
            }
            return Some(rule);
        }
        i = i + 1;
    }
    proof {
        assert forall|x: LintRule| x.message() != message@ by {
            lemma_rule_index(x);
            assert(rules@[rule_index(x)] == x);
        }
    }
    None
}

/// The name of the lint whose diagnostic message is `message`.
pub fn get_name_for_diagnostic_message(message: &str) -> (r: Option<&'static str>)
    ensures
        match rule_for_message(message@) {
            Some(rule) => r is Some && r->0@ == rule.name(),
            None => r is None,
        },
{
    match find_rule_by_message(message) {
        Some(rule) => Some(rule.allowed_name()),
        None => None,
    }
}

/// Whether the lint whose diagnostic message is `message` is on by default.
pub fn is_lint_enabled_by_default(message: &str) -> (r: Option<bool>)
    ensures
        r == (match rule_for_message(message@) {
            Some(rule) => Some(rule.enabled()),
            None => None,
        }),
{
    match find_rule_by_message(message) {
        Some(rule) => Some(rule.is_enabled()),
        None => None,
    }
}

/// The kind of the lint whose diagnostic message is `message`; `Unknown`
/// when no lint emits that message.
pub fn get_lint_type_from_diagnostic_message(message: &str) -> (r: CairoLintKind)
    ensures
        r == (match rule_for_message(message@) {
            Some(rule) => rule.kind(),
            None => CairoLintKind::Unknown,
        }),
{
    match find_rule_by_message(message) {
        Some(rule) => rule.lint_kind(),
        None => CairoLintKind::Unknown,
    }
}

/// The description of the fix of the lint whose diagnostic message is
/// `message`, when that lint has a fix.
pub fn get_fix_message_for_diagnostic_message(message: &str) -> (r: Option<&'static str>)
    ensures
        match rule_for_message(message@) {
            Some(rule) => match (r, rule.fix_message()) {
                (Some(s), Some(t)) => s@ == t,
                (None, None) => true,
                _ => false,
            },
            None => r is None,
        },
{
    match find_rule_by_message(message) {
        Some(rule) => rule.lint_fix_message(),
        None => None,
    }
}

/// The names of all lints, in the order of `all_rules`.
pub open spec fn all_names() -> Seq<Seq<char>> {
    Seq::new(all_rules().len(), |i: int| all_rules()[i].name())
}

/// The names under which the lints can be allowed or configured, each
/// once.
pub fn get_unique_allowed_names() -> (r: Vec<&'static str>)
    ensures
        r@.len() == all_rules().len(),
        forall|i: int| 0 <= i < r@.len() ==> (#[trigger] r@[i])@ == all_rules()[i].name(),
        forall|i: int, j: int| 0 <= i < j < r@.len() ==> r@[i]@ != r@[j]@,
{
    let rules = all_lint_rules();
    let mut r: Vec<&'static str> = Vec::new();
    let mut i: usize = 0;
    while i < rules.len()
        invariant
            rules@ == all_rules(),
            i <= rules@.len(),
            r@.len() == i,
            forall|k: int| 0 <= k < i ==> (#[trigger] r@[k])@ == all_rules()[k].name(),
        decreases rules@.len() - i,
    {
        r.push(rules[i].allowed_name());
        i = i + 1;
    }
    proof {
        assert forall|i: int, j: int| 0 <= i < j < r@.len() implies r@[i]@ != r@[j]@ by {
            if r@[i]@ == r@[j]@ {
                lemma_name_determines_rule(all_rules()[i], all_rules()[j]);
                lemma_rule_index(all_rules()[i]);
                lemma_rule_index(all_rules()[j]);
                assert(rule_index(all_rules()[i]) == i) by {
                    lemma_all_rules_distinct(i, rule_index(all_rules()[i]));
                }
                assert(rule_index(all_rules()[j]) == j) by {
                    lemma_all_rules_distinct(j, rule_index(all_rules()[j]));
                }
            }
        }
    }
    r
}

/// No lint occurs twice in `all_rules`.
pub proof fn lemma_all_rules_distinct(i: int, j: int)
    requires
        0 <= i < all_rules().len(),
        0 <= j < all_rules().len(),
        all_rules()[i] == all_rules()[j],
    ensures
        i == j,
{
    lemma_rule_index(all_rules()[i]);
    assert(rule_index(all_rules()[i]) == i);
    assert(rule_index(all_rules()[j]) == j);
}

/// The descriptions of the fixes of all lints, in the order of
/// `all_rules`.
pub fn get_all_fix_messages() -> (r: Vec<Option<&'static str>>)
    ensures
        r@.len() == all_rules().len(),
        forall|i: int| 0 <= i < r@.len() ==> match (#[trigger] r@[i], all_rules()[i].fix_message()) {
            (Some(s), Some(t)) => s@ == t,
            (None, None) => true,
            _ => false,
        },
{
    let rules = all_lint_rules();
    let mut r: Vec<Option<&'static str>> = Vec::new();
    let mut i: usize = 0;
    while i < rules.len()
        invariant
            rules@ == all_rules(),
            i <= rules@.len(),
            r@.len() == i,
            forall|k: int| 0 <= k < i ==> match (#[trigger] r@[k], all_rules()[k].fix_message()) {
                (Some(s), Some(t)) => s@ == t,
                (None, None) => true,
                _ => false,
            },
        decreases rules@.len() - i,
    {
        r.push(rules[i].lint_fix_message());
        i = i + 1;
    }
    r
}

/// Looking up the diagnostic message of a lint gives back that lint, and
/// so its name, its kind and whether it is on by default.
pub proof fn lemma_lookup_own_message(rule: LintRule)
    ensures
        rule_for_message(rule.message()) == Some(rule),
{
    let c = choose|x: LintRule| x.message() == rule.message();
    lemma_message_determines_rule(c, rule);
}

/// The panic lint is the only lint of kind `Panic`.
pub proof fn lemma_panic_kind_unique(rule: LintRule)
    ensures
        rule.kind() == CairoLintKind::Panic <==> rule == LintRule::PanicInCode,
{
}

/// A diagnostic message is reported as a panic exactly when it is the
/// message of the panic lint.
pub proof fn lemma_panic_message(m: Seq<char>)
    ensures
        (match rule_for_message(m) {
            Some(rule) => rule.kind(),
            None => CairoLintKind::Unknown,
        } == CairoLintKind::Panic) <==> m == LintRule::PanicInCode.message(),
{
    lemma_lookup_own_message(LintRule::PanicInCode);
}

/// Behaviour shared by all lints: their metadata comes from the lint they
/// stand for.
pub trait Lint {
    /// The lint that the implementing type stands for.
    spec fn rule(&self) -> LintRule;

    /// The lint that the implementing type stands for.
    fn lint_rule(&self) -> (r: LintRule)
        ensures
            r == self.rule(),
    ;

    /// The name under which the lint is allowed or configured.
    fn allowed_name(&self) -> (r: &'static str)
        ensures
            r@ == self.rule().name(),
    {
        self.lint_rule().allowed_name()
    }

    /// The message of the diagnostics that the lint emits.
    fn diagnostic_message(&self) -> (r: &'static str)
        ensures
            r@ == self.rule().message(),
    {
        self.lint_rule().diagnostic_message()
    }

    /// The kind of the lint.
    fn kind(&self) -> (r: CairoLintKind)
        ensures
            r == self.rule().kind(),
    {
        self.lint_rule().lint_kind()
    }

    /// Whether the lint is on when the configuration does not name it.
    fn is_enabled(&self) -> (r: bool)
        ensures
            r == self.rule().enabled(),
    {
        self.lint_rule().is_enabled()
    }

    /// Whether the lint proposes a fix.
    fn has_fixer(&self) -> (r: bool)
        ensures
            r == self.rule().has_fixer(),
    {
        self.lint_rule().lint_has_fixer()
    }

    /// The description of the lint's fix, when it has one.
    fn fix_message(&self) -> (r: Option<&'static str>)
        ensures
            match (r, self.rule().fix_message()) {
                (Some(s), Some(t)) => s@ == t,
                (None, None) => true,
                _ => false,
            },
    {
        self.lint_rule().lint_fix_message()
    }
}

} // verus!
