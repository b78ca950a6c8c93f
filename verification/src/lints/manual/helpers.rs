//! Shapes of code shared by the lints against manual rewrites of library
//! methods.
use vstd::prelude::*;
use crate::semantic::{Expr, Pattern, PatternVariable, VarRef, ExprIf, Condition, Statement, CallArg};
use crate::text;
use crate::lints::{FALSE, DEFAULT, ARRAY_NEW};

verus! {

/// The expression is a call of the function with full path `name`.
pub open spec fn is_expected_function_spec(e: Expr, name: Seq<char>) -> bool {
    match e {
        Expr::FunctionCall(c) => c.full_path@ == name,
        _ => false,
    }
}

/// Whether the expression is a call of the function with full path
/// `func_name`.
pub fn is_expected_function(expr: &Expr, func_name: &str) -> (r: bool)
    ensures
        r == is_expected_function_spec(*expr, func_name@),
{
    match expr {
        Expr::FunctionCall(c) => text::str_eq(c.full_path.as_str(), func_name),
        _ => false,
    }
}

/// The expression builds the enum variant with full path `name`.
pub open spec fn is_expected_variant_spec(e: Expr, name: Seq<char>) -> bool {
    match e {
        Expr::EnumVariantCtor { variant, .. } => variant@ == name,
        _ => false,
    }
}

/// Whether the expression builds the enum variant with full path
/// `expected_variant`.
pub fn is_expected_variant(expr: &Expr, expected_variant: &str) -> (r: bool)
    ensures
        r == is_expected_variant_spec(*expr, expected_variant@),
{
    match expr {
        Expr::EnumVariantCtor { variant, .. } => text::str_eq(variant.as_str(), expected_variant),
        _ => false,
    }
}

/// The variable bound inside an enum-variant pattern such as `Err(x)`.
pub open spec fn pattern_variable_spec(p: Pattern) -> Option<PatternVariable> {
    match p {
        Pattern::EnumVariant { inner: Some(b), .. } => match *b {
            Pattern::Variable(v) => Some(v),
            _ => None,
        },
        _ => None,
    }
}

/// The variable bound inside an enum-variant pattern such as `Err(x)`.
pub fn extract_pattern_variable(pattern: &Pattern) -> (r: Option<&PatternVariable>)
    ensures
        match pattern_variable_spec(*pattern) {
            Some(v) => r is Some && *r->0 == v,
            None => r is None,
        },
{
    match pattern {
        Pattern::EnumVariant { inner: Some(b), .. } => match &**b {
            Pattern::Variable(v) => Some(v),
            _ => None,
        },
        _ => None,
    }
}

/// The variable read is the one bound inside the enum-variant pattern.
pub open spec fn pattern_check_enum_arg_spec(p: Pattern, v: VarRef) -> bool {
    match (pattern_variable_spec(p), v) {
        (Some(pv), VarRef::Local(id)) => pv.var_id == id,
        _ => false,
    }
}

/// Whether the variable read is the one bound inside the enum-variant
/// pattern.
pub fn pattern_check_enum_arg(pattern: &Pattern, arg: &VarRef) -> (r: bool)
    ensures
        r == pattern_check_enum_arg_spec(*pattern, *arg),
{
    match (extract_pattern_variable(pattern), arg) {
        (Some(pv), VarRef::Local(id)) => pv.var_id == *id,
        _ => false,
    }
}

/// The expression builds the variant `name` from exactly the variable
/// bound inside the pattern, as `Some(x)` in `Ok(x) => Some(x)`.
pub open spec fn destructured_variable_used_spec(e: Expr, p: Pattern, name: Seq<char>) -> bool {
    match e {
        Expr::EnumVariantCtor { variant, value } => variant@ == name && match *value {
            Expr::Var(v) => pattern_check_enum_arg_spec(p, v),
            _ => false,
        },
        _ => false,
    }
}

/// Whether the expression builds the variant `enum_name` from exactly the
/// variable bound inside the pattern.
pub fn is_destructured_variable_used_and_expected_variant(expr: &Expr, pattern: &Pattern, enum_name: &str) -> (r: bool)
    ensures
        r == destructured_variable_used_spec(*expr, *pattern, enum_name@),
{
    match expr {
        Expr::EnumVariantCtor { variant, value } => {
            if !text::str_eq(variant.as_str(), enum_name) {
                return false;
            }
            match &**value {
                Expr::Var(v) => pattern_check_enum_arg(pattern, v),
                _ => false,
            }
        },
        _ => false,
    }
}

/// The arm's expression is exactly the variable bound inside its pattern.
pub open spec fn arm_returns_extracted_var_spec(e: Expr, p: Pattern) -> bool {
    match e {
        Expr::Var(v) => pattern_check_enum_arg_spec(p, v),
        _ => false,
    }
}

/// Whether a match arm's expression is exactly the variable bound inside
/// its pattern.
pub fn match_arm_returns_extracted_var(expr: &Expr, pattern: &Pattern) -> (r: bool)
    ensures
        r == arm_returns_extracted_var_spec(*expr, *pattern),
{
    match expr {
        Expr::Var(v) => pattern_check_enum_arg(pattern, v),
        _ => false,
    }
}

/// The tail of a block without statements, or else the expression itself.
pub open spec fn tail_or_self_spec(e: Expr) -> Expr {
    match e {
        Expr::Block(b) => if b.statements@.len() == 0 && b.tail is Some {
            *b.tail->0
        } else {
            e
        },
        _ => e,
    }
}

/// The tail of a block without statements, or else the expression itself.
pub fn extract_tail_or_preserve_expr(expr: &Expr) -> (r: &Expr)
    ensures
        *r == tail_or_self_spec(*expr),
{
    match expr {
        Expr::Block(b) => {
            if b.statements.len() == 0 {
                match &b.tail {
                    Some(t) => &**t,
                    None => expr,
                }
            } else {
                expr
            }
        },
        _ => expr,
    }
}

/// The first condition of an `if`, when it is an `if let`: its matched
/// expression and patterns.
pub open spec fn first_let(i: ExprIf) -> Option<(Expr, Seq<Pattern>)> {
    if i.conditions@.len() > 0 {
        match i.conditions@[0] {
            Condition::Let { expr, patterns, .. } => Some((expr, patterns@)),
            _ => None,
        }
    } else {
        None
    }
}

/// The variable bound by the first pattern of the `if let`, inside an enum
/// variant.
pub open spec fn let_bound_variable(i: ExprIf) -> Option<PatternVariable> {
    match first_let(i) {
        Some((_, ps)) => if ps.len() > 0 {
            pattern_variable_spec(ps[0])
        } else {
            None
        },
        None => None,
    }
}

/// The tail of the `if` block, when that block is a block with a tail.
pub open spec fn if_block_tail(i: ExprIf) -> Option<Expr> {
    match *i.if_block {
        Expr::Block(b) => match b.tail {
            Some(t) => Some(*t),
            None => None,
        },
        _ => None,
    }
}

/// `if let Variant(x) = e { x } ...`: the `if` block's tail is the local
/// variable bound by the pattern.
pub open spec fn if_pattern_matches_tail_var_spec(i: ExprIf) -> bool {
    match (let_bound_variable(i), if_block_tail(i)) {
        (Some(v), Some(Expr::Var(VarRef::Local(id)))) => v.var_id == id,
        _ => false,
    }
}

/// The first pattern of the first condition when it is an `if let`.
fn first_let_pattern(expr: &ExprIf) -> (r: Option<&Pattern>)
    ensures
        match first_let(*expr) {
            Some((_, ps)) => if ps.len() > 0 {
                r is Some && *r->0 == ps[0]
            } else {
                r is None
            },
            None => r is None,
        },
{
    if expr.conditions.len() == 0 {
        return None;
    }
    match &expr.conditions[0] {
        Condition::Let { patterns, .. } => {
            if patterns.len() > 0 {
                Some(&patterns[0])
            } else {
                None
            }
        },
        _ => None,
    }
}

/// The tail of the `if` block.
fn if_tail(expr: &ExprIf) -> (r: Option<&Expr>)
    ensures
        match if_block_tail(*expr) {
            Some(t) => r is Some && *r->0 == t,
            None => r is None,
        },
{
    match &*expr.if_block {
        Expr::Block(b) => match &b.tail {
            Some(t) => Some(&**t),
            None => None,
        },
        _ => None,
    }
}

/// Whether `if let Variant(x) = e { x } ...` returns from the `if` block
/// exactly the variable bound by the pattern.
pub fn if_expr_pattern_matches_tail_var(expr: &ExprIf) -> (r: bool)
    ensures
        r == if_pattern_matches_tail_var_spec(*expr),
{
    let p = match first_let_pattern(expr) {
        Some(p) => p,
        None => return false,
    };
    let v = match extract_pattern_variable(p) {
        Some(v) => v,
        None => return false,
    };
    match if_tail(expr) {
        Some(Expr::Var(VarRef::Local(id))) => v.var_id == *id,
        _ => false,
    }
}

/// `if let Variant(x) = e { Other(x) } ...`: the `if` block's tail builds
/// the variant `name` from the local variable bound by the pattern.
pub open spec fn if_condition_and_block_match_spec(i: ExprIf, name: Seq<char>) -> bool {
    match (let_bound_variable(i), if_block_tail(i)) {
        (Some(v), Some(Expr::EnumVariantCtor { variant, value })) => variant@ == name && match *value {
            Expr::Var(VarRef::Local(id)) => v.var_id == id,
            _ => false,
        },
        _ => false,
    }
}

/// Whether `if let Variant(x) = e { Other(x) } ...` builds, in the `if`
/// block's tail, the variant `enum_name` from the variable bound by the
/// pattern.
pub fn if_expr_condition_and_block_match_enum_pattern(expr: &ExprIf, enum_name: &str) -> (r: bool)
    ensures
        r == if_condition_and_block_match_spec(*expr, enum_name@),
{
    let p = match first_let_pattern(expr) {
        Some(p) => p,
        None => return false,
    };
    let v = match extract_pattern_variable(p) {
        Some(v) => v,
        None => return false,
    };
    match if_tail(expr) {
        Some(Expr::EnumVariantCtor { variant, value }) => {
            if !text::str_eq(variant.as_str(), enum_name) {
                return false;
            }
            match &**value {
                Expr::Var(VarRef::Local(id)) => v.var_id == *id,
                _ => false,
            }
        },
        _ => false,
    }
}

/// The expression is a default value: a call of `Default::default` or
/// `ArrayTrait::new`, an empty string, zero, `false`, a tuple or a
/// fixed-size array of default values, or a block that yields a default
/// value (directly, or through a single `let` of a default value into the
/// variable that it then returns).
pub open spec fn is_default_spec(e: Expr) -> bool
    decreases e,
{
    match e {
        Expr::FunctionCall(c) => c.trait_name@ == DEFAULT@ || c.trait_name@ == ARRAY_NEW@,
        Expr::StringLiteral(s) => s@.len() == 0,
        Expr::Block(b) => {
            let by_let = b.statements@.len() == 1 && match b.statements@[0] {
                Statement::Let { pattern: Pattern::Variable(v), expr } => match b.tail {
                    Some(t) => match *t {
                        Expr::Var(VarRef::Local(id)) => is_default_spec(expr) && id == v.var_id,
                        _ => false,
                    },
                    None => false,
                },
                _ => false,
            };
            match b.tail {
                Some(t) => by_let || (b.statements@.len() == 0 && is_default_spec(*t)),
                None => false,
            }
        },
        Expr::FixedSizeArrayRepeat(v) => is_default_spec(*v),
        Expr::FixedSizeArrayItems(items) => forall|i: int| 0 <= i < items@.len() ==> is_default_spec(#[trigger] items@[i]),
        Expr::Literal { value: v, .. } => v == Some(0i128),
        Expr::EnumVariantCtor { variant, .. } => variant@ == FALSE@,
        Expr::Tuple(items) => forall|i: int| 0 <= i < items@.len() ==> is_default_spec(#[trigger] items@[i]),
        _ => false,
    }
}

/// Whether all expressions of the list are default values.
fn all_default(items: &Vec<Expr>) -> (r: bool)
    ensures
        r == forall|i: int| 0 <= i < items@.len() ==> is_default_spec(#[trigger] items@[i]),
    decreases items@,
{
    let mut i: usize = 0;
    while i < items.len()
        invariant
            i <= items@.len(),
            forall|k: int| 0 <= k < i ==> is_default_spec(#[trigger] items@[k]),
        decreases items@.len() - i,
    {
        if !check_is_default(&items[i]) {
            return false;
        }
        i = i + 1;
    }
    true
}

/// Whether the expression is a default value (see `is_default_spec`).
pub fn check_is_default(expr: &Expr) -> (r: bool)
    ensures
        r == is_default_spec(*expr),
    decreases expr,
{
    match expr {
        Expr::FunctionCall(c) => text::str_eq(c.trait_name.as_str(), DEFAULT) || text::str_eq(
            c.trait_name.as_str(),
            ARRAY_NEW,
        ),
        Expr::StringLiteral(s) => s.as_str().unicode_len() == 0,
        Expr::Block(b) => {
            let by_let = if b.statements.len() == 1 {
                match &b.statements[0] {
                    Statement::Let { pattern: Pattern::Variable(v), expr: e } => match &b.tail {
                        Some(t) => match &**t {
                            Expr::Var(VarRef::Local(id)) => check_is_default(e) && *id == v.var_id,
                            _ => false,
                        },
                        None => false,
                    },
                    _ => false,
                }
            } else {
                false
            };
            match &b.tail {
                Some(t) => by_let || (b.statements.len() == 0 && check_is_default(&**t)),
                None => false,
            }
        },
        Expr::FixedSizeArrayRepeat(v) => check_is_default(&**v),
        Expr::FixedSizeArrayItems(items) => all_default(items),
        Expr::Literal { value: v, .. } => match v {
            Some(x) => *x == 0,
            None => false,
        },
        Expr::EnumVariantCtor { variant, .. } => text::str_eq(variant.as_str(), FALSE),
        Expr::Tuple(items) => all_default(items),
        _ => false,
    }
}

/// The expression is a call (or a block whose tail is a call) of a
/// function whose return type is the never type.
pub open spec fn returns_never_spec(e: Expr) -> bool {
    match e {
        Expr::Block(b) => match b.tail {
            Some(t) => match *t {
                Expr::FunctionCall(c) => c.returns_never,
                _ => false,
            },
            None => false,
        },
        Expr::FunctionCall(c) => c.returns_never,
        _ => false,
    }
}

/// Whether the expression is a call (or a block whose tail is a call) of
/// a function whose return type is the never type.
pub fn func_call_or_block_returns_never(expr: &Expr) -> (r: bool)
    ensures
        r == returns_never_spec(*expr),
{
    match expr {
        Expr::Block(b) => match &b.tail {
            Some(t) => match &**t {
                Expr::FunctionCall(c) => c.returns_never,
                _ => false,
            },
            None => false,
        },
        Expr::FunctionCall(c) => c.returns_never,
        _ => false,
    }
}


/// A statement as the fixes of manual rewrites read it.
#[derive(Debug)]
pub enum StatementSyntax {
    /// An expression statement that calls a function, with the source
    /// text of each argument.
    Call(Vec<String>),
    /// Another expression statement.
    Expr,
    Other,
}

/// The expression of a `match` arm.
#[derive(Debug)]
pub enum ArmExprSyntax {
    /// A function call, with the text of each argument.
    Call(Vec<String>),
    Block(Vec<StatementSyntax>),
    Other,
}

/// The `else` clause of an `if`.
#[derive(Debug)]
pub enum ElseClauseSyntax {
    NoElse,
    Block(Vec<StatementSyntax>),
    ElseIf,
}

/// The source of the `match` or `if` that a manual rewrite was reported on.
#[derive(Debug)]
pub enum ManualSyntax {
    /// A `match`: the text of the matched expression and the expression of
    /// each arm.
    Match { matched: String, arms: Vec<ArmExprSyntax> },
    /// An `if`: the matched expression of its first condition when that is
    /// a `let` (`None` otherwise or when there is no condition), and its
    /// `else` clause.
    If { let_expr: Option<String>, else_clause: ElseClauseSyntax },
    Other,
}

/// The expression whose method the fix calls: the matched expression of
/// the `match` or of the `if let`.
pub open spec fn manual_target(s: ManualSyntax) -> Option<Seq<char>> {
    match s {
        ManualSyntax::Match { matched, .. } => Some(matched@),
        ManualSyntax::If { let_expr, .. } => match let_expr {
            Some(e) => Some(e@),
            None => None,
        },
        ManualSyntax::Other => None,
    }
}

/// `"{target}.{method}()"`, the target trimmed at its end.
pub open spec fn fix_manual_spec(method: Seq<char>, s: ManualSyntax) -> Seq<char> {
    text::trim_end(manual_target(s)->0) + "."@ + method + "()"@
}

fn push_target(out: &mut Vec<char>, s: &ManualSyntax)
    requires
        manual_target(*s) is Some,
    ensures
        final(out)@ == old(out)@ + text::trim_end(manual_target(*s)->0),
{
    let t: &String = match s {
        ManualSyntax::Match { matched, .. } => matched,
        ManualSyntax::If { let_expr: Some(e), .. } => e,
        _ => return,
    };
    let c = text::chars_of(t.as_str());
    let te = text::trim_end_chars(c.as_slice());
    text::push_all(out, te.as_slice());
}

/// The rewrite of a manual `is_some`, `is_none`, `is_ok` or `is_err`: the
/// method called on the matched expression.
pub fn fix_manual(func_name: &str, s: &ManualSyntax) -> (r: String)
    requires
        manual_target(*s) is Some,
    ensures
        r@ == fix_manual_spec(func_name@, *s),
{
    let mut out: Vec<char> = Vec::new();
    push_target(&mut out, s);
    text::push_str(&mut out, ".");
    text::push_str(&mut out, func_name);
    text::push_str(&mut out, "()");
    text::string_of(out.as_slice())
}

/// The first argument of the call that a `match` arm consists of: the
/// arm's call, or the call that is the only statement of its block.
pub open spec fn arm_first_arg(a: ArmExprSyntax) -> Option<Seq<char>> {
    match a {
        ArmExprSyntax::Call(args) => if args@.len() > 0 { Some(args@[0]@) } else { None },
        ArmExprSyntax::Block(stmts) => if stmts@.len() == 1 {
            match stmts@[0] {
                StatementSyntax::Call(args) => if args@.len() > 0 { Some(args@[0]@) } else { None },
                _ => None,
            }
        } else {
            None
        },
        ArmExprSyntax::Other => None,
    }
}

/// The first argument of the call that the `else` block starts with.
pub open spec fn else_first_arg(e: ElseClauseSyntax) -> Option<Seq<char>> {
    match e {
        ElseClauseSyntax::Block(stmts) => if stmts@.len() > 0 {
            match stmts@[0] {
                StatementSyntax::Call(args) => if args@.len() > 0 { Some(args@[0]@) } else { None },
                _ => None,
            }
        } else {
            None
        },
        _ => None,
    }
}

/// The error message of an `expect` rewrite: the first argument of the
/// call in the arm `arm_index` of the `match`, or of the call that the
/// `else` block of the `if let` starts with.
pub open spec fn manual_err_arg(s: ManualSyntax, arm_index: int) -> Option<Seq<char>> {
    match s {
        ManualSyntax::Match { arms, .. } => if arms@.len() == 2 && 0 <= arm_index <= 1 {
            arm_first_arg(arms@[arm_index])
        } else {
            None
        },
        ManualSyntax::If { let_expr, else_clause } => if let_expr is Some {
            else_first_arg(else_clause)
        } else {
            None
        },
        ManualSyntax::Other => None,
    }
}

fn first_arg_of(args: &Vec<String>) -> (r: Option<&String>)
    ensures
        match r {
            Some(a) => args@.len() > 0 && *a == args@[0],
            None => args@.len() == 0,
        },
{
    if args.len() > 0 { Some(&args[0]) } else { None }
}

/// The matched expression and the error argument of a manual `expect` on
/// a `match` (see `manual_err_arg`).
pub fn expr_match_get_var_name_and_err(s: &ManualSyntax, arm_index: usize) -> (r: (String, String))
    requires
        s is Match,
        manual_err_arg(*s, arm_index as int) is Some,
    ensures
        r.0@ == manual_target(*s)->0,
        r.1@ == manual_err_arg(*s, arm_index as int)->0,
{
    match s {
        ManualSyntax::Match { matched, arms } => {
            let err: &String = match &arms[arm_index] {
                ArmExprSyntax::Call(args) => match first_arg_of(args) {
                    Some(a) => a,
                    None => return (String::new(), String::new()),
                },
                ArmExprSyntax::Block(stmts) => match &stmts[0] {
                    StatementSyntax::Call(args) => match first_arg_of(args) {
                        Some(a) => a,
                        None => return (String::new(), String::new()),
                    },
                    _ => return (String::new(), String::new()),
                },
                ArmExprSyntax::Other => return (String::new(), String::new()),
            };
            (copy_string(matched), copy_string(err))
        },
        _ => (String::new(), String::new()),
    }
}

/// The matched expression and the error argument of a manual `expect` on
/// an `if let` (see `manual_err_arg`).
pub fn expr_if_get_var_name_and_err(s: &ManualSyntax) -> (r: (String, String))
    requires
        s is If,
        manual_err_arg(*s, 0) is Some,
    ensures
        r.0@ == manual_target(*s)->0,
        r.1@ == manual_err_arg(*s, 0)->0,
{
    match s {
        ManualSyntax::If { let_expr: Some(e), else_clause: ElseClauseSyntax::Block(stmts) } => {
            match &stmts[0] {
                StatementSyntax::Call(args) => match first_arg_of(args) {
                    Some(a) => (copy_string(e), copy_string(a)),
                    None => (String::new(), String::new()),
                },
                _ => (String::new(), String::new()),
            }
        },
        _ => (String::new(), String::new()),
    }
}

/// A copy of a string.
pub fn copy_string(s: &String) -> (r: String)
    ensures
        r@ == s@,
{
    let c = text::chars_of(s.as_str());
    text::string_of(c.as_slice())
}

/// `"{target}.{method}({err})"`: the rewrite of a manual `expect` or
/// `expect_err`, whose message is taken from arm `arm_index` of a `match`.
pub open spec fn fix_expect_spec(method: Seq<char>, s: ManualSyntax, arm_index: int) -> Seq<char> {
    text::trim_end(manual_target(s)->0) + "."@ + method + "("@ + manual_err_arg(s, arm_index)->0 + ")"@
}

pub(crate) fn fix_expect_like(method: &str, s: &ManualSyntax, arm_index: usize) -> (r: String)
    requires
        arm_index <= 1,
        s is Match ==> manual_err_arg(*s, arm_index as int) is Some,
        s is If ==> manual_err_arg(*s, 0) is Some,
        !(s is Other),
    ensures
        r@ == fix_expect_spec(method@, *s, if s is Match { arm_index as int } else { 0 }),
{
    let (target, err) = match s {
        ManualSyntax::Match { .. } => expr_match_get_var_name_and_err(s, arm_index),
        _ => expr_if_get_var_name_and_err(s),
    };
    let mut out: Vec<char> = Vec::new();
    let c = text::chars_of(target.as_str());
    let te = text::trim_end_chars(c.as_slice());
    text::push_all(&mut out, te.as_slice());
    text::push_str(&mut out, ".");
    text::push_str(&mut out, method);
    text::push_str(&mut out, "(");
    text::push_str(&mut out, err.as_str());
    text::push_str(&mut out, ")");
    text::string_of(out.as_slice())
}

/// A diagnostic of the compiler: the node it points at and whether it
/// reports an unused variable.
#[derive(Debug, Clone, Copy, PartialEq, Eq, Structural)]
pub struct SemanticDiagnosticInfo {
    pub node: u64,
    pub is_unused_variable: bool,
}

/// Whether the compiler reports the variable declared at `node` as unused,
/// given the diagnostics of its module (`None` where they cannot be had).
pub fn is_variable_unused(node: u64, diags: &Option<Vec<SemanticDiagnosticInfo>>) -> (r: bool)
    ensures
        r == match *diags {
            Some(ds) => exists|i: int| 0 <= i < ds@.len() && #[trigger] ds@[i] == (SemanticDiagnosticInfo { node, is_unused_variable: true }),
            None => false,
        },
{
    let ds = match diags {
        Some(ds) => ds,
        None => return false,
    };
    let mut k: usize = 0;
    while k < ds.len()
        invariant
            *diags == Some(*ds),
            k <= ds@.len(),
            forall|i: int| 0 <= i < k ==> ds@[i] != (SemanticDiagnosticInfo { node, is_unused_variable: true }),
        decreases ds@.len() - k,
    {
        if ds[k].node == node && ds[k].is_unused_variable {
            assert(diags->0@[k as int] == (SemanticDiagnosticInfo { node, is_unused_variable: true }));
            return true;
        }
        k = k + 1;
    }
    false
}

} // verus!
